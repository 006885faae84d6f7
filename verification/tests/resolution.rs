use resolve_locations::hir::DefinitionInfo;
use resolve_locations::hir::DefinitionKind;
use resolve_locations::hir::FuncMeta;
use resolve_locations::hir::HirExpression;
use resolve_locations::hir::HirMemberAccess;
use resolve_locations::hir::Node;
use resolve_locations::hir::StructField;
use resolve_locations::hir::StructType;
use resolve_locations::hir::TraitDefinition;
use resolve_locations::hir::TraitImpl;
use resolve_locations::hir::TraitMethod;
use resolve_locations::hir::Type;
use resolve_locations::interner::NodeInterner;
use resolve_locations::location::Location;
use resolve_locations::location::Span;

fn sp(start: u32, end: u32) -> Span {
    Span { start, end }
}

fn loc(file: u32, start: u32, end: u32) -> Location {
    Location { file, span: sp(start, end) }
}

/// A snapshot with one struct, one trait, one trait impl, two functions and a
/// dozen nodes, enough to drive every query path.
fn sample_interner() -> NodeInterner {
    NodeInterner {
        id_to_location: vec![
            (0, loc(1, 30, 32)),    // local identifier usage
            (1, loc(1, 40, 42)),    // function identifier usage
            (2, loc(1, 50, 52)),    // global identifier usage
            (3, loc(1, 60, 62)),    // identifier of an unsupported kind
            (4, loc(1, 70, 74)),    // constructor expression
            (5, loc(1, 80, 85)),    // member access `s.x`
            (6, loc(1, 90, 95)),    // member access `s.missing`
            (7, loc(1, 600, 610)),  // call expression, inside the next span
            (8, loc(1, 598, 620)),  // function node enclosing the call
            (9, loc(1, 820, 830)),  // node of an unsupported kind
            (10, loc(1, 700, 705)), // expression of an unsupported kind
            (11, loc(1, 710, 715)), // member access on an untyped lhs
            (12, loc(1, 900, 905)), // identifier bound to a trait-impl method
            (99, loc(1, 800, 810)), // stale index with no node behind it
            (20, loc(1, 950, 960)), // same span twice: stored order decides
            (21, loc(1, 950, 960)),
        ],
        nodes: vec![
            Node::Expression(HirExpression::Ident(0)),
            Node::Expression(HirExpression::Ident(1)),
            Node::Expression(HirExpression::Ident(2)),
            Node::Expression(HirExpression::Ident(3)),
            Node::Expression(HirExpression::Constructor(0)),
            Node::Expression(HirExpression::MemberAccess(HirMemberAccess {
                lhs: 0,
                rhs: String::from("x"),
            })),
            Node::Expression(HirExpression::MemberAccess(HirMemberAccess {
                lhs: 0,
                rhs: String::from("missing"),
            })),
            Node::Expression(HirExpression::Call(1)),
            Node::Function(7),
            Node::Other,
            Node::Expression(HirExpression::Other),
            Node::Expression(HirExpression::MemberAccess(HirMemberAccess {
                lhs: 2,
                rhs: String::from("x"),
            })),
            Node::Expression(HirExpression::Ident(4)),
        ],
        definitions: vec![
            DefinitionInfo { kind: DefinitionKind::Local(0), location: loc(1, 10, 11) },
            DefinitionInfo { kind: DefinitionKind::Function(0), location: loc(1, 40, 42) },
            DefinitionInfo { kind: DefinitionKind::Global(0), location: loc(1, 20, 21) },
            DefinitionInfo { kind: DefinitionKind::Other, location: loc(1, 25, 26) },
            DefinitionInfo { kind: DefinitionKind::Function(1), location: loc(1, 900, 905) },
        ],
        func_meta: vec![
            FuncMeta {
                name: String::from("free_fn"),
                location: loc(1, 200, 260),
                trait_id: None,
            },
            FuncMeta {
                name: String::from("to_field"),
                location: loc(1, 400, 460),
                trait_id: Some(0),
            },
        ],
        structs: vec![StructType {
            location: loc(1, 100, 150),
            fields: vec![
                StructField { name: String::from("w"), span: sp(105, 106) },
                StructField { name: String::from("x"), span: sp(110, 111) },
            ],
        }],
        traits: vec![TraitDefinition {
            location: loc(1, 500, 560),
            methods: vec![TraitMethod {
                name: String::from("to_field"),
                location: loc(1, 510, 520),
            }],
        }],
        trait_implementations: vec![TraitImpl { file: 1, ident_span: sp(390, 398), trait_id: 0 }],
        expression_types: vec![(0, Type::Struct(0))],
    }
}

#[test]
fn innermost_tie_break_picks_the_smaller_span() {
    let interner = sample_interner();
    // The query lies inside both the call expression (600..610) and the
    // enclosing function node (598..620); the smaller span wins.
    assert_eq!(interner.find_location_index(loc(1, 602, 603)), Some(7));
}

#[test]
fn equal_spans_resolve_to_the_first_stored_entry() {
    let interner = sample_interner();
    assert_eq!(interner.find_location_index(loc(1, 952, 953)), Some(20));
}

#[test]
fn query_outside_every_span_finds_nothing() {
    let interner = sample_interner();
    assert_eq!(interner.find_location_index(loc(1, 5000, 5001)), None);
    assert_eq!(interner.get_definition_location_from(loc(1, 5000, 5001)), None);
    assert_eq!(interner.get_declaration_location_from(loc(1, 5000, 5001)), None);
}

#[test]
fn query_in_another_file_finds_nothing() {
    let interner = sample_interner();
    assert_eq!(interner.find_location_index(loc(2, 602, 603)), None);
    assert_eq!(interner.get_definition_location_from(loc(2, 602, 603)), None);
}

#[test]
fn empty_tables_find_nothing() {
    let interner = NodeInterner {
        id_to_location: vec![],
        nodes: vec![],
        definitions: vec![],
        func_meta: vec![],
        structs: vec![],
        traits: vec![],
        trait_implementations: vec![],
        expression_types: vec![],
    };
    assert_eq!(interner.find_location_index(loc(1, 0, 1)), None);
    assert_eq!(interner.get_definition_location_from(loc(1, 0, 1)), None);
    assert_eq!(interner.get_declaration_location_from(loc(1, 0, 1)), None);
}

#[test]
fn local_identifier_round_trips_to_its_binding() {
    let interner = sample_interner();
    assert_eq!(
        interner.get_definition_location_from(loc(1, 30, 31)),
        Some(loc(1, 10, 11))
    );
}

#[test]
fn global_identifier_resolves_to_its_definition() {
    let interner = sample_interner();
    assert_eq!(
        interner.get_definition_location_from(loc(1, 50, 51)),
        Some(loc(1, 20, 21))
    );
}

#[test]
fn function_identifier_resolves_to_the_signature_site() {
    let interner = sample_interner();
    // The definition location of the identifier occurrence is the usage site
    // itself; resolution must return the function's signature location.
    assert_eq!(
        interner.get_definition_location_from(loc(1, 40, 41)),
        Some(loc(1, 200, 260))
    );
}

#[test]
fn identifier_of_unsupported_kind_resolves_to_nothing() {
    let interner = sample_interner();
    assert_eq!(interner.get_definition_location_from(loc(1, 60, 61)), None);
}

#[test]
fn constructor_resolves_to_the_struct_declaration() {
    let interner = sample_interner();
    assert_eq!(
        interner.get_definition_location_from(loc(1, 71, 72)),
        Some(loc(1, 100, 150))
    );
}

#[test]
fn member_access_resolves_to_the_field_name_span() {
    let interner = sample_interner();
    assert_eq!(
        interner.get_definition_location_from(loc(1, 81, 83)),
        Some(loc(1, 110, 111))
    );
}

#[test]
fn member_access_on_a_missing_field_resolves_to_nothing() {
    let interner = sample_interner();
    assert_eq!(interner.get_definition_location_from(loc(1, 91, 93)), None);
}

#[test]
fn member_access_on_an_untyped_lhs_resolves_to_nothing() {
    let interner = sample_interner();
    assert_eq!(interner.get_definition_location_from(loc(1, 711, 712)), None);
}

#[test]
fn call_resolves_through_the_callee() {
    let interner = sample_interner();
    // Node 7 is a call whose callee is the function identifier node; the
    // arguments are ignored and the callee's function wins.
    assert_eq!(
        interner.get_definition_location_from(loc(1, 602, 603)),
        Some(loc(1, 200, 260))
    );
}

#[test]
fn function_node_resolves_through_its_body_expression() {
    let interner = sample_interner();
    // 612..613 lies only inside the function node's span (598..620), whose
    // body expression is the call.
    assert_eq!(
        interner.get_definition_location_from(loc(1, 612, 613)),
        Some(loc(1, 200, 260))
    );
}

#[test]
fn stale_node_index_is_not_found_rather_than_fatal() {
    let interner = sample_interner();
    assert_eq!(interner.find_location_index(loc(1, 801, 802)), Some(99));
    assert_eq!(interner.get_definition_location_from(loc(1, 801, 802)), None);
}

#[test]
fn unsupported_node_kind_resolves_to_nothing() {
    let interner = sample_interner();
    assert_eq!(interner.get_definition_location_from(loc(1, 821, 822)), None);
}

#[test]
fn unsupported_expression_kind_resolves_to_nothing() {
    let interner = sample_interner();
    assert_eq!(interner.get_definition_location_from(loc(1, 701, 702)), None);
}

#[test]
fn trait_impl_token_jumps_to_the_trait_declaration() {
    let interner = sample_interner();
    // 392..393 lies on the trait-name token of the impl header and inside no
    // recorded node location, so the trait-impl fallback fires.
    assert_eq!(
        interner.get_definition_location_from(loc(1, 392, 393)),
        Some(loc(1, 500, 560))
    );
}

#[test]
fn trait_impl_with_unknown_trait_resolves_to_nothing() {
    let mut interner = sample_interner();
    interner.trait_implementations =
        vec![TraitImpl { file: 1, ident_span: sp(390, 398), trait_id: 9 }];
    assert_eq!(interner.get_definition_location_from(loc(1, 392, 393)), None);
}

#[test]
fn declaration_inside_impl_body_jumps_to_the_trait_method() {
    let interner = sample_interner();
    // 420..421 lies inside the location of `to_field`'s implementing
    // function, which belongs to the trait; go-to-declaration lands on the
    // abstract method declaration, not on the implementation.
    assert_eq!(
        interner.get_declaration_location_from(loc(1, 420, 421)),
        Some(loc(1, 510, 520))
    );
}

#[test]
fn trait_method_name_mismatch_yields_nothing() {
    let mut interner = sample_interner();
    interner.func_meta[1].name = String::from("renamed");
    assert_eq!(interner.get_declaration_location_from(loc(1, 420, 421)), None);
}

#[test]
fn free_function_body_has_no_trait_declaration() {
    let interner = sample_interner();
    // 210..211 lies inside the free function's location, which implements no
    // trait method, and inside no recorded node location.
    assert_eq!(interner.get_declaration_location_from(loc(1, 210, 211)), None);
}

#[test]
fn definition_and_declaration_diverge_on_a_trait_method_reference() {
    let interner = sample_interner();
    // Node 12 is an identifier bound to the trait-implementing function: the
    // definition query returns the concrete implementation's location, the
    // declaration query hops once more to the trait's abstract declaration.
    assert_eq!(
        interner.get_definition_location_from(loc(1, 901, 902)),
        Some(loc(1, 400, 460))
    );
    assert_eq!(
        interner.get_declaration_location_from(loc(1, 901, 902)),
        Some(loc(1, 510, 520))
    );
}

#[test]
fn identical_queries_yield_identical_results() {
    let interner = sample_interner();
    let queries = [
        loc(1, 30, 31),
        loc(1, 392, 393),
        loc(1, 420, 421),
        loc(1, 901, 902),
        loc(1, 5000, 5001),
    ];
    for query in queries {
        assert_eq!(
            interner.get_definition_location_from(query),
            interner.get_definition_location_from(query)
        );
        assert_eq!(
            interner.get_declaration_location_from(query),
            interner.get_declaration_location_from(query)
        );
    }
}

#[test]
fn span_containment_and_size() {
    let outer = sp(10, 20);
    let inner = sp(12, 18);
    assert!(outer.contains(&inner));
    assert!(!inner.contains(&outer));
    assert!(outer.contains(&outer));
    assert!(inner.is_smaller(&outer));
    assert!(!outer.is_smaller(&inner));
    assert_eq!(outer.size(), 10);
    assert!(!loc(1, 10, 20).contains(&loc(2, 12, 18)));
    assert!(loc(1, 10, 20).contains(&loc(1, 12, 18)));
}
