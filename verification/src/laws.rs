//! The laws of the resolution engine, each stated over the spec-level model
//! that the executable queries are proved to follow, and proved once and for
//! all inputs.

use vstd::prelude::*;

use crate::hir::DefinitionKind;
use crate::hir::HirExpression;
use crate::hir::HirMemberAccess;
use crate::hir::Node;
use crate::hir::StructField;
use crate::hir::TraitMethod;
use crate::hir::Type;
use crate::interner::NodeInterner;
use crate::location::Location;

verus! {

impl NodeInterner {
    /// A scan that finds no matching trait implementation from `k` on yields
    /// no match at all.
    proof fn lemma_no_matching_trait_impl(self, query: Location, k: int)
        requires
            0 <= k,
            forall|i: int|
                k <= i < self.trait_implementations@.len() ==> !(#[trigger] self.trait_impl_matches(
                    query,
                    i,
                )),
        ensures
            self.first_matching_trait_impl_from(query, k) is None,
        decreases self.trait_implementations@.len() - k,
    {
        if k < self.trait_implementations@.len() {
            self.lemma_no_matching_trait_impl(query, k + 1);
        }
    }

    /// The first matching trait implementation is the matching one before
    /// which every implementation fails to match.
    proof fn lemma_first_matching_trait_impl(self, query: Location, k: int, j: int)
        requires
            0 <= k <= j < self.trait_implementations@.len(),
            self.trait_impl_matches(query, j),
            forall|i: int| k <= i < j ==> !(#[trigger] self.trait_impl_matches(query, i)),
        ensures
            self.first_matching_trait_impl_from(query, k) == Some(j),
        decreases j - k,
    {
        if k < j {
            self.lemma_first_matching_trait_impl(query, k + 1, j);
        }
    }

    /// A scan that finds no function location containing the query from `k`
    /// on yields no function at all.
    proof fn lemma_no_func_containing(self, query: Location, k: int)
        requires
            0 <= k,
            forall|i: int|
                k <= i < self.func_meta@.len() ==> !(#[trigger] self.func_meta@[i]).location.spec_contains(
                    query,
                ),
        ensures
            self.first_func_containing_from(query, k) is None,
        decreases self.func_meta@.len() - k,
    {
        if k < self.func_meta@.len() {
            self.lemma_no_func_containing(query, k + 1);
        }
    }

    /// The first function whose location contains the query is the containing
    /// one before which every function's location fails to contain it.
    proof fn lemma_first_func_containing(self, query: Location, k: int, j: int)
        requires
            0 <= k <= j < self.func_meta@.len(),
            self.func_meta@[j].location.spec_contains(query),
            forall|i: int|
                k <= i < j ==> !(#[trigger] self.func_meta@[i]).location.spec_contains(query),
        ensures
            self.first_func_containing_from(query, k) == Some(j),
        decreases j - k,
    {
        if k < j {
            self.lemma_first_func_containing(query, k + 1, j);
        }
    }

    /// A field scan that finds no field of the given name from `k` on yields
    /// no field at all.
    proof fn lemma_no_field_named(fields: Seq<StructField>, name: Seq<char>, k: int)
        requires
            0 <= k,
            forall|i: int| k <= i < fields.len() ==> (#[trigger] fields[i]).name@ != name,
        ensures
            Self::first_field_named_from(fields, name, k) is None,
        decreases fields.len() - k,
    {
        if k < fields.len() {
            Self::lemma_no_field_named(fields, name, k + 1);
        }
    }

    /// The first field of the given name is the matching one before which
    /// every field bears another name.
    proof fn lemma_first_field_named(fields: Seq<StructField>, name: Seq<char>, k: int, j: int)
        requires
            0 <= k <= j < fields.len(),
            fields[j].name@ == name,
            forall|i: int| k <= i < j ==> (#[trigger] fields[i]).name@ != name,
        ensures
            Self::first_field_named_from(fields, name, k) == Some(j),
        decreases j - k,
    {
        if k < j {
            Self::lemma_first_field_named(fields, name, k + 1, j);
        }
    }

    /// The first trait method of the given name is the matching one before
    /// which every method bears another name.
    proof fn lemma_first_method_named(methods: Seq<TraitMethod>, name: Seq<char>, k: int, j: int)
        requires
            0 <= k <= j < methods.len(),
            methods[j].name@ == name,
            forall|i: int| k <= i < j ==> (#[trigger] methods[i]).name@ != name,
        ensures
            Self::first_method_named_from(methods, name, k) == Some(j),
        decreases j - k,
    {
        if k < j {
            Self::lemma_first_method_named(methods, name, k + 1, j);
        }
    }

    /// Innermost tie-break: when one recorded location strictly encloses
    /// another and the query lies inside the inner one, the location index
    /// search finds something, and never the enclosing entry's index.
    pub proof fn lemma_innermost_tie_break(self, query: Location, ka: int, kb: int)
        requires
            self.locations_wf(),
            0 <= ka < self.id_to_location@.len(),
            0 <= kb < self.id_to_location@.len(),
            ka != kb,
            self.entry(ka).1.spec_contains(self.entry(kb).1),
            self.entry(ka).1 != self.entry(kb).1,
            self.entry(kb).1.spec_contains(query),
        ensures
            self.find_location_index_spec(query) is Some,
            self.find_location_index_spec(query) != Some(self.entry(ka).0),
    {
        let n = self.id_to_location@.len() as int;
        self.lemma_best_candidate_upto(query, n);
        assert(self.entry(ka).1.spec_contains(query));
        assert(self.entry(ka).1.wf());
        assert(self.entry(kb).1.wf());
        assert(self.entry(kb).1.span.spec_size() < self.entry(ka).1.span.spec_size());
        match self.best_candidate_upto(query, n) {
            None => {
                assert(false);
            },
            Some(j) => {
                if self.entry(j).0 == self.entry(ka).0 {
                    assert(j == ka);
                    assert(self.entry(j).1.span.spec_size() <= self.entry(
                        kb,
                    ).1.span.spec_size());
                    assert(false);
                }
            },
        }
    }

    /// No match: a query that lies outside every recorded location, outside
    /// every trait implementation's trait-name span, and outside every
    /// function's location yields no result, from either entry point.
    pub proof fn lemma_no_match(self, query: Location)
        requires
            forall|k: int|
                0 <= k < self.id_to_location@.len() ==> !(#[trigger] self.entry(
                    k,
                )).1.spec_contains(query),
            forall|k: int|
                0 <= k < self.trait_implementations@.len() ==> !(#[trigger] self.trait_impl_matches(
                    query,
                    k,
                )),
            forall|k: int|
                0 <= k < self.func_meta@.len() ==> !(#[trigger] self.func_meta@[k]).location.spec_contains(
                    query,
                ),
        ensures
            self.find_location_index_spec(query) is None,
            self.get_definition_location_from_spec(query) is None,
            self.get_declaration_location_from_spec(query) is None,
    {
        let n = self.id_to_location@.len() as int;
        self.lemma_best_candidate_upto(query, n);
        match self.best_candidate_upto(query, n) {
            None => {},
            Some(j) => {
                assert(false);
            },
        }
        self.lemma_no_matching_trait_impl(query, 0);
        self.lemma_no_func_containing(query, 0);
    }

    /// Local round-trip: an identifier occurrence bound to a local definition
    /// resolves to exactly the location where that local was bound.
    pub proof fn lemma_local_identifier_round_trip(
        self,
        query: Location,
        index: usize,
        d: usize,
        local_id: usize,
    )
        requires
            self.wf(),
            self.find_location_index_spec(query) == Some(index),
            (index as int) < self.nodes@.len(),
            self.nodes@[index as int] == Node::Expression(HirExpression::Ident(d)),
            self.definitions@[d as int].kind == DefinitionKind::Local(local_id),
        ensures
            self.get_definition_location_from_spec(query) == Some(
                self.definitions@[d as int].location,
            ),
    {
        assert(self.node_wf(index as int));
        assert((d as int) < self.definitions@.len());
        assert(self.resolve_location_spec(index as int)
            == self.resolve_expression_location_spec(HirExpression::Ident(d), index as int));
        assert(self.identifier_definition_location(d) == Some(
            self.definitions@[d as int].location,
        ));
        assert(self.primary_definition_spec(query) == Some(self.definitions@[d as int].location));
    }

    /// Function identifier: an identifier occurrence bound to a function
    /// resolves to that function's defining (signature) location, never to
    /// the place where the identifier itself stands.
    pub proof fn lemma_function_identifier(
        self,
        query: Location,
        index: usize,
        d: usize,
        func_id: usize,
    )
        requires
            self.wf(),
            self.find_location_index_spec(query) == Some(index),
            (index as int) < self.nodes@.len(),
            self.nodes@[index as int] == Node::Expression(HirExpression::Ident(d)),
            self.definitions@[d as int].kind == DefinitionKind::Function(func_id),
        ensures
            self.get_definition_location_from_spec(query) == Some(
                self.func_meta@[func_id as int].location,
            ),
    {
        assert(self.node_wf(index as int));
        assert((d as int) < self.definitions@.len());
        assert(self.definitions@[d as int].kind matches DefinitionKind::Function(f) ==> (f as int)
            < self.func_meta@.len());
        assert(self.resolve_location_spec(index as int)
            == self.resolve_expression_location_spec(HirExpression::Ident(d), index as int));
        assert(self.identifier_definition_location(d) == Some(
            self.func_meta@[func_id as int].location,
        ));
        assert(self.primary_definition_spec(query) == Some(
            self.func_meta@[func_id as int].location,
        ));
    }

    /// Member access, found: when the left-hand side's type is a registered
    /// struct and the struct declares a field of the accessed name, the
    /// access resolves to the first such field's name span in the struct's
    /// declaring file.
    pub proof fn lemma_member_access_found(self, ma: HirMemberAccess, sid: usize, j: int)
        requires
            self.types_wf(),
            self.id_type_spec(ma.lhs) == Type::Struct(sid),
            0 <= j < self.structs@[sid as int].fields@.len(),
            self.structs@[sid as int].fields@[j].name@ == ma.rhs@,
            forall|i: int|
                0 <= i < j ==> (#[trigger] self.structs@[sid as int].fields@[i]).name@ != ma.rhs@,
        ensures
            self.resolve_struct_member_access_spec(ma) == Some(self.struct_field_location(sid, j)),
    {
        self.lemma_id_type_wf(ma.lhs, 0);
        Self::lemma_first_field_named(self.structs@[sid as int].fields@, ma.rhs@, 0, j);
    }

    /// Member access, missing: when the left-hand side's type is a struct
    /// with no field of the accessed name, the access resolves to nothing.
    pub proof fn lemma_member_access_missing(self, ma: HirMemberAccess, sid: usize)
        requires
            self.types_wf(),
            self.id_type_spec(ma.lhs) == Type::Struct(sid),
            forall|i: int|
                0 <= i < self.structs@[sid as int].fields@.len() ==> (
                #[trigger] self.structs@[sid as int].fields@[i]).name@ != ma.rhs@,
        ensures
            self.resolve_struct_member_access_spec(ma) is None,
    {
        self.lemma_id_type_wf(ma.lhs, 0);
        Self::lemma_no_field_named(self.structs@[sid as int].fields@, ma.rhs@, 0);
    }

    /// Trait impl jump: when the primary path finds nothing and the query
    /// lies on the trait-name token of a trait implementation header whose
    /// trait is registered, the definition query returns the trait's
    /// declaration location.
    pub proof fn lemma_trait_impl_jump(self, query: Location, k: int)
        requires
            self.primary_definition_spec(query) is None,
            0 <= k < self.trait_implementations@.len(),
            self.trait_impl_matches(query, k),
            forall|i: int| 0 <= i < k ==> !(#[trigger] self.trait_impl_matches(query, i)),
            (self.trait_implementations@[k].trait_id as int) < self.traits@.len(),
        ensures
            self.get_definition_location_from_spec(query) == Some(
                self.traits@[self.trait_implementations@[k].trait_id as int].location,
            ),
    {
        self.lemma_first_matching_trait_impl(query, 0, k);
    }

    /// Trait method declaration jump: a query inside the location of the
    /// first containing function, when that function implements a method of a
    /// registered trait and the trait declares a method of the same name,
    /// makes the declaration query return that method's declaration location.
    pub proof fn lemma_trait_method_declaration_jump(
        self,
        query: Location,
        f: int,
        tid: usize,
        m: int,
    )
        requires
            0 <= f < self.func_meta@.len(),
            self.func_meta@[f].location.spec_contains(query),
            forall|i: int|
                0 <= i < f ==> !(#[trigger] self.func_meta@[i]).location.spec_contains(query),
            self.func_meta@[f].trait_id == Some(tid),
            (tid as int) < self.traits@.len(),
            0 <= m < self.traits@[tid as int].methods@.len(),
            self.traits@[tid as int].methods@[m].name@ == self.func_meta@[f].name@,
            forall|i: int|
                0 <= i < m ==> (#[trigger] self.traits@[tid as int].methods@[i]).name@
                    != self.func_meta@[f].name@,
        ensures
            self.try_resolve_trait_method_declaration_spec(query) == Some(
                self.traits@[tid as int].methods@[m].location,
            ),
            self.get_declaration_location_from_spec(query) == Some(
                self.traits@[tid as int].methods@[m].location,
            ),
    {
        self.lemma_first_func_containing(query, 0, f);
        Self::lemma_first_method_named(
            self.traits@[tid as int].methods@,
            self.func_meta@[f].name@,
            0,
            m,
        );
    }

    /// Definition/declaration divergence: for a query that resolves through
    /// the primary path to a trait-implementing function's location, the
    /// definition query returns that concrete location while the declaration
    /// query hops once more and returns the trait's abstract declaration.
    pub proof fn lemma_definition_declaration_divergence(
        self,
        query: Location,
        index: usize,
        impl_location: Location,
        decl_location: Location,
    )
        requires
            self.try_resolve_trait_method_declaration_spec(query) is None,
            self.find_location_index_spec(query) == Some(index),
            self.resolve_location_spec(index as int) == Some(impl_location),
            self.try_resolve_trait_method_declaration_spec(impl_location) == Some(decl_location),
        ensures
            self.get_definition_location_from_spec(query) == Some(impl_location),
            self.get_declaration_location_from_spec(query) == Some(decl_location),
    {
    }

    /// Idempotence of the definition query: the tables are immutable during
    /// the query phase, so two results of the same query on the same snapshot
    /// are equal.
    pub proof fn lemma_definition_query_idempotent(
        self,
        query: Location,
        r1: Option<Location>,
        r2: Option<Location>,
    )
        requires
            r1 == self.get_definition_location_from_spec(query),
            r2 == self.get_definition_location_from_spec(query),
        ensures
            r1 == r2,
    {
    }

    /// Idempotence of the declaration query.
    pub proof fn lemma_declaration_query_idempotent(
        self,
        query: Location,
        r1: Option<Location>,
        r2: Option<Location>,
    )
        requires
            r1 == self.get_declaration_location_from_spec(query),
            r2 == self.get_declaration_location_from_spec(query),
        ensures
            r1 == r2,
    {
    }
}

} // verus!
