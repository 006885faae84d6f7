//! The node interner: the immutable snapshot of semantic tables, and the
//! location-resolution queries over it.
//!
//! The two public entry points are [`NodeInterner::get_definition_location_from`]
//! and [`NodeInterner::get_declaration_location_from`].  Both compose the same
//! building blocks: an innermost-span search over the recorded locations, a
//! dispatch over node and expression kinds, and two fallback scans that bridge
//! trait declarations, trait implementations and trait-implementing functions.

use vstd::prelude::*;

use crate::hir::DefinitionInfo;
use crate::hir::DefinitionKind;
use crate::hir::FuncMeta;
use crate::hir::HirExpression;
use crate::hir::HirMemberAccess;
use crate::hir::Node;
use crate::hir::StructField;
use crate::hir::StructType;
use crate::hir::TraitDefinition;
use crate::hir::TraitImpl;
use crate::hir::TraitMethod;
use crate::hir::Type;
use crate::location::Location;

verus! {

/// The semantic tables, published once by elaboration and then only read.
pub struct NodeInterner {
    /// Recorded source location of each located node, as (node index,
    /// location) pairs.  A node without a recorded location is simply absent.
    pub id_to_location: Vec<(usize, Location)>,
    /// The semantic nodes, addressed by index.
    pub nodes: Vec<Node>,
    /// One entry per bound identifier occurrence.
    pub definitions: Vec<DefinitionInfo>,
    /// Per-function metadata, addressed by function id.
    pub func_meta: Vec<FuncMeta>,
    /// The struct type registry, addressed by struct id.
    pub structs: Vec<StructType>,
    /// The trait registry, addressed by trait id.
    pub traits: Vec<TraitDefinition>,
    /// All trait implementation headers, in stored order.
    pub trait_implementations: Vec<TraitImpl>,
    /// The static type recorded for an expression node, as (node index, type)
    /// pairs; an absent node index means no struct type is known.
    pub expression_types: Vec<(usize, Type)>,
}

impl NodeInterner {
    /// The recorded-location entry at position `k` of the location table.
    pub open spec fn entry(self, k: int) -> (usize, Location) {
        self.id_to_location@[k]
    }

    /// The location table is well formed: every recorded span is well formed
    /// (so its size can be measured), and no node index is recorded twice.
    pub open spec fn locations_wf(self) -> bool {
        &&& forall|k: int|
            0 <= k < self.id_to_location@.len() ==> (#[trigger] self.entry(k)).1.wf()
        &&& forall|k1: int, k2: int|
            0 <= k1 < self.id_to_location@.len() && 0 <= k2 < self.id_to_location@.len() && k1
                != k2 ==> (#[trigger] self.entry(k1)).0 != (#[trigger] self.entry(k2)).0
    }

    /// The node at index `i` refers only to valid table entries, and to nodes
    /// interned before it (sub-structure precedes the node that refers to it).
    pub open spec fn node_wf(self, i: int) -> bool {
        match self.nodes@[i] {
            Node::Function(e) => (e as int) < i,
            Node::Expression(ex) => match ex {
                HirExpression::Ident(d) => (d as int) < self.definitions@.len(),
                HirExpression::Constructor(s) => (s as int) < self.structs@.len(),
                HirExpression::MemberAccess(_) => true,
                HirExpression::Call(f) => (f as int) < i,
                HirExpression::Other => true,
            },
            Node::Other => true,
        }
    }

    /// Every node is well formed.
    pub open spec fn nodes_wf(self) -> bool {
        forall|i: int| 0 <= i < self.nodes@.len() ==> #[trigger] self.node_wf(i)
    }

    /// Every definition that denotes a function names a valid function id.
    pub open spec fn definitions_wf(self) -> bool {
        forall|d: int|
            0 <= d < self.definitions@.len() ==> ((#[trigger] self.definitions@[d]).kind matches
            DefinitionKind::Function(f) ==> (f as int) < self.func_meta@.len())
    }

    /// A recorded expression type refers only to a registered struct.
    pub open spec fn struct_ref_wf(self, t: Type) -> bool {
        t matches Type::Struct(s) ==> (s as int) < self.structs@.len()
    }

    /// Every recorded expression type is well formed.
    pub open spec fn types_wf(self) -> bool {
        forall|k: int|
            0 <= k < self.expression_types@.len() ==> self.struct_ref_wf(
                (#[trigger] self.expression_types@[k]).1,
            )
    }

    /// The whole snapshot is well formed.
    pub open spec fn wf(self) -> bool {
        &&& self.locations_wf()
        &&& self.nodes_wf()
        &&& self.definitions_wf()
        &&& self.types_wf()
    }

    // ------------------------------------------------------------------
    // Location index search
    // ------------------------------------------------------------------

    /// The winning candidate among the first `k` entries of the location
    /// table: the earliest entry whose location contains `query` and whose
    /// span is strictly smaller than every earlier candidate's.  Returns the
    /// entry position, not the node index.
    pub open spec fn best_candidate_upto(self, query: Location, k: int) -> Option<int>
        decreases k,
    {
        if k <= 0 {
            None
        } else {
            let prev = self.best_candidate_upto(query, k - 1);
            if self.entry(k - 1).1.spec_contains(query) {
                match prev {
                    None => Some(k - 1),
                    Some(j) => if self.entry(k - 1).1.span.spec_size()
                        < self.entry(j).1.span.spec_size() {
                        Some(k - 1)
                    } else {
                        Some(j)
                    },
                }
            } else {
                prev
            }
        }
    }

    /// What the location index search returns: the node index recorded for
    /// the innermost span containing `query`, or `None` when no recorded span
    /// contains it.
    pub open spec fn find_location_index_spec(self, query: Location) -> Option<usize> {
        match self.best_candidate_upto(query, self.id_to_location@.len() as int) {
            None => None,
            Some(j) => Some(self.entry(j).0),
        }
    }

    /// What the winning candidate position means: it contains the query, its
    /// span size is minimal among all candidates, and every earlier candidate
    /// is strictly larger.
    pub proof fn lemma_best_candidate_upto(self, query: Location, k: int)
        requires
            0 <= k <= self.id_to_location@.len(),
        ensures
            match self.best_candidate_upto(query, k) {
                None => forall|j: int|
                    0 <= j < k ==> !(#[trigger] self.entry(j)).1.spec_contains(query),
                Some(j) => {
                    &&& 0 <= j < k
                    &&& self.entry(j).1.spec_contains(query)
                    &&& forall|i: int|
                        0 <= i < k && (#[trigger] self.entry(i)).1.spec_contains(query)
                            ==> self.entry(j).1.span.spec_size() <= self.entry(
                            i,
                        ).1.span.spec_size()
                    &&& forall|i: int|
                        0 <= i < j && (#[trigger] self.entry(i)).1.spec_contains(query)
                            ==> self.entry(j).1.span.spec_size() < self.entry(
                            i,
                        ).1.span.spec_size()
                },
            },
        decreases k,
    {
        if k > 0 {
            self.lemma_best_candidate_upto(query, k - 1);
        }
    }

    /// Scans the location table for the node located at `location`.
    ///
    /// `location` need not point at the beginning of an item: an entry is a
    /// candidate whenever its recorded location contains the query.  Among
    /// candidates the one with the smallest span wins (the innermost match),
    /// so a query inside nested spans resolves to the most specific enclosing
    /// construct.  Returns the winning entry's node index, or `None` when no
    /// recorded location contains the query.
    pub fn find_location_index(&self, location: Location) -> (r: Option<usize>)
        requires
            self.locations_wf(),
        ensures
            r == self.find_location_index_spec(location),
            r is None <==> (forall|k: int|
                0 <= k < self.id_to_location@.len() ==> !(#[trigger] self.entry(
                    k,
                )).1.spec_contains(location)),
    {
        let mut location_candidate: Option<(usize, Location)> = None;
        let n = self.id_to_location.len();
        let mut k: usize = 0;
        while k < n
            invariant
                n == self.id_to_location@.len(),
                k <= n,
                self.locations_wf(),
                match self.best_candidate_upto(location, k as int) {
                    None => location_candidate is None,
                    Some(j) => location_candidate == Some(self.entry(j)),
                },
            decreases n - k,
        {
            let (index, interned_location) = self.id_to_location[k];
            proof {
                self.lemma_best_candidate_upto(location, k as int);
                assert(self.entry(k as int).1.wf());
            }
            if interned_location.contains(&location) {
                match location_candidate {
                    Some(current_location) => {
                        if interned_location.span.is_smaller(&current_location.1.span) {
                            location_candidate = Some((index, interned_location));
                        }
                    },
                    None => {
                        location_candidate = Some((index, interned_location));
                    },
                }
            }
            k = k + 1;
        }
        proof {
            self.lemma_best_candidate_upto(location, n as int);
        }
        match location_candidate {
            Some((index, _location)) => Some(index),
            None => None,
        }
    }

    // ------------------------------------------------------------------
    // Table lookups
    // ------------------------------------------------------------------

    /// The definition entry for a bound identifier occurrence.
    pub fn definition(&self, id: usize) -> (r: &DefinitionInfo)
        requires
            (id as int) < self.definitions@.len(),
        ensures
            *r == self.definitions@[id as int],
    {
        &self.definitions[id]
    }

    /// The metadata of the function with the given id.
    pub fn function_meta(&self, func_id: usize) -> (r: &FuncMeta)
        requires
            (func_id as int) < self.func_meta@.len(),
        ensures
            *r == self.func_meta@[func_id as int],
    {
        &self.func_meta[func_id]
    }

    /// The recorded type of the expression at `expr_id`, scanning the type
    /// table in stored order; `Type::Other` when none is recorded.
    pub open spec fn type_entry_from(entries: Seq<(usize, Type)>, expr_id: usize, k: int) -> Type
        decreases entries.len() - k,
    {
        if k < 0 || k >= entries.len() {
            Type::Other
        } else if entries[k].0 == expr_id {
            entries[k].1
        } else {
            Self::type_entry_from(entries, expr_id, k + 1)
        }
    }

    /// The recorded type of the expression at `expr_id`.
    pub open spec fn id_type_spec(self, expr_id: usize) -> Type {
        Self::type_entry_from(self.expression_types@, expr_id, 0)
    }

    /// Whatever `type_entry_from` returns is one of the recorded types, so a
    /// well-formed table yields only well-formed struct references.
    pub proof fn lemma_id_type_wf(self, expr_id: usize, k: int)
        requires
            self.types_wf(),
            0 <= k,
        ensures
            self.struct_ref_wf(Self::type_entry_from(self.expression_types@, expr_id, k)),
        decreases self.expression_types@.len() - k,
    {
        if k < self.expression_types@.len() && self.expression_types@[k].0 != expr_id {
            self.lemma_id_type_wf(expr_id, k + 1);
        }
    }

    /// The static type recorded for the expression node `expr_id`, or
    /// `Type::Other` when none is recorded.
    pub fn id_type(&self, expr_id: usize) -> (r: Type)
        ensures
            r == self.id_type_spec(expr_id),
    {
        let n = self.expression_types.len();
        let mut k: usize = 0;
        while k < n
            invariant
                n == self.expression_types@.len(),
                k <= n,
                Self::type_entry_from(self.expression_types@, expr_id, 0) == Self::type_entry_from(
                    self.expression_types@,
                    expr_id,
                    k as int,
                ),
            decreases n - k,
        {
            let pair = self.expression_types[k];
            if pair.0 == expr_id {
                return pair.1;
            }
            k = k + 1;
        }
        Type::Other
    }

    // ------------------------------------------------------------------
    // Node and expression dispatch
    // ------------------------------------------------------------------

    /// Where the identifier occurrence bound by definition `d` resolves to:
    /// a function goes to its defining (signature) location, a local or a
    /// global to the definition's own location, anything else to nothing.
    pub open spec fn identifier_definition_location(self, d: usize) -> Option<Location> {
        if (d as int) < self.definitions@.len() {
            let info = self.definitions@[d as int];
            match info.kind {
                DefinitionKind::Function(f) => if (f as int) < self.func_meta@.len() {
                    Some(self.func_meta@[f as int].location)
                } else {
                    None
                },
                DefinitionKind::Local(_) => Some(info.location),
                DefinitionKind::Global(_) => Some(info.location),
                DefinitionKind::Other => None,
            }
        } else {
            None
        }
    }

    /// Where the node at `idx` resolves to: a function recurses on its body
    /// expression, an expression dispatches by kind, anything else resolves
    /// to nothing.  An out-of-range index resolves to nothing.
    pub open spec fn resolve_location_spec(self, idx: int) -> Option<Location>
        decreases idx, 1int,
    {
        if 0 <= idx < self.nodes@.len() {
            match self.nodes@[idx] {
                Node::Function(e) => if (e as int) < idx {
                    self.resolve_location_spec(e as int)
                } else {
                    None
                },
                Node::Expression(ex) => self.resolve_expression_location_spec(ex, idx),
                Node::Other => None,
            }
        } else {
            None
        }
    }

    /// Where the expression interned at node `idx` resolves to, by kind.
    pub open spec fn resolve_expression_location_spec(
        self,
        expression: HirExpression,
        idx: int,
    ) -> Option<Location>
        decreases idx, 0int,
    {
        match expression {
            HirExpression::Ident(d) => self.identifier_definition_location(d),
            HirExpression::Constructor(s) => if (s as int) < self.structs@.len() {
                Some(self.structs@[s as int].location)
            } else {
                None
            },
            HirExpression::MemberAccess(ma) => self.resolve_struct_member_access_spec(ma),
            HirExpression::Call(f) => if (f as int) < idx {
                self.resolve_location_spec(f as int)
            } else {
                None
            },
            HirExpression::Other => None,
        }
    }

    /// For a given node index, the location it resolves to.  A missing or
    /// invalid index, and every node kind outside the supported set, yields
    /// `None` rather than a fault.
    fn resolve_location(&self, index: usize) -> (r: Option<Location>)
        requires
            self.wf(),
        ensures
            r == self.resolve_location_spec(index as int),
        decreases index as int, 1int,
    {
        if index >= self.nodes.len() {
            return None;
        }
        proof {
            assert(self.node_wf(index as int));
        }
        let node = &self.nodes[index];
        match node {
            Node::Function(func_expr) => self.resolve_location(*func_expr),
            Node::Expression(expression) => self.resolve_expression_location(
                expression,
                Ghost(index as int),
            ),
            Node::Other => None,
        }
    }

    /// Resolves the location of the definition for the expression interned at
    /// node `idx`.  Expression kinds outside the supported set yield `None`.
    fn resolve_expression_location(
        &self,
        expression: &HirExpression,
        Ghost(idx): Ghost<int>,
    ) -> (r: Option<Location>)
        requires
            self.wf(),
            0 <= idx < self.nodes@.len(),
            self.nodes@[idx] == Node::Expression(*expression),
        ensures
            r == self.resolve_expression_location_spec(*expression, idx),
        decreases idx, 0int,
    {
        proof {
            assert(self.node_wf(idx));
        }
        match expression {
            HirExpression::Ident(id) => {
                let definition_info = self.definition(*id);
                match definition_info.kind {
                    DefinitionKind::Function(func_id) => {
                        proof {
                            assert(self.definitions@[*id as int].kind == DefinitionKind::Function(
                                func_id,
                            ));
                        }
                        Some(self.function_meta(func_id).location)
                    },
                    DefinitionKind::Local(_local_id) => Some(definition_info.location),
                    DefinitionKind::Global(_global_id) => Some(definition_info.location),
                    DefinitionKind::Other => None,
                }
            },
            HirExpression::Constructor(struct_id) => {
                let struct_type = &self.structs[*struct_id];
                Some(struct_type.location)
            },
            HirExpression::MemberAccess(expr_member_access) => self.resolve_struct_member_access(
                expr_member_access,
            ),
            HirExpression::Call(func) => self.resolve_location(*func),
            HirExpression::Other => None,
        }
    }

    // ------------------------------------------------------------------
    // Struct member access
    // ------------------------------------------------------------------

    /// The position of the first field named `name` from position `k` on, in
    /// the struct's stored field order.
    pub open spec fn first_field_named_from(
        fields: Seq<StructField>,
        name: Seq<char>,
        k: int,
    ) -> Option<int>
        decreases fields.len() - k,
    {
        if k < 0 || k >= fields.len() {
            None
        } else if fields[k].name@ == name {
            Some(k)
        } else {
            Self::first_field_named_from(fields, name, k + 1)
        }
    }

    /// The location synthesized for field `j` of struct `sid`: the field
    /// name's declaration span inside the struct's declaring file.
    pub open spec fn struct_field_location(self, sid: usize, j: int) -> Location {
        Location {
            file: self.structs@[sid as int].location.file,
            span: self.structs@[sid as int].fields@[j].span,
        }
    }

    /// Where a member access resolves to: if the left-hand expression's type
    /// is a registered struct and the struct has a field of the accessed
    /// name, the first such field's name span in the struct's declaring file;
    /// otherwise nothing.
    pub open spec fn resolve_struct_member_access_spec(self, ma: HirMemberAccess) -> Option<
        Location,
    > {
        match self.id_type_spec(ma.lhs) {
            Type::Struct(sid) => if (sid as int) < self.structs@.len() {
                match Self::first_field_named_from(self.structs@[sid as int].fields@, ma.rhs@, 0) {
                    Some(j) => Some(self.struct_field_location(sid, j)),
                    None => None,
                }
            } else {
                None
            },
            Type::Other => None,
        }
    }

    /// Resolves a member access `foo.bar` to the location where `bar` is
    /// declared in the struct type of `foo`, or `None` when `foo` is not of a
    /// struct type or the struct has no such field.
    fn resolve_struct_member_access(&self, expr_member_access: &HirMemberAccess) -> (r: Option<
        Location,
    >)
        requires
            self.types_wf(),
        ensures
            r == self.resolve_struct_member_access_spec(*expr_member_access),
    {
        proof {
            self.lemma_id_type_wf(expr_member_access.lhs, 0);
        }
        let lhs_struct_id = match self.id_type(expr_member_access.lhs) {
            Type::Struct(struct_id) => struct_id,
            Type::Other => {
                return None;
            },
        };
        let struct_type = &self.structs[lhs_struct_id];
        let n = struct_type.fields.len();
        let mut k: usize = 0;
        while k < n
            invariant
                n == struct_type.fields@.len(),
                k <= n,
                struct_type == self.structs@[lhs_struct_id as int],
                (lhs_struct_id as int) < self.structs@.len(),
                self.id_type_spec(expr_member_access.lhs) == Type::Struct(lhs_struct_id),
                Self::first_field_named_from(struct_type.fields@, expr_member_access.rhs@, 0)
                    == Self::first_field_named_from(
                    struct_type.fields@,
                    expr_member_access.rhs@,
                    k as int,
                ),
            decreases n - k,
        {
            let found_field_name = &struct_type.fields[k];
            if found_field_name.name == expr_member_access.rhs {
                proof {
                    assert(Self::first_field_named_from(
                        struct_type.fields@,
                        expr_member_access.rhs@,
                        k as int,
                    ) == Some(k as int));
                }
                return Some(Location::new(found_field_name.span, struct_type.location.file));
            }
            k = k + 1;
        }
        None
    }

    // ------------------------------------------------------------------
    // Trait impl fallback
    // ------------------------------------------------------------------

    /// Whether trait implementation `k` matches the query: same file, and its
    /// trait-name span contains the query span.
    pub open spec fn trait_impl_matches(self, query: Location, k: int) -> bool {
        &&& self.trait_implementations@[k].file == query.file
        &&& self.trait_implementations@[k].ident_span.spec_contains(query.span)
    }

    /// The position of the first matching trait implementation from position
    /// `k` on, in stored order.
    pub open spec fn first_matching_trait_impl_from(self, query: Location, k: int) -> Option<int>
        decreases self.trait_implementations@.len() - k,
    {
        if k < 0 || k >= self.trait_implementations@.len() {
            None
        } else if self.trait_impl_matches(query, k) {
            Some(k)
        } else {
            self.first_matching_trait_impl_from(query, k + 1)
        }
    }

    /// Where the trait-impl fallback resolves to: the declaration location of
    /// the trait referenced by the first matching implementation header, or
    /// nothing when no header matches or the referenced trait is unknown.
    pub open spec fn try_resolve_trait_impl_location_spec(self, query: Location) -> Option<
        Location,
    > {
        match self.first_matching_trait_impl_from(query, 0) {
            None => None,
            Some(k) => {
                let tid = self.trait_implementations@[k].trait_id;
                if (tid as int) < self.traits@.len() {
                    Some(self.traits@[tid as int].location)
                } else {
                    None
                }
            },
        }
    }

    /// Attempts to resolve the trait-name token written in a trait
    /// implementation header (`impl Foo for Bar { .. }`) to the declaration
    /// location of the trait `Foo`.  Scans the implementation headers in
    /// stored order and takes the first whose file equals the query's and
    /// whose trait-name span contains the query span.
    fn try_resolve_trait_impl_location(&self, location: Location) -> (r: Option<Location>)
        ensures
            r == self.try_resolve_trait_impl_location_spec(location),
    {
        let n = self.trait_implementations.len();
        let mut k: usize = 0;
        while k < n
            invariant
                n == self.trait_implementations@.len(),
                k <= n,
                self.first_matching_trait_impl_from(location, 0)
                    == self.first_matching_trait_impl_from(location, k as int),
            decreases n - k,
        {
            let trait_impl = &self.trait_implementations[k];
            if trait_impl.file == location.file && trait_impl.ident_span.contains(&location.span) {
                let trait_id = trait_impl.trait_id;
                if trait_id < self.traits.len() {
                    return Some(self.traits[trait_id].location);
                } else {
                    return None;
                }
            }
            k = k + 1;
        }
        None
    }

    // ------------------------------------------------------------------
    // Trait method declaration fallback
    // ------------------------------------------------------------------

    /// The id of the first function whose recorded location contains the
    /// query, from id `k` on, in stored order (no innermost tie-break here).
    pub open spec fn first_func_containing_from(self, query: Location, k: int) -> Option<int>
        decreases self.func_meta@.len() - k,
    {
        if k < 0 || k >= self.func_meta@.len() {
            None
        } else if self.func_meta@[k].location.spec_contains(query) {
            Some(k)
        } else {
            self.first_func_containing_from(query, k + 1)
        }
    }

    /// The position of the first trait method named `name` from position `k`
    /// on, in the trait's stored method order.
    pub open spec fn first_method_named_from(
        methods: Seq<TraitMethod>,
        name: Seq<char>,
        k: int,
    ) -> Option<int>
        decreases methods.len() - k,
    {
        if k < 0 || k >= methods.len() {
            None
        } else if methods[k].name@ == name {
            Some(k)
        } else {
            Self::first_method_named_from(methods, name, k + 1)
        }
    }

    /// Where the trait-method fallback resolves to: for the first function
    /// whose location contains the query and which implements a method of a
    /// registered trait, the declaration location of the trait's first method
    /// of the same name; otherwise nothing.
    pub open spec fn try_resolve_trait_method_declaration_spec(self, query: Location) -> Option<
        Location,
    > {
        match self.first_func_containing_from(query, 0) {
            None => None,
            Some(f) => match self.func_meta@[f].trait_id {
                None => None,
                Some(tid) => if (tid as int) < self.traits@.len() {
                    match Self::first_method_named_from(
                        self.traits@[tid as int].methods@,
                        self.func_meta@[f].name@,
                        0,
                    ) {
                        Some(m) => Some(self.traits@[tid as int].methods@[m].location),
                        None => None,
                    }
                } else {
                    None
                },
            },
        }
    }

    /// Attempts to resolve a location inside the body of a function that
    /// implements a trait method to the declaration location of that method
    /// in the trait itself.  Matching is by method name only; an overloaded
    /// name would be ambiguous and the first name match wins.
    fn try_resolve_trait_method_declaration(&self, location: Location) -> (r: Option<Location>)
        ensures
            r == self.try_resolve_trait_method_declaration_spec(location),
    {
        let n = self.func_meta.len();
        let mut k: usize = 0;
        while k < n
            invariant
                n == self.func_meta@.len(),
                k <= n,
                self.first_func_containing_from(location, 0) == self.first_func_containing_from(
                    location,
                    k as int,
                ),
            decreases n - k,
        {
            let func_meta = &self.func_meta[k];
            if func_meta.location.contains(&location) {
                proof {
                    assert(self.first_func_containing_from(location, k as int) == Some(k as int));
                }
                let trait_id = match func_meta.trait_id {
                    Some(trait_id) => trait_id,
                    None => {
                        return None;
                    },
                };
                if trait_id >= self.traits.len() {
                    return None;
                }
                let methods = &self.traits[trait_id].methods;
                let n_methods = methods.len();
                let mut m: usize = 0;
                while m < n_methods
                    invariant
                        n_methods == methods@.len(),
                        m <= n_methods,
                        methods == self.traits@[trait_id as int].methods,
                        (trait_id as int) < self.traits@.len(),
                        (k as int) < self.func_meta@.len(),
                        func_meta == self.func_meta@[k as int],
                        self.func_meta@[k as int].trait_id == Some(trait_id),
                        self.first_func_containing_from(location, 0) == Some(k as int),
                        Self::first_method_named_from(methods@, func_meta.name@, 0)
                            == Self::first_method_named_from(methods@, func_meta.name@, m as int),
                    decreases n_methods - m,
                {
                    let method = &methods[m];
                    if method.name == func_meta.name {
                        proof {
                            assert(Self::first_method_named_from(methods@, func_meta.name@, m as int)
                                == Some(m as int));
                        }
                        return Some(method.location);
                    }
                    m = m + 1;
                }
                return None;
            }
            k = k + 1;
        }
        None
    }

    // ------------------------------------------------------------------
    // Public query API
    // ------------------------------------------------------------------

    /// The primary resolution path: location index search, then node
    /// dispatch on the found index.
    pub open spec fn primary_definition_spec(self, query: Location) -> Option<Location> {
        match self.find_location_index_spec(query) {
            Some(index) => self.resolve_location_spec(index as int),
            None => None,
        }
    }

    /// What the definition query returns: the primary path first, then the
    /// trait-impl fallback, then the trait-method fallback; the first success
    /// wins.
    pub open spec fn get_definition_location_from_spec(self, query: Location) -> Option<Location> {
        match self.primary_definition_spec(query) {
            Some(l) => Some(l),
            None => match self.try_resolve_trait_impl_location_spec(query) {
                Some(l) => Some(l),
                None => self.try_resolve_trait_method_declaration_spec(query),
            },
        }
    }

    /// What the declaration query returns: the trait-method fallback on the
    /// query itself first; otherwise the primary path, and when that yields a
    /// location, the trait-method fallback again on that resolved location
    /// (not the original query) — the second hop that takes a position inside
    /// a trait-impl body to the trait's abstract declaration.
    pub open spec fn get_declaration_location_from_spec(self, query: Location) -> Option<
        Location,
    > {
        match self.try_resolve_trait_method_declaration_spec(query) {
            Some(l) => Some(l),
            None => match self.primary_definition_spec(query) {
                Some(found_impl_location) => self.try_resolve_trait_method_declaration_spec(
                    found_impl_location,
                ),
                None => None,
            },
        }
    }

    /// Returns the location of the definition of the item found at the given
    /// location, or `None` when no definition is found.
    pub fn get_definition_location_from(&self, location: Location) -> (r: Option<Location>)
        requires
            self.wf(),
        ensures
            r == self.get_definition_location_from_spec(location),
    {
        let primary = match self.find_location_index(location) {
            Some(index) => self.resolve_location(index),
            None => None,
        };
        match primary {
            Some(l) => Some(l),
            None => match self.try_resolve_trait_impl_location(location) {
                Some(l) => Some(l),
                None => self.try_resolve_trait_method_declaration(location),
            },
        }
    }

    /// Returns the location of the abstract declaration behind the item found
    /// at the given location, or `None` when none is found.
    pub fn get_declaration_location_from(&self, location: Location) -> (r: Option<Location>)
        requires
            self.wf(),
        ensures
            r == self.get_declaration_location_from_spec(location),
    {
        match self.try_resolve_trait_method_declaration(location) {
            Some(l) => Some(l),
            None => {
                let primary = match self.find_location_index(location) {
                    Some(index) => self.resolve_location(index),
                    None => None,
                };
                match primary {
                    Some(found_impl_location) => self.try_resolve_trait_method_declaration(
                        found_impl_location,
                    ),
                    None => None,
                }
            },
        }
    }
}

} // verus!
