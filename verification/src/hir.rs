//! The semantic-model records the resolution engine reads: nodes, expressions,
//! definitions, function metadata, struct types, traits and trait impls.
//!
//! Every record is addressed by a stable index assigned once when the model is
//! built; the engine never creates or mutates records, it only reads them.

use vstd::prelude::*;

use crate::location::Location;
use crate::location::Span;

verus! {

/// What a bound identifier denotes.  The payload of each variant is the id of
/// the denoted item in its table.
#[derive(Clone, Copy, PartialEq, Eq, Structural, Debug)]
pub enum DefinitionKind {
    /// A function; the id indexes the function metadata table.
    Function(usize),
    /// A local binding.
    Local(usize),
    /// A global binding.
    Global(usize),
    /// Any other kind of definition; resolution reports it as not found.
    Other,
}

/// One bound identifier occurrence: what it denotes and where it was bound.
#[derive(Clone, Copy, PartialEq, Eq, Structural, Debug)]
pub struct DefinitionInfo {
    pub kind: DefinitionKind,
    pub location: Location,
}

/// Per-function metadata: the function's name, its canonical defining
/// (signature) location, and the trait it implements a method of, if any.
#[derive(Clone, Debug)]
pub struct FuncMeta {
    pub name: String,
    pub location: Location,
    /// The id of the trait this function implements a method of, or `None`
    /// for a free function.
    pub trait_id: Option<usize>,
}

/// One field of a struct type: its name and the span of that name at the
/// struct's declaration.
#[derive(Clone, Debug)]
pub struct StructField {
    pub name: String,
    pub span: Span,
}

/// A struct type: where it is declared and its ordered field list.
#[derive(Clone, Debug)]
pub struct StructType {
    pub location: Location,
    pub fields: Vec<StructField>,
}

/// One method signature declared by a trait.
#[derive(Clone, Debug)]
pub struct TraitMethod {
    pub name: String,
    pub location: Location,
}

/// A trait: where it is declared and its ordered method list.
#[derive(Clone, Debug)]
pub struct TraitDefinition {
    pub location: Location,
    pub methods: Vec<TraitMethod>,
}

/// A trait implementation header: the file it stands in, the span of the
/// trait-name token written in the header, and the implemented trait's id.
#[derive(Clone, Copy, PartialEq, Eq, Structural, Debug)]
pub struct TraitImpl {
    pub file: u32,
    pub ident_span: Span,
    pub trait_id: usize,
}

/// The static type recorded for an expression, as far as the engine reads it:
/// either a struct type, by id, or anything else.
#[derive(Clone, Copy, PartialEq, Eq, Structural, Debug)]
pub enum Type {
    Struct(usize),
    Other,
}

/// A member-access expression `lhs.rhs`: the node index of the left-hand
/// expression and the textual name of the accessed field.
#[derive(Clone, Debug)]
pub struct HirMemberAccess {
    pub lhs: usize,
    pub rhs: String,
}

/// An expression, by kind.  Kinds outside this closed set are represented by
/// `Other` and intentionally resolve to nothing.
#[derive(Clone, Debug)]
pub enum HirExpression {
    /// An identifier occurrence; the id indexes the definition table.
    Ident(usize),
    /// A struct literal; the id indexes the struct type registry.
    Constructor(usize),
    /// A member access `a.b`.
    MemberAccess(HirMemberAccess),
    /// A call; the index is the callee expression's node index.
    Call(usize),
    /// Any other expression kind; resolution reports it as not found.
    Other,
}

/// A semantic node.  Kinds outside this closed set are represented by `Other`.
#[derive(Clone, Debug)]
pub enum Node {
    /// A function; the index is the node index of its body expression.
    Function(usize),
    /// An expression.
    Expression(HirExpression),
    /// Any other node kind; resolution reports it as not found.
    Other,
}

} // verus!
