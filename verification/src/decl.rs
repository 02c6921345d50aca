//! The model of a parsed type declaration.
//!
//! The pipeline does not parse source text: an external parsing collaborator
//! hands over a declaration tree, and this module holds that tree as plain
//! values — exactly the parts the pipeline reads.

use vstd::prelude::*;

verus! {

/// The kind of a literal expression, compared structurally.
#[derive(Clone, Copy, PartialEq, Eq, Structural, Debug)]
pub enum LitKind {
    Str,
    ByteStr,
    Byte,
    Char,
    Int,
    Float,
    Bool,
    Verbatim,
}

/// A literal expression. Only integer literals carry data the pipeline
/// reads: their numeric value and their type suffix (empty when the literal
/// is unsuffixed).
#[derive(Debug)]
pub enum Lit {
    Str,
    ByteStr,
    Byte,
    Char,
    Int { value: u128, suffix: String },
    Float,
    Bool,
    Verbatim,
}

/// The kind tag of a literal.
pub open spec fn kind_of(l: Lit) -> LitKind {
    match l {
        Lit::Str => LitKind::Str,
        Lit::ByteStr => LitKind::ByteStr,
        Lit::Byte => LitKind::Byte,
        Lit::Char => LitKind::Char,
        Lit::Int { .. } => LitKind::Int,
        Lit::Float => LitKind::Float,
        Lit::Bool => LitKind::Bool,
        Lit::Verbatim => LitKind::Verbatim,
    }
}

impl Lit {
    /// The kind tag of this literal.
    pub fn kind(&self) -> (k: LitKind)
        ensures
            k == kind_of(*self),
    {
        match self {
            Lit::Str => LitKind::Str,
            Lit::ByteStr => LitKind::ByteStr,
            Lit::Byte => LitKind::Byte,
            Lit::Char => LitKind::Char,
            Lit::Int { .. } => LitKind::Int,
            Lit::Float => LitKind::Float,
            Lit::Bool => LitKind::Bool,
            Lit::Verbatim => LitKind::Verbatim,
        }
    }
}

/// The shape of a variant's field list.
#[derive(Debug)]
pub enum FieldShape {
    /// No field list at all.
    Unit,
    /// A parenthesized field list with `count` fields.
    Unnamed { count: usize },
    /// A braced field list with `count` named fields.
    Named { count: usize },
}

/// A variant's discriminant expression: a literal, or any other expression.
#[derive(Debug)]
pub enum DiscriminantExpr {
    Literal(Lit),
    Other,
}

/// One declared variant.
#[derive(Debug)]
pub struct VariantDecl {
    pub name: String,
    pub fields: FieldShape,
    pub discriminant: Option<DiscriminantExpr>,
}

/// One token inside an attribute's argument group, as far as the pipeline
/// reads it: an identifier, or anything else.
#[derive(Debug)]
pub enum AttrToken {
    Ident(String),
    Other,
}

/// The argument tokens attached to an attribute: a single delimited group of
/// tokens (as in `repr(u16)`), or any other token sequence.
#[derive(Debug)]
pub enum AttrArg {
    Group(Vec<AttrToken>),
    Other,
}

/// An attached annotation. `outer` is true for item-level (`#[...]`)
/// placement and false for inner (`#![...]`) placement; `path` is the first
/// segment of the annotation's path.
#[derive(Debug)]
pub struct Attribute {
    pub outer: bool,
    pub path: String,
    pub arg: AttrArg,
}

/// The body of the declaration: the ordered variants of a sum type, or some
/// other data shape (a record or union declaration).
#[derive(Debug)]
pub enum Data {
    Enum(Vec<VariantDecl>),
    Other,
}

/// A parsed type declaration, as handed over by the parsing collaborator.
#[derive(Debug)]
pub struct EnumDeclaration {
    pub name: String,
    pub attrs: Vec<Attribute>,
    pub data: Data,
}

} // verus!
