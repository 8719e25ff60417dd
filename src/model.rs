use vstd::prelude::*;

verus! {

/// The shape of a variant's payload.
#[derive(Debug, Clone, Copy, PartialEq, Eq, Structural)]
pub enum Fields {
    /// No payload: `A` or `A = 1`.
    Unit,
    /// Named fields: `A { x: i32 }`.
    Named,
    /// Positional fields: `A(i32)`.
    Unnamed,
}

/// One variant of an enumeration.
#[derive(Debug, Clone)]
pub struct Variant {
    pub ident: String,
    pub fields: Fields,
    /// The explicit discriminant expression, as source text.
    pub discriminant: Option<String>,
}

/// An attribute attached to a declaration: its path and, for the list form
/// `#[path(...)]`, the source text between the parentheses.
#[derive(Debug, Clone)]
pub struct Annotation {
    pub path: String,
    pub args: Option<String>,
}

/// The body of a declaration.
#[derive(Debug, Clone)]
pub enum Data {
    Enum(Vec<Variant>),
    Struct,
    Union,
}

/// A type declaration handed to the generators.
#[derive(Debug, Clone)]
pub struct Declaration {
    pub ident: String,
    pub attrs: Vec<Annotation>,
    pub data: Data,
}

impl Fields {
    pub fn is_unit(&self) -> (r: bool)
        ensures
            r == (*self == Fields::Unit),
    {
        match self {
            Fields::Unit => true,
            _ => false,
        }
    }
}

} // verus!
