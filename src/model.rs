//! The declaration as plain values, as the host parser hands it over.
use vstd::prelude::*;

verus! {

/// A literal that stands as the value of an annotation entry.
#[derive(Clone, Debug)]
pub enum Lit {
    Str(String),
    Bool(bool),
    /// Any other kind of literal (a number, a char, a byte string).
    Other,
}

/// One entry inside `#[field_names(...)]`.
#[derive(Clone, Debug)]
pub enum MetaItem {
    /// `key`
    Word(String),
    /// `key = literal`
    NameValue(String, Lit),
    /// `key(...)`
    List(String),
    /// A bare literal with no key.
    Literal,
}

/// The form of an attribute after its path.
#[derive(Clone, Debug)]
pub enum AttrArgs {
    /// `#[path]`
    Word,
    /// `#[path(entries...)]`
    List(Vec<MetaItem>),
    /// `#[path = value]`
    Value,
}

/// One attribute on a field; `path` is its path as text (`field_names`, `doc`, `serde`).
#[derive(Clone, Debug)]
pub struct Attr {
    pub path: String,
    pub args: AttrArgs,
}

/// One field of a struct: its identifier, absent for a positional field, and its attributes.
#[derive(Clone, Debug)]
pub struct FieldInput {
    pub ident: Option<String>,
    pub attrs: Vec<Attr>,
}

/// What kind of item the declaration is.
#[derive(Clone, Debug)]
pub enum Body {
    /// A struct with braces or parentheses, with its fields in order.
    Struct(Vec<FieldInput>),
    /// `struct S;`
    UnitStruct,
    Enum,
    Union,
}

/// A type declaration. The three generics texts are the declaration's generic
/// parameters split for an impl block (`<T: Clone>`, `<T>`, `where T: Copy`),
/// passed through as they stand.
#[derive(Clone, Debug)]
pub struct DeclInput {
    pub ident: String,
    pub impl_generics: String,
    pub ty_generics: String,
    pub where_clause: String,
    pub body: Body,
}

/// The shapes that are not a named-field struct.
#[derive(Clone, Copy, Debug, PartialEq, Eq, Structural)]
pub enum ShapeKind {
    Tuple,
    Unit,
    Enum,
    Union,
}

/// A malformed `field_names` annotation. `attr` is the index of the attribute
/// among the field's attributes, `item` the index of the entry inside it.
#[derive(Clone, Copy, Debug, PartialEq, Eq, Structural)]
pub enum AnnotationError {
    /// `#[field_names = ...]`: only the list form is accepted.
    NameValueForm { attr: usize },
    /// An entry whose key is neither `skip` nor `desc`.
    UnknownKey { attr: usize, item: usize },
    /// A key given a second time on the same field.
    DuplicateKey { attr: usize, item: usize },
    /// A known key whose value has the wrong form or type.
    UnexpectedValue { attr: usize, item: usize },
    /// A literal standing where an entry belongs.
    UnexpectedLiteral { attr: usize, item: usize },
}

/// Why a declaration produced no fragment.
#[derive(Clone, Copy, Debug, PartialEq, Eq, Structural)]
pub enum DeriveError {
    /// The declaration is not a struct with named fields.
    UnsupportedShape(ShapeKind),
    /// The field at index `field` carries a malformed annotation.
    Annotation { field: usize, error: AnnotationError },
}

} // verus!
