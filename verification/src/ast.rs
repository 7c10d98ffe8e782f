//! The input model: a parsed structure declaration as the host compiler's
//! macro machinery hands it over, reduced to plain values.
//!
//! The generator never reads raw source text. It receives the annotated
//! item's name, generic-parameter list and fields, each field with its
//! declared type, visibility, documentation lines and directive annotations.
//! Types are modelled one level deep: the shape check only ever looks at a
//! path type's first segment and that segment's argument list, so anything
//! below that is carried as opaque source text.

use vstd::prelude::*;

verus! {

/// One annotation attached to a structure or a field, reduced to the parts
/// the generator reads: the annotation's path (as written, `::`-joined for a
/// multi-segment path) and the shape of its payload.
#[derive(Debug, Clone, PartialEq, Eq)]
pub struct Attribute {
    pub path: String,
    pub payload: AttrPayload,
}

/// The payload of an annotation.
#[derive(Debug, Clone, PartialEq, Eq)]
pub enum AttrPayload {
    /// A bare path with no arguments, as in the legacy skip marker.
    Plain,
    /// A `name = "literal"` annotation carrying a string value; this is also
    /// the form a documentation comment line takes.
    ValueStr(String),
    /// A parenthesised list of sub-options, as the recognized directive
    /// namespace carries.
    Items(Vec<MetaItem>),
    /// Any payload that is not one of the recognized shapes (a non-string
    /// value, or a list whose content does not parse as sub-options).
    Other,
}

/// One sub-option inside a directive list.
#[derive(Debug, Clone, PartialEq, Eq)]
pub enum MetaItem {
    /// A bare key, as in `skip` or `into`.
    Flag(String),
    /// A `key = "literal"` pair with a string-literal value.
    StrValue(String, String),
    /// A key whose value has some other shape (a non-string literal, or a
    /// nested parenthesised group).
    OtherShape(String),
}

/// A declared type expression, modelled one level deep.
#[derive(Debug, Clone, PartialEq, Eq)]
pub enum TypeExpr {
    /// A path-style type: an ordered list of segments.
    Path { segments: Vec<PathSegment> },
    /// Any other type expression, carried as source text and never
    /// inspected.
    Other(String),
}

/// One segment of a path-style type.
#[derive(Debug, Clone, PartialEq, Eq)]
pub struct PathSegment {
    pub ident: String,
    pub args: ArgList,
}

/// The argument list of a path segment.
#[derive(Debug, Clone, PartialEq, Eq)]
pub enum ArgList {
    /// No arguments at all.
    Missing,
    /// An angle-bracketed argument list.
    AngleBracketed(Vec<GenericArg>),
    /// A parenthesised (function-style) argument list.
    Parenthesized,
}

/// One entry of an angle-bracketed argument list. Only whether the entry is
/// a type matters to the shape check; the entry's content is source text.
#[derive(Debug, Clone, PartialEq, Eq)]
pub enum GenericArg {
    /// A type argument, carried as source text.
    TypeArg(String),
    /// A lifetime argument.
    LifetimeArg(String),
    /// A const or associated-item argument.
    OtherArg(String),
}

/// One named field of the annotated structure.
#[derive(Debug, Clone, PartialEq, Eq)]
pub struct Field {
    pub ident: String,
    /// The field's visibility marker. Generation ignores it: generated
    /// methods are public either way.
    pub is_public: bool,
    pub ty: TypeExpr,
    /// Every annotation attached to the field, in source order;
    /// documentation lines stand among them as `doc` annotations.
    pub attrs: Vec<Attribute>,
}

/// The shape of the annotated item's body.
#[derive(Debug, Clone, PartialEq, Eq)]
pub enum DataShape {
    Structure(FieldList),
    Enumeration,
    Union,
}

/// The field list of a structure.
#[derive(Debug, Clone, PartialEq, Eq)]
pub enum FieldList {
    Named(Vec<Field>),
    Unnamed,
    Unit,
}

/// The whole input handed to the generator: one annotated item.
#[derive(Debug, Clone, PartialEq, Eq)]
pub struct MacroInput {
    /// Annotations attached to the item itself.
    pub attrs: Vec<Attribute>,
    /// The item's name.
    pub ident: String,
    /// The item's generic parameters, each carried as source text
    /// (for example a lifetime or a type parameter with its bounds),
    /// in declaration order.
    pub generics: Vec<String>,
    /// The item's body shape.
    pub data: DataShape,
}

} // verus!
