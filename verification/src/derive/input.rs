//! A type definition as the derive macro receives it: what the macro reads
//! of each node of the syntax tree, and the place in the source code that an
//! error about the node points to.
use vstd::prelude::*;

verus! {

/// A type definition with a `derive` attribute.
#[derive(Debug)]
pub struct DeriveInput {
    /// The attributes of the definition, in order.
    pub attrs: Vec<Attribute>,
    /// The visibility of the definition.
    pub vis: Visibility,
    /// The name of the type.
    pub ident: String,
    /// The generic parameters of the type, in order.
    pub generics: Vec<GenericParam>,
    /// The content of the definition.
    pub data: Data,
}

/// An attribute.
#[derive(Debug)]
pub struct Attribute {
    /// Whether the attribute stands before the item: `#[..]`, not `#![..]`.
    pub outer: bool,
    /// Whether the path of the attribute is the identifier `serde`.
    pub serde: bool,
    /// The content of the attribute.
    pub meta: Meta,
}

/// The content of an attribute.
#[derive(Debug)]
pub enum Meta {
    /// A path alone, as in `#[serde]`.
    Path,
    /// A list, as in `#[serde(rename = "a", tag = "t")]`.
    List(MetaList),
    /// A name and a value, as in `#[serde = "a"]`.
    NameValue,
}

/// The list of an attribute, as far as it could be parsed.
#[derive(Debug)]
pub struct MetaList {
    /// The entries of the form `key = "value"` that were parsed, in order.
    pub entries: Vec<MetaEntry>,
    /// The error at which parsing stopped, if it did not reach the end.
    pub failure: Option<syn::Error>,
    /// The place of the list.
    pub span: proc_macro2::Span,
}

/// An entry `key = "value"` of the list of an attribute.
#[derive(Debug)]
pub struct MetaEntry {
    /// The key, where it is a single identifier.
    pub key: Option<String>,
    /// The value of the string literal.
    pub value: String,
    /// The place of the string literal.
    pub span: proc_macro2::Span,
}

/// The visibility of a definition.
#[derive(Debug)]
pub enum Visibility {
    /// `pub`
    Public,
    /// `pub(..)`, at the given place.
    Restricted(proc_macro2::Span),
    /// No visibility modifier.
    Inherited,
}

/// A generic parameter.
#[derive(Debug)]
pub enum GenericParam {
    /// A type parameter.
    Type {
        /// The name of the parameter.
        ident: String,
        /// The place of the bounds of the parameter, where it has any.
        bounds: Option<proc_macro2::Span>,
    },
    /// A lifetime parameter.
    Lifetime {
        /// The name of the lifetime, without the apostrophe.
        ident: String,
    },
    /// A constant parameter, at the given place.
    Const(proc_macro2::Span),
}

/// The content of a definition.
#[derive(Debug)]
pub enum Data {
    /// A struct, as its fields.
    Struct(Fields),
    /// An enum, as its variants in order.
    Enum(Vec<Variant>),
    /// A union, at the given place.
    Union(proc_macro2::Span),
}

/// The fields of a struct or of a variant.
#[derive(Debug)]
pub enum Fields {
    /// Named fields, in order.
    Named(Vec<Field>),
    /// The types of unnamed fields in order, and the place of the fields.
    Unnamed(Vec<Type>, proc_macro2::Span),
    /// No fields, at the given place.
    Unit(proc_macro2::Span),
}

/// A named field.
#[derive(Debug)]
pub struct Field {
    /// The name of the field.
    pub ident: String,
    /// The type of the field.
    pub ty: Type,
}

/// A variant of an enum.
#[derive(Debug)]
pub struct Variant {
    /// The attributes of the variant, in order.
    pub attrs: Vec<Attribute>,
    /// The name of the variant.
    pub ident: String,
    /// The fields of the variant.
    pub fields: Fields,
    /// The place of the explicit discriminant, where the variant has one.
    pub discriminant: Option<proc_macro2::Span>,
}

/// A type.
#[derive(Debug)]
pub enum Type {
    /// A slice of the given type.
    Slice(Box<Type>),
    /// An array of the given type.
    Array(Box<Type>),
    /// A function type, at the given place.
    BareFn(proc_macro2::Span),
    /// A type in an invisible group.
    Group(Box<Type>),
    /// The call of a macro, at the given place.
    Macro(proc_macro2::Span),
    /// A type between parentheses.
    Paren(Box<Type>),
    /// A path.
    Path(TypePath),
    /// A reference.
    Reference(TypeReference),
    /// A type of any other kind, at the given place.
    Other(proc_macro2::Span),
}

/// A path that names a type.
#[derive(Debug)]
pub struct TypePath {
    /// The place of the self type, where the path is qualified by one.
    pub qself: Option<proc_macro2::Span>,
    /// The segments of the path, in order.
    pub segments: Vec<PathSegment>,
}

/// A reference.
#[derive(Debug)]
pub struct TypeReference {
    /// The name of the lifetime of the reference, without the apostrophe.
    pub lifetime: String,
    /// The type that is referred to.
    pub elem: Box<Type>,
}

/// A segment of a path.
#[derive(Debug)]
pub struct PathSegment {
    /// The name of the segment.
    pub ident: String,
    /// The arguments between angle brackets, in order.
    pub arguments: Vec<GenericArgument>,
}

/// A generic argument.
#[derive(Debug)]
pub enum GenericArgument {
    /// A lifetime, as its name without the apostrophe.
    Lifetime(String),
    /// A type.
    Type(Type),
    /// A constant, at the given place.
    Const(proc_macro2::Span),
    /// The binding of an associated type, at the given place.
    AssocType(proc_macro2::Span),
    /// The binding of an associated constant, at the given place.
    AssocConst(proc_macro2::Span),
    /// A bound on an associated type, at the given place.
    Constraint(proc_macro2::Span),
    /// An argument of any other kind, at the given place.
    Other(proc_macro2::Span),
}

} // verus!
