//! The front end of the derive macro: a type definition as the macro
//! receives it, the description that is read from it, and the errors for
//! what the macro does not support.
pub mod ast;
pub mod attributes;
pub mod error;
pub mod input;
pub mod read;

pub use ast::{
    Container, Enum, GenericArgument, GenericParameter, Item, Lifetime, NamedField, PathSegment,
    RenameRule, SerdeContainerAttributes, SerdeVariantAttributes, Struct, StructVariant, Type,
    TypePath, TypeReference, UnnamedField, Variant, VariantContent, Visibility,
};
pub use attributes::{SerdeAttribute, SerdeAttributeList};
pub use error::{DeriveError, ErrorKind};
