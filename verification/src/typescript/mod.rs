//! TypeScript definitions: the syntax tree, how a described container
//! becomes a definition, and the text of each node.
pub mod ast;
pub mod construct;
pub mod definition;
pub mod laws;
pub mod mapping;
pub mod rename;
pub mod render;
pub mod tagging;

pub use ast::{
    ArrayType, BuiltinType, Definition, DefinitionView, Field, FieldView, Interface,
    InterfaceView, IntersectionType, LiteralType, ObjectType, PathSegment, SegmentView, Type,
    TypeAlias, TypeAliasView, TypePath, TypeView, UnionType, Variant,
};
pub use rename::{
    pascal_to_separated_case, push_separated_char, snake_to_non_snake_case, Renamer,
};
pub use mapping::{TypeMappingError, TypeMappingErrorKind};
pub use render::is_valid_identifier;
