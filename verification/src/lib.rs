//! Descriptions of Rust type definitions as values, and the TypeScript
//! definitions that stand for them.
//!
//! - [`ir`] holds the description of a struct or enum: its fields, generics,
//!   visibility and serialization attributes.
//! - [`typescript`] holds the TypeScript syntax tree, the definition that
//!   stands for a described container, and the text of each node.
//! - [`derive`] holds the front end of the derive macro: a type definition
//!   as the macro receives it, and the description that is read from it.
//! - [`basic`] holds a plain description of a struct with named fields.
//! - [`text`] holds the character and string operations that names are
//!   renamed and definitions are rendered with.
pub mod basic;
pub mod derive;
pub mod ir;
pub mod text;
pub mod typescript;
