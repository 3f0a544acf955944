//! A plain description of a struct: its name and its named fields, each of a
//! built-in type or of a type named by a path.
use vstd::prelude::*;
use crate::ir::vec_from_array;

verus! {

/// Represents an item.
#[derive(Debug, PartialEq)]
pub enum Item {
    /// A struct.
    Struct(Struct),
}

/// Represents a `struct` definition.
#[derive(Debug, PartialEq)]
pub struct Struct {
    /// The name of the struct.
    pub name: &'static str,
    /// The fields of the struct.
    pub fields: Vec<Field>,
}

/// Represents a named `struct` field.
#[derive(Debug, PartialEq)]
pub struct Field {
    /// The name of the field.
    pub name: &'static str,
    /// The type of the field.
    pub ty: Type,
}

/// Represents a type use, e. g. in a struct definition,
/// function definition, or type alias.
#[derive(Debug, PartialEq)]
pub enum Type {
    /// A built-in type.
    Builtin(BuiltinType),
    /// A type declared elsewhere, named by its path.
    Path(TypePath),
}

/// The name of a type (struct or enum) declared elsewhere.
#[derive(Debug, PartialEq)]
pub struct TypePath {
    /// The name of the type.
    pub segments: Vec<PathSegment>,
}

impl<const N: usize> From<[PathSegment; N]> for TypePath {
    /// The path made of the given segments, in order.
    fn from(value: [PathSegment; N]) -> (r: Self)
        ensures
            r.segments@ == value@,
    {
        TypePath { segments: vec_from_array(value) }
    }
}

impl<const N: usize> vstd::std_specs::convert::FromSpecImpl<[PathSegment; N]> for TypePath {
    open spec fn obeys_from_spec() -> bool {
        false
    }

    open spec fn from_spec(v: [PathSegment; N]) -> Self {
        arbitrary()
    }
}

/// A segment of a path, as its name.
#[derive(Debug, Clone, PartialEq)]
pub struct PathSegment(pub &'static str);

/// The built-in types.
#[derive(Debug, PartialEq)]
pub enum BuiltinType {
    /// The `bool` type.
    Bool,
    /// The `u8` type.
    U8,
    /// The `u16` type.
    U16,
    /// The `u32` type.
    U32,
    /// The `u64` type.
    U64,
    /// The `u128` type.
    U128,
    /// The `usize` type.
    Usize,
    /// The `i8` type.
    I8,
    /// The `i16` type.
    I16,
    /// The `i32` type.
    I32,
    /// The `i64` type.
    I64,
    /// The `i128` type.
    I128,
    /// The `isize` type.
    Isize,
    /// The `f32` type.
    F32,
    /// The `f64` type.
    F64,
    /// The `char` type.
    Char,
    /// The `str` type.
    Str,
}

/// Describes how to construct a type definition for a given type.
pub trait Camo {
    /// Returns a description of the type.
    fn camo() -> Item;
}

/// Describes how to represent the source type
/// as a `Type` (type use value).
pub trait IntoType {
    /// The type use value that stands for the source type.
    fn into_type() -> Type;
}

impl IntoType for bool {
    fn into_type() -> (t: Type)
        ensures
            t == Type::Builtin(BuiltinType::Bool),
    {
        Type::Builtin(BuiltinType::Bool)
    }
}

impl IntoType for u8 {
    fn into_type() -> (t: Type)
        ensures
            t == Type::Builtin(BuiltinType::U8),
    {
        Type::Builtin(BuiltinType::U8)
    }
}

impl IntoType for u16 {
    fn into_type() -> (t: Type)
        ensures
            t == Type::Builtin(BuiltinType::U16),
    {
        Type::Builtin(BuiltinType::U16)
    }
}

impl IntoType for u32 {
    fn into_type() -> (t: Type)
        ensures
            t == Type::Builtin(BuiltinType::U32),
    {
        Type::Builtin(BuiltinType::U32)
    }
}

impl IntoType for u64 {
    fn into_type() -> (t: Type)
        ensures
            t == Type::Builtin(BuiltinType::U64),
    {
        Type::Builtin(BuiltinType::U64)
    }
}

impl IntoType for u128 {
    fn into_type() -> (t: Type)
        ensures
            t == Type::Builtin(BuiltinType::U128),
    {
        Type::Builtin(BuiltinType::U128)
    }
}

impl IntoType for usize {
    fn into_type() -> (t: Type)
        ensures
            t == Type::Builtin(BuiltinType::Usize),
    {
        Type::Builtin(BuiltinType::Usize)
    }
}

impl IntoType for i8 {
    fn into_type() -> (t: Type)
        ensures
            t == Type::Builtin(BuiltinType::I8),
    {
        Type::Builtin(BuiltinType::I8)
    }
}

impl IntoType for i16 {
    fn into_type() -> (t: Type)
        ensures
            t == Type::Builtin(BuiltinType::I16),
    {
        Type::Builtin(BuiltinType::I16)
    }
}

impl IntoType for i32 {
    fn into_type() -> (t: Type)
        ensures
            t == Type::Builtin(BuiltinType::I32),
    {
        Type::Builtin(BuiltinType::I32)
    }
}

impl IntoType for i64 {
    fn into_type() -> (t: Type)
        ensures
            t == Type::Builtin(BuiltinType::I64),
    {
        Type::Builtin(BuiltinType::I64)
    }
}

impl IntoType for i128 {
    fn into_type() -> (t: Type)
        ensures
            t == Type::Builtin(BuiltinType::I128),
    {
        Type::Builtin(BuiltinType::I128)
    }
}

impl IntoType for isize {
    fn into_type() -> (t: Type)
        ensures
            t == Type::Builtin(BuiltinType::Isize),
    {
        Type::Builtin(BuiltinType::Isize)
    }
}

impl IntoType for char {
    fn into_type() -> (t: Type)
        ensures
            t == Type::Builtin(BuiltinType::Char),
    {
        Type::Builtin(BuiltinType::Char)
    }
}

impl IntoType for str {
    fn into_type() -> (t: Type)
        ensures
            t == Type::Builtin(BuiltinType::Str),
    {
        Type::Builtin(BuiltinType::Str)
    }
}

} // verus!
