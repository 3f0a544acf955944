//! The description of a Rust type definition: a struct or an enum with its
//! fields, generics, visibility and serialization attributes.
//!
//! Every type that holds text or a list has a view, in which a name is a
//! sequence of characters and a list is a sequence of views. Contracts are
//! stated over these views.
use vstd::prelude::*;
use crate::text::str_eq;

verus! {

/// A container of some type definition.
#[derive(Debug, Clone, PartialEq)]
pub struct Container {
    /// The attributes that were present on the type, if any.
    pub attributes: ContainerAttributes,
    /// The item (type definition).
    pub item: Item,
}

/// The keys and associated values present in the attribute on a top-level type.
#[derive(Debug, Clone, PartialEq)]
pub struct ContainerAttributes {
    /// A `rename` attribute, signifying that the type itself should be renamed.
    pub rename: Option<RenameRule>,
    /// A `rename_all` attribute, signifying that the fields should be renamed.
    pub rename_all: Option<RenameRule>,
    /// A `tag` attribute, signifying that the name of enum variants
    /// should be reflected in a separate field of the given name.
    pub tag: Option<&'static str>,
    /// A `content` attribute, signifying that the content of enum variants
    /// should be reflected in a separate field of the given name.
    pub content: Option<&'static str>,
}

impl Default for ContainerAttributes {
    fn default() -> (r: Self)
        ensures
            r.rename is None,
            r.rename_all is None,
            r.tag is None,
            r.content is None,
    {
        ContainerAttributes { rename: None, rename_all: None, tag: None, content: None }
    }
}

/// A rename rule, signifying that something should be renamed
/// to the given case.
#[derive(Debug, Copy, Clone, PartialEq)]
pub enum RenameRule {
    /// `"lowercase"`: all characters are lowercase.
    LowerCase,
    /// `"UPPERCASE"`: all characters are uppercase.
    UpperCase,
    /// `"PascalCase"`: the first letter of each component word is uppercase,
    /// the rest are lowercase.
    PascalCase,
    /// `"camelCase"`: like PascalCase, but the first letter is lowercase.
    CamelCase,
    /// `"snake_case"`: all characters are lowercase, component words are
    /// separated by underscores (`_`).
    SnakeCase,
    /// `"SCREAMING_SNAKE_CASE"`: like snake_case, but all letters are uppercase.
    ScreamingSnakeCase,
    /// `"kebab-case"`: like snake_case, but words are separated by `-`.
    KebabCase,
    /// `"SCREAMING-KEBAB-CASE"`: like kebab-case, but all letters are uppercase.
    ScreamingKebabCase,
}

/// Represents an item.
#[derive(Debug, Clone, PartialEq)]
pub enum Item {
    /// A struct.
    Struct(Struct),
    /// An enum.
    Enum(Enum),
}

/// A visibility modifier for an item.
#[derive(Debug, Clone, PartialEq)]
pub enum Visibility {
    /// No visibility modifier is present.
    Inherited,
    /// The `pub` modifier.
    Pub,
}

impl Visibility {
    /// Returns `true` if no modifier is present.
    pub fn is_none(&self) -> (b: bool)
        ensures
            b == (*self is Inherited),
    {
        match self {
            Visibility::Inherited => true,
            Visibility::Pub => false,
        }
    }

    /// Returns `true` if the modifier is `Pub`.
    pub fn is_pub(&self) -> (b: bool)
        ensures
            b == (*self is Pub),
    {
        match self {
            Visibility::Inherited => false,
            Visibility::Pub => true,
        }
    }
}

/// Represents a `struct` definition.
#[derive(Debug, Clone, PartialEq)]
pub struct Struct {
    /// The visibility level of the struct.
    pub visibility: Visibility,
    /// The name of the struct.
    pub name: &'static str,
    /// The generic parameters of the struct.
    pub parameters: Vec<GenericParameter>,
    /// The content of the struct.
    pub content: StructContent,
}

/// A generic parameter.
#[derive(Debug, Clone, PartialEq)]
pub enum GenericParameter {
    /// A plain type parameter.
    Type(&'static str),
    /// A lifetime parameter.
    Lifetime(&'static str),
}

/// A list of fields.
/// The fields are either all named or all unnamed.
#[derive(Debug, Clone, PartialEq)]
pub enum StructContent {
    /// A struct that is composed of named fields.
    ///
    /// Example:
    /// ```rs
    /// struct Example {
    ///     field_one: String,
    ///     field_two: Vec<i32>,
    /// }
    /// ```
    NamedFields(Vec<NamedField>),
    /// A struct that is composed of a single unnamed field.
    ///
    /// Example:
    /// ```rs
    /// struct Example(i32);
    /// ```
    UnnamedField(UnnamedField),
}

/// Represents a named `struct` field.
#[derive(Debug, Clone, PartialEq)]
pub struct NamedField {
    /// The name of the field.
    pub name: &'static str,
    /// The type of the field.
    pub ty: Type,
}

/// Represents an unnamed `struct` field.
#[derive(Debug, Clone, PartialEq)]
pub struct UnnamedField {
    /// The type of the field.
    pub ty: Type,
}

/// Represents an `enum` definition.
#[derive(Debug, Clone, PartialEq)]
pub struct Enum {
    /// The visibility level of the enum.
    pub visibility: Visibility,
    /// The name of the enum.
    pub name: &'static str,
    /// The generic parameters of the enum.
    pub parameters: Vec<GenericParameter>,
    /// The variants of the enum.
    pub variants: Vec<Variant>,
}

/// A variant of an enum.
#[derive(Debug, Clone, PartialEq)]
pub struct Variant {
    /// The attributes placed directly on the variant.
    pub attributes: VariantAttributes,
    /// The name of the variant.
    pub name: &'static str,
    /// The content of the variant.
    pub content: VariantContent,
}

/// The attributes that are present on an individual enum variant.
#[derive(Debug, Clone, PartialEq)]
pub struct VariantAttributes {
    /// A `rename` rule, signifying that the variant should be renamed.
    ///
    /// This takes precedence over `rename_all` on the top-level type.
    pub rename: Option<RenameRule>,
    /// A `rename_all` rule, signifying that all the fields in the variant should be renamed.
    pub rename_all: Option<RenameRule>,
}

impl Default for VariantAttributes {
    fn default() -> (r: Self)
        ensures
            r.rename is None,
            r.rename_all is None,
    {
        VariantAttributes { rename: None, rename_all: None }
    }
}

/// The content of an enum variant.
#[derive(Debug, Clone, PartialEq)]
pub enum VariantContent {
    /// A unit variant.
    Unit,
    /// A variant with a single unnamed field.
    Unnamed(Type),
    /// A variant with any number of named fields.
    Named(Vec<NamedField>),
}

/// Represents a type use, e. g. in a struct definition,
/// function definition, or type alias.
#[derive(Debug, PartialEq)]
pub enum Type {
    /// A path representing some type (e.g. `Foo` or `std::collections::HashMap`).
    Path(TypePath),
    /// A type reference (e.g. `&'a str`).
    Reference(ReferenceType),
    /// A dynamically-sized array.
    Slice(SliceType),
    /// A fixed-size array.
    Array(ArrayType),
}

/// A reference to a value of some type.
#[derive(Debug, PartialEq)]
pub struct ReferenceType {
    /// The name of the lifetime of the reference.
    pub lifetime: Lifetime,
    /// The type that is referred to.
    pub ty: Box<Type>,
}

/// A lifetime.
#[derive(Debug, Clone, PartialEq)]
pub struct Lifetime {
    /// The name of the lifetime.
    ///
    /// Does not include an apostrophe character.
    pub name: String,
}

/// The name of a type (struct or enum) declared elsewhere.
#[derive(Debug, PartialEq)]
pub struct TypePath {
    /// The segments that make up the name of the type.
    pub segments: Vec<PathSegment>,
}

/// A path segment, like `std`, `collections`, and `HashMap` in
/// `std::collections::HashMap`.
#[derive(Debug, PartialEq)]
pub struct PathSegment {
    /// The name of the segment (like `HashMap`).
    pub name: &'static str,
    /// Any arguments provided in the segment, like `i32` and
    /// `String` in `HashMap<i32, String>.
    pub arguments: Vec<GenericArgument>,
}

/// A generic argument provided to a path segment.
#[derive(Debug, PartialEq)]
pub enum GenericArgument {
    /// A type argument.
    Type(Type),
    /// A lifetime argument.
    Lifetime(String),
}

/// A slice type.
#[derive(Debug, PartialEq)]
pub struct SliceType(pub Box<Type>);

/// An array type.
#[derive(Debug, PartialEq)]
pub struct ArrayType(pub Box<Type>);

/// The built-in types.
#[derive(Debug, Clone, PartialEq)]
pub enum BuiltinType {
    /// The `bool` type.
    Bool,
    /// The `u8` type.
    U8,
    /// The `u16` type.
    U16,
    /// The `u32` type.
    U32,
    /// The `u64` type.
    U64,
    /// The `u128` type.
    U128,
    /// The `usize` type.
    Usize,
    /// The `i8` type.
    I8,
    /// The `i16` type.
    I16,
    /// The `i32` type.
    I32,
    /// The `i64` type.
    I64,
    /// The `i128` type.
    I128,
    /// The `isize` type.
    Isize,
    /// The `f32` type.
    F32,
    /// The `f64` type.
    F64,
    /// The `char` type.
    Char,
}

/// Describes how to construct a type definition for a given type.
pub trait Camo {
    /// Returns a description of the type.
    fn camo() -> Container;
}

// ---------------------------------------------------------------------------
// Views
// ---------------------------------------------------------------------------

/// The view of a [`Type`].
pub enum TypeView {
    /// A path, as its segments.
    Path(Seq<SegmentView>),
    /// A reference, as the name of its lifetime and the type referred to.
    Reference(Seq<char>, Box<TypeView>),
    /// A dynamically-sized array of the given type.
    Slice(Box<TypeView>),
    /// A fixed-size array of the given type.
    Array(Box<TypeView>),
}

/// The view of a [`PathSegment`].
pub struct SegmentView {
    /// The name of the segment.
    pub name: Seq<char>,
    /// The arguments of the segment, in order.
    pub arguments: Seq<ArgumentView>,
}

/// The view of a [`GenericArgument`].
pub enum ArgumentView {
    /// A type argument.
    Type(TypeView),
    /// A lifetime argument, as its name.
    Lifetime(Seq<char>),
}

/// The view of a [`NamedField`].
pub struct FieldView {
    /// The name of the field.
    pub name: Seq<char>,
    /// The type of the field.
    pub ty: TypeView,
}

/// The view of a [`GenericParameter`].
pub enum ParameterView {
    /// A type parameter, as its name.
    Type(Seq<char>),
    /// A lifetime parameter, as its name.
    Lifetime(Seq<char>),
}

/// The view of a [`StructContent`].
pub enum StructContentView {
    /// Named fields, in order.
    NamedFields(Seq<FieldView>),
    /// The type of the single unnamed field.
    UnnamedField(TypeView),
}

/// The view of a [`Struct`].
pub struct StructView {
    /// The visibility level of the struct.
    pub visibility: Visibility,
    /// The name of the struct.
    pub name: Seq<char>,
    /// The generic parameters of the struct.
    pub parameters: Seq<ParameterView>,
    /// The content of the struct.
    pub content: StructContentView,
}

/// The view of a [`VariantContent`].
pub enum VariantContentView {
    /// A unit variant.
    Unit,
    /// The type of the single unnamed field.
    Unnamed(TypeView),
    /// Named fields, in order.
    Named(Seq<FieldView>),
}

/// The view of a [`Variant`].
pub struct VariantView {
    /// The attributes placed directly on the variant.
    pub attributes: VariantAttributes,
    /// The name of the variant.
    pub name: Seq<char>,
    /// The content of the variant.
    pub content: VariantContentView,
}

/// The view of an [`Enum`].
pub struct EnumView {
    /// The visibility level of the enum.
    pub visibility: Visibility,
    /// The name of the enum.
    pub name: Seq<char>,
    /// The generic parameters of the enum.
    pub parameters: Seq<ParameterView>,
    /// The variants of the enum, in declaration order.
    pub variants: Seq<VariantView>,
}

/// The view of an [`Item`].
pub enum ItemView {
    /// A struct.
    Struct(StructView),
    /// An enum.
    Enum(EnumView),
}

/// The view of a [`ContainerAttributes`].
pub struct AttributesView {
    /// The rule by which the type itself is renamed.
    pub rename: Option<RenameRule>,
    /// The rule by which the fields or variants are renamed.
    pub rename_all: Option<RenameRule>,
    /// The name of the field that holds the name of a variant.
    pub tag: Option<Seq<char>>,
    /// The name of the field that holds the content of a variant.
    pub content: Option<Seq<char>>,
}

/// The view of a [`Container`].
pub struct ContainerView {
    /// The attributes of the container.
    pub attributes: AttributesView,
    /// The item.
    pub item: ItemView,
}

/// The view of a type, by recursion over its structure.
pub open spec fn type_view(t: Type) -> TypeView
    decreases t,
{
    match t {
        Type::Path(p) => TypeView::Path(
            Seq::new(
                p.segments@.len(),
                |i: int|
                    if 0 <= i < p.segments@.len() {
                        segment_view(p.segments@[i])
                    } else {
                        arbitrary()
                    },
            ),
        ),
        Type::Reference(r) => TypeView::Reference(r.lifetime.name@, Box::new(type_view(*r.ty))),
        Type::Slice(s) => TypeView::Slice(Box::new(type_view(*s.0))),
        Type::Array(a) => TypeView::Array(Box::new(type_view(*a.0))),
    }
}

/// The view of a path segment, by recursion over its structure.
pub open spec fn segment_view(s: PathSegment) -> SegmentView
    decreases s,
{
    SegmentView {
        name: s.name@,
        arguments: Seq::new(
            s.arguments@.len(),
            |i: int|
                if 0 <= i < s.arguments@.len() {
                    argument_view(s.arguments@[i])
                } else {
                    arbitrary()
                },
        ),
    }
}

/// The view of a generic argument, by recursion over its structure.
pub open spec fn argument_view(a: GenericArgument) -> ArgumentView
    decreases a,
{
    match a {
        GenericArgument::Type(t) => ArgumentView::Type(type_view(t)),
        GenericArgument::Lifetime(l) => ArgumentView::Lifetime(l@),
    }
}

impl View for Type {
    type V = TypeView;

    open spec fn view(&self) -> TypeView {
        type_view(*self)
    }
}

impl View for PathSegment {
    type V = SegmentView;

    open spec fn view(&self) -> SegmentView {
        segment_view(*self)
    }
}

impl View for GenericArgument {
    type V = ArgumentView;

    open spec fn view(&self) -> ArgumentView {
        argument_view(*self)
    }
}

impl View for TypePath {
    type V = Seq<SegmentView>;

    open spec fn view(&self) -> Seq<SegmentView> {
        self.segments@.map_values(|s: PathSegment| s@)
    }
}

impl View for ReferenceType {
    type V = (Seq<char>, TypeView);

    open spec fn view(&self) -> (Seq<char>, TypeView) {
        (self.lifetime.name@, (*self.ty)@)
    }
}

impl View for SliceType {
    type V = TypeView;

    open spec fn view(&self) -> TypeView {
        (*self.0)@
    }
}

impl View for ArrayType {
    type V = TypeView;

    open spec fn view(&self) -> TypeView {
        (*self.0)@
    }
}

impl View for NamedField {
    type V = FieldView;

    open spec fn view(&self) -> FieldView {
        FieldView { name: self.name@, ty: self.ty@ }
    }
}

impl View for UnnamedField {
    type V = TypeView;

    open spec fn view(&self) -> TypeView {
        self.ty@
    }
}

impl View for GenericParameter {
    type V = ParameterView;

    open spec fn view(&self) -> ParameterView {
        match *self {
            GenericParameter::Type(name) => ParameterView::Type(name@),
            GenericParameter::Lifetime(name) => ParameterView::Lifetime(name@),
        }
    }
}

impl View for StructContent {
    type V = StructContentView;

    open spec fn view(&self) -> StructContentView {
        match *self {
            StructContent::NamedFields(fields) => StructContentView::NamedFields(
                fields@.map_values(|f: NamedField| f@),
            ),
            StructContent::UnnamedField(field) => StructContentView::UnnamedField(field@),
        }
    }
}

impl View for Struct {
    type V = StructView;

    open spec fn view(&self) -> StructView {
        StructView {
            visibility: self.visibility,
            name: self.name@,
            parameters: self.parameters@.map_values(|p: GenericParameter| p@),
            content: self.content@,
        }
    }
}

impl View for VariantContent {
    type V = VariantContentView;

    open spec fn view(&self) -> VariantContentView {
        match *self {
            VariantContent::Unit => VariantContentView::Unit,
            VariantContent::Unnamed(ty) => VariantContentView::Unnamed(ty@),
            VariantContent::Named(fields) => VariantContentView::Named(
                fields@.map_values(|f: NamedField| f@),
            ),
        }
    }
}

impl View for Variant {
    type V = VariantView;

    open spec fn view(&self) -> VariantView {
        VariantView { attributes: self.attributes, name: self.name@, content: self.content@ }
    }
}

impl View for Enum {
    type V = EnumView;

    open spec fn view(&self) -> EnumView {
        EnumView {
            visibility: self.visibility,
            name: self.name@,
            parameters: self.parameters@.map_values(|p: GenericParameter| p@),
            variants: self.variants@.map_values(|v: Variant| v@),
        }
    }
}

impl View for Item {
    type V = ItemView;

    open spec fn view(&self) -> ItemView {
        match *self {
            Item::Struct(s) => ItemView::Struct(s@),
            Item::Enum(e) => ItemView::Enum(e@),
        }
    }
}

impl View for ContainerAttributes {
    type V = AttributesView;

    open spec fn view(&self) -> AttributesView {
        AttributesView {
            rename: self.rename,
            rename_all: self.rename_all,
            tag: match self.tag {
                Some(tag) => Some(tag@),
                None => None,
            },
            content: match self.content {
                Some(content) => Some(content@),
                None => None,
            },
        }
    }
}

impl View for Container {
    type V = ContainerView;

    open spec fn view(&self) -> ContainerView {
        ContainerView { attributes: self.attributes@, item: self.item@ }
    }
}

/// The view of a type is made of the views of its parts.
pub proof fn lemma_type_view(t: Type)
    ensures
        t@ == match t {
            Type::Path(p) => TypeView::Path(p@),
            Type::Reference(r) => TypeView::Reference(r@.0, Box::new(r@.1)),
            Type::Slice(s) => TypeView::Slice(Box::new(s@)),
            Type::Array(a) => TypeView::Array(Box::new(a@)),
        },
{
    match t {
        Type::Path(p) => {
            assert(t@->Path_0 =~= p@);
        },
        _ => {},
    }
}

/// The view of a path segment is made of its name and the views of its
/// arguments.
pub proof fn lemma_segment_view(s: PathSegment)
    ensures
        s@ == (SegmentView {
            name: s.name@,
            arguments: s.arguments@.map_values(|a: GenericArgument| a@),
        }),
{
    assert(s@.arguments =~= s.arguments@.map_values(|a: GenericArgument| a@));
}

// ---------------------------------------------------------------------------
// Constructors
// ---------------------------------------------------------------------------

/// Calls `Vec::from` on an array, which moves the items of the array into a
/// vector, in order.
#[verifier::external_body]
pub(crate) fn vec_from_array<T, const N: usize>(items: [T; N]) -> (v: Vec<T>)
    ensures
        v@ == items@,
{
    Vec::from(items)
}

impl<const N: usize> From<[PathSegment; N]> for TypePath {
    /// The path made of the given segments, in order.
    fn from(value: [PathSegment; N]) -> (r: Self)
        ensures
            r.segments@ == value@,
    {
        TypePath { segments: vec_from_array(value) }
    }
}

impl<const N: usize> vstd::std_specs::convert::FromSpecImpl<[PathSegment; N]> for TypePath {
    open spec fn obeys_from_spec() -> bool {
        false
    }

    open spec fn from_spec(v: [PathSegment; N]) -> Self {
        arbitrary()
    }
}

impl From<Type> for SliceType {
    /// The slice type with elements of the given type.
    fn from(value: Type) -> (r: Self) {
        SliceType(Box::new(value))
    }
}

impl vstd::std_specs::convert::FromSpecImpl<Type> for SliceType {
    open spec fn obeys_from_spec() -> bool {
        true
    }

    open spec fn from_spec(v: Type) -> Self {
        SliceType(Box::new(v))
    }
}

impl From<Type> for ArrayType {
    /// The array type with elements of the given type.
    fn from(value: Type) -> (r: Self) {
        ArrayType(Box::new(value))
    }
}

impl vstd::std_specs::convert::FromSpecImpl<Type> for ArrayType {
    open spec fn obeys_from_spec() -> bool {
        true
    }

    open spec fn from_spec(v: Type) -> Self {
        ArrayType(Box::new(v))
    }
}

/// The built-in type that a name stands for, if any.
pub open spec fn builtin_of_name(name: Seq<char>) -> Option<BuiltinType> {
    if name == "bool"@ {
        Some(BuiltinType::Bool)
    } else if name == "u8"@ {
        Some(BuiltinType::U8)
    } else if name == "u16"@ {
        Some(BuiltinType::U16)
    } else if name == "u32"@ {
        Some(BuiltinType::U32)
    } else if name == "u64"@ {
        Some(BuiltinType::U64)
    } else if name == "u128"@ {
        Some(BuiltinType::U128)
    } else if name == "usize"@ {
        Some(BuiltinType::Usize)
    } else if name == "i8"@ {
        Some(BuiltinType::I8)
    } else if name == "i16"@ {
        Some(BuiltinType::I16)
    } else if name == "i32"@ {
        Some(BuiltinType::I32)
    } else if name == "i64"@ {
        Some(BuiltinType::I64)
    } else if name == "i128"@ {
        Some(BuiltinType::I128)
    } else if name == "isize"@ {
        Some(BuiltinType::Isize)
    } else if name == "f32"@ {
        Some(BuiltinType::F32)
    } else if name == "f64"@ {
        Some(BuiltinType::F64)
    } else if name == "char"@ {
        Some(BuiltinType::Char)
    } else {
        None
    }
}

/// The built-in type that a path stands for, if any: the path has exactly
/// one segment, that segment has no arguments, and its name is that of a
/// built-in type.
pub open spec fn builtin_of_path(segments: Seq<SegmentView>) -> Option<BuiltinType> {
    if segments.len() == 1 && segments[0].arguments.len() == 0 {
        builtin_of_name(segments[0].name)
    } else {
        None
    }
}

impl BuiltinType {
    /// The built-in type of the given name, if there is one.
    pub fn from_name(name: &str) -> (r: Option<BuiltinType>)
        ensures
            r == builtin_of_name(name@),
    {
        if str_eq(name, "bool") {
            Some(BuiltinType::Bool)
        } else if str_eq(name, "u8") {
            Some(BuiltinType::U8)
        } else if str_eq(name, "u16") {
            Some(BuiltinType::U16)
        } else if str_eq(name, "u32") {
            Some(BuiltinType::U32)
        } else if str_eq(name, "u64") {
            Some(BuiltinType::U64)
        } else if str_eq(name, "u128") {
            Some(BuiltinType::U128)
        } else if str_eq(name, "usize") {
            Some(BuiltinType::Usize)
        } else if str_eq(name, "i8") {
            Some(BuiltinType::I8)
        } else if str_eq(name, "i16") {
            Some(BuiltinType::I16)
        } else if str_eq(name, "i32") {
            Some(BuiltinType::I32)
        } else if str_eq(name, "i64") {
            Some(BuiltinType::I64)
        } else if str_eq(name, "i128") {
            Some(BuiltinType::I128)
        } else if str_eq(name, "isize") {
            Some(BuiltinType::Isize)
        } else if str_eq(name, "f32") {
            Some(BuiltinType::F32)
        } else if str_eq(name, "f64") {
            Some(BuiltinType::F64)
        } else if str_eq(name, "char") {
            Some(BuiltinType::Char)
        } else {
            None
        }
    }

    /// The built-in type that the given path stands for, if there is one.
    pub fn from_path(path: &TypePath) -> (r: Option<BuiltinType>)
        ensures
            r == builtin_of_path(path@),
    {
        if path.segments.len() != 1 {
            return None;
        }
        let segment = &path.segments[0];
        proof {
            lemma_segment_view(*segment);
        }
        if segment.arguments.len() != 0 {
            return None;
        }
        BuiltinType::from_name(segment.name)
    }
}

impl TryFrom<TypePath> for BuiltinType {
    type Error = TypePath;

    /// The built-in type that the path stands for; a path that stands for
    /// none is handed back unchanged.
    fn try_from(value: TypePath) -> (r: Result<Self, TypePath>) {
        match BuiltinType::from_path(&value) {
            Some(builtin) => Ok(builtin),
            None => Err(value),
        }
    }
}

impl vstd::std_specs::convert::TryFromSpecImpl<TypePath> for BuiltinType {
    open spec fn obeys_try_from_spec() -> bool {
        true
    }

    open spec fn try_from_spec(v: TypePath) -> Result<Self, TypePath> {
        match builtin_of_path(v@) {
            Some(builtin) => Ok(builtin),
            None => Err(v),
        }
    }
}

// ---------------------------------------------------------------------------
// Copies
// ---------------------------------------------------------------------------

fn clone_type(t: &Type) -> (r: Type)
    ensures
        r@ == t@,
    decreases t,
{
    let r = match t {
        Type::Path(p) => Type::Path(clone_path(p)),
        Type::Reference(r) => Type::Reference(
            ReferenceType {
                lifetime: Lifetime { name: r.lifetime.name.clone() },
                ty: Box::new(clone_type(&r.ty)),
            },
        ),
        Type::Slice(s) => Type::Slice(SliceType(Box::new(clone_type(&s.0)))),
        Type::Array(a) => Type::Array(ArrayType(Box::new(clone_type(&a.0)))),
    };
    proof {
        lemma_type_view(*t);
        lemma_type_view(r);
    }
    r
}

fn clone_path(p: &TypePath) -> (r: TypePath)
    ensures
        r@ == p@,
    decreases p,
{
    let mut segments: Vec<PathSegment> = Vec::new();
    let mut i: usize = 0;
    while i < p.segments.len()
        invariant
            i <= p.segments.len(),
            segments@.len() == i,
            forall|j: int| 0 <= j < i ==> segments@[j]@ == p.segments@[j]@,
        decreases p.segments.len() - i,
    {
        segments.push(clone_segment(&p.segments[i]));
        i += 1;
    }
    let r = TypePath { segments };
    assert(r@ =~= p@);
    r
}

fn clone_segment(s: &PathSegment) -> (r: PathSegment)
    ensures
        r@ == s@,
    decreases s,
{
    let mut arguments: Vec<GenericArgument> = Vec::new();
    let mut i: usize = 0;
    while i < s.arguments.len()
        invariant
            i <= s.arguments.len(),
            arguments@.len() == i,
            forall|j: int| 0 <= j < i ==> arguments@[j]@ == s.arguments@[j]@,
        decreases s.arguments.len() - i,
    {
        arguments.push(clone_argument(&s.arguments[i]));
        i += 1;
    }
    let r = PathSegment { name: s.name, arguments };
    proof {
        lemma_segment_view(*s);
        lemma_segment_view(r);
        assert(r@.arguments =~= s@.arguments);
    }
    r
}

fn clone_argument(a: &GenericArgument) -> (r: GenericArgument)
    ensures
        r@ == a@,
    decreases a,
{
    match a {
        GenericArgument::Type(t) => GenericArgument::Type(clone_type(t)),
        GenericArgument::Lifetime(l) => GenericArgument::Lifetime(l.clone()),
    }
}

impl Clone for Type {
    /// A copy with the same view.
    fn clone(&self) -> (r: Self)
        ensures
            r@ == self@,
    {
        clone_type(self)
    }
}

impl Clone for TypePath {
    /// A copy with the same view.
    fn clone(&self) -> (r: Self)
        ensures
            r@ == self@,
    {
        clone_path(self)
    }
}

impl Clone for PathSegment {
    /// A copy with the same view.
    fn clone(&self) -> (r: Self)
        ensures
            r@ == self@,
    {
        clone_segment(self)
    }
}

impl Clone for GenericArgument {
    /// A copy with the same view.
    fn clone(&self) -> (r: Self)
        ensures
            r@ == self@,
    {
        clone_argument(self)
    }
}

impl Clone for ReferenceType {
    /// A copy with the same view.
    fn clone(&self) -> (r: Self)
        ensures
            r@ == self@,
    {
        ReferenceType {
            lifetime: Lifetime { name: self.lifetime.name.clone() },
            ty: Box::new(clone_type(&self.ty)),
        }
    }
}

impl Clone for SliceType {
    /// A copy with the same view.
    fn clone(&self) -> (r: Self)
        ensures
            r@ == self@,
    {
        SliceType(Box::new(clone_type(&self.0)))
    }
}

impl Clone for ArrayType {
    /// A copy with the same view.
    fn clone(&self) -> (r: Self)
        ensures
            r@ == self@,
    {
        ArrayType(Box::new(clone_type(&self.0)))
    }
}

} // verus!
