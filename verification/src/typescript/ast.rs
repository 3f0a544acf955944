//! The TypeScript syntax tree: interfaces, type aliases and type expressions.
//!
//! Every node has a view, in which a name is a sequence of characters and a
//! list is a sequence of views. Contracts are stated over these views.
use vstd::prelude::*;

verus! {

/// A top-level type definition.
#[derive(Clone, Debug, PartialEq)]
pub enum Definition {
    /// An interface definition.
    Interface(Interface),
    /// A type definition.
    Alias(TypeAlias),
}

/// A top-level `interface` definition.
///
/// Example:
///
/// ```ts
/// interface Foo {
///     value: number;
/// }
/// ```
#[derive(Clone, Debug, PartialEq)]
pub struct Interface {
    /// Whether the interface is marked with `export`.
    pub export: bool,
    /// The name of the interface.
    pub name: String,
    /// The generic parameters of the interface.
    pub parameters: Vec<&'static str>,
    /// The fields of the interface.
    pub fields: Vec<Field>,
}

/// A field in e.g. an interface or an object type.
#[derive(Debug, PartialEq)]
pub struct Field {
    /// The name of the field.
    pub name: String,
    /// The type of the field.
    pub ty: Type,
}

/// A top-level `type` definition.
/// Example:
///
/// ```ts
/// type Foo = { value: number };
/// ```
#[derive(Clone, Debug, PartialEq)]
pub struct TypeAlias {
    /// Whether the type is marked with `export`.
    pub export: bool,
    /// The name of the type definition.
    pub name: String,
    /// The generic parameters of the type definition.
    pub parameters: Vec<&'static str>,
    /// The content of the type definition.
    pub ty: Type,
}

/// A type with multiple cases.
///
/// Example:
/// ```ts
/// type Primitive =
///     | number
///     | boolean
///     | symbol;
/// ```
#[derive(Debug, PartialEq)]
pub struct UnionType {
    /// The variants of the union type.
    pub variants: Vec<Variant>,
}

/// A variant of a union type.
#[derive(Debug, PartialEq)]
pub struct Variant(pub Type);

/// Represents a type use, e. g. in an interface definition,
/// function type definition, or type alias.
#[derive(Debug, PartialEq)]
pub enum Type {
    /// A built-in type like `number` or `string`.
    Builtin(BuiltinType),
    /// A path to some type.
    /// Includes simple names like `MyType`.
    Path(TypePath),
    /// An object type.
    Object(ObjectType),
    /// A literal type.
    Literal(LiteralType),
    /// An array type.
    Array(ArrayType),
    /// A union type, combining multiple cases.
    Union(UnionType),
    /// An intersection type, combining two types.
    Intersection(IntersectionType),
}

/// The built-in types.
#[derive(Clone, Copy, Debug, PartialEq)]
pub enum BuiltinType {
    /// The `number` type.
    Number,
    /// The `boolean` type.
    Boolean,
    /// The `string` type.
    String,
    /// The `null` type.
    Null,
    /// The `never` type.
    Never,
}

/// The name of a type.
///
/// Example:
///
/// ```ts
/// const x: types.X = { /* ... */}
/// //       ^^^^^^^
/// ```
#[derive(Debug, PartialEq)]
pub struct TypePath {
    /// The segments of the type name.
    pub segments: Vec<PathSegment>,
}

/// A segment of a type path.
#[derive(Debug, PartialEq)]
pub struct PathSegment {
    /// The name of the segment.
    pub name: String,
    /// The arguments provided to the segment.
    pub arguments: Vec<Type>,
}

/// An object type.
#[derive(Debug, PartialEq)]
pub struct ObjectType {
    /// The fields of the object type.
    pub fields: Vec<Field>,
}

/// A literal type.
///
/// Example:
/// ```ts
/// type Tag = "Tag";
/// ```
#[derive(Clone, Debug, PartialEq)]
pub enum LiteralType {
    /// A string literal type.
    String(String),
}

/// An array type expression.
///
/// Example:
/// ```ts
/// type Numbers = number[];
/// ```
#[derive(Debug, PartialEq)]
pub struct ArrayType(pub Box<Type>);

/// An intersection type.
///
/// Example:
/// ```ts
/// type T = { name: string } & { value: number };
/// //        -------------   ^  ----------------
/// ```
#[derive(Debug, PartialEq)]
pub struct IntersectionType {
    /// The left-hand side of the intersection.
    pub left: Box<Type>,
    /// The right-hand side of the intersection.
    pub right: Box<Type>,
}

// ---------------------------------------------------------------------------
// Views
// ---------------------------------------------------------------------------

/// The view of a [`Type`].
pub enum TypeView {
    /// A built-in type.
    Builtin(BuiltinType),
    /// A path, as its segments.
    Path(Seq<SegmentView>),
    /// An object type, as its fields.
    Object(Seq<FieldView>),
    /// A string literal type, as the characters of the string.
    Literal(Seq<char>),
    /// An array of the given type.
    Array(Box<TypeView>),
    /// A union, as its cases in order.
    Union(Seq<TypeView>),
    /// An intersection, as its two sides.
    Intersection(Box<TypeView>, Box<TypeView>),
}

/// The view of a [`PathSegment`].
pub struct SegmentView {
    /// The name of the segment.
    pub name: Seq<char>,
    /// The arguments of the segment, in order.
    pub arguments: Seq<TypeView>,
}

/// The view of a [`Field`].
pub struct FieldView {
    /// The name of the field.
    pub name: Seq<char>,
    /// The type of the field.
    pub ty: TypeView,
}

/// The view of an [`Interface`].
pub struct InterfaceView {
    /// Whether the interface is marked with `export`.
    pub export: bool,
    /// The name of the interface.
    pub name: Seq<char>,
    /// The generic parameters of the interface.
    pub parameters: Seq<Seq<char>>,
    /// The fields of the interface.
    pub fields: Seq<FieldView>,
}

/// The view of a [`TypeAlias`].
pub struct TypeAliasView {
    /// Whether the type is marked with `export`.
    pub export: bool,
    /// The name of the type definition.
    pub name: Seq<char>,
    /// The generic parameters of the type definition.
    pub parameters: Seq<Seq<char>>,
    /// The content of the type definition.
    pub ty: TypeView,
}

/// The view of a [`Definition`].
pub enum DefinitionView {
    /// An interface definition.
    Interface(InterfaceView),
    /// A type definition.
    Alias(TypeAliasView),
}

/// The view of a type, by recursion over its structure.
pub open spec fn type_view(t: Type) -> TypeView
    decreases t,
{
    match t {
        Type::Builtin(b) => TypeView::Builtin(b),
        Type::Path(p) => TypeView::Path(
            Seq::new(
                p.segments@.len(),
                |i: int|
                    if 0 <= i < p.segments@.len() {
                        segment_view(p.segments@[i])
                    } else {
                        arbitrary()
                    },
            ),
        ),
        Type::Object(o) => TypeView::Object(
            Seq::new(
                o.fields@.len(),
                |i: int|
                    if 0 <= i < o.fields@.len() {
                        field_view(o.fields@[i])
                    } else {
                        arbitrary()
                    },
            ),
        ),
        Type::Literal(l) => match l {
            LiteralType::String(s) => TypeView::Literal(s@),
        },
        Type::Array(a) => TypeView::Array(Box::new(type_view(*a.0))),
        Type::Union(u) => TypeView::Union(
            Seq::new(
                u.variants@.len(),
                |i: int|
                    if 0 <= i < u.variants@.len() {
                        type_view(u.variants@[i].0)
                    } else {
                        arbitrary()
                    },
            ),
        ),
        Type::Intersection(x) => TypeView::Intersection(
            Box::new(type_view(*x.left)),
            Box::new(type_view(*x.right)),
        ),
    }
}

/// The view of a path segment, by recursion over its structure.
pub open spec fn segment_view(s: PathSegment) -> SegmentView
    decreases s,
{
    SegmentView {
        name: s.name@,
        arguments: Seq::new(
            s.arguments@.len(),
            |i: int|
                if 0 <= i < s.arguments@.len() {
                    type_view(s.arguments@[i])
                } else {
                    arbitrary()
                },
        ),
    }
}

/// The view of a field, by recursion over its structure.
pub open spec fn field_view(f: Field) -> FieldView
    decreases f,
{
    FieldView { name: f.name@, ty: type_view(f.ty) }
}

impl View for Type {
    type V = TypeView;

    open spec fn view(&self) -> TypeView {
        type_view(*self)
    }
}

impl View for PathSegment {
    type V = SegmentView;

    open spec fn view(&self) -> SegmentView {
        segment_view(*self)
    }
}

impl View for Field {
    type V = FieldView;

    open spec fn view(&self) -> FieldView {
        field_view(*self)
    }
}

impl View for Variant {
    type V = TypeView;

    open spec fn view(&self) -> TypeView {
        self.0@
    }
}

impl View for TypePath {
    type V = Seq<SegmentView>;

    open spec fn view(&self) -> Seq<SegmentView> {
        self.segments@.map_values(|s: PathSegment| s@)
    }
}

impl View for ObjectType {
    type V = Seq<FieldView>;

    open spec fn view(&self) -> Seq<FieldView> {
        self.fields@.map_values(|f: Field| f@)
    }
}

impl View for LiteralType {
    type V = Seq<char>;

    open spec fn view(&self) -> Seq<char> {
        match *self {
            LiteralType::String(s) => s@,
        }
    }
}

impl View for ArrayType {
    type V = TypeView;

    open spec fn view(&self) -> TypeView {
        (*self.0)@
    }
}

impl View for UnionType {
    type V = Seq<TypeView>;

    open spec fn view(&self) -> Seq<TypeView> {
        self.variants@.map_values(|v: Variant| v@)
    }
}

impl View for IntersectionType {
    type V = (TypeView, TypeView);

    open spec fn view(&self) -> (TypeView, TypeView) {
        ((*self.left)@, (*self.right)@)
    }
}

impl View for Interface {
    type V = InterfaceView;

    open spec fn view(&self) -> InterfaceView {
        InterfaceView {
            export: self.export,
            name: self.name@,
            parameters: self.parameters@.map_values(|p: &'static str| p@),
            fields: self.fields@.map_values(|f: Field| f@),
        }
    }
}

impl View for TypeAlias {
    type V = TypeAliasView;

    open spec fn view(&self) -> TypeAliasView {
        TypeAliasView {
            export: self.export,
            name: self.name@,
            parameters: self.parameters@.map_values(|p: &'static str| p@),
            ty: self.ty@,
        }
    }
}

impl View for Definition {
    type V = DefinitionView;

    open spec fn view(&self) -> DefinitionView {
        match *self {
            Definition::Interface(i) => DefinitionView::Interface(i@),
            Definition::Alias(a) => DefinitionView::Alias(a@),
        }
    }
}

/// The view of a type is made of the views of its parts.
pub proof fn lemma_type_view(t: Type)
    ensures
        t@ == match t {
            Type::Builtin(b) => TypeView::Builtin(b),
            Type::Path(p) => TypeView::Path(p@),
            Type::Object(o) => TypeView::Object(o@),
            Type::Literal(l) => TypeView::Literal(l@),
            Type::Array(a) => TypeView::Array(Box::new(a@)),
            Type::Union(u) => TypeView::Union(u@),
            Type::Intersection(x) => TypeView::Intersection(Box::new(x@.0), Box::new(x@.1)),
        },
{
    match t {
        Type::Path(p) => {
            assert(t@->Path_0 =~= p@);
        },
        Type::Object(o) => {
            assert(t@->Object_0 =~= o@);
        },
        Type::Union(u) => {
            assert(t@->Union_0 =~= u@);
        },
        _ => {},
    }
}

/// The view of a path segment is made of its name and the views of its
/// arguments.
pub proof fn lemma_segment_view(s: PathSegment)
    ensures
        s@ == (SegmentView {
            name: s.name@,
            arguments: s.arguments@.map_values(|a: Type| a@),
        }),
{
    assert(s@.arguments =~= s.arguments@.map_values(|a: Type| a@));
}

// ---------------------------------------------------------------------------
// Copies
// ---------------------------------------------------------------------------

fn clone_type(t: &Type) -> (r: Type)
    ensures
        r@ == t@,
    decreases t,
{
    let r = match t {
        Type::Builtin(b) => Type::Builtin(*b),
        Type::Path(p) => Type::Path(clone_path(p)),
        Type::Object(o) => Type::Object(clone_object(o)),
        Type::Literal(l) => match l {
            LiteralType::String(s) => Type::Literal(LiteralType::String(s.clone())),
        },
        Type::Array(a) => Type::Array(ArrayType(Box::new(clone_type(&a.0)))),
        Type::Union(u) => Type::Union(clone_union(u)),
        Type::Intersection(x) => Type::Intersection(
            IntersectionType {
                left: Box::new(clone_type(&x.left)),
                right: Box::new(clone_type(&x.right)),
            },
        ),
    };
    proof {
        lemma_type_view(*t);
        lemma_type_view(r);
    }
    r
}

fn clone_path(p: &TypePath) -> (r: TypePath)
    ensures
        r@ == p@,
    decreases p,
{
    let mut segments: Vec<PathSegment> = Vec::new();
    let mut i: usize = 0;
    while i < p.segments.len()
        invariant
            i <= p.segments.len(),
            segments@.len() == i,
            forall|j: int| 0 <= j < i ==> segments@[j]@ == p.segments@[j]@,
        decreases p.segments.len() - i,
    {
        segments.push(clone_segment(&p.segments[i]));
        i += 1;
    }
    let r = TypePath { segments };
    assert(r@ =~= p@);
    r
}

fn clone_segment(s: &PathSegment) -> (r: PathSegment)
    ensures
        r@ == s@,
    decreases s,
{
    let mut arguments: Vec<Type> = Vec::new();
    let mut i: usize = 0;
    while i < s.arguments.len()
        invariant
            i <= s.arguments.len(),
            arguments@.len() == i,
            forall|j: int| 0 <= j < i ==> arguments@[j]@ == s.arguments@[j]@,
        decreases s.arguments.len() - i,
    {
        arguments.push(clone_type(&s.arguments[i]));
        i += 1;
    }
    let r = PathSegment { name: s.name.clone(), arguments };
    proof {
        lemma_segment_view(*s);
        lemma_segment_view(r);
        assert(r@.arguments =~= s@.arguments);
    }
    r
}

fn clone_object(o: &ObjectType) -> (r: ObjectType)
    ensures
        r@ == o@,
    decreases o,
{
    let mut fields: Vec<Field> = Vec::new();
    let mut i: usize = 0;
    while i < o.fields.len()
        invariant
            i <= o.fields.len(),
            fields@.len() == i,
            forall|j: int| 0 <= j < i ==> fields@[j]@ == o.fields@[j]@,
        decreases o.fields.len() - i,
    {
        fields.push(clone_field(&o.fields[i]));
        i += 1;
    }
    let r = ObjectType { fields };
    assert(r@ =~= o@);
    r
}

fn clone_field(f: &Field) -> (r: Field)
    ensures
        r@ == f@,
    decreases f,
{
    Field { name: f.name.clone(), ty: clone_type(&f.ty) }
}

fn clone_union(u: &UnionType) -> (r: UnionType)
    ensures
        r@ == u@,
    decreases u,
{
    let mut variants: Vec<Variant> = Vec::new();
    let mut i: usize = 0;
    while i < u.variants.len()
        invariant
            i <= u.variants.len(),
            variants@.len() == i,
            forall|j: int| 0 <= j < i ==> variants@[j]@ == u.variants@[j]@,
        decreases u.variants.len() - i,
    {
        variants.push(Variant(clone_type(&u.variants[i].0)));
        i += 1;
    }
    let r = UnionType { variants };
    assert(r@ =~= u@);
    r
}

impl Clone for Type {
    /// A copy with the same view.
    fn clone(&self) -> (r: Self)
        ensures
            r@ == self@,
    {
        clone_type(self)
    }
}

impl Clone for TypePath {
    /// A copy with the same view.
    fn clone(&self) -> (r: Self)
        ensures
            r@ == self@,
    {
        clone_path(self)
    }
}

impl Clone for PathSegment {
    /// A copy with the same view.
    fn clone(&self) -> (r: Self)
        ensures
            r@ == self@,
    {
        clone_segment(self)
    }
}

impl Clone for ObjectType {
    /// A copy with the same view.
    fn clone(&self) -> (r: Self)
        ensures
            r@ == self@,
    {
        clone_object(self)
    }
}

impl Clone for Field {
    /// A copy with the same view.
    fn clone(&self) -> (r: Self)
        ensures
            r@ == self@,
    {
        clone_field(self)
    }
}

impl Clone for UnionType {
    /// A copy with the same view.
    fn clone(&self) -> (r: Self)
        ensures
            r@ == self@,
    {
        clone_union(self)
    }
}

impl Clone for Variant {
    /// A copy with the same view.
    fn clone(&self) -> (r: Self)
        ensures
            r@ == self@,
    {
        Variant(clone_type(&self.0))
    }
}

impl Clone for ArrayType {
    /// A copy with the same view.
    fn clone(&self) -> (r: Self)
        ensures
            r@ == self@,
    {
        ArrayType(Box::new(clone_type(&self.0)))
    }
}

impl Clone for IntersectionType {
    /// A copy with the same view.
    fn clone(&self) -> (r: Self)
        ensures
            r@ == self@,
    {
        IntersectionType {
            left: Box::new(clone_type(&self.left)),
            right: Box::new(clone_type(&self.right)),
        }
    }
}

} // verus!
