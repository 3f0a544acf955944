//! Constructors of the nodes of the syntax tree.
use vstd::prelude::*;
use crate::typescript::ast::{
    lemma_type_view, ArrayType, BuiltinType, Field, IntersectionType, LiteralType, ObjectType,
    PathSegment, SegmentView, Type, TypeAlias, TypePath, TypeView, UnionType, Variant,
};
use vstd::string::StringExecFns;

verus! {

impl Type {
    /// Whether the type is a union.
    pub fn is_union(&self) -> (b: bool)
        ensures
            b == (self@ is Union),
    {
        match self {
            Type::Union(_) => true,
            _ => false,
        }
    }

    /// The string literal type of the given string.
    pub(crate) fn literal(value: String) -> (t: Type)
        ensures
            t@ == TypeView::Literal(value@),
    {
        Type::Literal(LiteralType::String(value))
    }

    /// The object type of the given fields.
    pub(crate) fn object(fields: Vec<Field>) -> (t: Type)
        ensures
            t@ == TypeView::Object(fields@.map_values(|f: Field| f@)),
    {
        let t = Type::Object(ObjectType { fields });
        proof {
            lemma_type_view(t);
        }
        t
    }

    /// The object type of one field.
    pub(crate) fn object_of_one(field: Field) -> (t: Type)
        ensures
            t@ == TypeView::Object(seq![field@]),
    {
        let mut fields: Vec<Field> = Vec::new();
        fields.push(field);
        assert(fields@.map_values(|f: Field| f@) =~= seq![field@]);
        Type::object(fields)
    }

    /// The object type of two fields.
    pub(crate) fn object_of_two(first: Field, second: Field) -> (t: Type)
        ensures
            t@ == TypeView::Object(seq![first@, second@]),
    {
        let mut fields: Vec<Field> = Vec::new();
        fields.push(first);
        fields.push(second);
        assert(fields@.map_values(|f: Field| f@) =~= seq![first@, second@]);
        Type::object(fields)
    }

    /// The union of the given variants.
    pub(crate) fn union(variants: Vec<Variant>) -> (t: Type)
        ensures
            t@ == TypeView::Union(variants@.map_values(|v: Variant| v@)),
    {
        let t = Type::Union(UnionType { variants });
        proof {
            lemma_type_view(t);
        }
        t
    }

    /// The intersection of two types.
    pub(crate) fn intersection(left: Type, right: Type) -> (t: Type)
        ensures
            t@ == TypeView::Intersection(Box::new(left@), Box::new(right@)),
    {
        Type::Intersection(IntersectionType { left: Box::new(left), right: Box::new(right) })
    }
}

impl TypeAlias {
    /// Create a new type alias for the type `ty`: not exported, without
    /// generic parameters.
    pub fn alias<T: Into<Type>>(name: &str, ty: T) -> (alias: Self)
        ensures
            !alias.export,
            alias.name@ == name@,
            alias.parameters@.len() == 0,
            call_ensures(T::into, (ty,), alias.ty),
    {
        TypeAlias { export: false, name: String::from_str(name), parameters: Vec::new(), ty: ty.into() }
    }

    /// Mark the type with `export`.
    pub fn exported(self) -> (alias: Self)
        ensures
            alias.export,
            alias.name == self.name,
            alias.parameters == self.parameters,
            alias.ty == self.ty,
    {
        TypeAlias { export: true, name: self.name, parameters: self.parameters, ty: self.ty }
    }
}

impl From<BuiltinType> for Type {
    /// The type that is the given built-in type.
    fn from(value: BuiltinType) -> (r: Self) {
        Type::Builtin(value)
    }
}

impl vstd::std_specs::convert::FromSpecImpl<BuiltinType> for Type {
    open spec fn obeys_from_spec() -> bool {
        true
    }

    open spec fn from_spec(v: BuiltinType) -> Self {
        Type::Builtin(v)
    }
}

impl From<TypePath> for Type {
    /// The type that is the given path.
    fn from(value: TypePath) -> (r: Self) {
        Type::Path(value)
    }
}

impl vstd::std_specs::convert::FromSpecImpl<TypePath> for Type {
    open spec fn obeys_from_spec() -> bool {
        true
    }

    open spec fn from_spec(v: TypePath) -> Self {
        Type::Path(v)
    }
}

impl From<ObjectType> for Type {
    /// The type that is the given object type.
    fn from(value: ObjectType) -> (r: Self) {
        Type::Object(value)
    }
}

impl vstd::std_specs::convert::FromSpecImpl<ObjectType> for Type {
    open spec fn obeys_from_spec() -> bool {
        true
    }

    open spec fn from_spec(v: ObjectType) -> Self {
        Type::Object(v)
    }
}

impl From<LiteralType> for Type {
    /// The type that is the given literal type.
    fn from(value: LiteralType) -> (r: Self) {
        Type::Literal(value)
    }
}

impl vstd::std_specs::convert::FromSpecImpl<LiteralType> for Type {
    open spec fn obeys_from_spec() -> bool {
        true
    }

    open spec fn from_spec(v: LiteralType) -> Self {
        Type::Literal(v)
    }
}

impl From<ArrayType> for Type {
    /// The type that is the given array type.
    fn from(value: ArrayType) -> (r: Self) {
        Type::Array(value)
    }
}

impl vstd::std_specs::convert::FromSpecImpl<ArrayType> for Type {
    open spec fn obeys_from_spec() -> bool {
        true
    }

    open spec fn from_spec(v: ArrayType) -> Self {
        Type::Array(v)
    }
}

impl From<IntersectionType> for Type {
    /// The type that is the given intersection type.
    fn from(value: IntersectionType) -> (r: Self) {
        Type::Intersection(value)
    }
}

impl vstd::std_specs::convert::FromSpecImpl<IntersectionType> for Type {
    open spec fn obeys_from_spec() -> bool {
        true
    }

    open spec fn from_spec(v: IntersectionType) -> Self {
        Type::Intersection(v)
    }
}

impl From<Type> for ArrayType {
    /// The array type with items of the given type.
    fn from(value: Type) -> (r: Self) {
        ArrayType(Box::new(value))
    }
}

impl vstd::std_specs::convert::FromSpecImpl<Type> for ArrayType {
    open spec fn obeys_from_spec() -> bool {
        true
    }

    open spec fn from_spec(v: Type) -> Self {
        ArrayType(Box::new(v))
    }
}

/// The segments of the path made of the given names, none with arguments.
pub open spec fn plain_segments(names: Seq<Seq<char>>) -> Seq<SegmentView> {
    names.map_values(|name: Seq<char>| SegmentView { name, arguments: Seq::empty() })
}

/// The segment of the given name, without arguments.
fn plain_segment(name: &str) -> (segment: PathSegment)
    ensures
        segment@ == (SegmentView { name: name@, arguments: Seq::empty() }),
{
    let segment = PathSegment { name: String::from_str(name), arguments: Vec::new() };
    assert(segment@.arguments =~= Seq::<TypeView>::empty());
    segment
}

impl<const N: usize> From<[&'static str; N]> for TypePath {
    /// The path made of the given names, none with arguments.
    fn from(value: [&'static str; N]) -> (r: Self)
        ensures
            r@ == plain_segments(value@.map_values(|name: &'static str| name@)),
    {
        let ghost names = value@.map_values(|name: &'static str| name@);
        let mut segments: Vec<PathSegment> = Vec::new();
        let mut i: usize = 0;
        while i < N
            invariant
                i <= N,
                value@.len() == N,
                names == value@.map_values(|name: &'static str| name@),
                segments@.len() == i,
                forall|j: int| 0 <= j < i ==> (#[trigger] segments@[j])@ == plain_segments(names)[j],
            decreases N - i,
        {
            segments.push(plain_segment(value[i]));
            i += 1;
        }
        let r = TypePath { segments };
        assert(r@ =~= plain_segments(names));
        r
    }
}

impl<const N: usize> vstd::std_specs::convert::FromSpecImpl<[&'static str; N]> for TypePath {
    open spec fn obeys_from_spec() -> bool {
        false
    }

    open spec fn from_spec(v: [&'static str; N]) -> Self {
        arbitrary()
    }
}

impl From<&'static str> for TypePath {
    /// The path made of the single given name, without arguments.
    fn from(value: &'static str) -> (r: Self)
        ensures
            r@ == plain_segments(seq![value@]),
    {
        let mut segments: Vec<PathSegment> = Vec::new();
        segments.push(plain_segment(value));
        let r = TypePath { segments };
        assert(r@ =~= plain_segments(seq![value@]));
        r
    }
}

impl vstd::std_specs::convert::FromSpecImpl<&'static str> for TypePath {
    open spec fn obeys_from_spec() -> bool {
        false
    }

    open spec fn from_spec(v: &'static str) -> Self {
        arbitrary()
    }
}

} // verus!
