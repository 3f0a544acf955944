//! The TypeScript type that stands for a Rust type.
use vstd::prelude::*;
use crate::ir;
use crate::ir::builtin_of_path;
use crate::text::str_eq;
use crate::typescript::ast::{
    lemma_segment_view, lemma_type_view, ArrayType, BuiltinType, PathSegment, SegmentView, Type,
    TypePath, TypeView, UnionType, Variant,
};
use vstd::string::StringExecFns;

verus! {

/// Why a Rust type has no TypeScript type.
#[derive(Clone, Copy, Debug, PartialEq, Eq)]
pub enum TypeMappingErrorKind {
    /// The first argument of a `Vec` or an `Option` is missing, or is a
    /// lifetime.
    MalformedCollectionArgument,
}

/// The error for a Rust type that has no TypeScript type.
#[derive(Clone, Copy, Debug, PartialEq, Eq)]
pub struct TypeMappingError {
    /// Why the type has no TypeScript type.
    pub kind: TypeMappingErrorKind,
}

/// The TypeScript type of a built-in Rust type: `boolean` for `bool`,
/// `string` for `char`, `number` for every numeric type.
pub open spec fn mapped_builtin(builtin: ir::BuiltinType) -> BuiltinType {
    match builtin {
        ir::BuiltinType::Bool => BuiltinType::Boolean,
        ir::BuiltinType::Char => BuiltinType::String,
        _ => BuiltinType::Number,
    }
}

/// Whether a type is the path made of the single segment `str`.
pub open spec fn is_str(t: ir::TypeView) -> bool {
    t matches ir::TypeView::Path(segments) && segments.len() == 1 && segments[0].name == "str"@
}

/// Whether a path names a collection of one type: its first segment is `Vec`
/// or `Option`.
pub open spec fn is_collection(segments: Seq<ir::SegmentView>) -> bool {
    segments.len() > 0 && (segments[0].name == "Vec"@ || segments[0].name == "Option"@)
}

/// Whether a Rust type has a TypeScript type: wherever it names a `Vec` or an
/// `Option`, the first argument is a type.
pub open spec fn mappable(t: ir::TypeView) -> bool
    decreases t, 0int,
{
    match t {
        ir::TypeView::Path(segments) => {
            if builtin_of_path(segments) is Some {
                true
            } else if segments.len() == 0 {
                true
            } else if segments[0].name == "String"@ {
                true
            } else if is_collection(segments) {
                if segments[0].arguments.len() > 0 {
                    match segments[0].arguments[0] {
                        ir::ArgumentView::Type(item) => mappable(item),
                        ir::ArgumentView::Lifetime(_) => false,
                    }
                } else {
                    false
                }
            } else {
                segments_mappable(segments)
            }
        },
        ir::TypeView::Reference(_, inner) => is_str(*inner) || mappable(*inner),
        ir::TypeView::Slice(inner) => mappable(*inner),
        ir::TypeView::Array(inner) => mappable(*inner),
    }
}

/// Whether every type argument of every segment has a TypeScript type.
pub open spec fn segments_mappable(segments: Seq<ir::SegmentView>) -> bool
    decreases segments, 0int,
{
    if segments.len() == 0 {
        true
    } else {
        segments_mappable(segments.drop_last()) && arguments_mappable(segments.last().arguments)
    }
}

/// Whether every type argument has a TypeScript type.
pub open spec fn arguments_mappable(arguments: Seq<ir::ArgumentView>) -> bool
    decreases arguments, 0int,
{
    if arguments.len() == 0 {
        true
    } else {
        arguments_mappable(arguments.drop_last()) && match arguments.last() {
            ir::ArgumentView::Type(t) => mappable(t),
            ir::ArgumentView::Lifetime(_) => true,
        }
    }
}

/// The TypeScript type that stands for a Rust type.
///
/// - A built-in type gives `boolean`, `string` or `number`.
/// - A path that starts with `String` gives `string`.
/// - A path that starts with `Vec` gives an array of its first argument.
/// - A path that starts with `Option` gives the union of its first argument
///   and `null`.
/// - Any other path gives a path of the same names, with the type arguments
///   of each segment.
/// - A reference to `str` gives `string`; any other reference gives what it
///   refers to.
/// - A slice or an array gives an array.
///
/// Nothing is said of a type that is not [`mappable`].
pub open spec fn mapped_type(t: ir::TypeView) -> TypeView
    recommends
        mappable(t),
    decreases t, 0int,
{
    match t {
        ir::TypeView::Path(segments) => {
            if let Some(builtin) = builtin_of_path(segments) {
                TypeView::Builtin(mapped_builtin(builtin))
            } else if segments.len() == 0 {
                TypeView::Path(Seq::empty())
            } else if segments[0].name == "String"@ {
                TypeView::Builtin(BuiltinType::String)
            } else if is_collection(segments) {
                if segments[0].arguments.len() > 0 {
                    match segments[0].arguments[0] {
                        ir::ArgumentView::Type(item) => collection_of(
                            segments[0].name,
                            mapped_type(item),
                        ),
                        ir::ArgumentView::Lifetime(_) => arbitrary(),
                    }
                } else {
                    arbitrary()
                }
            } else {
                TypeView::Path(mapped_segments(segments))
            }
        },
        ir::TypeView::Reference(_, inner) => {
            if is_str(*inner) {
                TypeView::Builtin(BuiltinType::String)
            } else {
                mapped_type(*inner)
            }
        },
        ir::TypeView::Slice(inner) => TypeView::Array(Box::new(mapped_type(*inner))),
        ir::TypeView::Array(inner) => TypeView::Array(Box::new(mapped_type(*inner))),
    }
}

/// The TypeScript type of a collection of `item`: an array for `Vec`, the
/// union of `item` and `null` for `Option`.
pub open spec fn collection_of(name: Seq<char>, item: TypeView) -> TypeView {
    if name == "Vec"@ {
        TypeView::Array(Box::new(item))
    } else {
        TypeView::Union(seq![item, TypeView::Builtin(BuiltinType::Null)])
    }
}

/// The segments of a path that names a type declared elsewhere: each keeps
/// its name and its type arguments.
pub open spec fn mapped_segments(segments: Seq<ir::SegmentView>) -> Seq<SegmentView>
    decreases segments, 0int,
{
    if segments.len() == 0 {
        Seq::empty()
    } else {
        mapped_segments(segments.drop_last()).push(
            SegmentView {
                name: segments.last().name,
                arguments: mapped_arguments(segments.last().arguments),
            },
        )
    }
}

/// The type arguments among the given arguments, in order; lifetimes are
/// dropped.
pub open spec fn mapped_arguments(arguments: Seq<ir::ArgumentView>) -> Seq<TypeView>
    decreases arguments, 0int,
{
    if arguments.len() == 0 {
        Seq::empty()
    } else {
        let init = mapped_arguments(arguments.drop_last());
        match arguments.last() {
            ir::ArgumentView::Type(t) => init.push(mapped_type(t)),
            ir::ArgumentView::Lifetime(_) => init,
        }
    }
}

/// A prefix of mappable arguments is mappable.
pub proof fn lemma_arguments_mappable_prefix(arguments: Seq<ir::ArgumentView>, k: int)
    requires
        arguments_mappable(arguments),
        0 <= k <= arguments.len(),
    ensures
        arguments_mappable(arguments.take(k)),
    decreases arguments.len(),
{
    if k == arguments.len() {
        assert(arguments.take(k) =~= arguments);
    } else {
        assert(arguments.drop_last().take(k) =~= arguments.take(k));
        lemma_arguments_mappable_prefix(arguments.drop_last(), k);
    }
}

/// A prefix of mappable segments is mappable.
pub proof fn lemma_segments_mappable_prefix(segments: Seq<ir::SegmentView>, k: int)
    requires
        segments_mappable(segments),
        0 <= k <= segments.len(),
    ensures
        segments_mappable(segments.take(k)),
    decreases segments.len(),
{
    if k == segments.len() {
        assert(segments.take(k) =~= segments);
    } else {
        assert(segments.drop_last().take(k) =~= segments.take(k));
        lemma_segments_mappable_prefix(segments.drop_last(), k);
    }
}

impl TypeMappingError {
    /// The error for a `Vec` or an `Option` whose first argument is missing
    /// or is a lifetime.
    pub fn malformed_collection_argument() -> (e: Self)
        ensures
            e.kind == TypeMappingErrorKind::MalformedCollectionArgument,
    {
        TypeMappingError { kind: TypeMappingErrorKind::MalformedCollectionArgument }
    }
}

impl From<ir::BuiltinType> for BuiltinType {
    /// `boolean` for `bool`, `string` for `char`, `number` for every numeric
    /// type.
    fn from(builtin: ir::BuiltinType) -> (r: Self) {
        match builtin {
            ir::BuiltinType::Bool => BuiltinType::Boolean,
            ir::BuiltinType::U8
            | ir::BuiltinType::U16
            | ir::BuiltinType::U32
            | ir::BuiltinType::U64
            | ir::BuiltinType::U128
            | ir::BuiltinType::Usize
            | ir::BuiltinType::I8
            | ir::BuiltinType::I16
            | ir::BuiltinType::I32
            | ir::BuiltinType::I64
            | ir::BuiltinType::I128
            | ir::BuiltinType::Isize
            | ir::BuiltinType::F32
            | ir::BuiltinType::F64 => BuiltinType::Number,
            ir::BuiltinType::Char => BuiltinType::String,
        }
    }
}

impl vstd::std_specs::convert::FromSpecImpl<ir::BuiltinType> for BuiltinType {
    open spec fn obeys_from_spec() -> bool {
        true
    }

    open spec fn from_spec(v: ir::BuiltinType) -> Self {
        mapped_builtin(v)
    }
}

/// Whether `ty` is the path made of the single segment `str`.
fn is_str_type(ty: &ir::Type) -> (b: bool)
    ensures
        b == is_str(ty@),
{
    proof {
        ir::lemma_type_view(*ty);
    }
    match ty {
        ir::Type::Path(path) => {
            if path.segments.len() == 1 {
                proof {
                    ir::lemma_segment_view(path.segments@[0]);
                }
                str_eq(path.segments[0].name, "str")
            } else {
                false
            }
        },
        _ => false,
    }
}

/// The TypeScript type that stands for a Rust type, or the error for a
/// `Vec` or an `Option` in it whose first argument is not a type.
pub fn map_type(ty: &ir::Type) -> (r: Result<Type, TypeMappingError>)
    ensures
        match r {
            Ok(t) => mappable(ty@) && t@ == mapped_type(ty@),
            Err(e) => !mappable(ty@) && e.kind == TypeMappingErrorKind::MalformedCollectionArgument,
        },
    decreases ty, 0int,
{
    proof {
        ir::lemma_type_view(*ty);
    }
    match ty {
        ir::Type::Path(path) => map_path(path),
        ir::Type::Reference(reference) => {
            if is_str_type(&reference.ty) {
                Ok(Type::Builtin(BuiltinType::String))
            } else {
                map_type(&reference.ty)
            }
        },
        ir::Type::Slice(slice) => match map_type(&slice.0) {
            Ok(item) => Ok(Type::Array(ArrayType(Box::new(item)))),
            Err(e) => Err(e),
        },
        ir::Type::Array(array) => match map_type(&array.0) {
            Ok(item) => Ok(Type::Array(ArrayType(Box::new(item)))),
            Err(e) => Err(e),
        },
    }
}

/// The TypeScript type that stands for a path.
pub fn map_path(path: &ir::TypePath) -> (r: Result<Type, TypeMappingError>)
    ensures
        match r {
            Ok(t) => mappable(ir::TypeView::Path(path@)) && t@ == mapped_type(
                ir::TypeView::Path(path@),
            ),
            Err(e) => !mappable(ir::TypeView::Path(path@)) && e.kind
                == TypeMappingErrorKind::MalformedCollectionArgument,
        },
    decreases path, 1int,
{
    match ir::BuiltinType::from_path(path) {
        Some(builtin) => Ok(Type::Builtin(BuiltinType::from(builtin))),
        None => {
            if path.segments.len() == 0 {
                let t = Type::Path(TypePath { segments: Vec::new() });
                proof {
                    lemma_type_view(t);
                    assert(t@->Path_0 =~= Seq::<SegmentView>::empty());
                }
                return Ok(t);
            }
            let first = &path.segments[0];
            proof {
                ir::lemma_segment_view(*first);
            }
            if str_eq(first.name, "String") {
                Ok(Type::Builtin(BuiltinType::String))
            } else {
                let is_vec = str_eq(first.name, "Vec");
                if is_vec || str_eq(first.name, "Option") {
                    if first.arguments.len() == 0 {
                        return Err(TypeMappingError::malformed_collection_argument());
                    }
                    match &first.arguments[0] {
                        ir::GenericArgument::Type(item) => match map_type(item) {
                            Ok(item) => {
                                if is_vec {
                                    Ok(Type::Array(ArrayType(Box::new(item))))
                                } else {
                                    let mut variants: Vec<Variant> = Vec::new();
                                    variants.push(Variant(item));
                                    variants.push(Variant(Type::Builtin(BuiltinType::Null)));
                                    let t = Type::Union(UnionType { variants });
                                    proof {
                                        lemma_type_view(t);
                                        assert(t@->Union_0 =~= seq![
                                            item@,
                                            TypeView::Builtin(BuiltinType::Null),
                                        ]);
                                    }
                                    Ok(t)
                                }
                            },
                            Err(e) => Err(e),
                        },
                        ir::GenericArgument::Lifetime(_) => Err(
                            TypeMappingError::malformed_collection_argument(),
                        ),
                    }
                } else {
                    match map_segments(path) {
                        Ok(segments) => {
                            let t = Type::Path(TypePath { segments });
                            proof {
                                lemma_type_view(t);
                            }
                            Ok(t)
                        },
                        Err(e) => Err(e),
                    }
                }
            }
        },
    }
}

/// The segments of a path, each with its name and its type arguments.
pub fn map_segments(path: &ir::TypePath) -> (r: Result<Vec<PathSegment>, TypeMappingError>)
    ensures
        match r {
            Ok(segments) => segments_mappable(path@) && segments@.map_values(|s: PathSegment| s@)
                == mapped_segments(path@),
            Err(e) => !segments_mappable(path@) && e.kind
                == TypeMappingErrorKind::MalformedCollectionArgument,
        },
    decreases path, 0int,
{
    let mut segments: Vec<PathSegment> = Vec::new();
    let mut i: usize = 0;
    while i < path.segments.len()
        invariant
            i <= path.segments.len(),
            segments_mappable(path@.take(i as int)),
            segments@.map_values(|s: PathSegment| s@) == mapped_segments(path@.take(i as int)),
        decreases path.segments.len() - i,
    {
        proof {
            assert(path@.take(i + 1).drop_last() =~= path@.take(i as int));
            assert(path@.take(i + 1).last() == path.segments@[i as int]@);
        }
        match map_segment(&path.segments[i]) {
            Ok(segment) => {
                proof {
                    assert(segments@.push(segment).map_values(|s: PathSegment| s@)
                        =~= segments@.map_values(|s: PathSegment| s@).push(segment@));
                }
                segments.push(segment);
            },
            Err(e) => {
                proof {
                    if segments_mappable(path@) {
                        lemma_segments_mappable_prefix(path@, i + 1);
                    }
                }
                return Err(e);
            },
        }
        i += 1;
    }
    proof {
        assert(path@.take(i as int) =~= path@);
    }
    Ok(segments)
}

/// A segment with its name and its type arguments; lifetimes are dropped.
pub fn map_segment(segment: &ir::PathSegment) -> (r: Result<PathSegment, TypeMappingError>)
    ensures
        match r {
            Ok(s) => arguments_mappable(segment@.arguments) && s@ == (SegmentView {
                name: segment@.name,
                arguments: mapped_arguments(segment@.arguments),
            }),
            Err(e) => !arguments_mappable(segment@.arguments) && e.kind
                == TypeMappingErrorKind::MalformedCollectionArgument,
        },
    decreases segment, 0int,
{
    proof {
        ir::lemma_segment_view(*segment);
    }
    let ghost given = segment@.arguments;
    let mut arguments: Vec<Type> = Vec::new();
    let mut i: usize = 0;
    while i < segment.arguments.len()
        invariant
            i <= segment.arguments.len(),
            given == segment@.arguments,
            given == segment.arguments@.map_values(|a: ir::GenericArgument| a@),
            arguments_mappable(given.take(i as int)),
            arguments@.map_values(|t: Type| t@) == mapped_arguments(given.take(i as int)),
        decreases segment.arguments.len() - i,
    {
        proof {
            assert(given.take(i + 1).drop_last() =~= given.take(i as int));
            assert(given.take(i + 1).last() == segment.arguments@[i as int]@);
        }
        match &segment.arguments[i] {
            ir::GenericArgument::Type(ty) => match map_type(ty) {
                Ok(t) => {
                    proof {
                        assert(arguments@.push(t).map_values(|t: Type| t@)
                            =~= arguments@.map_values(|t: Type| t@).push(t@));
                    }
                    arguments.push(t);
                },
                Err(e) => {
                    proof {
                        if arguments_mappable(given) {
                            lemma_arguments_mappable_prefix(given, i + 1);
                        }
                    }
                    return Err(e);
                },
            },
            ir::GenericArgument::Lifetime(_) => {},
        }
        i += 1;
    }
    proof {
        assert(given.take(i as int) =~= given);
    }
    let s = PathSegment { name: String::from_str(segment.name), arguments };
    proof {
        lemma_segment_view(s);
    }
    Ok(s)
}

impl TryFrom<ir::Type> for Type {
    type Error = TypeMappingError;

    /// The TypeScript type that stands for a Rust type, or the error for a
    /// `Vec` or an `Option` in it whose first argument is not a type.
    fn try_from(ty: ir::Type) -> (r: Result<Self, TypeMappingError>)
        ensures
            match r {
                Ok(t) => mappable(ty@) && t@ == mapped_type(ty@),
                Err(e) => !mappable(ty@) && e.kind
                    == TypeMappingErrorKind::MalformedCollectionArgument,
            },
    {
        map_type(&ty)
    }
}

impl vstd::std_specs::convert::TryFromSpecImpl<ir::Type> for Type {
    open spec fn obeys_try_from_spec() -> bool {
        false
    }

    open spec fn try_from_spec(v: ir::Type) -> Result<Self, TypeMappingError> {
        arbitrary()
    }
}

impl TryFrom<ir::TypePath> for TypePath {
    type Error = TypeMappingError;

    /// The path of the same names, each segment with its type arguments.
    fn try_from(value: ir::TypePath) -> (r: Result<Self, TypeMappingError>)
        ensures
            match r {
                Ok(path) => segments_mappable(value@) && path@ == mapped_segments(value@),
                Err(e) => !segments_mappable(value@) && e.kind
                    == TypeMappingErrorKind::MalformedCollectionArgument,
            },
    {
        match map_segments(&value) {
            Ok(segments) => Ok(TypePath { segments }),
            Err(e) => Err(e),
        }
    }
}

impl vstd::std_specs::convert::TryFromSpecImpl<ir::TypePath> for TypePath {
    open spec fn obeys_try_from_spec() -> bool {
        false
    }

    open spec fn try_from_spec(v: ir::TypePath) -> Result<Self, TypeMappingError> {
        arbitrary()
    }
}

impl TryFrom<ir::PathSegment> for PathSegment {
    type Error = TypeMappingError;

    /// The segment of the same name, with its type arguments.
    fn try_from(value: ir::PathSegment) -> (r: Result<Self, TypeMappingError>)
        ensures
            match r {
                Ok(s) => arguments_mappable(value@.arguments) && s@ == (SegmentView {
                    name: value@.name,
                    arguments: mapped_arguments(value@.arguments),
                }),
                Err(e) => !arguments_mappable(value@.arguments) && e.kind
                    == TypeMappingErrorKind::MalformedCollectionArgument,
            },
    {
        map_segment(&value)
    }
}

impl vstd::std_specs::convert::TryFromSpecImpl<ir::PathSegment> for PathSegment {
    open spec fn obeys_try_from_spec() -> bool {
        false
    }

    open spec fn try_from_spec(v: ir::PathSegment) -> Result<Self, TypeMappingError> {
        arbitrary()
    }
}

impl TryFrom<ir::SliceType> for ArrayType {
    type Error = TypeMappingError;

    /// The array of the TypeScript type of the items of a slice.
    fn try_from(value: ir::SliceType) -> (r: Result<Self, TypeMappingError>)
        ensures
            match r {
                Ok(array) => mappable(value@) && array@ == mapped_type(value@),
                Err(e) => !mappable(value@) && e.kind
                    == TypeMappingErrorKind::MalformedCollectionArgument,
            },
    {
        match map_type(&value.0) {
            Ok(item) => Ok(ArrayType(Box::new(item))),
            Err(e) => Err(e),
        }
    }
}

impl vstd::std_specs::convert::TryFromSpecImpl<ir::SliceType> for ArrayType {
    open spec fn obeys_try_from_spec() -> bool {
        false
    }

    open spec fn try_from_spec(v: ir::SliceType) -> Result<Self, TypeMappingError> {
        arbitrary()
    }
}

impl TryFrom<ir::ArrayType> for ArrayType {
    type Error = TypeMappingError;

    /// The array of the TypeScript type of the items of an array.
    fn try_from(value: ir::ArrayType) -> (r: Result<Self, TypeMappingError>)
        ensures
            match r {
                Ok(array) => mappable(value@) && array@ == mapped_type(value@),
                Err(e) => !mappable(value@) && e.kind
                    == TypeMappingErrorKind::MalformedCollectionArgument,
            },
    {
        match map_type(&value.0) {
            Ok(item) => Ok(ArrayType(Box::new(item))),
            Err(e) => Err(e),
        }
    }
}

impl vstd::std_specs::convert::TryFromSpecImpl<ir::ArrayType> for ArrayType {
    open spec fn obeys_try_from_spec() -> bool {
        false
    }

    open spec fn try_from_spec(v: ir::ArrayType) -> Result<Self, TypeMappingError> {
        arbitrary()
    }
}

} // verus!
