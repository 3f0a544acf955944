//! Reading a type definition: the description that it has, or the first
//! error in it.
//!
//! A definition is read in the order of the source code, and the first
//! node that the macro does not support gives the error.
use vstd::prelude::*;
use crate::derive::ast::{
    lemma_segment_view, lemma_type_view, Container, Enum, GenericArgument, GenericParameter,
    Item, Lifetime, NamedField, PathSegment, SerdeContainerAttributes, SerdeVariantAttributes,
    Struct, StructVariant, Type, TypePath, TypeReference, UnnamedField, Variant, VariantContent,
    Visibility,
};
use crate::derive::attributes::{
    container_attributes, first_serde_list, read_entries, variant_attributes, SerdeAttribute,
    SerdeAttributeList,
};
use crate::derive::error::{DeriveError, ErrorKind};
use crate::derive::input;
use crate::ir;

verus! {

/// The values of the given results where all are `Ok`, else the first error.
pub open spec fn collect<T, E>(results: Seq<Result<T, E>>) -> Result<Seq<T>, E>
    decreases results.len(),
{
    if results.len() == 0 {
        Ok(Seq::empty())
    } else {
        match collect(results.drop_last()) {
            Ok(values) => match results.last() {
                Ok(value) => Ok(values.push(value)),
                Err(e) => Err(e),
            },
            Err(e) => Err(e),
        }
    }
}

/// An error among the first results is the error of all results.
pub proof fn lemma_collect_error<T, E>(results: Seq<Result<T, E>>, k: int)
    requires
        0 <= k <= results.len(),
        collect(results.take(k)) is Err,
    ensures
        collect(results) == collect(results.take(k)),
    decreases results.len() - k,
{
    if k == results.len() {
        assert(results.take(k) =~= results);
    } else {
        assert(results.take(k + 1).drop_last() =~= results.take(k));
        lemma_collect_error(results, k + 1);
    }
}

/// The results up to one more are those before it and that one.
pub proof fn lemma_collect_next<T, E>(results: Seq<Result<T, E>>, k: int)
    requires
        0 <= k < results.len(),
    ensures
        collect(results.take(k + 1)) == match collect(results.take(k)) {
            Ok(values) => match results[k] {
                Ok(value) => Ok::<Seq<T>, E>(values.push(value)),
                Err(e) => Err(e),
            },
            Err(e) => Err(e),
        },
{
    assert(results.take(k + 1).drop_last() =~= results.take(k));
}

/// The error of the given kind at the given place.
pub open spec fn error_at(kind: ErrorKind, span: proc_macro2::Span) -> DeriveError {
    DeriveError { kind, span }
}

/// The type that is read from `ty`, or the first error in it.
///
/// - A slice, an array, a path and a reference are kept.
/// - A type in a group or between parentheses is the type within.
/// - A function type, the call of a macro and any other type are errors.
pub open spec fn read_type(ty: input::Type) -> Result<ir::TypeView, DeriveError>
    decreases ty, 0int,
{
    match ty {
        input::Type::Slice(elem) => match read_type(*elem) {
            Ok(elem) => Ok(ir::TypeView::Slice(Box::new(elem))),
            Err(e) => Err(e),
        },
        input::Type::Array(elem) => match read_type(*elem) {
            Ok(elem) => Ok(ir::TypeView::Array(Box::new(elem))),
            Err(e) => Err(e),
        },
        input::Type::BareFn(span) => Err(error_at(ErrorKind::FunctionTypes, span)),
        input::Type::Group(elem) => read_type(*elem),
        input::Type::Macro(span) => Err(error_at(ErrorKind::Macros, span)),
        input::Type::Paren(elem) => read_type(*elem),
        input::Type::Path(path) => match read_path(path) {
            Ok(segments) => Ok(ir::TypeView::Path(segments)),
            Err(e) => Err(e),
        },
        input::Type::Reference(reference) => match read_type(*reference.elem) {
            Ok(elem) => Ok(ir::TypeView::Reference(reference.lifetime@, Box::new(elem))),
            Err(e) => Err(e),
        },
        input::Type::Other(span) => Err(error_at(ErrorKind::MiscTypes, span)),
    }
}

/// What is read from each segment of a path.
pub open spec fn read_each_segment(path: input::TypePath) -> Seq<
    Result<ir::SegmentView, DeriveError>,
>
    decreases path, 0int,
{
    Seq::new(
        path.segments@.len(),
        |i: int|
            if 0 <= i < path.segments@.len() {
                read_segment(path.segments@[i])
            } else {
                arbitrary()
            },
    )
}

/// The segments that are read from a path, or the first error in it. A
/// path that is qualified by a self type is an error.
pub open spec fn read_path(path: input::TypePath) -> Result<Seq<ir::SegmentView>, DeriveError>
    decreases path, 1int,
{
    match path.qself {
        Some(span) => Err(error_at(ErrorKind::SelfQualifiedTypes, span)),
        None => collect(read_each_segment(path)),
    }
}

/// What is read from each argument of a segment.
pub open spec fn read_each_argument(segment: input::PathSegment) -> Seq<
    Result<ir::ArgumentView, DeriveError>,
>
    decreases segment, 0int,
{
    Seq::new(
        segment.arguments@.len(),
        |i: int|
            if 0 <= i < segment.arguments@.len() {
                read_argument(segment.arguments@[i])
            } else {
                arbitrary()
            },
    )
}

/// The segment that is read from a segment of a path, or the first error in
/// its arguments.
pub open spec fn read_segment(segment: input::PathSegment) -> Result<ir::SegmentView, DeriveError>
    decreases segment, 1int,
{
    match collect(read_each_argument(segment)) {
        Ok(arguments) => Ok(ir::SegmentView { name: segment.ident@, arguments }),
        Err(e) => Err(e),
    }
}

/// The argument that is read from a generic argument, or the first error in
/// it. A lifetime and a type are kept; any other argument is an error.
pub open spec fn read_argument(argument: input::GenericArgument) -> Result<
    ir::ArgumentView,
    DeriveError,
>
    decreases argument, 0int,
{
    match argument {
        input::GenericArgument::Lifetime(name) => Ok(ir::ArgumentView::Lifetime(name@)),
        input::GenericArgument::Type(ty) => match read_type(ty) {
            Ok(ty) => Ok(ir::ArgumentView::Type(ty)),
            Err(e) => Err(e),
        },
        input::GenericArgument::Const(span) => Err(error_at(ErrorKind::ConstGenerics, span)),
        input::GenericArgument::AssocType(span) => Err(error_at(ErrorKind::MiscTypes, span)),
        input::GenericArgument::AssocConst(span) => Err(error_at(ErrorKind::MiscTypes, span)),
        input::GenericArgument::Constraint(span) => Err(error_at(ErrorKind::GenericBounds, span)),
        input::GenericArgument::Other(span) => Err(
            error_at(ErrorKind::UnknownGenericArgument, span),
        ),
    }
}

/// What is read from a reference: the name of its lifetime and the type
/// that it refers to, or the first error in that type.
pub open spec fn read_reference(reference: input::TypeReference) -> Result<
    (Seq<char>, ir::TypeView),
    DeriveError,
> {
    match read_type(*reference.elem) {
        Ok(elem) => Ok((reference.lifetime@, elem)),
        Err(e) => Err(e),
    }
}

/// Whether `r` is what was to be read: a value with the expected view, or
/// the expected error.
pub open spec fn reads_as<T: View>(r: Result<T, DeriveError>, expected: Result<T::V, DeriveError>)
    -> bool {
    match r {
        Ok(value) => expected == Ok::<T::V, DeriveError>(value@),
        Err(e) => expected == Err::<T::V, DeriveError>(e),
    }
}

impl Type {
    /// Reads a type: see [`read_type`].
    pub fn from_ty(ty: input::Type) -> (r: Result<Self, DeriveError>)
        ensures
            reads_as(r, read_type(ty)),
        decreases ty,
    {
        let r = match ty {
            input::Type::Slice(elem) => match Type::from_ty(*elem) {
                Ok(elem) => Ok(Type::Slice(Box::new(elem))),
                Err(e) => Err(e),
            },
            input::Type::Array(elem) => match Type::from_ty(*elem) {
                Ok(elem) => Ok(Type::Array(Box::new(elem))),
                Err(e) => Err(e),
            },
            input::Type::BareFn(span) => Err(DeriveError { kind: ErrorKind::FunctionTypes, span }),
            input::Type::Group(elem) => Type::from_ty(*elem),
            input::Type::Macro(span) => Err(DeriveError { kind: ErrorKind::Macros, span }),
            input::Type::Paren(elem) => Type::from_ty(*elem),
            input::Type::Path(path) => match TypePath::from_type_path(path) {
                Ok(path) => Ok(Type::Path(path)),
                Err(e) => Err(e),
            },
            input::Type::Reference(reference) => match TypeReference::from_type_reference(
                reference,
            ) {
                Ok(reference) => Ok(Type::Reference(reference)),
                Err(e) => Err(e),
            },
            input::Type::Other(span) => Err(DeriveError { kind: ErrorKind::MiscTypes, span }),
        };
        proof {
            if r is Ok {
                lemma_type_view(r->Ok_0);
            }
        }
        r
    }
}

impl TypeReference {
    /// Reads a reference: see [`read_reference`].
    pub fn from_type_reference(ty: input::TypeReference) -> (r: Result<Self, DeriveError>)
        ensures
            reads_as(r, read_reference(ty)),
        decreases ty,
    {
        match Type::from_ty(*ty.elem) {
            Ok(elem) => Ok(
                TypeReference { lifetime: Lifetime { name: ty.lifetime }, ty: Box::new(elem) },
            ),
            Err(e) => Err(e),
        }
    }
}

impl TypePath {
    /// Reads a path: see [`read_path`].
    #[verifier::loop_isolation(false)]
    pub fn from_type_path(ty: input::TypePath) -> (r: Result<Self, DeriveError>)
        ensures
            reads_as(r, read_path(ty)),
        decreases ty,
    {
        if let Some(span) = ty.qself {
            return Err(DeriveError { kind: ErrorKind::SelfQualifiedTypes, span });
        }
        let ghost results = read_each_segment(ty);
        let mut segments: Vec<PathSegment> = Vec::new();
        proof {
            assert(results.take(0) =~= Seq::empty());
            assert(segments@.map_values(|s: PathSegment| s@) =~= Seq::empty());
        }
        for segment in it: ty.segments
            invariant
                it.seq() == ty.segments@,
                results.len() == ty.segments@.len(),
                forall|i: int| 0 <= i < results.len() ==> results[i] == read_segment(ty.segments@[i]),
                collect(results.take(it.index() as int)) == Ok::<Seq<ir::SegmentView>, DeriveError>(
                    segments@.map_values(|s: PathSegment| s@),
                ),
        {
            proof {
                lemma_collect_next(results, it.index() as int);
            }
            match PathSegment::from_segment(segment) {
                Ok(segment) => {
                    proof {
                        assert(segments@.push(segment).map_values(|s: PathSegment| s@)
                            =~= segments@.map_values(|s: PathSegment| s@).push(segment@));
                    }
                    segments.push(segment);
                },
                Err(e) => {
                    proof {
                        lemma_collect_error(results, it.index() + 1);
                    }
                    return Err(e);
                },
            }
        }
        proof {
            assert(results.take(results.len() as int) =~= results);
        }
        Ok(TypePath { segments })
    }
}

impl PathSegment {
    /// Reads a segment of a path: see [`read_segment`].
    #[verifier::loop_isolation(false)]
    pub fn from_segment(segment: input::PathSegment) -> (r: Result<Self, DeriveError>)
        ensures
            reads_as(r, read_segment(segment)),
        decreases segment,
    {
        let ghost results = read_each_argument(segment);
        let mut arguments: Vec<GenericArgument> = Vec::new();
        proof {
            assert(results.take(0) =~= Seq::empty());
            assert(arguments@.map_values(|a: GenericArgument| a@) =~= Seq::empty());
        }
        for argument in it: segment.arguments
            invariant
                it.seq() == segment.arguments@,
                results.len() == segment.arguments@.len(),
                forall|i: int|
                    0 <= i < results.len() ==> results[i] == read_argument(segment.arguments@[i]),
                collect(results.take(it.index() as int)) == Ok::<
                    Seq<ir::ArgumentView>,
                    DeriveError,
                >(arguments@.map_values(|a: GenericArgument| a@)),
        {
            proof {
                lemma_collect_next(results, it.index() as int);
            }
            match GenericArgument::from_argument(argument) {
                Ok(argument) => {
                    proof {
                        assert(arguments@.push(argument).map_values(|a: GenericArgument| a@)
                            =~= arguments@.map_values(|a: GenericArgument| a@).push(argument@));
                    }
                    arguments.push(argument);
                },
                Err(e) => {
                    proof {
                        lemma_collect_error(results, it.index() + 1);
                    }
                    return Err(e);
                },
            }
        }
        proof {
            assert(results.take(results.len() as int) =~= results);
        }
        let r = PathSegment { name: segment.ident, arguments };
        proof {
            lemma_segment_view(r);
        }
        Ok(r)
    }
}

impl GenericArgument {
    /// Reads a generic argument: see [`read_argument`].
    pub fn from_argument(argument: input::GenericArgument) -> (r: Result<Self, DeriveError>)
        ensures
            reads_as(r, read_argument(argument)),
        decreases argument,
    {
        match argument {
            input::GenericArgument::Lifetime(name) => Ok(GenericArgument::Lifetime(name)),
            input::GenericArgument::Type(ty) => match Type::from_ty(ty) {
                Ok(ty) => Ok(GenericArgument::Type(ty)),
                Err(e) => Err(e),
            },
            input::GenericArgument::Const(span) => Err(
                DeriveError { kind: ErrorKind::ConstGenerics, span },
            ),
            input::GenericArgument::AssocType(span) => Err(
                DeriveError { kind: ErrorKind::MiscTypes, span },
            ),
            input::GenericArgument::AssocConst(span) => Err(
                DeriveError { kind: ErrorKind::MiscTypes, span },
            ),
            input::GenericArgument::Constraint(span) => Err(
                DeriveError { kind: ErrorKind::GenericBounds, span },
            ),
            input::GenericArgument::Other(span) => Err(
                DeriveError { kind: ErrorKind::UnknownGenericArgument, span },
            ),
        }
    }
}

/// The parameter that is read from a generic parameter, or the error in it.
/// A lifetime and a type without bounds are kept; a type with bounds and a
/// constant are errors.
pub open spec fn read_parameter(parameter: input::GenericParam) -> Result<
    ir::ParameterView,
    DeriveError,
> {
    match parameter {
        input::GenericParam::Type { ident, bounds } => match bounds {
            Some(span) => Err(error_at(ErrorKind::GenericBounds, span)),
            None => Ok(ir::ParameterView::Type(ident@)),
        },
        input::GenericParam::Lifetime { ident } => Ok(ir::ParameterView::Lifetime(ident@)),
        input::GenericParam::Const(span) => Err(error_at(ErrorKind::ConstGenerics, span)),
    }
}

/// What is read from each generic parameter.
pub open spec fn read_each_parameter(parameters: Seq<input::GenericParam>) -> Seq<
    Result<ir::ParameterView, DeriveError>,
> {
    Seq::new(parameters.len(), |i: int| read_parameter(parameters[i]))
}

/// The field that is read from a named field, or the first error in its
/// type.
pub open spec fn read_field(field: input::Field) -> Result<ir::FieldView, DeriveError> {
    match read_type(field.ty) {
        Ok(ty) => Ok(ir::FieldView { name: field.ident@, ty }),
        Err(e) => Err(e),
    }
}

/// What is read from each named field.
pub open spec fn read_each_field(fields: Seq<input::Field>) -> Seq<
    Result<ir::FieldView, DeriveError>,
> {
    Seq::new(fields.len(), |i: int| read_field(fields[i]))
}

/// The content of a struct that is read from its fields, or the first error
/// in them. A struct has named fields or exactly one unnamed field.
pub open spec fn read_struct_fields(fields: input::Fields) -> Result<
    ir::StructContentView,
    DeriveError,
> {
    match fields {
        input::Fields::Named(fields) => match collect(read_each_field(fields@)) {
            Ok(fields) => Ok(ir::StructContentView::NamedFields(fields)),
            Err(e) => Err(e),
        },
        input::Fields::Unnamed(types, span) => {
            if types@.len() > 1 {
                Err(error_at(ErrorKind::StructMultipleUnnamedFields, span))
            } else if types@.len() == 1 {
                match read_type(types@[0]) {
                    Ok(ty) => Ok(ir::StructContentView::UnnamedField(ty)),
                    Err(e) => Err(e),
                }
            } else {
                Err(error_at(ErrorKind::UnitStruct, span))
            }
        },
        input::Fields::Unit(span) => Err(error_at(ErrorKind::UnitStruct, span)),
    }
}

/// Whether the fields of a variant can be read: unnamed fields between
/// parentheses are not empty.
pub open spec fn readable_fields(fields: input::Fields) -> bool {
    fields matches input::Fields::Unnamed(types, _) ==> types@.len() > 0
}

/// The content of a variant that is read from its fields, or the first error
/// in them. A variant has no fields, named fields, or exactly one unnamed
/// field.
pub open spec fn read_variant_fields(fields: input::Fields) -> Result<
    ir::VariantContentView,
    DeriveError,
>
    recommends
        readable_fields(fields),
{
    match fields {
        input::Fields::Named(fields) => match collect(read_each_field(fields@)) {
            Ok(fields) => Ok(ir::VariantContentView::Named(fields)),
            Err(e) => Err(e),
        },
        input::Fields::Unnamed(types, span) => {
            if types@.len() > 1 {
                Err(error_at(ErrorKind::EnumMultipleUnnamedFields, span))
            } else {
                match read_type(types@[0]) {
                    Ok(ty) => Ok(ir::VariantContentView::Unnamed(ty)),
                    Err(e) => Err(e),
                }
            }
        },
        input::Fields::Unit(_) => Ok(ir::VariantContentView::Unit),
    }
}

/// The visibility that is read, or the error for a restricted visibility.
pub open spec fn read_visibility(visibility: input::Visibility) -> Result<
    ir::Visibility,
    DeriveError,
> {
    match visibility {
        input::Visibility::Public => Ok(ir::Visibility::Pub),
        input::Visibility::Restricted(span) => Err(error_at(ErrorKind::VisibilityRestricted, span)),
        input::Visibility::Inherited => Ok(ir::Visibility::Inherited),
    }
}

/// The struct that is read, or the first error: in its visibility, then in
/// its generic parameters, then in its fields.
pub open spec fn read_struct(
    visibility: input::Visibility,
    name: Seq<char>,
    generics: Seq<input::GenericParam>,
    fields: input::Fields,
) -> Result<ir::StructView, DeriveError> {
    match read_visibility(visibility) {
        Err(e) => Err(e),
        Ok(visibility) => match collect(read_each_parameter(generics)) {
            Err(e) => Err(e),
            Ok(parameters) => match read_struct_fields(fields) {
                Err(e) => Err(e),
                Ok(content) => Ok(ir::StructView { visibility, name, parameters, content }),
            },
        },
    }
}

/// The error that reading a definition ends with.
pub enum Report {
    /// The given error.
    Error(DeriveError),
    /// An error of `syn`, placed at the given list of a `serde` attribute,
    /// for an entry of the list that names no rename rule.
    InvalidRenameRule(proc_macro2::Span),
}

/// The report of an error, if there is one.
pub open spec fn or_report<T>(r: Result<T, DeriveError>) -> Result<T, Report> {
    match r {
        Ok(value) => Ok(value),
        Err(e) => Err(Report::Error(e)),
    }
}

/// The attributes that the list of a `serde` attribute holds, or the error
/// in it, placed at the list: an entry that names no rename rule, or else
/// the error at which parsing stopped.
pub open spec fn read_list(list: input::MetaList) -> Result<Seq<SerdeAttribute>, Report> {
    match read_entries(list.entries@) {
        Err(_) => Err(Report::InvalidRenameRule(list.span)),
        Ok(attributes) => match list.failure {
            Some(error) => Err(Report::Error(error_at(ErrorKind::Syn(error), list.span))),
            None => Ok(attributes),
        },
    }
}

/// The attributes of a container that are read from the attributes of an
/// item, or the error in the list of its `serde` attribute.
pub open spec fn read_container_attributes(attributes: Seq<input::Attribute>) -> Result<
    ir::AttributesView,
    Report,
> {
    match first_serde_list(attributes) {
        None => Ok(ir::AttributesView { rename: None, rename_all: None, tag: None, content: None }),
        Some(list) => match read_list(list) {
            Ok(attributes) => Ok(container_attributes(attributes)@),
            Err(e) => Err(e),
        },
    }
}

/// The attributes of a variant that are read from the attributes of the
/// variant, or the error in the list of its `serde` attribute.
pub open spec fn read_variant_attributes(attributes: Seq<input::Attribute>) -> Result<
    ir::VariantAttributes,
    Report,
> {
    match first_serde_list(attributes) {
        None => Ok(ir::VariantAttributes { rename: None, rename_all: None }),
        Some(list) => match read_list(list) {
            Ok(attributes) => Ok(variant_attributes(attributes)@),
            Err(e) => Err(e),
        },
    }
}

/// The variant that is read, or the first error: an explicit discriminant,
/// then in its attributes, then in its fields.
pub open spec fn read_variant(variant: input::Variant) -> Result<ir::VariantView, Report>
    recommends
        readable_fields(variant.fields),
{
    match variant.discriminant {
        Some(span) => Err(Report::Error(error_at(ErrorKind::ExplicicitDiscriminant, span))),
        None => match read_variant_attributes(variant.attrs@) {
            Err(e) => Err(e),
            Ok(attributes) => match or_report(read_variant_fields(variant.fields)) {
                Err(e) => Err(e),
                Ok(content) => Ok(ir::VariantView { attributes, name: variant.ident@, content }),
            },
        },
    }
}

/// What is read from each variant.
pub open spec fn read_each_variant(variants: Seq<input::Variant>) -> Seq<
    Result<ir::VariantView, Report>,
> {
    Seq::new(variants.len(), |i: int| read_variant(variants[i]))
}

/// Whether each variant has [`readable_fields`].
pub open spec fn readable_variants(variants: Seq<input::Variant>) -> bool {
    forall|i: int| 0 <= i < variants.len() ==> readable_fields(#[trigger] variants[i].fields)
}

/// The enum that is read, or the first error: in its visibility, then in
/// its generic parameters, then in its variants.
pub open spec fn read_enum(
    visibility: input::Visibility,
    name: Seq<char>,
    generics: Seq<input::GenericParam>,
    variants: Seq<input::Variant>,
) -> Result<ir::EnumView, Report>
    recommends
        readable_variants(variants),
{
    match or_report(read_visibility(visibility)) {
        Err(e) => Err(e),
        Ok(visibility) => match or_report(collect(read_each_parameter(generics))) {
            Err(e) => Err(e),
            Ok(parameters) => match collect(read_each_variant(variants)) {
                Err(e) => Err(e),
                Ok(variants) => Ok(ir::EnumView { visibility, name, parameters, variants }),
            },
        },
    }
}

/// Whether a definition can be read: each variant of an enum has
/// [`readable_fields`].
pub open spec fn readable(definition: input::DeriveInput) -> bool {
    definition.data matches input::Data::Enum(variants) ==> readable_variants(variants@)
}

/// The item that is read from the parts of a definition, or the first error
/// in them. A union is an error.
pub open spec fn read_item_parts(
    vis: input::Visibility,
    ident: Seq<char>,
    generics: Seq<input::GenericParam>,
    data: input::Data,
) -> Result<ir::ItemView, Report> {
    match data {
        input::Data::Struct(fields) => match or_report(read_struct(vis, ident, generics, fields)) {
            Ok(s) => Ok(ir::ItemView::Struct(s)),
            Err(e) => Err(e),
        },
        input::Data::Enum(variants) => match read_enum(vis, ident, generics, variants@) {
            Ok(e) => Ok(ir::ItemView::Enum(e)),
            Err(e) => Err(e),
        },
        input::Data::Union(span) => Err(Report::Error(error_at(ErrorKind::Union, span))),
    }
}

/// The item that is read from a definition, or the first error in it.
pub open spec fn read_item(definition: input::DeriveInput) -> Result<ir::ItemView, Report>
    recommends
        readable(definition),
{
    read_item_parts(definition.vis, definition.ident@, definition.generics@, definition.data)
}

/// The container that is read from a definition, or the first error: in its
/// attributes, then in the item.
pub open spec fn read_container(definition: input::DeriveInput) -> Result<
    ir::ContainerView,
    Report,
>
    recommends
        readable(definition),
{
    match read_container_attributes(definition.attrs@) {
        Err(e) => Err(e),
        Ok(attributes) => match read_item(definition) {
            Err(e) => Err(e),
            Ok(item) => Ok(ir::ContainerView { attributes, item }),
        },
    }
}

/// Whether the error `e` is the one that the report asks for.
pub open spec fn reported_as(e: DeriveError, report: Report) -> bool {
    match report {
        Report::Error(expected) => e == expected,
        Report::InvalidRenameRule(span) => e.kind is Syn && e.span == span,
    }
}

/// Whether `r` is what was to be read: a value with the expected view, or
/// the error that the expected report asks for.
pub open spec fn reports<T: View>(r: Result<T, DeriveError>, expected: Result<T::V, Report>)
    -> bool {
    match r {
        Ok(value) => expected == Ok::<T::V, Report>(value@),
        Err(e) => expected matches Err(report) && reported_as(e, report),
    }
}

impl GenericParameter {
    /// Reads a generic parameter: see [`read_parameter`].
    pub fn from_param(parameter: input::GenericParam) -> (r: Result<Self, DeriveError>)
        ensures
            reads_as(r, read_parameter(parameter)),
    {
        match parameter {
            input::GenericParam::Type { ident, bounds } => match bounds {
                Some(span) => Err(DeriveError { kind: ErrorKind::GenericBounds, span }),
                None => Ok(GenericParameter::Type(ident)),
            },
            input::GenericParam::Lifetime { ident } => Ok(GenericParameter::Lifetime(ident)),
            input::GenericParam::Const(span) => Err(
                DeriveError { kind: ErrorKind::ConstGenerics, span },
            ),
        }
    }

    /// Reads generic parameters in order, up to the first error.
    #[verifier::loop_isolation(false)]
    pub fn from_params(generics: Vec<input::GenericParam>) -> (r: Result<Vec<Self>, DeriveError>)
        ensures
            match r {
                Ok(parameters) => collect(read_each_parameter(generics@)) == Ok::<
                    Seq<ir::ParameterView>,
                    DeriveError,
                >(parameters@.map_values(|p: GenericParameter| p@)),
                Err(e) => collect(read_each_parameter(generics@)) == Err::<
                    Seq<ir::ParameterView>,
                    DeriveError,
                >(e),
            },
    {
        let ghost results = read_each_parameter(generics@);
        let mut parameters: Vec<GenericParameter> = Vec::new();
        proof {
            assert(results.take(0) =~= Seq::empty());
            assert(parameters@.map_values(|p: GenericParameter| p@) =~= Seq::empty());
        }
        for parameter in it: generics
            invariant
                it.seq() == generics@,
                collect(results.take(it.index() as int)) == Ok::<
                    Seq<ir::ParameterView>,
                    DeriveError,
                >(parameters@.map_values(|p: GenericParameter| p@)),
        {
            proof {
                lemma_collect_next(results, it.index() as int);
            }
            match GenericParameter::from_param(parameter) {
                Ok(parameter) => {
                    proof {
                        assert(parameters@.push(parameter).map_values(|p: GenericParameter| p@)
                            =~= parameters@.map_values(|p: GenericParameter| p@).push(parameter@));
                    }
                    parameters.push(parameter);
                },
                Err(e) => {
                    proof {
                        lemma_collect_error(results, it.index() + 1);
                    }
                    return Err(e);
                },
            }
        }
        proof {
            assert(results.take(results.len() as int) =~= results);
        }
        Ok(parameters)
    }
}

impl NamedField {
    /// Reads a named field: see [`read_field`].
    pub fn from_field(field: input::Field) -> (r: Result<Self, DeriveError>)
        ensures
            reads_as(r, read_field(field)),
    {
        match Type::from_ty(field.ty) {
            Ok(ty) => Ok(NamedField { name: field.ident, ty }),
            Err(e) => Err(e),
        }
    }

    /// Reads named fields in order, up to the first error.
    #[verifier::loop_isolation(false)]
    pub fn from_fields(fields: Vec<input::Field>) -> (r: Result<Vec<Self>, DeriveError>)
        ensures
            match r {
                Ok(named) => collect(read_each_field(fields@)) == Ok::<
                    Seq<ir::FieldView>,
                    DeriveError,
                >(named@.map_values(|f: NamedField| f@)),
                Err(e) => collect(read_each_field(fields@)) == Err::<
                    Seq<ir::FieldView>,
                    DeriveError,
                >(e),
            },
    {
        let ghost results = read_each_field(fields@);
        let mut named: Vec<NamedField> = Vec::new();
        proof {
            assert(results.take(0) =~= Seq::empty());
            assert(named@.map_values(|f: NamedField| f@) =~= Seq::empty());
        }
        for field in it: fields
            invariant
                it.seq() == fields@,
                collect(results.take(it.index() as int)) == Ok::<Seq<ir::FieldView>, DeriveError>(
                    named@.map_values(|f: NamedField| f@),
                ),
        {
            proof {
                lemma_collect_next(results, it.index() as int);
            }
            match NamedField::from_field(field) {
                Ok(field) => {
                    proof {
                        assert(named@.push(field).map_values(|f: NamedField| f@)
                            =~= named@.map_values(|f: NamedField| f@).push(field@));
                    }
                    named.push(field);
                },
                Err(e) => {
                    proof {
                        lemma_collect_error(results, it.index() + 1);
                    }
                    return Err(e);
                },
            }
        }
        proof {
            assert(results.take(results.len() as int) =~= results);
        }
        Ok(named)
    }
}

impl StructVariant {
    /// Reads the fields of a struct: see [`read_struct_fields`].
    pub fn from_fields(fields: input::Fields) -> (r: Result<Self, DeriveError>)
        ensures
            reads_as(r, read_struct_fields(fields)),
    {
        match fields {
            input::Fields::Named(fields) => match NamedField::from_fields(fields) {
                Ok(fields) => Ok(StructVariant::NamedFields(fields)),
                Err(e) => Err(e),
            },
            input::Fields::Unnamed(types, span) => {
                let mut types = types;
                if types.len() > 1 {
                    return Err(DeriveError { kind: ErrorKind::StructMultipleUnnamedFields, span });
                }
                match types.pop() {
                    Some(ty) => match Type::from_ty(ty) {
                        Ok(ty) => Ok(StructVariant::UnnamedField(UnnamedField { ty })),
                        Err(e) => Err(e),
                    },
                    None => Err(DeriveError { kind: ErrorKind::UnitStruct, span }),
                }
            },
            input::Fields::Unit(span) => Err(DeriveError { kind: ErrorKind::UnitStruct, span }),
        }
    }
}

impl VariantContent {
    /// Reads the fields of a variant: see [`read_variant_fields`].
    pub fn from_fields(fields: input::Fields) -> (r: Result<Self, DeriveError>)
        requires
            readable_fields(fields),
        ensures
            reads_as(r, read_variant_fields(fields)),
    {
        match fields {
            input::Fields::Named(fields) => match NamedField::from_fields(fields) {
                Ok(fields) => Ok(VariantContent::Named(fields)),
                Err(e) => Err(e),
            },
            input::Fields::Unnamed(types, span) => {
                let mut types = types;
                if types.len() > 1 {
                    return Err(DeriveError { kind: ErrorKind::EnumMultipleUnnamedFields, span });
                }
                let ty = types.pop().unwrap();
                match Type::from_ty(ty) {
                    Ok(ty) => Ok(VariantContent::Unnamed(ty)),
                    Err(e) => Err(e),
                }
            },
            input::Fields::Unit(_) => Ok(VariantContent::Unit),
        }
    }
}

impl Visibility {
    /// Reads a visibility: see [`read_visibility`].
    pub fn from_visibility(visibility: input::Visibility) -> (r: Result<Self, DeriveError>)
        ensures
            reads_as(r, read_visibility(visibility)),
    {
        match visibility {
            input::Visibility::Public => Ok(Visibility::Pub),
            input::Visibility::Restricted(span) => Err(
                DeriveError { kind: ErrorKind::VisibilityRestricted, span },
            ),
            input::Visibility::Inherited => Ok(Visibility::Inherited),
        }
    }
}

impl Struct {
    /// Reads a struct: see [`read_struct`].
    pub fn from_content(
        visibility: input::Visibility,
        name: String,
        generics: Vec<input::GenericParam>,
        fields: input::Fields,
    ) -> (r: Result<Self, DeriveError>)
        ensures
            reads_as(r, read_struct(visibility, name@, generics@, fields)),
    {
        let visibility = match Visibility::from_visibility(visibility) {
            Ok(visibility) => visibility,
            Err(e) => {
                return Err(e);
            },
        };
        let parameters = match GenericParameter::from_params(generics) {
            Ok(parameters) => parameters,
            Err(e) => {
                return Err(e);
            },
        };
        match StructVariant::from_fields(fields) {
            Ok(content) => Ok(Struct { visibility, name, parameters, content }),
            Err(e) => Err(e),
        }
    }
}

impl Variant {
    /// Reads a variant: see [`read_variant`].
    pub fn from_variant(variant: input::Variant) -> (r: Result<Self, DeriveError>)
        requires
            readable_fields(variant.fields),
        ensures
            reports(r, read_variant(variant)),
    {
        let input::Variant { attrs, ident, fields, discriminant } = variant;
        if let Some(span) = discriminant {
            return Err(DeriveError { kind: ErrorKind::ExplicicitDiscriminant, span });
        }
        let serde = match SerdeAttributeList::find(attrs) {
            Some(list) => match SerdeVariantAttributes::from_list(list) {
                Ok(attributes) => Some(attributes),
                Err(e) => {
                    return Err(e);
                },
            },
            None => None,
        };
        match VariantContent::from_fields(fields) {
            Ok(content) => Ok(Variant { serde, name: ident, content }),
            Err(e) => Err(e),
        }
    }

    /// Reads variants in order, up to the first error.
    #[verifier::loop_isolation(false)]
    pub fn from_variants(variants: Vec<input::Variant>) -> (r: Result<Vec<Self>, DeriveError>)
        requires
            readable_variants(variants@),
        ensures
            match r {
                Ok(read) => collect(read_each_variant(variants@)) == Ok::<
                    Seq<ir::VariantView>,
                    Report,
                >(read@.map_values(|v: Variant| v@)),
                Err(e) => collect(read_each_variant(variants@)) matches Err(report)
                    && reported_as(e, report),
            },
    {
        let ghost results = read_each_variant(variants@);
        let mut read: Vec<Variant> = Vec::new();
        proof {
            assert(results.take(0) =~= Seq::empty());
            assert(read@.map_values(|v: Variant| v@) =~= Seq::empty());
        }
        for variant in it: variants
            invariant
                it.seq() == variants@,
                collect(results.take(it.index() as int)) == Ok::<
                    Seq<ir::VariantView>,
                    Report,
                >(read@.map_values(|v: Variant| v@)),
        {
            proof {
                lemma_collect_next(results, it.index() as int);
            }
            match Variant::from_variant(variant) {
                Ok(variant) => {
                    proof {
                        assert(read@.push(variant).map_values(|v: Variant| v@)
                            =~= read@.map_values(|v: Variant| v@).push(variant@));
                    }
                    read.push(variant);
                },
                Err(e) => {
                    proof {
                        lemma_collect_error(results, it.index() + 1);
                    }
                    return Err(e);
                },
            }
        }
        proof {
            assert(results.take(results.len() as int) =~= results);
        }
        Ok(read)
    }
}

impl Enum {
    /// Reads an enum: see [`read_enum`].
    pub fn from_content(
        visibility: input::Visibility,
        name: String,
        generics: Vec<input::GenericParam>,
        variants: Vec<input::Variant>,
    ) -> (r: Result<Self, DeriveError>)
        requires
            readable_variants(variants@),
        ensures
            reports(r, read_enum(visibility, name@, generics@, variants@)),
    {
        let visibility = match Visibility::from_visibility(visibility) {
            Ok(visibility) => visibility,
            Err(e) => {
                return Err(e);
            },
        };
        let parameters = match GenericParameter::from_params(generics) {
            Ok(parameters) => parameters,
            Err(e) => {
                return Err(e);
            },
        };
        match Variant::from_variants(variants) {
            Ok(variants) => Ok(Enum { visibility, name, parameters, variants }),
            Err(e) => Err(e),
        }
    }
}

/// Reads the item of a definition from its parts.
fn item_from_parts(
    vis: input::Visibility,
    ident: String,
    generics: Vec<input::GenericParam>,
    data: input::Data,
) -> (r: Result<Item, DeriveError>)
    requires
        data matches input::Data::Enum(variants) ==> readable_variants(variants@),
    ensures
        reports(r, read_item_parts(vis, ident@, generics@, data)),
{
    match data {
        input::Data::Struct(fields) => match Struct::from_content(vis, ident, generics, fields) {
            Ok(s) => Ok(Item::Struct(s)),
            Err(e) => Err(e),
        },
        input::Data::Enum(variants) => match Enum::from_content(vis, ident, generics, variants) {
            Ok(e) => Ok(Item::Enum(e)),
            Err(e) => Err(e),
        },
        input::Data::Union(span) => Err(DeriveError { kind: ErrorKind::Union, span }),
    }
}

impl Item {
    /// Reads the item of a definition: see [`read_item`].
    pub fn from_input(input: input::DeriveInput) -> (r: Result<Self, DeriveError>)
        requires
            readable(input),
        ensures
            reports(r, read_item(input)),
    {
        let input::DeriveInput { attrs, vis, ident, generics, data } = input;
        item_from_parts(vis, ident, generics, data)
    }
}

impl Container {
    /// Reads a definition: see [`read_container`].
    pub fn from_input(input: input::DeriveInput) -> (r: Result<Self, DeriveError>)
        requires
            readable(input),
        ensures
            reports(r, read_container(input)),
    {
        let input::DeriveInput { attrs, vis, ident, generics, data } = input;
        let serde = match SerdeAttributeList::find(attrs) {
            Some(list) => match SerdeContainerAttributes::from_list(list) {
                Ok(attributes) => Some(attributes),
                Err(e) => {
                    return Err(e);
                },
            },
            None => None,
        };
        match item_from_parts(vis, ident, generics, data) {
            Ok(item) => Ok(Container { serde, item }),
            Err(e) => Err(e),
        }
    }
}

} // verus!
