//! The union type that stands for an enum.
//!
//! A variant is represented in one of three ways, chosen by the `tag` and
//! `content` attributes of the container:
//!
//! - externally tagged (no `tag`): the name of the variant is the key that
//!   holds its content;
//! - adjacently tagged (`tag` and `content`): the name of the variant and its
//!   content are two fields of one object;
//! - internally tagged (`tag` alone): the name of the variant is a field that
//!   is joined with the fields of its content.
//!
//! The name of a variant is renamed by the `rename` rule of the variant, or
//! else by the `rename_all` rule of the container. The fields of a variant
//! are renamed by the `rename_all` rule of that variant alone.
use vstd::prelude::*;
use crate::ir;
use crate::ir::RenameRule;
use crate::typescript::ast::{
    Field, FieldView, Type, TypeAlias, TypeAliasView, TypeView, UnionType, Variant,
};
use crate::typescript::mapping::{
    map_type, mappable, mapped_type, TypeMappingError, TypeMappingErrorKind,
};
use crate::typescript::rename::{renamed_field, renamed_type, Renamer};
use vstd::string::StringExecFns;

verus! {

/// Whether the type of each field has a TypeScript type.
pub open spec fn fields_mappable(fields: Seq<ir::FieldView>) -> bool {
    forall|i: int| 0 <= i < fields.len() ==> mappable(#[trigger] fields[i].ty)
}

/// The given fields, each renamed by `rule` and with its TypeScript type.
pub open spec fn mapped_fields(rule: Option<RenameRule>, fields: Seq<ir::FieldView>) -> Seq<
    FieldView,
> {
    Seq::new(
        fields.len(),
        |i: int| FieldView { name: renamed_field(rule, fields[i].name), ty: mapped_type(fields[i].ty) },
    )
}

/// The names of the type parameters among the given parameters, in order;
/// lifetimes are dropped.
pub open spec fn type_parameters(parameters: Seq<ir::ParameterView>) -> Seq<Seq<char>> {
    parameters.filter(|p: ir::ParameterView| p is Type).map_values(
        |p: ir::ParameterView| p->Type_0,
    )
}

/// The rule by which the name of a variant is renamed: the `rename` rule of
/// the variant, or else the `rename_all` rule of the container.
pub open spec fn variant_rule(rename_all: Option<RenameRule>, variant: ir::VariantView) -> Option<
    RenameRule,
> {
    match variant.attributes.rename {
        Some(rule) => Some(rule),
        None => rename_all,
    }
}

/// The name of a variant after renaming.
pub open spec fn variant_name(rename_all: Option<RenameRule>, variant: ir::VariantView) -> Seq<
    char,
> {
    renamed_type(variant_rule(rename_all, variant), variant.name)
}

/// The fields of a variant, renamed by the `rename_all` rule of the variant
/// and each with its TypeScript type.
pub open spec fn variant_fields(variant: ir::VariantView, fields: Seq<ir::FieldView>) -> Seq<
    FieldView,
> {
    mapped_fields(variant.attributes.rename_all, fields)
}

/// Whether every type in the content of a variant has a TypeScript type.
pub open spec fn variant_mappable(variant: ir::VariantView) -> bool {
    match variant.content {
        ir::VariantContentView::Unit => true,
        ir::VariantContentView::Unnamed(ty) => mappable(ty),
        ir::VariantContentView::Named(fields) => fields_mappable(fields),
    }
}

/// Whether every variant is [`variant_mappable`].
pub open spec fn variants_mappable(variants: Seq<ir::VariantView>) -> bool {
    forall|i: int| 0 <= i < variants.len() ==> variant_mappable(#[trigger] variants[i])
}

/// The object with the single field `tag`, whose type is the literal `name`.
pub open spec fn tag_object(tag: Seq<char>, name: Seq<char>) -> TypeView {
    TypeView::Object(seq![FieldView { name: tag, ty: TypeView::Literal(name) }])
}

/// An externally tagged variant.
///
/// - A unit variant is the literal of its name.
/// - A variant with an unnamed field is an object with one field, named as
///   the variant, that holds the type of the unnamed field.
/// - A variant with named fields is an object with one field, named as the
///   variant, that holds the object of the fields of the variant.
pub open spec fn externally_tagged(rename_all: Option<RenameRule>, variant: ir::VariantView)
    -> TypeView
    recommends
        variant_mappable(variant),
{
    let name = variant_name(rename_all, variant);
    match variant.content {
        ir::VariantContentView::Unit => TypeView::Literal(name),
        ir::VariantContentView::Unnamed(ty) => TypeView::Object(
            seq![FieldView { name, ty: mapped_type(ty) }],
        ),
        ir::VariantContentView::Named(fields) => TypeView::Object(
            seq![FieldView { name, ty: TypeView::Object(variant_fields(variant, fields)) }],
        ),
    }
}

/// An adjacently tagged variant: an object whose field `tag` holds the
/// literal of the name of the variant.
///
/// - A unit variant has no other field.
/// - A variant with an unnamed field has a second field, `content`, that
///   holds the type of the unnamed field.
/// - A variant with named fields has a second field, `content`, that holds
///   the object of the fields of the variant.
pub open spec fn adjacently_tagged(
    rename_all: Option<RenameRule>,
    tag: Seq<char>,
    content: Seq<char>,
    variant: ir::VariantView,
) -> TypeView
    recommends
        variant_mappable(variant),
{
    let tag_field = FieldView {
        name: tag,
        ty: TypeView::Literal(variant_name(rename_all, variant)),
    };
    match variant.content {
        ir::VariantContentView::Unit => TypeView::Object(seq![tag_field]),
        ir::VariantContentView::Unnamed(ty) => TypeView::Object(
            seq![tag_field, FieldView { name: content, ty: mapped_type(ty) }],
        ),
        ir::VariantContentView::Named(fields) => TypeView::Object(
            seq![
                tag_field,
                FieldView { name: content, ty: TypeView::Object(variant_fields(variant, fields)) },
            ],
        ),
    }
}

/// An internally tagged variant.
///
/// - A unit variant is the object whose field `tag` holds the literal of the
///   name of the variant.
/// - A variant with an unnamed field is the intersection of that object and
///   the type of the unnamed field.
/// - A variant with named fields is the intersection of that object and the
///   object of the fields of the variant.
pub open spec fn internally_tagged(
    rename_all: Option<RenameRule>,
    tag: Seq<char>,
    variant: ir::VariantView,
) -> TypeView
    recommends
        variant_mappable(variant),
{
    let tagged = tag_object(tag, variant_name(rename_all, variant));
    match variant.content {
        ir::VariantContentView::Unit => tagged,
        ir::VariantContentView::Unnamed(ty) => TypeView::Intersection(
            Box::new(tagged),
            Box::new(mapped_type(ty)),
        ),
        ir::VariantContentView::Named(fields) => TypeView::Intersection(
            Box::new(tagged),
            Box::new(TypeView::Object(variant_fields(variant, fields))),
        ),
    }
}

/// How the variants of an enum are represented.
pub enum Tagging {
    /// The name of the variant is the key that holds its content.
    External,
    /// The name of the variant and its content are held by the two fields
    /// named here.
    Adjacent {
        /// The name of the field that holds the name of the variant.
        tag: Seq<char>,
        /// The name of the field that holds the content of the variant.
        content: Seq<char>,
    },
    /// The name of the variant is held by the field named here, beside the
    /// fields of its content.
    Internal {
        /// The name of the field that holds the name of the variant.
        tag: Seq<char>,
    },
}

/// The representation that the `tag` and `content` attributes of a container
/// select. Without `tag`, `content` has no meaning.
pub open spec fn tagging_of(tag: Option<Seq<char>>, content: Option<Seq<char>>) -> Tagging {
    match tag {
        None => Tagging::External,
        Some(tag) => match content {
            None => Tagging::Internal { tag },
            Some(content) => Tagging::Adjacent { tag, content },
        },
    }
}

/// A variant in the given representation.
pub open spec fn tagged_variant(
    tagging: Tagging,
    rename_all: Option<RenameRule>,
    variant: ir::VariantView,
) -> TypeView
    recommends
        variant_mappable(variant),
{
    match tagging {
        Tagging::External => externally_tagged(rename_all, variant),
        Tagging::Adjacent { tag, content } => adjacently_tagged(rename_all, tag, content, variant),
        Tagging::Internal { tag } => internally_tagged(rename_all, tag, variant),
    }
}

/// The cases of the union that stands for an enum: one for each variant, in
/// the order of declaration.
pub open spec fn tagged_variants(
    tagging: Tagging,
    rename_all: Option<RenameRule>,
    variants: Seq<ir::VariantView>,
) -> Seq<TypeView>
    recommends
        variants_mappable(variants),
{
    Seq::new(variants.len(), |i: int| tagged_variant(tagging, rename_all, variants[i]))
}

/// The type alias that stands for an enum: exported where the enum is
/// public, named as the enum after renaming by `rename`, with the type
/// parameters of the enum, and defined as the union of its variants.
pub open spec fn tagged_alias(
    tagging: Tagging,
    rename: Option<RenameRule>,
    rename_all: Option<RenameRule>,
    ty: ir::EnumView,
) -> TypeAliasView
    recommends
        variants_mappable(ty.variants),
{
    TypeAliasView {
        export: ty.visibility is Pub,
        name: renamed_type(rename, ty.name),
        parameters: type_parameters(ty.parameters),
        ty: TypeView::Union(tagged_variants(tagging, rename_all, ty.variants)),
    }
}

/// The names of the type parameters among `parameters`; lifetimes are
/// dropped.
pub fn map_parameters(parameters: &Vec<ir::GenericParameter>) -> (names: Vec<&'static str>)
    ensures
        names@.map_values(|p: &'static str| p@) == type_parameters(
            parameters@.map_values(|p: ir::GenericParameter| p@),
        ),
{
    let ghost given = parameters@.map_values(|p: ir::GenericParameter| p@);
    let ghost is_type = |p: ir::ParameterView| p is Type;
    let ghost name = |p: ir::ParameterView| p->Type_0;
    let mut names: Vec<&'static str> = Vec::new();
    let mut i: usize = 0;
    proof {
        reveal(Seq::filter);
        assert(given.take(0).filter(is_type) =~= Seq::<ir::ParameterView>::empty());
    }
    while i < parameters.len()
        invariant
            i <= parameters.len(),
            given == parameters@.map_values(|p: ir::GenericParameter| p@),
            is_type == |p: ir::ParameterView| p is Type,
            name == |p: ir::ParameterView| p->Type_0,
            names@.map_values(|p: &'static str| p@) == given.take(i as int).filter(
                is_type,
            ).map_values(name),
        decreases parameters.len() - i,
    {
        proof {
            assert(given.take(i + 1) =~= given.take(i as int).push(given[i as int]));
            given.take(i as int).lemma_filter_push(given[i as int], is_type);
        }
        match &parameters[i] {
            ir::GenericParameter::Type(parameter) => {
                proof {
                    let kept = given.take(i as int).filter(is_type);
                    assert(kept.push(given[i as int]).map_values(name) =~= kept.map_values(
                        name,
                    ).push(parameter@));
                    assert(names@.push(*parameter).map_values(|p: &'static str| p@)
                        =~= names@.map_values(|p: &'static str| p@).push(parameter@));
                }
                names.push(*parameter);
            },
            ir::GenericParameter::Lifetime(_) => {},
        }
        i += 1;
    }
    proof {
        assert(given.take(i as int) =~= given);
    }
    names
}

/// The given fields, each renamed by `renamer` and with its TypeScript type.
pub fn map_fields(renamer: Renamer, fields: &Vec<ir::NamedField>) -> (r: Result<
    Vec<Field>,
    TypeMappingError,
>)
    ensures
        match r {
            Ok(mapped) => {
                &&& fields_mappable(fields@.map_values(|f: ir::NamedField| f@))
                &&& mapped@.map_values(|f: Field| f@) == mapped_fields(
                    renamer.0,
                    fields@.map_values(|f: ir::NamedField| f@),
                )
            },
            Err(e) => {
                &&& !fields_mappable(fields@.map_values(|f: ir::NamedField| f@))
                &&& e.kind == TypeMappingErrorKind::MalformedCollectionArgument
            },
        },
{
    let ghost given = fields@.map_values(|f: ir::NamedField| f@);
    let mut mapped: Vec<Field> = Vec::new();
    let mut i: usize = 0;
    while i < fields.len()
        invariant
            i <= fields.len(),
            given == fields@.map_values(|f: ir::NamedField| f@),
            mapped@.len() == i,
            forall|j: int| 0 <= j < i ==> mappable(#[trigger] given[j].ty),
            forall|j: int|
                0 <= j < i ==> (#[trigger] mapped@[j])@ == mapped_fields(renamer.0, given)[j],
        decreases fields.len() - i,
    {
        let field = &fields[i];
        match map_type(&field.ty) {
            Ok(ty) => {
                mapped.push(Field { name: renamer.rename_field(field.name), ty });
            },
            Err(e) => {
                assert(!mappable(given[i as int].ty));
                return Err(e);
            },
        }
        i += 1;
    }
    proof {
        assert(mapped@.map_values(|f: Field| f@) =~= mapped_fields(renamer.0, given));
    }
    Ok(mapped)
}

/// The renamer of the name of a variant: the `rename` rule of the variant,
/// or else `rename_all`.
fn variant_renamer(rename_all: Renamer, variant: &ir::Variant) -> (renamer: Renamer)
    ensures
        renamer.0 == variant_rule(rename_all.0, variant@),
{
    match variant.attributes.rename {
        Some(rule) => Renamer(Some(rule)),
        None => rename_all,
    }
}

/// The object with the single field `tag`, whose type is the literal `name`.
fn tag_field(tag: &str, name: String) -> (field: Field)
    ensures
        field@ == (FieldView { name: tag@, ty: TypeView::Literal(name@) }),
{
    Field { name: String::from_str(tag), ty: Type::literal(name) }
}

fn externally_tagged_variant(rename_all: Renamer, variant: &ir::Variant) -> (r: Result<
    Variant,
    TypeMappingError,
>)
    ensures
        match r {
            Ok(v) => variant_mappable(variant@) && v@ == externally_tagged(rename_all.0, variant@),
            Err(e) => !variant_mappable(variant@) && e.kind
                == TypeMappingErrorKind::MalformedCollectionArgument,
        },
{
    let name = variant_renamer(rename_all, variant).rename_type(variant.name);
    let field_renamer = Renamer(variant.attributes.rename_all);
    match &variant.content {
        ir::VariantContent::Unit => Ok(Variant(Type::literal(name))),
        ir::VariantContent::Unnamed(ty) => match map_type(ty) {
            Ok(ty) => Ok(Variant(Type::object_of_one(Field { name, ty }))),
            Err(e) => Err(e),
        },
        ir::VariantContent::Named(fields) => match map_fields(field_renamer, fields) {
            Ok(fields) => Ok(
                Variant(Type::object_of_one(Field { name, ty: Type::object(fields) })),
            ),
            Err(e) => Err(e),
        },
    }
}

fn adjacently_tagged_variant(
    rename_all: Renamer,
    tag: &str,
    content: &str,
    variant: &ir::Variant,
) -> (r: Result<Variant, TypeMappingError>)
    ensures
        match r {
            Ok(v) => variant_mappable(variant@) && v@ == adjacently_tagged(
                rename_all.0,
                tag@,
                content@,
                variant@,
            ),
            Err(e) => !variant_mappable(variant@) && e.kind
                == TypeMappingErrorKind::MalformedCollectionArgument,
        },
{
    let name = variant_renamer(rename_all, variant).rename_type(variant.name);
    let field_renamer = Renamer(variant.attributes.rename_all);
    match &variant.content {
        ir::VariantContent::Unit => Ok(Variant(Type::object_of_one(tag_field(tag, name)))),
        ir::VariantContent::Unnamed(ty) => match map_type(ty) {
            Ok(ty) => Ok(
                Variant(
                    Type::object_of_two(
                        tag_field(tag, name),
                        Field { name: String::from_str(content), ty },
                    ),
                ),
            ),
            Err(e) => Err(e),
        },
        ir::VariantContent::Named(fields) => match map_fields(field_renamer, fields) {
            Ok(fields) => Ok(
                Variant(
                    Type::object_of_two(
                        tag_field(tag, name),
                        Field { name: String::from_str(content), ty: Type::object(fields) },
                    ),
                ),
            ),
            Err(e) => Err(e),
        },
    }
}

fn internally_tagged_variant(rename_all: Renamer, tag: &str, variant: &ir::Variant) -> (r: Result<
    Variant,
    TypeMappingError,
>)
    ensures
        match r {
            Ok(v) => variant_mappable(variant@) && v@ == internally_tagged(
                rename_all.0,
                tag@,
                variant@,
            ),
            Err(e) => !variant_mappable(variant@) && e.kind
                == TypeMappingErrorKind::MalformedCollectionArgument,
        },
{
    let name = variant_renamer(rename_all, variant).rename_type(variant.name);
    let field_renamer = Renamer(variant.attributes.rename_all);
    match &variant.content {
        ir::VariantContent::Unit => Ok(Variant(Type::object_of_one(tag_field(tag, name)))),
        ir::VariantContent::Unnamed(ty) => match map_type(ty) {
            Ok(ty) => Ok(
                Variant(Type::intersection(Type::object_of_one(tag_field(tag, name)), ty)),
            ),
            Err(e) => Err(e),
        },
        ir::VariantContent::Named(fields) => match map_fields(field_renamer, fields) {
            Ok(fields) => Ok(
                Variant(
                    Type::intersection(
                        Type::object_of_one(tag_field(tag, name)),
                        Type::object(fields),
                    ),
                ),
            ),
            Err(e) => Err(e),
        },
    }
}

impl Variant {
    /// The externally tagged representation of a variant: see
    /// [`externally_tagged`]. Fails where a type in the variant has no
    /// TypeScript type.
    pub fn externally_tagged(rename_all: Renamer, variant: ir::Variant) -> (r: Result<
        Self,
        TypeMappingError,
    >)
        ensures
            match r {
                Ok(v) => variant_mappable(variant@) && v@ == externally_tagged(
                    rename_all.0,
                    variant@,
                ),
                Err(e) => !variant_mappable(variant@) && e.kind
                    == TypeMappingErrorKind::MalformedCollectionArgument,
            },
    {
        externally_tagged_variant(rename_all, &variant)
    }

    /// The adjacently tagged representation of a variant: see
    /// [`adjacently_tagged`]. Fails where a type in the variant has no
    /// TypeScript type.
    pub fn adjacently_tagged(
        rename_all: Renamer,
        tag: &'static str,
        content: &'static str,
        variant: ir::Variant,
    ) -> (r: Result<Self, TypeMappingError>)
        ensures
            match r {
                Ok(v) => variant_mappable(variant@) && v@ == adjacently_tagged(
                    rename_all.0,
                    tag@,
                    content@,
                    variant@,
                ),
                Err(e) => !variant_mappable(variant@) && e.kind
                    == TypeMappingErrorKind::MalformedCollectionArgument,
            },
    {
        adjacently_tagged_variant(rename_all, tag, content, &variant)
    }

    /// The internally tagged representation of a variant: see
    /// [`internally_tagged`]. Fails where a type in the variant has no
    /// TypeScript type.
    pub fn internally_tagged(rename_all: Renamer, tag: &'static str, variant: ir::Variant) -> (r:
        Result<Self, TypeMappingError>)
        ensures
            match r {
                Ok(v) => variant_mappable(variant@) && v@ == internally_tagged(
                    rename_all.0,
                    tag@,
                    variant@,
                ),
                Err(e) => !variant_mappable(variant@) && e.kind
                    == TypeMappingErrorKind::MalformedCollectionArgument,
            },
    {
        internally_tagged_variant(rename_all, tag, &variant)
    }
}

/// The cases of the union that stands for the given variants, in the
/// representation that `tag` and `content` select.
fn tag_variants(
    rename_all: Renamer,
    tag: Option<&str>,
    content: Option<&str>,
    variants: &Vec<ir::Variant>,
) -> (r: Result<UnionType, TypeMappingError>)
    ensures
        match r {
            Ok(union) => {
                &&& variants_mappable(variants@.map_values(|v: ir::Variant| v@))
                &&& union@ == tagged_variants(
                    tagging_of(option_view(tag), option_view(content)),
                    rename_all.0,
                    variants@.map_values(|v: ir::Variant| v@),
                )
            },
            Err(e) => {
                &&& !variants_mappable(variants@.map_values(|v: ir::Variant| v@))
                &&& e.kind == TypeMappingErrorKind::MalformedCollectionArgument
            },
        },
{
    let ghost given = variants@.map_values(|v: ir::Variant| v@);
    let ghost tagging = tagging_of(option_view(tag), option_view(content));
    let mut cases: Vec<Variant> = Vec::new();
    let mut i: usize = 0;
    while i < variants.len()
        invariant
            i <= variants.len(),
            given == variants@.map_values(|v: ir::Variant| v@),
            tagging == tagging_of(option_view(tag), option_view(content)),
            cases@.len() == i,
            forall|j: int| 0 <= j < i ==> variant_mappable(#[trigger] given[j]),
            forall|j: int|
                0 <= j < i ==> (#[trigger] cases@[j])@ == tagged_variant(
                    tagging,
                    rename_all.0,
                    given[j],
                ),
        decreases variants.len() - i,
    {
        let variant = &variants[i];
        let case = match tag {
            None => externally_tagged_variant(rename_all, variant),
            Some(tag) => match content {
                None => internally_tagged_variant(rename_all, tag, variant),
                Some(content) => adjacently_tagged_variant(rename_all, tag, content, variant),
            },
        };
        match case {
            Ok(case) => {
                cases.push(case);
            },
            Err(e) => {
                assert(!variant_mappable(given[i as int]));
                return Err(e);
            },
        }
        i += 1;
    }
    let union = UnionType { variants: cases };
    proof {
        assert(union@ =~= tagged_variants(tagging, rename_all.0, given));
    }
    Ok(union)
}

/// The view of an optional name.
pub open spec fn option_view(name: Option<&str>) -> Option<Seq<char>> {
    match name {
        Some(name) => Some(name@),
        None => None,
    }
}

impl UnionType {
    /// The union of the externally tagged representations of the variants,
    /// in the order given.
    pub fn externally_tagged(rename_all: Renamer, variants: Vec<ir::Variant>) -> (r: Result<
        Self,
        TypeMappingError,
    >)
        ensures
            match r {
                Ok(union) => {
                    &&& variants_mappable(variants@.map_values(|v: ir::Variant| v@))
                    &&& union@ == tagged_variants(
                        Tagging::External,
                        rename_all.0,
                        variants@.map_values(|v: ir::Variant| v@),
                    )
                },
                Err(e) => {
                    &&& !variants_mappable(variants@.map_values(|v: ir::Variant| v@))
                    &&& e.kind == TypeMappingErrorKind::MalformedCollectionArgument
                },
            },
    {
        tag_variants(rename_all, None, None, &variants)
    }

    /// The union of the adjacently tagged representations of the variants,
    /// in the order given.
    pub fn adjacently_tagged(
        rename_all: Renamer,
        tag: &'static str,
        content: &'static str,
        variants: Vec<ir::Variant>,
    ) -> (r: Result<Self, TypeMappingError>)
        ensures
            match r {
                Ok(union) => {
                    &&& variants_mappable(variants@.map_values(|v: ir::Variant| v@))
                    &&& union@ == tagged_variants(
                        Tagging::Adjacent { tag: tag@, content: content@ },
                        rename_all.0,
                        variants@.map_values(|v: ir::Variant| v@),
                    )
                },
                Err(e) => {
                    &&& !variants_mappable(variants@.map_values(|v: ir::Variant| v@))
                    &&& e.kind == TypeMappingErrorKind::MalformedCollectionArgument
                },
            },
    {
        tag_variants(rename_all, Some(tag), Some(content), &variants)
    }

    /// The union of the internally tagged representations of the variants,
    /// in the order given.
    pub fn internally_tagged(
        rename_all: Renamer,
        tag: &'static str,
        variants: Vec<ir::Variant>,
    ) -> (r: Result<Self, TypeMappingError>)
        ensures
            match r {
                Ok(union) => {
                    &&& variants_mappable(variants@.map_values(|v: ir::Variant| v@))
                    &&& union@ == tagged_variants(
                        Tagging::Internal { tag: tag@ },
                        rename_all.0,
                        variants@.map_values(|v: ir::Variant| v@),
                    )
                },
                Err(e) => {
                    &&& !variants_mappable(variants@.map_values(|v: ir::Variant| v@))
                    &&& e.kind == TypeMappingErrorKind::MalformedCollectionArgument
                },
            },
    {
        tag_variants(rename_all, Some(tag), None, &variants)
    }
}

/// The type alias that stands for an enum, in the representation that `tag`
/// and `content` select.
pub(crate) fn tag_enum(
    rename: Renamer,
    rename_all: Renamer,
    tag: Option<&str>,
    content: Option<&str>,
    ty: &ir::Enum,
) -> (r: Result<TypeAlias, TypeMappingError>)
    ensures
        match r {
            Ok(alias) => variants_mappable(ty@.variants) && alias@ == tagged_alias(
                tagging_of(option_view(tag), option_view(content)),
                rename.0,
                rename_all.0,
                ty@,
            ),
            Err(e) => !variants_mappable(ty@.variants) && e.kind
                == TypeMappingErrorKind::MalformedCollectionArgument,
        },
{
    match tag_variants(rename_all, tag, content, &ty.variants) {
        Ok(union) => Ok(
            TypeAlias {
                export: ty.visibility.is_pub(),
                name: rename.rename_type(ty.name),
                parameters: map_parameters(&ty.parameters),
                ty: Type::union(union.variants),
            },
        ),
        Err(e) => Err(e),
    }
}

impl TypeAlias {
    /// The type alias that stands for an externally tagged enum: see
    /// [`tagged_alias`].
    pub fn externally_tagged(rename: Renamer, rename_all: Renamer, ty: ir::Enum) -> (r: Result<
        Self,
        TypeMappingError,
    >)
        ensures
            match r {
                Ok(alias) => variants_mappable(ty@.variants) && alias@ == tagged_alias(
                    Tagging::External,
                    rename.0,
                    rename_all.0,
                    ty@,
                ),
                Err(e) => !variants_mappable(ty@.variants) && e.kind
                    == TypeMappingErrorKind::MalformedCollectionArgument,
            },
    {
        tag_enum(rename, rename_all, None, None, &ty)
    }

    /// The type alias that stands for an adjacently tagged enum: see
    /// [`tagged_alias`].
    pub fn adjacently_tagged(
        rename: Renamer,
        rename_all: Renamer,
        tag: &'static str,
        content: &'static str,
        ty: ir::Enum,
    ) -> (r: Result<Self, TypeMappingError>)
        ensures
            match r {
                Ok(alias) => variants_mappable(ty@.variants) && alias@ == tagged_alias(
                    Tagging::Adjacent { tag: tag@, content: content@ },
                    rename.0,
                    rename_all.0,
                    ty@,
                ),
                Err(e) => !variants_mappable(ty@.variants) && e.kind
                    == TypeMappingErrorKind::MalformedCollectionArgument,
            },
    {
        tag_enum(rename, rename_all, Some(tag), Some(content), &ty)
    }

    /// The type alias that stands for an internally tagged enum: see
    /// [`tagged_alias`].
    pub fn internally_tagged(
        rename: Renamer,
        rename_all: Renamer,
        tag: &'static str,
        ty: ir::Enum,
    ) -> (r: Result<Self, TypeMappingError>)
        ensures
            match r {
                Ok(alias) => variants_mappable(ty@.variants) && alias@ == tagged_alias(
                    Tagging::Internal { tag: tag@ },
                    rename.0,
                    rename_all.0,
                    ty@,
                ),
                Err(e) => !variants_mappable(ty@.variants) && e.kind
                    == TypeMappingErrorKind::MalformedCollectionArgument,
            },
    {
        tag_enum(rename, rename_all, Some(tag), None, &ty)
    }
}

} // verus!
