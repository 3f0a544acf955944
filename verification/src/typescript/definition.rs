//! The definition that stands for a described container.
//!
//! - A struct with named fields becomes an interface.
//! - A struct with a single unnamed field becomes an alias of the type of
//!   that field.
//! - An enum becomes an alias of the union of its variants.
//!
//! The definition is exported where the item is public, is named as the item
//! after renaming by the `rename` rule of the container, and has the type
//! parameters of the item: lifetimes are dropped.
use vstd::prelude::*;
use crate::ir;
use crate::typescript::ast::{
    Definition, DefinitionView, Interface, InterfaceView, TypeAlias, TypeAliasView,
};
use crate::typescript::mapping::{
    map_type, mappable, mapped_type, TypeMappingError, TypeMappingErrorKind,
};
use crate::typescript::rename::{renamed_type, Renamer};
use crate::typescript::tagging::{
    fields_mappable, map_fields, map_parameters, mapped_fields, tag_enum, tagged_alias,
    tagging_of, type_parameters, variants_mappable,
};

verus! {

/// Whether every type in a container has a TypeScript type.
pub open spec fn container_mappable(container: ir::ContainerView) -> bool {
    match container.item {
        ir::ItemView::Struct(s) => match s.content {
            ir::StructContentView::NamedFields(fields) => fields_mappable(fields),
            ir::StructContentView::UnnamedField(ty) => mappable(ty),
        },
        ir::ItemView::Enum(e) => variants_mappable(e.variants),
    }
}

/// The definition that stands for a container.
///
/// Nothing is said of a container that is not [`container_mappable`].
pub open spec fn definition_of(container: ir::ContainerView) -> DefinitionView
    recommends
        container_mappable(container),
{
    let rename = container.attributes.rename;
    let rename_all = container.attributes.rename_all;
    match container.item {
        ir::ItemView::Struct(s) => match s.content {
            ir::StructContentView::NamedFields(fields) => DefinitionView::Interface(
                InterfaceView {
                    export: s.visibility is Pub,
                    name: renamed_type(rename, s.name),
                    parameters: type_parameters(s.parameters),
                    fields: mapped_fields(rename_all, fields),
                },
            ),
            ir::StructContentView::UnnamedField(ty) => DefinitionView::Alias(
                TypeAliasView {
                    export: s.visibility is Pub,
                    name: renamed_type(rename, s.name),
                    parameters: type_parameters(s.parameters),
                    ty: mapped_type(ty),
                },
            ),
        },
        ir::ItemView::Enum(e) => DefinitionView::Alias(
            tagged_alias(
                tagging_of(container.attributes.tag, container.attributes.content),
                rename,
                rename_all,
                e,
            ),
        ),
    }
}

/// The definition that stands for a struct.
fn define_struct(rename: Renamer, rename_all: Renamer, s: &ir::Struct) -> (r: Result<
    Definition,
    TypeMappingError,
>)
    ensures
        match r {
            Ok(definition) => match s@.content {
                ir::StructContentView::NamedFields(fields) => {
                    &&& fields_mappable(fields)
                    &&& definition@ == DefinitionView::Interface(
                        InterfaceView {
                            export: s@.visibility is Pub,
                            name: renamed_type(rename.0, s@.name),
                            parameters: type_parameters(s@.parameters),
                            fields: mapped_fields(rename_all.0, fields),
                        },
                    )
                },
                ir::StructContentView::UnnamedField(ty) => {
                    &&& mappable(ty)
                    &&& definition@ == DefinitionView::Alias(
                        TypeAliasView {
                            export: s@.visibility is Pub,
                            name: renamed_type(rename.0, s@.name),
                            parameters: type_parameters(s@.parameters),
                            ty: mapped_type(ty),
                        },
                    )
                },
            },
            Err(e) => {
                &&& e.kind == TypeMappingErrorKind::MalformedCollectionArgument
                &&& match s@.content {
                    ir::StructContentView::NamedFields(fields) => !fields_mappable(fields),
                    ir::StructContentView::UnnamedField(ty) => !mappable(ty),
                }
            },
        },
{
    match &s.content {
        ir::StructContent::NamedFields(fields) => match map_fields(rename_all, fields) {
            Ok(fields) => Ok(
                Definition::Interface(
                    Interface {
                        export: s.visibility.is_pub(),
                        name: rename.rename_type(s.name),
                        parameters: map_parameters(&s.parameters),
                        fields,
                    },
                ),
            ),
            Err(e) => Err(e),
        },
        ir::StructContent::UnnamedField(field) => match map_type(&field.ty) {
            Ok(ty) => Ok(
                Definition::Alias(
                    TypeAlias {
                        export: s.visibility.is_pub(),
                        name: rename.rename_type(s.name),
                        parameters: map_parameters(&s.parameters),
                        ty,
                    },
                ),
            ),
            Err(e) => Err(e),
        },
    }
}

impl Definition {
    /// The definition that stands for a container: see [`definition_of`].
    /// Fails where a type in the container has no TypeScript type.
    pub fn of(container: &ir::Container) -> (r: Result<Definition, TypeMappingError>)
        ensures
            match r {
                Ok(definition) => container_mappable(container@) && definition@ == definition_of(
                    container@,
                ),
                Err(e) => !container_mappable(container@) && e.kind
                    == TypeMappingErrorKind::MalformedCollectionArgument,
            },
    {
        let rename = Renamer(container.attributes.rename);
        let rename_all = Renamer(container.attributes.rename_all);
        match &container.item {
            ir::Item::Struct(s) => define_struct(rename, rename_all, s),
            ir::Item::Enum(e) => {
                match tag_enum(
                    rename,
                    rename_all,
                    container.attributes.tag,
                    container.attributes.content,
                    e,
                ) {
                    Ok(alias) => Ok(Definition::Alias(alias)),
                    Err(e) => Err(e),
                }
            },
        }
    }
}

impl TryFrom<ir::Container> for Definition {
    type Error = TypeMappingError;

    /// The definition that stands for a container: see [`definition_of`].
    /// Fails where a type in the container has no TypeScript type.
    fn try_from(container: ir::Container) -> (r: Result<Self, TypeMappingError>)
        ensures
            match r {
                Ok(definition) => container_mappable(container@) && definition@ == definition_of(
                    container@,
                ),
                Err(e) => !container_mappable(container@) && e.kind
                    == TypeMappingErrorKind::MalformedCollectionArgument,
            },
    {
        Definition::of(&container)
    }
}

impl vstd::std_specs::convert::TryFromSpecImpl<ir::Container> for Definition {
    open spec fn obeys_try_from_spec() -> bool {
        false
    }

    open spec fn try_from_spec(v: ir::Container) -> Result<Self, TypeMappingError> {
        arbitrary()
    }
}

impl From<Interface> for Definition {
    /// The definition that is the given interface.
    fn from(value: Interface) -> (r: Self) {
        Definition::Interface(value)
    }
}

impl vstd::std_specs::convert::FromSpecImpl<Interface> for Definition {
    open spec fn obeys_from_spec() -> bool {
        true
    }

    open spec fn from_spec(v: Interface) -> Self {
        Definition::Interface(v)
    }
}

impl From<TypeAlias> for Definition {
    /// The definition that is the given type alias.
    fn from(value: TypeAlias) -> (r: Self) {
        Definition::Alias(value)
    }
}

impl vstd::std_specs::convert::FromSpecImpl<TypeAlias> for Definition {
    open spec fn obeys_from_spec() -> bool {
        true
    }

    open spec fn from_spec(v: TypeAlias) -> Self {
        Definition::Alias(v)
    }
}

} // verus!
