use camo::derive::input;
use camo::derive::{
    Container, DeriveError, Enum, ErrorKind, GenericArgument, GenericParameter, Item, Lifetime,
    NamedField, PathSegment, RenameRule, SerdeAttribute, SerdeAttributeList,
    SerdeContainerAttributes, SerdeVariantAttributes, Struct, StructVariant, Type, TypePath,
    TypeReference, UnnamedField, Variant, VariantContent, Visibility,
};
use proc_macro2::Span;

fn span() -> Span {
    Span::call_site()
}

fn named_in(name: &str, arguments: Vec<input::GenericArgument>) -> input::Type {
    input::Type::Path(input::TypePath {
        qself: None,
        segments: vec![input::PathSegment {
            ident: String::from(name),
            arguments,
        }],
    })
}

fn plain_in(name: &str) -> input::Type {
    named_in(name, Vec::new())
}

fn plain(name: &str) -> Type {
    Type::Path(TypePath {
        segments: vec![PathSegment {
            name: String::from(name),
            arguments: Vec::new(),
        }],
    })
}

fn entry(key: &str, value: &str) -> input::MetaEntry {
    input::MetaEntry {
        key: Some(String::from(key)),
        value: String::from(value),
        span: span(),
    }
}

fn serde(entries: Vec<input::MetaEntry>) -> input::Attribute {
    input::Attribute {
        outer: true,
        serde: true,
        meta: input::Meta::List(input::MetaList {
            entries,
            failure: None,
            span: span(),
        }),
    }
}

fn list(entries: Vec<input::MetaEntry>) -> SerdeAttributeList {
    SerdeAttributeList(input::MetaList {
        entries,
        failure: None,
        span: span(),
    })
}

fn definition(data: input::Data) -> input::DeriveInput {
    input::DeriveInput {
        attrs: Vec::new(),
        vis: input::Visibility::Inherited,
        ident: String::from("Foo"),
        generics: Vec::new(),
        data,
    }
}

fn kind_of<T: std::fmt::Debug>(r: Result<T, DeriveError>) -> ErrorKind {
    r.unwrap_err().kind
}

#[test]
fn rename_rule_from_string() {
    let rules = [
        ("lowercase", RenameRule::Lower),
        ("UPPERCASE", RenameRule::Upper),
        ("PascalCase", RenameRule::Pascal),
        ("camelCase", RenameRule::Camel),
        ("snake_case", RenameRule::Snake),
        ("SCREAMING_SNAKE_CASE", RenameRule::ScreamingSnake),
        ("kebab-case", RenameRule::Kebab),
        ("SCREAMING-KEBAB-CASE", RenameRule::ScreamingKebab),
    ];
    for (name, rule) in rules {
        assert_eq!(RenameRule::from_string(String::from(name)), Some(rule));
    }
    assert_eq!(RenameRule::from_string(String::from("Lowercase")), None);
    assert_eq!(RenameRule::from_string(String::from("camelcase")), None);
    assert_eq!(RenameRule::from_string(String::from("kebab_case")), None);
    assert_eq!(RenameRule::from_string(String::new()), None);
}

#[test]
fn error_messages() {
    let messages = [
        (ErrorKind::Union, "`camo` does not support unions"),
        (ErrorKind::UnitStruct, "`camo` does not support unit structs"),
        (ErrorKind::GenericBounds, "`camo` does not support generic bounds"),
        (ErrorKind::ConstGenerics, "`camo` does not support const generics"),
        (
            ErrorKind::ExplicicitDiscriminant,
            "`camo` does not support explicit discriminants",
        ),
        (
            ErrorKind::EnumMultipleUnnamedFields,
            "`camo` does not support multiple unnamed fields in enums",
        ),
        (
            ErrorKind::StructMultipleUnnamedFields,
            "`camo` does not support multiple unnamed fields in structs",
        ),
        (ErrorKind::FunctionTypes, "`camo` does not support function types"),
        (ErrorKind::Macros, "`camo` does not support macros"),
        (
            ErrorKind::SelfQualifiedTypes,
            "`camo` does not support self-qualified types in paths",
        ),
        (ErrorKind::MiscTypes, "`camo` does not support this type"),
        (
            ErrorKind::Syn(syn::Error::new(span(), "inner")),
            "`camo`: failed to parse attribute",
        ),
        (ErrorKind::InvalidRenameRule, "`camo`: invalid rename rule"),
        (
            ErrorKind::VisibilityRestricted,
            "`camo` does not support restricted visibility",
        ),
        (
            ErrorKind::UnknownGenericArgument,
            "`camo` does not support this generic argument",
        ),
    ];
    for (kind, message) in messages {
        assert_eq!(kind.message(), message);
    }
}

#[test]
fn entries_by_key() {
    assert_eq!(
        SerdeAttribute::from_pair(entry("rename", "camelCase")).unwrap(),
        Some(SerdeAttribute::Rename(RenameRule::Camel))
    );
    assert_eq!(
        SerdeAttribute::from_pair(entry("rename_all", "kebab-case")).unwrap(),
        Some(SerdeAttribute::RenameAll(RenameRule::Kebab))
    );
    assert_eq!(
        SerdeAttribute::from_pair(entry("tag", "type")).unwrap(),
        Some(SerdeAttribute::Tag(String::from("type")))
    );
    assert_eq!(
        SerdeAttribute::from_pair(entry("content", "camelCase")).unwrap(),
        Some(SerdeAttribute::Content(String::from("camelCase")))
    );
    assert_eq!(
        SerdeAttribute::from_pair(entry("default", "a::b")).unwrap(),
        None
    );
    assert_eq!(
        SerdeAttribute::from_pair(input::MetaEntry {
            key: None,
            value: String::from("camelCase"),
            span: span(),
        })
        .unwrap(),
        None
    );
    assert!(matches!(
        kind_of(SerdeAttribute::from_pair(entry("rename", "camel"))),
        ErrorKind::InvalidRenameRule
    ));
    assert!(matches!(
        kind_of(SerdeAttribute::from_pair(entry("rename_all", ""))),
        ErrorKind::InvalidRenameRule
    ));
}

#[test]
fn first_attribute_of_each_kind_counts() {
    let attributes = vec![
        SerdeAttribute::Tag(String::from("a")),
        SerdeAttribute::Rename(RenameRule::Lower),
        SerdeAttribute::Content(String::from("c")),
        SerdeAttribute::Tag(String::from("b")),
        SerdeAttribute::RenameAll(RenameRule::Kebab),
        SerdeAttribute::Rename(RenameRule::Upper),
        SerdeAttribute::RenameAll(RenameRule::Snake),
        SerdeAttribute::Content(String::from("d")),
    ];
    assert_eq!(SerdeAttribute::find_rename(&attributes), Some(RenameRule::Lower));
    assert_eq!(
        SerdeAttribute::find_rename_all(&attributes),
        Some(RenameRule::Kebab)
    );
    assert_eq!(SerdeAttribute::find_tag(&attributes), Some(String::from("a")));
    assert_eq!(
        SerdeAttribute::find_content(&attributes),
        Some(String::from("c"))
    );
    let none: Vec<SerdeAttribute> = Vec::new();
    assert_eq!(SerdeAttribute::find_rename(&none), None);
    assert_eq!(SerdeAttribute::find_rename_all(&none), None);
    assert_eq!(SerdeAttribute::find_tag(&none), None);
    assert_eq!(SerdeAttribute::find_content(&none), None);
}

#[test]
fn container_attributes_from_list() {
    let attributes = SerdeContainerAttributes::from_list(list(vec![
        entry("rename_all", "camelCase"),
        entry("bound", "T: Foo"),
        entry("tag", "type"),
        entry("rename", "PascalCase"),
        entry("content", "value"),
        entry("tag", "other"),
    ]))
    .unwrap();
    assert_eq!(
        attributes,
        SerdeContainerAttributes {
            rename_all: Some(RenameRule::Camel),
            rename: Some(RenameRule::Pascal),
            tag: Some(String::from("type")),
            content: Some(String::from("value")),
        }
    );
    assert_eq!(
        SerdeContainerAttributes::from_list(list(Vec::new())).unwrap(),
        SerdeContainerAttributes {
            rename_all: None,
            rename: None,
            tag: None,
            content: None,
        }
    );
}

#[test]
fn variant_attributes_from_list() {
    let attributes = SerdeVariantAttributes::from_list(list(vec![
        entry("tag", "type"),
        entry("rename", "UPPERCASE"),
        entry("rename_all", "snake_case"),
        entry("rename", "lowercase"),
    ]))
    .unwrap();
    assert_eq!(
        attributes,
        SerdeVariantAttributes {
            rename: Some(RenameRule::Upper),
            rename_all: Some(RenameRule::Snake),
        }
    );
    assert_eq!(
        SerdeVariantAttributes::default(),
        SerdeVariantAttributes {
            rename: None,
            rename_all: None,
        }
    );
}

#[test]
fn invalid_rename_rule_is_reported_as_a_syn_error() {
    let error = SerdeContainerAttributes::from_list(list(vec![
        entry("tag", "t"),
        entry("rename", "camel"),
    ]))
    .unwrap_err();
    match error.kind {
        ErrorKind::Syn(inner) => assert_eq!(inner.to_string(), "`camo`: invalid rename rule"),
        other => panic!("{:?}", other),
    }
    let error = SerdeVariantAttributes::from_list(list(vec![entry("rename_all", "x")])).unwrap_err();
    assert!(matches!(error.kind, ErrorKind::Syn(_)));
}

#[test]
fn failure_of_parsing_is_handed_on() {
    let failing = |entries| {
        SerdeAttributeList(input::MetaList {
            entries,
            failure: Some(syn::Error::new(span(), "expected `,`")),
            span: span(),
        })
    };
    let error = SerdeContainerAttributes::from_list(failing(vec![entry("tag", "t")])).unwrap_err();
    match error.kind {
        ErrorKind::Syn(inner) => assert_eq!(inner.to_string(), "expected `,`"),
        other => panic!("{:?}", other),
    }
    let error =
        SerdeContainerAttributes::from_list(failing(vec![entry("rename", "nope")])).unwrap_err();
    match error.kind {
        ErrorKind::Syn(inner) => assert_eq!(inner.to_string(), "`camo`: invalid rename rule"),
        other => panic!("{:?}", other),
    }
}

#[test]
fn first_serde_list_is_found() {
    let attributes = vec![
        input::Attribute {
            outer: true,
            serde: false,
            meta: input::Meta::List(input::MetaList {
                entries: vec![entry("tag", "doc")],
                failure: None,
                span: span(),
            }),
        },
        input::Attribute {
            outer: false,
            serde: true,
            meta: input::Meta::List(input::MetaList {
                entries: vec![entry("tag", "inner")],
                failure: None,
                span: span(),
            }),
        },
        input::Attribute {
            outer: true,
            serde: true,
            meta: input::Meta::Path,
        },
        input::Attribute {
            outer: true,
            serde: true,
            meta: input::Meta::NameValue,
        },
        serde(vec![entry("tag", "first")]),
        serde(vec![entry("tag", "second")]),
    ];
    let found = SerdeAttributeList::find(attributes).unwrap();
    assert_eq!(found.0.entries.len(), 1);
    assert_eq!(found.0.entries[0].value, "first");
    assert!(SerdeAttributeList::find(Vec::new()).is_none());
    assert!(SerdeAttributeList::from_attribute(input::Attribute {
        outer: true,
        serde: true,
        meta: input::Meta::Path,
    })
    .is_none());
}

#[test]
fn types_are_read() {
    assert_eq!(Type::from_ty(plain_in("u8")).unwrap(), plain("u8"));
    assert_eq!(
        Type::from_ty(input::Type::Slice(Box::new(plain_in("u8")))).unwrap(),
        Type::Slice(Box::new(plain("u8")))
    );
    assert_eq!(
        Type::from_ty(input::Type::Array(Box::new(plain_in("u8")))).unwrap(),
        Type::Array(Box::new(plain("u8")))
    );
    assert_eq!(
        Type::from_ty(input::Type::Group(Box::new(input::Type::Paren(Box::new(
            plain_in("u8")
        )))))
        .unwrap(),
        plain("u8")
    );
    assert_eq!(
        Type::from_ty(input::Type::Reference(input::TypeReference {
            lifetime: String::from("a"),
            elem: Box::new(plain_in("str")),
        }))
        .unwrap(),
        Type::Reference(TypeReference {
            lifetime: Lifetime {
                name: String::from("a")
            },
            ty: Box::new(plain("str")),
        })
    );
    let map = input::Type::Path(input::TypePath {
        qself: None,
        segments: vec![
            input::PathSegment {
                ident: String::from("std"),
                arguments: Vec::new(),
            },
            input::PathSegment {
                ident: String::from("HashMap"),
                arguments: vec![
                    input::GenericArgument::Lifetime(String::from("a")),
                    input::GenericArgument::Type(plain_in("String")),
                ],
            },
        ],
    });
    assert_eq!(
        Type::from_ty(map).unwrap(),
        Type::Path(TypePath {
            segments: vec![
                PathSegment {
                    name: String::from("std"),
                    arguments: Vec::new(),
                },
                PathSegment {
                    name: String::from("HashMap"),
                    arguments: vec![
                        GenericArgument::Lifetime(String::from("a")),
                        GenericArgument::Type(plain("String")),
                    ],
                },
            ],
        })
    );
}

#[test]
fn unsupported_types_are_errors() {
    assert!(matches!(
        kind_of(Type::from_ty(input::Type::BareFn(span()))),
        ErrorKind::FunctionTypes
    ));
    assert!(matches!(
        kind_of(Type::from_ty(input::Type::Macro(span()))),
        ErrorKind::Macros
    ));
    assert!(matches!(
        kind_of(Type::from_ty(input::Type::Other(span()))),
        ErrorKind::MiscTypes
    ));
    assert!(matches!(
        kind_of(Type::from_ty(input::Type::Slice(Box::new(
            input::Type::BareFn(span())
        )))),
        ErrorKind::FunctionTypes
    ));
    assert!(matches!(
        kind_of(TypePath::from_type_path(input::TypePath {
            qself: Some(span()),
            segments: Vec::new(),
        })),
        ErrorKind::SelfQualifiedTypes
    ));
    assert!(matches!(
        kind_of(TypeReference::from_type_reference(input::TypeReference {
            lifetime: String::from("a"),
            elem: Box::new(input::Type::Macro(span())),
        })),
        ErrorKind::Macros
    ));
}

#[test]
fn generic_arguments_are_read() {
    assert_eq!(
        GenericArgument::from_argument(input::GenericArgument::Lifetime(String::from("a")))
            .unwrap(),
        GenericArgument::Lifetime(String::from("a"))
    );
    assert_eq!(
        GenericArgument::from_argument(input::GenericArgument::Type(plain_in("T"))).unwrap(),
        GenericArgument::Type(plain("T"))
    );
    assert!(matches!(
        kind_of(GenericArgument::from_argument(input::GenericArgument::Const(span()))),
        ErrorKind::ConstGenerics
    ));
    assert!(matches!(
        kind_of(GenericArgument::from_argument(
            input::GenericArgument::AssocType(span())
        )),
        ErrorKind::MiscTypes
    ));
    assert!(matches!(
        kind_of(GenericArgument::from_argument(
            input::GenericArgument::AssocConst(span())
        )),
        ErrorKind::MiscTypes
    ));
    assert!(matches!(
        kind_of(GenericArgument::from_argument(
            input::GenericArgument::Constraint(span())
        )),
        ErrorKind::GenericBounds
    ));
    assert!(matches!(
        kind_of(GenericArgument::from_argument(input::GenericArgument::Other(span()))),
        ErrorKind::UnknownGenericArgument
    ));
}

#[test]
fn first_error_in_a_path_is_reported() {
    let path = input::TypePath {
        qself: None,
        segments: vec![
            input::PathSegment {
                ident: String::from("a"),
                arguments: vec![input::GenericArgument::Type(plain_in("T"))],
            },
            input::PathSegment {
                ident: String::from("b"),
                arguments: vec![
                    input::GenericArgument::Type(plain_in("T")),
                    input::GenericArgument::Constraint(span()),
                    input::GenericArgument::Const(span()),
                ],
            },
            input::PathSegment {
                ident: String::from("c"),
                arguments: vec![input::GenericArgument::Other(span())],
            },
        ],
    };
    assert!(matches!(
        kind_of(TypePath::from_type_path(path)),
        ErrorKind::GenericBounds
    ));
    assert!(matches!(
        kind_of(PathSegment::from_segment(input::PathSegment {
            ident: String::from("c"),
            arguments: vec![
                input::GenericArgument::Other(span()),
                input::GenericArgument::Const(span())
            ],
        })),
        ErrorKind::UnknownGenericArgument
    ));
}

#[test]
fn generic_parameters_are_read() {
    assert_eq!(
        GenericParameter::from_param(input::GenericParam::Type {
            ident: String::from("T"),
            bounds: None
        })
        .unwrap(),
        GenericParameter::Type(String::from("T"))
    );
    assert_eq!(
        GenericParameter::from_param(input::GenericParam::Lifetime {
            ident: String::from("a")
        })
        .unwrap(),
        GenericParameter::Lifetime(String::from("a"))
    );
    assert!(matches!(
        kind_of(GenericParameter::from_param(input::GenericParam::Type {
            ident: String::from("T"),
            bounds: Some(span())
        })),
        ErrorKind::GenericBounds
    ));
    assert!(matches!(
        kind_of(GenericParameter::from_param(input::GenericParam::Const(span()))),
        ErrorKind::ConstGenerics
    ));
    assert_eq!(
        GenericParameter::from_params(vec![
            input::GenericParam::Lifetime {
                ident: String::from("a")
            },
            input::GenericParam::Type {
                ident: String::from("T"),
                bounds: None
            },
        ])
        .unwrap(),
        vec![
            GenericParameter::Lifetime(String::from("a")),
            GenericParameter::Type(String::from("T"))
        ]
    );
    assert!(matches!(
        kind_of(GenericParameter::from_params(vec![
            input::GenericParam::Const(span()),
            input::GenericParam::Type {
                ident: String::from("T"),
                bounds: Some(span())
            },
        ])),
        ErrorKind::ConstGenerics
    ));
}

#[test]
fn visibility_is_read() {
    assert_eq!(
        Visibility::from_visibility(input::Visibility::Public).unwrap(),
        Visibility::Pub
    );
    assert_eq!(
        Visibility::from_visibility(input::Visibility::Inherited).unwrap(),
        Visibility::Inherited
    );
    assert!(matches!(
        kind_of(Visibility::from_visibility(input::Visibility::Restricted(
            span()
        ))),
        ErrorKind::VisibilityRestricted
    ));
}

#[test]
fn fields_of_a_struct_are_read() {
    assert_eq!(
        StructVariant::from_fields(input::Fields::Named(vec![input::Field {
            ident: String::from("a"),
            ty: plain_in("u8"),
        }]))
        .unwrap(),
        StructVariant::NamedFields(vec![NamedField {
            name: String::from("a"),
            ty: plain("u8"),
        }])
    );
    assert_eq!(
        StructVariant::from_fields(input::Fields::Named(Vec::new())).unwrap(),
        StructVariant::NamedFields(Vec::new())
    );
    assert_eq!(
        StructVariant::from_fields(input::Fields::Unnamed(vec![plain_in("u8")], span())).unwrap(),
        StructVariant::UnnamedField(UnnamedField { ty: plain("u8") })
    );
    assert!(matches!(
        kind_of(StructVariant::from_fields(input::Fields::Unnamed(
            vec![plain_in("u8"), input::Type::Macro(span())],
            span()
        ))),
        ErrorKind::StructMultipleUnnamedFields
    ));
    assert!(matches!(
        kind_of(StructVariant::from_fields(input::Fields::Unnamed(
            Vec::new(),
            span()
        ))),
        ErrorKind::UnitStruct
    ));
    assert!(matches!(
        kind_of(StructVariant::from_fields(input::Fields::Unit(span()))),
        ErrorKind::UnitStruct
    ));
    assert!(matches!(
        kind_of(StructVariant::from_fields(input::Fields::Named(vec![
            input::Field {
                ident: String::from("a"),
                ty: input::Type::Other(span()),
            },
            input::Field {
                ident: String::from("b"),
                ty: input::Type::Macro(span()),
            }
        ]))),
        ErrorKind::MiscTypes
    ));
}

#[test]
fn fields_of_a_variant_are_read() {
    assert_eq!(
        VariantContent::from_fields(input::Fields::Unit(span())).unwrap(),
        VariantContent::Unit
    );
    assert_eq!(
        VariantContent::from_fields(input::Fields::Unnamed(vec![plain_in("u8")], span()))
            .unwrap(),
        VariantContent::Unnamed(plain("u8"))
    );
    assert_eq!(
        VariantContent::from_fields(input::Fields::Named(vec![input::Field {
            ident: String::from("a"),
            ty: plain_in("u8"),
        }]))
        .unwrap(),
        VariantContent::Named(vec![NamedField {
            name: String::from("a"),
            ty: plain("u8"),
        }])
    );
    assert!(matches!(
        kind_of(VariantContent::from_fields(input::Fields::Unnamed(
            vec![plain_in("u8"), plain_in("u8")],
            span()
        ))),
        ErrorKind::EnumMultipleUnnamedFields
    ));
}

#[test]
fn struct_is_read() {
    let foo = input::DeriveInput {
        attrs: vec![serde(vec![
            entry("rename_all", "camelCase"),
            entry("tag", "kind"),
        ])],
        vis: input::Visibility::Public,
        ident: String::from("Foo"),
        generics: vec![input::GenericParam::Type {
            ident: String::from("T"),
            bounds: None,
        }],
        data: input::Data::Struct(input::Fields::Named(vec![input::Field {
            ident: String::from("one_two"),
            ty: named_in("Vec", vec![input::GenericArgument::Type(plain_in("T"))]),
        }])),
    };
    assert_eq!(
        Container::from_input(foo).unwrap(),
        Container {
            serde: Some(SerdeContainerAttributes {
                rename_all: Some(RenameRule::Camel),
                rename: None,
                tag: Some(String::from("kind")),
                content: None,
            }),
            item: Item::Struct(Struct {
                visibility: Visibility::Pub,
                name: String::from("Foo"),
                parameters: vec![GenericParameter::Type(String::from("T"))],
                content: StructVariant::NamedFields(vec![NamedField {
                    name: String::from("one_two"),
                    ty: Type::Path(TypePath {
                        segments: vec![PathSegment {
                            name: String::from("Vec"),
                            arguments: vec![GenericArgument::Type(plain("T"))],
                        }],
                    }),
                }]),
            }),
        }
    );
}

#[test]
fn enum_is_read() {
    let foo = definition(input::Data::Enum(vec![
        input::Variant {
            attrs: Vec::new(),
            ident: String::from("Zero"),
            fields: input::Fields::Unit(span()),
            discriminant: None,
        },
        input::Variant {
            attrs: vec![serde(vec![entry("rename", "UPPERCASE")])],
            ident: String::from("One"),
            fields: input::Fields::Unnamed(vec![plain_in("bool")], span()),
            discriminant: None,
        },
    ]));
    assert_eq!(
        Item::from_input(foo).unwrap(),
        Item::Enum(Enum {
            visibility: Visibility::Inherited,
            name: String::from("Foo"),
            parameters: Vec::new(),
            variants: vec![
                Variant {
                    serde: None,
                    name: String::from("Zero"),
                    content: VariantContent::Unit,
                },
                Variant {
                    serde: Some(SerdeVariantAttributes {
                        rename: Some(RenameRule::Upper),
                        rename_all: None,
                    }),
                    name: String::from("One"),
                    content: VariantContent::Unnamed(plain("bool")),
                },
            ],
        })
    );
}

#[test]
fn errors_of_a_definition_come_in_order() {
    assert!(matches!(
        kind_of(Container::from_input(definition(input::Data::Union(span())))),
        ErrorKind::Union
    ));
    let mut restricted = definition(input::Data::Struct(input::Fields::Unit(span())));
    restricted.vis = input::Visibility::Restricted(span());
    restricted.generics = vec![input::GenericParam::Const(span())];
    assert!(matches!(
        kind_of(Item::from_input(restricted)),
        ErrorKind::VisibilityRestricted
    ));
    let mut bounded = definition(input::Data::Struct(input::Fields::Unit(span())));
    bounded.generics = vec![input::GenericParam::Type {
        ident: String::from("T"),
        bounds: Some(span()),
    }];
    assert!(matches!(
        kind_of(Item::from_input(bounded)),
        ErrorKind::GenericBounds
    ));
    let mut invalid = definition(input::Data::Union(span()));
    invalid.attrs = vec![serde(vec![entry("rename", "nope")])];
    assert!(matches!(
        kind_of(Container::from_input(invalid)),
        ErrorKind::Syn(_)
    ));
    assert!(matches!(
        kind_of(Struct::from_content(
            input::Visibility::Public,
            String::from("Foo"),
            Vec::new(),
            input::Fields::Unit(span())
        )),
        ErrorKind::UnitStruct
    ));
}

#[test]
fn errors_of_variants_come_in_order() {
    let discriminant = input::Variant {
        attrs: vec![serde(vec![entry("rename", "nope")])],
        ident: String::from("A"),
        fields: input::Fields::Unnamed(vec![plain_in("u8"), plain_in("u8")], span()),
        discriminant: Some(span()),
    };
    assert!(matches!(
        kind_of(Variant::from_variant(discriminant)),
        ErrorKind::ExplicicitDiscriminant
    ));
    let invalid = input::Variant {
        attrs: vec![serde(vec![entry("rename", "nope")])],
        ident: String::from("A"),
        fields: input::Fields::Unnamed(vec![plain_in("u8"), plain_in("u8")], span()),
        discriminant: None,
    };
    assert!(matches!(
        kind_of(Variant::from_variant(invalid)),
        ErrorKind::Syn(_)
    ));
    let fine = || input::Variant {
        attrs: Vec::new(),
        ident: String::from("A"),
        fields: input::Fields::Unit(span()),
        discriminant: None,
    };
    let two = || input::Variant {
        attrs: Vec::new(),
        ident: String::from("B"),
        fields: input::Fields::Unnamed(vec![plain_in("u8"), plain_in("u8")], span()),
        discriminant: None,
    };
    let function = input::Variant {
        attrs: Vec::new(),
        ident: String::from("C"),
        fields: input::Fields::Unnamed(vec![input::Type::BareFn(span())], span()),
        discriminant: None,
    };
    assert!(matches!(
        kind_of(Variant::from_variants(vec![fine(), two(), function])),
        ErrorKind::EnumMultipleUnnamedFields
    ));
    assert!(matches!(
        kind_of(Enum::from_content(
            input::Visibility::Inherited,
            String::from("Foo"),
            Vec::new(),
            vec![fine(), two()]
        )),
        ErrorKind::EnumMultipleUnnamedFields
    ));
    assert_eq!(Variant::from_variants(vec![fine(), fine()]).unwrap().len(), 2);
}
