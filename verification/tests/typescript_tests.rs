use camo::ir;
use camo::ir::{
    Container, ContainerAttributes, Enum, GenericArgument, GenericParameter, Item, Lifetime,
    NamedField, ReferenceType, RenameRule, SliceType, Struct, StructContent, UnnamedField,
    VariantAttributes, VariantContent, Visibility,
};
use camo::typescript::{
    ArrayType, BuiltinType, Definition, Field, Interface, IntersectionType, LiteralType,
    ObjectType, PathSegment, Type, TypeAlias, TypePath, UnionType, Variant,
};
use unindent::Unindent;

fn named(name: &'static str) -> ir::Type {
    ir::Type::Path(ir::TypePath {
        segments: vec![ir::PathSegment {
            name,
            arguments: Vec::new(),
        }],
    })
}

fn generic(name: &'static str, argument: ir::Type) -> ir::Type {
    ir::Type::Path(ir::TypePath {
        segments: vec![ir::PathSegment {
            name,
            arguments: vec![GenericArgument::Type(argument)],
        }],
    })
}

fn reference(lifetime: &str, ty: ir::Type) -> ir::Type {
    ir::Type::Reference(ReferenceType {
        lifetime: Lifetime {
            name: String::from(lifetime),
        },
        ty: Box::new(ty),
    })
}

fn field(name: &'static str, ty: ir::Type) -> NamedField {
    NamedField { name, ty }
}

fn attributes() -> ContainerAttributes {
    ContainerAttributes {
        rename: None,
        rename_all: None,
        tag: None,
        content: None,
    }
}

fn no_attributes() -> VariantAttributes {
    VariantAttributes {
        rename: None,
        rename_all: None,
    }
}

fn record(
    attributes: ContainerAttributes,
    name: &'static str,
    parameters: Vec<GenericParameter>,
    fields: Vec<NamedField>,
) -> Container {
    Container {
        attributes,
        item: Item::Struct(Struct {
            visibility: Visibility::Inherited,
            name,
            parameters,
            content: StructContent::NamedFields(fields),
        }),
    }
}

fn choice(
    attributes: ContainerAttributes,
    name: &'static str,
    parameters: Vec<GenericParameter>,
    variants: Vec<ir::Variant>,
) -> Container {
    Container {
        attributes,
        item: Item::Enum(Enum {
            visibility: Visibility::Inherited,
            name,
            parameters,
            variants,
        }),
    }
}

fn variant(name: &'static str, content: VariantContent) -> ir::Variant {
    ir::Variant {
        attributes: no_attributes(),
        name,
        content,
    }
}

fn tpath(name: &str) -> Type {
    Type::Path(TypePath {
        segments: Vec::from([PathSegment {
            name: name.to_string(),
            arguments: Vec::new(),
        }]),
    })
}

#[test]
fn implements_from() {
    let foo = record(attributes(), "Foo", Vec::new(), vec![field("foo", named("i32"))]);

    assert_eq!(
        Definition::try_from(foo),
        Ok(Definition::Interface(Interface {
            export: false,
            name: String::from("Foo"),
            parameters: Vec::new(),
            fields: vec![Field {
                name: String::from("foo"),
                ty: Type::Builtin(BuiltinType::Number),
            },],
        },))
    );
}

#[test]
fn supports_booleans() {
    let foo = record(attributes(), "Foo", Vec::new(), vec![field("bar", named("bool"))]);

    let def: Definition = foo.try_into().unwrap();

    assert_eq!(
        def,
        Definition::Interface(Interface {
            export: false,
            name: String::from("Foo"),
            parameters: Vec::new(),
            fields: vec![Field {
                name: String::from("bar"),
                ty: Type::Builtin(BuiltinType::Boolean),
            }]
        })
    );
}

#[test]
fn supports_numbers() {
    let foo = record(
        attributes(),
        "Foo",
        Vec::new(),
        vec![
            field("foo", named("u32")),
            field("bar", named("i32")),
            field("baz", named("usize")),
        ],
    );

    let def: Definition = foo.try_into().unwrap();

    assert_eq!(
        def,
        Definition::Interface(Interface {
            export: false,
            name: String::from("Foo"),
            parameters: Vec::new(),
            fields: vec![
                Field {
                    name: String::from("foo"),
                    ty: Type::Builtin(BuiltinType::Number),
                },
                Field {
                    name: String::from("bar"),
                    ty: Type::Builtin(BuiltinType::Number),
                },
                Field {
                    name: String::from("baz"),
                    ty: Type::Builtin(BuiltinType::Number),
                },
            ],
        })
    );
}

#[test]
fn supports_chars() {
    let foo = record(attributes(), "Foo", Vec::new(), vec![field("foo", named("char"))]);

    let def: Definition = foo.try_into().unwrap();

    assert_eq!(
        def,
        Definition::Interface(Interface {
            export: false,
            name: String::from("Foo"),
            parameters: Vec::new(),
            fields: vec![Field {
                name: String::from("foo"),
                ty: Type::Builtin(BuiltinType::String),
            }]
        })
    );
}

#[test]
fn supports_string() {
    let foo = record(attributes(), "Foo", Vec::new(), vec![field("foo", named("String"))]);

    let def: Definition = foo.try_into().unwrap();

    assert_eq!(
        def,
        Definition::Interface(Interface {
            export: false,
            name: String::from("Foo"),
            parameters: Vec::new(),
            fields: vec![Field {
                name: String::from("foo"),
                ty: Type::Builtin(BuiltinType::String),
            }]
        })
    );
}

#[test]
fn supports_str() {
    let foo = record(
        attributes(),
        "Foo",
        vec![GenericParameter::Lifetime("a")],
        vec![field("foo", reference("a", named("str")))],
    );

    let def: Definition = foo.try_into().unwrap();

    assert_eq!(
        def,
        Definition::Interface(Interface {
            export: false,
            name: String::from("Foo"),
            parameters: Vec::new(),
            fields: vec![Field {
                name: String::from("foo"),
                ty: Type::Builtin(BuiltinType::String),
            }]
        })
    );
}

#[test]
fn supports_vec() {
    let foo = record(
        attributes(),
        "Foo",
        Vec::new(),
        vec![field("foo", generic("Vec", named("u8")))],
    );

    let def: Definition = foo.try_into().unwrap();

    assert_eq!(
        def,
        Definition::Interface(Interface {
            export: false,
            name: String::from("Foo"),
            parameters: Vec::new(),
            fields: vec![Field {
                name: String::from("foo"),
                ty: Type::Array(ArrayType::from(Type::Builtin(BuiltinType::Number))),
            }]
        })
    );
}

#[test]
fn supports_slice() {
    let foo = record(
        attributes(),
        "Foo",
        Vec::new(),
        vec![field(
            "foo",
            reference("static", ir::Type::Slice(SliceType::from(named("u8")))),
        )],
    );

    let def: Definition = foo.try_into().unwrap();

    assert_eq!(
        def,
        Definition::Interface(Interface {
            export: false,
            name: String::from("Foo"),
            parameters: Vec::new(),
            fields: vec![Field {
                name: String::from("foo"),
                ty: Type::Array(ArrayType::from(Type::Builtin(BuiltinType::Number))),
            }]
        })
    );
}

#[test]
fn supports_array() {
    let foo = record(
        attributes(),
        "Foo",
        Vec::new(),
        vec![field("foo", ir::Type::Array(ir::ArrayType::from(named("u8"))))],
    );

    let def: Definition = foo.try_into().unwrap();

    assert_eq!(
        def,
        Definition::Interface(Interface {
            export: false,
            name: String::from("Foo"),
            parameters: Vec::new(),
            fields: vec![Field {
                name: String::from("foo"),
                ty: Type::Array(ArrayType::from(Type::Builtin(BuiltinType::Number))),
            }]
        })
    );
}

#[test]
fn supports_option() {
    let foo = record(
        attributes(),
        "Foo",
        Vec::new(),
        vec![field("foo", generic("Option", named("String")))],
    );

    let def: Definition = foo.try_into().unwrap();

    assert_eq!(
        def,
        Definition::Interface(Interface {
            export: false,
            name: String::from("Foo"),
            parameters: Vec::new(),
            fields: vec![Field {
                name: String::from("foo"),
                ty: Type::Union(UnionType {
                    variants: Vec::from([
                        Variant(Type::Builtin(BuiltinType::String)),
                        Variant(Type::Builtin(BuiltinType::Null)),
                    ])
                }),
            }]
        })
    );
}

#[test]
fn display_type_alias() {
    let def = TypeAlias {
        export: true,
        name: String::from("Foo"),
        parameters: Vec::from(["K"]),
        ty: Type::Object(ObjectType {
            fields: Vec::from([
                Field {
                    name: String::from("k"),
                    ty: Type::Path(TypePath {
                        segments: Vec::from([PathSegment {
                            name: "K".to_string(),
                            arguments: Vec::new(),
                        }]),
                    }),
                },
                Field {
                    name: String::from("n"),
                    ty: Type::Builtin(BuiltinType::Number),
                },
            ]),
        }),
    };

    let result = def.to_string();

    assert_eq!(
        result,
        "
        export type Foo<K> = { k: K; n: number; };
        "
        .unindent()
    );
}

#[test]
fn display_interface() {
    let def = Interface {
        export: true,
        name: String::from("Foo"),
        parameters: Vec::from(["K"]),
        fields: vec![
            Field {
                name: String::from("foo"),
                ty: Type::Builtin(BuiltinType::Number),
            },
            Field {
                name: String::from("bar"),
                ty: Type::Path(TypePath {
                    segments: Vec::from([PathSegment {
                        name: "K".to_string(),
                        arguments: Vec::new(),
                    }]),
                }),
            },
        ],
    };

    let result = def.to_string();

    assert_eq!(
        result,
        "
        export interface Foo<K> {
        \tfoo: number;
        \tbar: K;
        }
        "
        .unindent()
    );
}

#[test]
fn display_enum() {
    let def = TypeAlias {
        export: true,
        name: String::from("Foo"),
        parameters: Vec::from(["T"]),
        ty: Type::Union(UnionType {
            variants: Vec::from([
                Variant(Type::Builtin(BuiltinType::Number)),
                Variant(Type::Builtin(BuiltinType::Boolean)),
                Variant(Type::Path(TypePath {
                    segments: Vec::from([PathSegment {
                        name: "T".to_string(),
                        arguments: Vec::new(),
                    }]),
                })),
            ]),
        }),
    };

    let result = def.to_string();

    assert_eq!(
        result,
        "
        export type Foo<T> =
        \t| number
        \t| boolean
        \t| T;
        "
        .unindent()
    );
}

#[test]
fn serde_container_rename_struct() {
    let foo_bar = record(
        ContainerAttributes {
            rename: Some(RenameRule::CamelCase),
            ..attributes()
        },
        "FooBar",
        Vec::new(),
        vec![
            field("one_two_three", named("i32")),
            field("four_five_six", generic("Vec", named("u8"))),
        ],
    );

    let def: Definition = foo_bar.try_into().unwrap();

    assert_eq!(
        def,
        Definition::Interface(Interface {
            export: false,
            name: String::from("fooBar"),
            parameters: Vec::new(),
            fields: Vec::from([
                Field {
                    name: String::from("one_two_three"),
                    ty: Type::Builtin(BuiltinType::Number),
                },
                Field {
                    name: String::from("four_five_six"),
                    ty: Type::Array(ArrayType::from(Type::Builtin(BuiltinType::Number))),
                },
            ]),
        })
    );
}

fn variant_one_and_two(attributes: ContainerAttributes) -> Container {
    choice(
        attributes,
        "FooBar",
        Vec::new(),
        vec![
            variant("VariantOne", VariantContent::Unnamed(named("i32"))),
            variant(
                "VariantTwo",
                VariantContent::Named(vec![field("value", named("String"))]),
            ),
        ],
    )
}

fn one_and_two(one: &str, two: &str, value: &str) -> Type {
    Type::Union(UnionType {
        variants: Vec::from([
            Variant(Type::Object(ObjectType {
                fields: Vec::from([Field {
                    name: String::from(one),
                    ty: Type::Builtin(BuiltinType::Number),
                }]),
            })),
            Variant(Type::Object(ObjectType {
                fields: Vec::from([Field {
                    name: String::from(two),
                    ty: Type::Object(ObjectType {
                        fields: Vec::from([Field {
                            name: String::from(value),
                            ty: Type::Builtin(BuiltinType::String),
                        }]),
                    }),
                }]),
            })),
        ]),
    })
}

#[test]
fn serde_container_rename_enum() {
    let foo_bar = variant_one_and_two(ContainerAttributes {
        rename: Some(RenameRule::CamelCase),
        ..attributes()
    });

    assert_eq!(
        Definition::try_from(foo_bar),
        Ok(Definition::Alias(TypeAlias {
            export: false,
            name: String::from("fooBar"),
            parameters: Vec::new(),
            ty: one_and_two("VariantOne", "VariantTwo", "value"),
        }))
    )
}

#[test]
fn serde_container_rename_all_struct() {
    let foo = record(
        ContainerAttributes {
            rename_all: Some(RenameRule::CamelCase),
            ..attributes()
        },
        "Foo",
        Vec::new(),
        vec![
            field("one_two_three", named("i32")),
            field("four_five_six", generic("Vec", named("u8"))),
        ],
    );

    let def: Definition = foo.try_into().unwrap();

    assert_eq!(
        def,
        Definition::Interface(Interface {
            export: false,
            name: String::from("Foo"),
            parameters: Vec::new(),
            fields: Vec::from([
                Field {
                    name: String::from("oneTwoThree"),
                    ty: Type::Builtin(BuiltinType::Number),
                },
                Field {
                    name: String::from("fourFiveSix"),
                    ty: Type::Array(ArrayType::from(Type::Builtin(BuiltinType::Number))),
                },
            ]),
        })
    );
}

#[test]
fn serde_container_rename_all_enum() {
    let foo_bar = variant_one_and_two(ContainerAttributes {
        rename_all: Some(RenameRule::CamelCase),
        ..attributes()
    });

    assert_eq!(
        Definition::try_from(foo_bar),
        Ok(Definition::Alias(TypeAlias {
            export: false,
            name: String::from("FooBar"),
            parameters: Vec::new(),
            ty: one_and_two("variantOne", "variantTwo", "value"),
        }))
    )
}

#[test]
fn serde_variant_rename() {
    let foo_bar = choice(
        ContainerAttributes {
            rename_all: Some(RenameRule::CamelCase),
            ..attributes()
        },
        "FooBar",
        Vec::new(),
        vec![
            ir::Variant {
                attributes: VariantAttributes {
                    rename: Some(RenameRule::UpperCase),
                    rename_all: None,
                },
                name: "VariantOne",
                content: VariantContent::Unnamed(named("i32")),
            },
            variant(
                "VariantTwo",
                VariantContent::Named(vec![field("value", named("String"))]),
            ),
        ],
    );

    assert_eq!(
        Definition::try_from(foo_bar),
        Ok(Definition::Alias(TypeAlias {
            export: false,
            name: String::from("FooBar"),
            parameters: Vec::new(),
            ty: one_and_two("VARIANTONE", "variantTwo", "value"),
        }))
    )
}

#[test]
fn serde_variant_rename_all() {
    let foo_bar = choice(
        ContainerAttributes {
            rename_all: Some(RenameRule::CamelCase),
            ..attributes()
        },
        "FooBar",
        Vec::new(),
        vec![
            variant("VariantOne", VariantContent::Unnamed(named("i32"))),
            ir::Variant {
                attributes: VariantAttributes {
                    rename: None,
                    rename_all: Some(RenameRule::UpperCase),
                },
                name: "VariantTwo",
                content: VariantContent::Named(vec![field("value", named("String"))]),
            },
        ],
    );

    assert_eq!(
        Definition::try_from(foo_bar),
        Ok(Definition::Alias(TypeAlias {
            export: false,
            name: String::from("FooBar"),
            parameters: Vec::new(),
            ty: one_and_two("variantOne", "variantTwo", "VALUE"),
        }))
    )
}

#[test]
fn enum_externally_tagged() {
    let foo = choice(
        attributes(),
        "Foo",
        vec![GenericParameter::Type("T")],
        vec![
            variant("Zero", VariantContent::Unit),
            variant("One", VariantContent::Unnamed(named("bool"))),
            variant("Two", VariantContent::Unnamed(named("T"))),
            variant("Three", VariantContent::Unnamed(named("V"))),
            variant(
                "Four",
                VariantContent::Named(vec![field("values", generic("Vec", named("i32")))]),
            ),
        ],
    );

    let def: Definition = foo.try_into().unwrap();

    assert_eq!(
        def,
        Definition::Alias(TypeAlias {
            export: false,
            name: String::from("Foo"),
            parameters: Vec::from(["T"]),
            ty: Type::Union(UnionType {
                variants: Vec::from([
                    Variant(Type::Literal(LiteralType::String(String::from("Zero")))),
                    Variant(Type::Object(ObjectType {
                        fields: Vec::from([Field {
                            name: String::from("One"),
                            ty: Type::Builtin(BuiltinType::Boolean),
                        }])
                    })),
                    Variant(Type::Object(ObjectType {
                        fields: Vec::from([Field {
                            name: String::from("Two"),
                            ty: Type::Path(TypePath {
                                segments: Vec::from([PathSegment {
                                    name: "T".to_string(),
                                    arguments: Vec::new()
                                }])
                            }),
                        }])
                    })),
                    Variant(Type::Object(ObjectType {
                        fields: Vec::from([Field {
                            name: String::from("Three"),
                            ty: Type::Path(TypePath {
                                segments: Vec::from([PathSegment {
                                    name: "V".to_string(),
                                    arguments: Vec::new()
                                }])
                            }),
                        }])
                    })),
                    Variant(Type::Object(ObjectType {
                        fields: Vec::from([Field {
                            name: String::from("Four"),
                            ty: Type::Object(ObjectType {
                                fields: Vec::from([Field {
                                    name: String::from("values"),
                                    ty: Type::Array(ArrayType::from(Type::Builtin(
                                        BuiltinType::Number
                                    ))),
                                }])
                            }),
                        }])
                    })),
                ]),
            })
        })
    );
}

#[test]
fn enum_internally_tagged() {
    let foo = choice(
        ContainerAttributes {
            tag: Some("tag"),
            ..attributes()
        },
        "Foo",
        Vec::new(),
        vec![
            variant("VariantOne", VariantContent::Unnamed(named("Bar"))),
            variant(
                "VariantTwo",
                VariantContent::Named(vec![field("bar", named("Bar"))]),
            ),
        ],
    );

    let def: Definition = foo.try_into().unwrap();

    assert_eq!(
        def,
        Definition::Alias(TypeAlias {
            export: false,
            name: String::from("Foo"),
            parameters: Vec::new(),
            ty: Type::Union(UnionType {
                variants: Vec::from([
                    Variant(Type::Intersection(IntersectionType {
                        left: Box::new(Type::Object(ObjectType {
                            fields: Vec::from([Field {
                                name: String::from("tag"),
                                ty: Type::Literal(LiteralType::String(String::from("VariantOne"))),
                            },])
                        })),
                        right: Box::new(Type::Path(TypePath {
                            segments: Vec::from([PathSegment {
                                name: "Bar".to_string(),
                                arguments: Vec::new()
                            },])
                        }))
                    })),
                    Variant(Type::Intersection(IntersectionType {
                        left: Box::new(Type::Object(ObjectType {
                            fields: Vec::from([Field {
                                name: String::from("tag"),
                                ty: Type::Literal(LiteralType::String(String::from("VariantTwo"))),
                            },])
                        })),
                        right: Box::new(Type::Object(ObjectType {
                            fields: Vec::from([Field {
                                name: String::from("bar"),
                                ty: Type::Path(TypePath {
                                    segments: Vec::from([PathSegment {
                                        name: "Bar".to_string(),
                                        arguments: Vec::new()
                                    },])
                                }),
                            }])
                        }))
                    })),
                ])
            })
        })
    );
}

#[test]
fn enum_adjacently_tagged() {
    let foo = choice(
        ContainerAttributes {
            tag: Some("tag"),
            content: Some("content"),
            ..attributes()
        },
        "Foo",
        Vec::new(),
        vec![
            variant("VariantOne", VariantContent::Unnamed(named("i32"))),
            variant(
                "VariantTwo",
                VariantContent::Named(vec![field("valid", named("bool"))]),
            ),
        ],
    );

    let def: Definition = foo.try_into().unwrap();

    assert_eq!(
        def,
        Definition::Alias(TypeAlias {
            export: false,
            name: String::from("Foo"),
            parameters: Vec::new(),
            ty: Type::Union(UnionType {
                variants: Vec::from([
                    Variant(Type::Object(ObjectType {
                        fields: Vec::from([
                            Field {
                                name: String::from("tag"),
                                ty: Type::Literal(LiteralType::String(String::from("VariantOne"))),
                            },
                            Field {
                                name: String::from("content"),
                                ty: Type::Builtin(BuiltinType::Number),
                            },
                        ])
                    })),
                    Variant(Type::Object(ObjectType {
                        fields: Vec::from([
                            Field {
                                name: String::from("tag"),
                                ty: Type::Literal(LiteralType::String(String::from("VariantTwo"))),
                            },
                            Field {
                                name: String::from("content"),
                                ty: Type::Object(ObjectType {
                                    fields: Vec::from([Field {
                                        name: String::from("valid"),
                                        ty: Type::Builtin(BuiltinType::Boolean),
                                    }])
                                }),
                            },
                        ])
                    })),
                ])
            })
        })
    );
}

#[test]
fn externally_tagged_zero_and_one_renders() {
    let foo = choice(
        attributes(),
        "Foo",
        Vec::new(),
        vec![
            variant("Zero", VariantContent::Unit),
            variant("One", VariantContent::Unnamed(named("bool"))),
        ],
    );
    let def = Definition::try_from(foo).unwrap();
    assert_eq!(def.to_string(), "type Foo =\n\t| \"Zero\"\n\t| { One: boolean; };\n");
}

#[test]
fn adjacently_tagged_type_and_value_renders() {
    let foo = choice(
        ContainerAttributes {
            tag: Some("type"),
            content: Some("value"),
            ..attributes()
        },
        "Foo",
        Vec::new(),
        vec![variant("A", VariantContent::Unnamed(named("i32")))],
    );
    let def = Definition::try_from(foo).unwrap();
    assert_eq!(
        def.to_string(),
        "type Foo =\n\t| { type: \"A\"; value: number; };\n"
    );
}

#[test]
fn adjacently_tagged_unit_variant_has_no_content() {
    let foo = choice(
        ContainerAttributes {
            tag: Some("type"),
            content: Some("value"),
            ..attributes()
        },
        "Foo",
        Vec::new(),
        vec![variant("A", VariantContent::Unit)],
    );
    let def = Definition::try_from(foo).unwrap();
    assert_eq!(def.to_string(), "type Foo =\n\t| { type: \"A\"; };\n");
}

#[test]
fn internally_tagged_with_record_renders() {
    let foo = choice(
        ContainerAttributes {
            tag: Some("tag"),
            ..attributes()
        },
        "Foo",
        Vec::new(),
        vec![
            variant("A", VariantContent::Unnamed(named("Bar"))),
            variant("B", VariantContent::Unit),
        ],
    );
    let def = Definition::try_from(foo).unwrap();
    assert_eq!(
        def.to_string(),
        "type Foo =\n\t| { tag: \"A\"; } & Bar\n\t| { tag: \"B\"; };\n"
    );
}

#[test]
fn content_without_tag_is_externally_tagged() {
    let foo = choice(
        ContainerAttributes {
            content: Some("value"),
            ..attributes()
        },
        "Foo",
        Vec::new(),
        vec![variant("A", VariantContent::Unnamed(named("i32")))],
    );
    let def = Definition::try_from(foo).unwrap();
    assert_eq!(def.to_string(), "type Foo =\n\t| { A: number; };\n");
}

#[test]
fn internally_tagged_alias_is_renamed_as_a_type() {
    let foo = choice(
        ContainerAttributes {
            rename: Some(RenameRule::SnakeCase),
            tag: Some("tag"),
            ..attributes()
        },
        "FooBar",
        Vec::new(),
        vec![variant("A", VariantContent::Unit)],
    );
    let def = Definition::try_from(foo).unwrap();
    assert_eq!(def.to_string(), "type foo_bar =\n\t| { tag: \"A\"; };\n");
}

#[test]
fn struct_with_camel_case_fields_renders() {
    let foo = record(
        ContainerAttributes {
            rename_all: Some(RenameRule::CamelCase),
            ..attributes()
        },
        "Foo",
        Vec::new(),
        vec![field("one_two", named("i32"))],
    );
    let def = Definition::try_from(foo).unwrap();
    assert_eq!(def.to_string(), "interface Foo {\n\toneTwo: number;\n}\n");
}

#[test]
fn newtype_struct_is_an_alias() {
    let id = Container {
        attributes: attributes(),
        item: Item::Struct(Struct {
            visibility: Visibility::Inherited,
            name: "Id",
            parameters: Vec::new(),
            content: StructContent::UnnamedField(UnnamedField {
                ty: named("String"),
            }),
        }),
    };
    let def = Definition::try_from(id).unwrap();
    assert_eq!(
        def,
        Definition::Alias(TypeAlias {
            export: false,
            name: String::from("Id"),
            parameters: Vec::new(),
            ty: Type::Builtin(BuiltinType::String),
        })
    );
    assert_eq!(def.to_string(), "type Id = string;\n");
}

#[test]
fn public_items_are_exported_and_lifetimes_dropped() {
    let wrapper = Container {
        attributes: attributes(),
        item: Item::Struct(Struct {
            visibility: Visibility::Pub,
            name: "Wrapper",
            parameters: vec![
                GenericParameter::Lifetime("a"),
                GenericParameter::Type("T"),
                GenericParameter::Lifetime("b"),
                GenericParameter::Type("U"),
            ],
            content: StructContent::UnnamedField(UnnamedField { ty: named("T") }),
        }),
    };
    let def = Definition::try_from(wrapper).unwrap();
    assert_eq!(
        def,
        Definition::Alias(TypeAlias {
            export: true,
            name: String::from("Wrapper"),
            parameters: vec!["T", "U"],
            ty: tpath("T"),
        })
    );
    assert_eq!(def.to_string(), "export type Wrapper<T, U> = T;\n");
}

#[test]
fn rendering_twice_gives_the_same_text() {
    let foo = variant_one_and_two(ContainerAttributes {
        rename_all: Some(RenameRule::KebabCase),
        tag: Some("kind"),
        content: Some("data"),
        ..attributes()
    });
    let def = Definition::try_from(foo).unwrap();
    let first = def.to_string();
    let second = def.to_string();
    assert_eq!(first, second);
    assert_eq!(first.as_bytes(), second.as_bytes());
    assert_eq!(def.clone().to_string(), first);
    assert_eq!(
        first,
        "type FooBar =\n\t| { kind: \"variant-one\"; data: number; }\n\t| { kind: \"variant-two\"; data: { value: string; }; };\n"
    );
}

#[test]
fn variant_rule_governs_its_fields_in_every_representation() {
    let variants = || {
        vec![
            ir::Variant {
                attributes: VariantAttributes {
                    rename: None,
                    rename_all: Some(RenameRule::ScreamingSnakeCase),
                },
                name: "FirstCase",
                content: VariantContent::Named(vec![field("inner_value", named("u8"))]),
            },
            variant(
                "SecondCase",
                VariantContent::Named(vec![field("inner_value", named("u8"))]),
            ),
        ]
    };
    let rule = Some(RenameRule::CamelCase);

    let external = choice(
        ContainerAttributes { rename_all: rule, ..attributes() },
        "Foo",
        Vec::new(),
        variants(),
    );
    assert_eq!(
        Definition::try_from(external).unwrap().to_string(),
        "type Foo =\n\t| { firstCase: { INNER_VALUE: number; }; }\n\t| { secondCase: { inner_value: number; }; };\n"
    );

    let adjacent = choice(
        ContainerAttributes { rename_all: rule, tag: Some("t"), content: Some("c"), ..attributes() },
        "Foo",
        Vec::new(),
        variants(),
    );
    assert_eq!(
        Definition::try_from(adjacent).unwrap().to_string(),
        "type Foo =\n\t| { t: \"firstCase\"; c: { INNER_VALUE: number; }; }\n\t| { t: \"secondCase\"; c: { inner_value: number; }; };\n"
    );

    let internal = choice(
        ContainerAttributes { rename_all: rule, tag: Some("t"), ..attributes() },
        "Foo",
        Vec::new(),
        variants(),
    );
    assert_eq!(
        Definition::try_from(internal).unwrap().to_string(),
        "type Foo =\n\t| { t: \"firstCase\"; } & { INNER_VALUE: number; }\n\t| { t: \"secondCase\"; } & { inner_value: number; };\n"
    );
}

#[test]
fn definition_of_takes_a_reference() {
    let foo = record(attributes(), "Foo", Vec::new(), vec![field("foo", named("i32"))]);
    let by_reference = Definition::of(&foo);
    assert_eq!(by_reference, Definition::try_from(foo));
}

#[test]
fn definition_from_interface_and_alias() {
    let interface = Interface {
        export: false,
        name: String::from("Foo"),
        parameters: Vec::new(),
        fields: Vec::new(),
    };
    assert_eq!(
        Definition::from(interface.clone()),
        Definition::Interface(interface.clone())
    );
    assert_eq!(interface.to_string(), "interface Foo {\n}\n");
    let alias = TypeAlias::alias("Id", BuiltinType::Number);
    assert_eq!(Definition::from(alias.clone()), Definition::Alias(alias));
}

#[test]
fn alias_and_exported() {
    let alias = TypeAlias::alias("Id", Type::Builtin(BuiltinType::Number));
    assert_eq!(
        alias,
        TypeAlias {
            export: false,
            name: String::from("Id"),
            parameters: Vec::new(),
            ty: Type::Builtin(BuiltinType::Number),
        }
    );
    assert_eq!(alias.to_string(), "type Id = number;\n");
    let exported = alias.exported();
    assert_eq!(
        exported,
        TypeAlias {
            export: true,
            name: String::from("Id"),
            parameters: Vec::new(),
            ty: Type::Builtin(BuiltinType::Number),
        }
    );
    assert_eq!(exported.to_string(), "export type Id = number;\n");
    let from_path = TypeAlias::alias("Name", TypePath::from("String"));
    assert_eq!(from_path.ty, tpath("String"));
}
