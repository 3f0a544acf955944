use camo::basic::{BuiltinType, Camo, Field, IntoType, Item, PathSegment, Struct, Type, TypePath};

#[test]
fn export_calls_camo() {
    struct Foo {}

    struct Bar {}

    impl Camo for Foo {
        fn camo() -> Item {
            Item::Struct(Struct {
                name: "Foo",
                fields: Vec::new(),
            })
        }
    }

    impl Camo for Bar {
        fn camo() -> Item {
            Item::Struct(Struct {
                name: "Bar",
                fields: Vec::new(),
            })
        }
    }

    let exports: Vec<Item> = vec![Foo::camo().into(), Bar::camo().into()];

    assert_eq!(exports, vec![Foo::camo(), Bar::camo()]);
}

#[test]
fn into_type_of_builtin_types() {
    assert_eq!(<bool as IntoType>::into_type(), Type::Builtin(BuiltinType::Bool));
    assert_eq!(<u8 as IntoType>::into_type(), Type::Builtin(BuiltinType::U8));
    assert_eq!(<u16 as IntoType>::into_type(), Type::Builtin(BuiltinType::U16));
    assert_eq!(<u32 as IntoType>::into_type(), Type::Builtin(BuiltinType::U32));
    assert_eq!(<u64 as IntoType>::into_type(), Type::Builtin(BuiltinType::U64));
    assert_eq!(<u128 as IntoType>::into_type(), Type::Builtin(BuiltinType::U128));
    assert_eq!(<usize as IntoType>::into_type(), Type::Builtin(BuiltinType::Usize));
    assert_eq!(<i8 as IntoType>::into_type(), Type::Builtin(BuiltinType::I8));
    assert_eq!(<i16 as IntoType>::into_type(), Type::Builtin(BuiltinType::I16));
    assert_eq!(<i32 as IntoType>::into_type(), Type::Builtin(BuiltinType::I32));
    assert_eq!(<i64 as IntoType>::into_type(), Type::Builtin(BuiltinType::I64));
    assert_eq!(<i128 as IntoType>::into_type(), Type::Builtin(BuiltinType::I128));
    assert_eq!(<isize as IntoType>::into_type(), Type::Builtin(BuiltinType::Isize));
    assert_eq!(<char as IntoType>::into_type(), Type::Builtin(BuiltinType::Char));
    assert_eq!(<str as IntoType>::into_type(), Type::Builtin(BuiltinType::Str));
}

#[test]
fn basic_type_path_from_segments() {
    let path = TypePath::from([PathSegment("std"), PathSegment("string"), PathSegment("String")]);
    assert_eq!(
        path,
        TypePath {
            segments: vec![PathSegment("std"), PathSegment("string"), PathSegment("String")],
        }
    );
}

#[test]
fn basic_struct_with_fields() {
    let item = Item::Struct(Struct {
        name: "Book",
        fields: vec![
            Field {
                name: "title",
                ty: Type::Path(TypePath::from([PathSegment("String")])),
            },
            Field {
                name: "page_count",
                ty: <usize as IntoType>::into_type(),
            },
        ],
    });
    let Item::Struct(book) = item;
    assert_eq!(book.name, "Book");
    assert_eq!(book.fields.len(), 2);
    assert_eq!(book.fields[1].ty, Type::Builtin(BuiltinType::Usize));
}
