use client_sdk::ts_bindgen::derive::{
    enum_definition, struct_definition, DeriveError, FieldDesc, FieldsDesc, TagStyle, VariantDesc,
};
use client_sdk::ts_bindgen::ty::{Discriminator, TypeScriptType};

fn field(name: &str, ty: TypeScriptType) -> FieldDesc {
    FieldDesc {
        name: name.to_string(),
        ty,
        is_option: false,
        skipped: false,
        has_default: false,
        flatten: false,
        comment: String::new(),
    }
}

fn unit_variant(ident: &str, name: &'static str, interface: &'static str) -> VariantDesc {
    VariantDesc {
        ident: ident.to_string(),
        name,
        interface,
        comment: String::new(),
        discriminant: None,
        fields: FieldsDesc::Unit,
    }
}

fn member(name: &str, ty: TypeScriptType, comment: &str) -> (String, TypeScriptType, String) {
    (name.to_string(), ty, comment.to_string())
}

#[test]
fn struct_with_skipped_renamed_and_flattened_fields() {
    // #[serde(default, rename_all = "SCREAMING_SNAKE_CASE")]
    // struct Test { #[serde(skip_serializing)] a_small_field: i32, /// Bananas? bananas: i32,
    //               #[serde(flatten)] inner: Inner }
    let mut skipped = field("A_SMALL_FIELD", TypeScriptType::number());
    skipped.skipped = true;
    skipped.has_default = true;
    let mut bananas = field("BANANAS", TypeScriptType::number());
    bananas.comment = "Bananas?".to_string();
    let mut inner = field("inner", TypeScriptType::Named("Inner"));
    inner.flatten = true;
    let def = struct_definition("Test", "", false, &FieldsDesc::Named(vec![skipped, bananas, inner])).unwrap();
    assert!(def.ty == TypeScriptType::Named("Test"));
    assert_eq!(def.registrations.len(), 1);
    let (name, ty, comment) = &def.registrations[0];
    assert_eq!(*name, "Test");
    assert_eq!(comment, "");
    let expected = TypeScriptType::Interface {
        members: vec![
            member(
                "A_SMALL_FIELD",
                TypeScriptType::Union(vec![TypeScriptType::number(), TypeScriptType::Undefined]),
                "",
            ),
            member("BANANAS", TypeScriptType::number(), "Bananas?"),
        ],
        extends: vec![TypeScriptType::Named("Inner")],
    };
    assert!(*ty == expected);
}

#[test]
fn skipped_field_without_default_is_refused() {
    let mut f = field("a", TypeScriptType::number());
    f.skipped = true;
    let r = struct_definition("S", "", false, &FieldsDesc::Named(vec![f]));
    assert!(matches!(r, Err(DeriveError::SkipWithoutDefault)));
}

#[test]
fn unit_and_tuple_structs() {
    let unit = struct_definition("U", "doc", false, &FieldsDesc::Unit).unwrap();
    assert!(unit.registrations[0].1 == TypeScriptType::Null);
    assert!(unit.ty == TypeScriptType::Named("U"));
    let inlined = struct_definition("U", "doc", true, &FieldsDesc::Unit).unwrap();
    assert!(inlined.registrations.is_empty());
    assert!(inlined.ty == TypeScriptType::Null);

    // struct TestEmpty();
    let empty = struct_definition("TestEmpty", "", false, &FieldsDesc::Unnamed(vec![])).unwrap();
    assert!(empty.registrations[0].1 == TypeScriptType::Tuple(vec![]));

    // a newtype takes the field's type, with both comments joined
    let mut f = field("", TypeScriptType::string());
    f.comment = "inner".to_string();
    let newtype = struct_definition("Id", "outer", false, &FieldsDesc::Unnamed(vec![f])).unwrap();
    assert!(newtype.registrations[0].1 == TypeScriptType::string());
    assert_eq!(newtype.registrations[0].2, "outer\ninner");

    let pair = struct_definition(
        "Pair",
        "",
        false,
        &FieldsDesc::Unnamed(vec![field("", TypeScriptType::number()), field("", TypeScriptType::string())]),
    )
    .unwrap();
    assert!(
        pair.registrations[0].1
            == TypeScriptType::Tuple(vec![
                (TypeScriptType::number(), String::new()),
                (TypeScriptType::string(), String::new())
            ])
    );
}

#[test]
fn unit_enums_are_string_or_const_enums() {
    let vs = vec![unit_variant("A", "a", "EA"), unit_variant("B", "b", "EB")];
    let def = enum_definition("E", "", &TagStyle::External, &vs).unwrap();
    assert!(
        def.registrations[0].1
            == TypeScriptType::Enum(vec![
                ("A".to_string(), Some(Discriminator::String("a")), String::new()),
                ("B".to_string(), Some(Discriminator::String("b")), String::new()),
            ])
    );

    // enum TestEnum2 { A = 1, B, C = 3 }
    let mut a = unit_variant("A", "A", "TestEnum2A");
    a.discriminant = Some(Some(Discriminator::Simple(1)));
    let b = unit_variant("B", "B", "TestEnum2B");
    let mut c = unit_variant("C", "C", "TestEnum2C");
    c.discriminant = Some(Some(Discriminator::Simple(3)));
    let def = enum_definition("TestEnum2", "", &TagStyle::External, &vec![a, b, c]).unwrap();
    assert!(
        def.registrations[0].1
            == TypeScriptType::ConstEnum(vec![
                ("A".to_string(), Some(Discriminator::Simple(1)), String::new()),
                ("B".to_string(), None, String::new()),
                ("C".to_string(), Some(Discriminator::Simple(3)), String::new()),
            ])
    );
    assert!(def.ty == TypeScriptType::Named("TestEnum2"));
}

#[test]
fn adjacently_tagged_enum() {
    // #[serde(tag = "tag", content = "content")]
    // enum TestEnum { A(i32), B { a: i32 }, C }
    let a = VariantDesc {
        ident: "A".to_string(),
        name: "A",
        interface: "TestEnumA",
        comment: String::new(),
        discriminant: None,
        fields: FieldsDesc::Unnamed(vec![field("", TypeScriptType::number())]),
    };
    let b = VariantDesc {
        ident: "B".to_string(),
        name: "B",
        interface: "TestEnumB",
        comment: String::new(),
        discriminant: None,
        fields: FieldsDesc::Named(vec![field("a", TypeScriptType::number())]),
    };
    let c = unit_variant("C", "C", "TestEnumC");
    let tag = TagStyle::Adjacent { tag: "tag".to_string(), content: "content".to_string() };
    let def = enum_definition("TestEnum", "", &tag, &vec![a, b, c]).unwrap();
    assert_eq!(def.registrations.len(), 2);
    assert_eq!(def.registrations[0].0, "TestEnumB");
    assert!(
        def.registrations[0].1
            == TypeScriptType::Interface { members: vec![member("a", TypeScriptType::number(), "")], extends: vec![] }
    );
    assert_eq!(def.registrations[1].0, "TestEnum");
    let lit = |s: &str| TypeScriptType::string_value(s.to_string());
    let expected = TypeScriptType::Union(vec![
        TypeScriptType::Interface {
            members: vec![member("tag", lit("A"), ""), member("content", TypeScriptType::number(), "")],
            extends: vec![],
        },
        TypeScriptType::Interface {
            members: vec![member("tag", lit("B"), ""), member("content", TypeScriptType::Named("TestEnumB"), "")],
            extends: vec![],
        },
        TypeScriptType::Interface {
            members: vec![member("tag", lit("C"), ""), member("content", TypeScriptType::Null, "")],
            extends: vec![],
        },
    ]);
    assert!(def.registrations[1].1 == expected);
    assert!(def.ty == TypeScriptType::Named("TestEnum"));
}

#[test]
fn untagged_and_refused_variants() {
    let mut a = unit_variant("A", "A", "XA");
    a.fields = FieldsDesc::Unnamed(vec![field("", TypeScriptType::number()), field("", TypeScriptType::string())]);
    let b = unit_variant("B", "B", "XB");
    let def = enum_definition("X", "", &TagStyle::Untagged, &vec![a, b]).unwrap();
    assert_eq!(def.registrations[0].0, "XA");
    assert!(
        def.registrations[1].1 == TypeScriptType::Union(vec![TypeScriptType::Named("XA"), TypeScriptType::Null])
    );

    let mut t = unit_variant("T", "T", "YT");
    t.fields = FieldsDesc::Unnamed(vec![field("", TypeScriptType::number()), field("", TypeScriptType::string())]);
    let internal = TagStyle::Internal { tag: "kind".to_string() };
    assert!(matches!(
        enum_definition("Y", "", &internal, &vec![t]),
        Err(DeriveError::InternalTagOnTupleVariant)
    ));

    let mut n = unit_variant("N", "N", "ZN");
    n.fields = FieldsDesc::Named(vec![field("a", TypeScriptType::number())]);
    let u = unit_variant("U", "U", "ZU");
    assert!(matches!(
        enum_definition("Z", "", &TagStyle::External, &vec![n, u]),
        Err(DeriveError::ExternalUnitVariant)
    ));
}
