use client_sdk::ts_bindgen::ty::{BinaryInteger, Discriminator, TypeScriptType, MAX_SAFE_NUMBER};

fn named(n: &'static str) -> TypeScriptType {
    TypeScriptType::Named(n)
}

#[test]
fn unify_flattens_nested_unions_and_dedups() {
    let mut t = TypeScriptType::Union(vec![
        named("A"),
        TypeScriptType::Union(vec![named("B"), named("A"), TypeScriptType::Union(vec![named("C")])]),
        named("B"),
        TypeScriptType::Intersection(vec![named("X"), TypeScriptType::Intersection(vec![named("Y")])]),
    ]);
    t.unify();
    let expected = TypeScriptType::Union(vec![
        named("A"),
        named("B"),
        named("C"),
        TypeScriptType::Intersection(vec![named("X"), named("Y")]),
    ]);
    assert!(t == expected);
}

#[test]
fn unify_partial_drops_undefined_and_nesting() {
    let mut t = TypeScriptType::Partial(Box::new(TypeScriptType::Union(vec![
        named("A"),
        TypeScriptType::Undefined,
        named("A"),
    ])));
    t.unify();
    assert!(t == TypeScriptType::Partial(Box::new(TypeScriptType::Union(vec![named("A")]))));

    let mut p = TypeScriptType::Partial(Box::new(TypeScriptType::Partial(Box::new(named("A")))));
    p.unify();
    assert!(p == TypeScriptType::Partial(Box::new(named("A"))));

    let mut r = TypeScriptType::ReadOnly(Box::new(TypeScriptType::ReadOnly(Box::new(named("A")))));
    r.unify();
    assert!(r == TypeScriptType::ReadOnly(Box::new(named("A"))));
}

#[test]
fn unify_reaches_into_members() {
    let mut t = TypeScriptType::interface(
        vec![(
            "field".to_string(),
            TypeScriptType::Union(vec![named("A"), TypeScriptType::Union(vec![named("A")])]),
            String::new(),
        )],
        0,
    );
    t.unify();
    let expected = TypeScriptType::interface(
        vec![("field".to_string(), TypeScriptType::Union(vec![named("A")]), String::new())],
        0,
    );
    assert!(t == expected);
}

#[test]
fn number_literals_compare_as_floats() {
    let nan = TypeScriptType::number_value(f64::NAN.to_bits());
    assert!(nan != nan.clone());
    let zero = TypeScriptType::number_value(0.0f64.to_bits());
    let neg_zero = TypeScriptType::number_value((-0.0f64).to_bits());
    assert!(zero == neg_zero);
    let mut t = TypeScriptType::Union(vec![zero, neg_zero, nan.clone(), nan]);
    t.unify();
    match t {
        TypeScriptType::Union(members) => assert_eq!(members.len(), 3),
        other => panic!("unexpected {:?}", other),
    }
}

#[test]
fn union_and_intersection_join_members() {
    let u = named("A").union(TypeScriptType::Union(vec![named("B")]));
    assert!(u == TypeScriptType::Union(vec![named("A"), named("B")]));
    let u = TypeScriptType::Union(vec![named("A")]).union(TypeScriptType::Union(vec![named("B"), named("C")]));
    assert!(u == TypeScriptType::Union(vec![named("A"), named("B"), named("C")]));
    let i = named("A").intersection(named("B"));
    assert!(i == TypeScriptType::Intersection(vec![named("A"), named("B")]));
}

#[test]
fn optional_and_nullable() {
    let t = TypeScriptType::string().into_optional();
    assert!(t.is_optional());
    assert!(t.clone().into_optional() == t);
    let n = TypeScriptType::number().into_nullable();
    assert!(n.is_nullable());
    assert!(!n.is_optional());
    let f = n._into_optional_internal(true);
    assert!(f == TypeScriptType::Union(vec![TypeScriptType::number(), TypeScriptType::Undefined]));
    let taken = f.take_optional().unwrap();
    assert!(taken == TypeScriptType::Union(vec![TypeScriptType::number()]));
    assert!(TypeScriptType::number().take_optional().is_err());
}

#[test]
fn literal_predicates() {
    assert!(TypeScriptType::boolean_value(true).is_literal());
    assert!(TypeScriptType::ReadOnly(Box::new(TypeScriptType::string_value("x".to_string()))).is_literal());
    assert!(!TypeScriptType::boolean().is_literal());
    assert!(TypeScriptType::Enum(vec![]).is_value());
    assert!(TypeScriptType::null().is_primitive());
    assert!(TypeScriptType::number().is_key_type());
    assert!(!TypeScriptType::null().is_key_type());
}

#[test]
fn flatten_cases() {
    assert!(named("A").flatten(named("A")) == named("A"));
    assert!(named("A").flatten(named("B")) == TypeScriptType::Union(vec![named("A"), named("B")]));
    let i = TypeScriptType::interface(vec![], 0).flatten(named("Base"));
    assert!(i == TypeScriptType::Interface { members: vec![], extends: vec![named("Base")] });
    let opt = TypeScriptType::interface(vec![], 0)
        .flatten(TypeScriptType::Union(vec![named("Extra"), TypeScriptType::Undefined]));
    assert!(
        opt == TypeScriptType::Interface {
            members: vec![],
            extends: vec![TypeScriptType::Partial(Box::new(named("Extra")))],
        }
    );
    let same = TypeScriptType::interface(vec![], 0).flatten(TypeScriptType::Null);
    assert!(same == TypeScriptType::interface(vec![], 0));
    let joined = TypeScriptType::interface(vec![("a".to_string(), TypeScriptType::number(), String::new())], 0)
        .flatten(TypeScriptType::interface(vec![("b".to_string(), TypeScriptType::string(), String::new())], 0));
    match joined {
        TypeScriptType::Interface { members, .. } => assert_eq!(members.len(), 2),
        other => panic!("unexpected {:?}", other),
    }
}

#[test]
fn discriminator_text() {
    assert_eq!(Discriminator::Simple(42).to_string(), "42");
    assert_eq!(Discriminator::Simple(-7).to_string(), "-7");
    assert_eq!(Discriminator::Simple(i64::MIN).to_string(), "\"-9223372036854775808\"");
    assert_eq!(Discriminator::Simple(MAX_SAFE_NUMBER as i64).to_string(), "9007199254740991");
    assert_eq!(Discriminator::BinaryHex(BinaryInteger::from(-1i8)).to_string(), "0xff");
    assert_eq!(Discriminator::BinaryHex(BinaryInteger(u128::MAX)).to_string(), "\"0xffffffffffffffffffffffffffffffff\"");
    assert_eq!(Discriminator::String("abc").to_string(), "\"abc\"");
}

#[test]
fn binary_integer_does_not_sign_extend() {
    assert_eq!(BinaryInteger::from(-1i16), BinaryInteger(0xffff));
    assert_eq!(BinaryInteger::from(-2i64), BinaryInteger(0xffff_ffff_ffff_fffe));
    assert_eq!(BinaryInteger::from(200u8), BinaryInteger(200));
}
