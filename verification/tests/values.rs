use macro_input::{DefaultValue, Lit, Type, TySig, Types};

fn plain(k: Types) -> Type {
    Type { ty: k, optional: false }
}

#[test]
fn test_round_trip_str() {
    let lit = Lit::Str("baz".to_string());
    let v = DefaultValue::from_lit(plain(Types::Str), Some(lit.clone())).unwrap();
    assert_eq!(v.as_lit(), Some(lit));
}

#[test]
fn test_round_trip_byte_str() {
    let lit = Lit::ByteStr(vec![1, 2, 3]);
    let v = DefaultValue::from_lit(plain(Types::ByteStr), Some(lit.clone())).unwrap();
    assert_eq!(v.as_lit(), Some(lit));
}

#[test]
fn test_round_trip_byte() {
    let lit = Lit::Byte(7);
    let v = DefaultValue::from_lit(plain(Types::Byte), Some(lit.clone())).unwrap();
    assert_eq!(v.as_lit(), Some(lit));
}

#[test]
fn test_round_trip_char() {
    let lit = Lit::Char('b');
    let v = DefaultValue::from_lit(plain(Types::Char), Some(lit.clone())).unwrap();
    assert_eq!(v.as_lit(), Some(lit));
}

#[test]
fn test_round_trip_i32() {
    let lit = Lit::Int(-41);
    let v = DefaultValue::from_lit(plain(Types::I32), Some(lit.clone())).unwrap();
    assert_eq!(v.as_lit(), Some(lit));
}

#[test]
fn test_round_trip_f32_text() {
    let lit = Lit::Float("2.5".to_string());
    let v = DefaultValue::from_lit(plain(Types::F32), Some(lit.clone())).unwrap();
    assert_eq!(v.as_lit(), Some(lit));
}

#[test]
fn test_round_trip_bool() {
    let lit = Lit::Bool(true);
    let v = DefaultValue::from_lit(plain(Types::Bool), Some(lit.clone())).unwrap();
    assert_eq!(v.as_lit(), Some(lit));
}

#[test]
fn test_round_trip_any() {
    let lit = Lit::Char('x');
    let v = DefaultValue::from_lit(plain(Types::Any), Some(lit.clone())).unwrap();
    assert_eq!(v.as_lit(), Some(lit));
}

#[test]
fn test_flag_accepts_no_literal() {
    let v = DefaultValue::from_lit(plain(Types::Flag), None).unwrap();
    assert_eq!(v, DefaultValue::Flag);
    assert_eq!(v.as_lit(), None);

    let err = DefaultValue::from_lit(plain(Types::Flag), Some(Lit::Int(1))).unwrap_err();
    assert_eq!(
        err,
        macro_input::Error::KindMismatch {
            expected: plain(Types::Flag),
            found: Some(Lit::Int(1)),
        }
    );
}

#[test]
fn test_wrong_kind_refused() {
    let err = DefaultValue::from_lit(plain(Types::Str), Some(Lit::Int(1))).unwrap_err();
    assert_eq!(
        err,
        macro_input::Error::KindMismatch { expected: plain(Types::Str), found: Some(Lit::Int(1)) }
    );
}

#[test]
fn test_default_data() {
    assert!(!DefaultValue::Str(None).has_default_data());
    assert!(DefaultValue::Str(Some("x".to_string())).has_default_data());
    assert!(!DefaultValue::Flag.has_default_data());
    assert_eq!(DefaultValue::I32(Some(3)).ty(false), plain(Types::I32));
    assert_eq!(
        DefaultValue::Bool(None).ty(true),
        Type { ty: Types::Bool, optional: true }
    );
}

#[test]
fn test_classify() {
    let t = Type::try_from_sig(&TySig::Named("String".to_string())).unwrap();
    assert_eq!(t, plain(Types::Str));

    let t = Type::try_from_sig(&TySig::Generic(
        "Vec".to_string(),
        Box::new(TySig::Named("u8".to_string())),
    ))
    .unwrap();
    assert_eq!(t, plain(Types::ByteStr));

    let t = Type::try_from_sig(&TySig::Unit).unwrap();
    assert_eq!(t, plain(Types::Flag));

    let t = Type::try_from_sig(&TySig::Generic(
        "Option".to_string(),
        Box::new(TySig::Named("f32".to_string())),
    ))
    .unwrap();
    assert_eq!(t, Type { ty: Types::F32, optional: true });

    let err = Type::try_from_sig(&TySig::Named("u64".to_string())).unwrap_err();
    assert_eq!(err, macro_input::Error::UnknownType);
}
