use macro_input::{
    Attr, AttrKind, Error, FieldDecl, FieldType, Lit, MetaEntry, StructData, StructDecl, TySig,
};

fn rename_attr(value: Lit) -> Attr {
    Attr {
        path: "macro_input".to_string(),
        kind: AttrKind::List(vec![MetaEntry::NameValue("rename".to_string(), value)]),
    }
}

#[test]
fn test_mod_name_is_snake_cased() {
    assert_eq!(macro_input::mod_name(&"SomeInput".to_string()), "__some_input");
}

#[test]
fn test_field_name_uses_declared_ident() {
    let f = FieldDecl {
        name: Some("bar".to_string()),
        ty: TySig::Named("i32".to_string()),
        attrs: vec![],
    };
    let (name, cname) = macro_input::field_name(&f).unwrap();
    assert_eq!(name, "bar");
    assert_eq!(cname, "BAR_FIELD");
}

#[test]
fn test_field_name_uses_rename() {
    let f = FieldDecl {
        name: Some("bar".to_string()),
        ty: TySig::Named("i32".to_string()),
        attrs: vec![rename_attr(Lit::Str("newName".to_string()))],
    };
    let (name, cname) = macro_input::field_name(&f).unwrap();
    assert_eq!(name, "newName");
    assert_eq!(cname, "NEW_NAME_FIELD");
}

#[test]
fn test_unnamed_field_needs_rename() {
    let f = FieldDecl { name: None, ty: TySig::Named("i32".to_string()), attrs: vec![] };
    assert_eq!(macro_input::field_name(&f).unwrap_err(), Error::UnnamedField);
}

#[test]
fn test_invalid_rename_reported() {
    let input = StructDecl {
        name: "S".to_string(),
        attrs: vec![rename_attr(Lit::Str("not an ident".to_string()))],
        data: StructData::Struct(vec![]),
    };
    let mut c = Vec::new();
    macro_input::lint::Name.lint(&input, &mut c);
    assert_eq!(c, vec![Error::InvalidRename { name: "not an ident".to_string() }]);
}

#[test]
fn test_valid_rename_accepted() {
    let input = StructDecl {
        name: "S".to_string(),
        attrs: vec![rename_attr(Lit::Str("fine_name".to_string()))],
        data: StructData::Struct(vec![]),
    };
    let mut c = Vec::new();
    macro_input::lint::Name.lint(&input, &mut c);
    assert!(c.is_empty());
}

#[test]
fn test_keyword_rename_reported() {
    let input = StructDecl {
        name: "S".to_string(),
        attrs: vec![rename_attr(Lit::Str("type".to_string()))],
        data: StructData::Struct(vec![]),
    };
    let mut c = Vec::new();
    macro_input::lint::Name.lint(&input, &mut c);
    assert_eq!(c, vec![Error::InvalidRename { name: "type".to_string() }]);
}

#[test]
fn test_raw_rename_accepted() {
    let input = StructDecl {
        name: "S".to_string(),
        attrs: vec![rename_attr(Lit::Str("r#type".to_string()))],
        data: StructData::Struct(vec![]),
    };
    let mut c = Vec::new();
    macro_input::lint::Name.lint(&input, &mut c);
    assert!(c.is_empty());
}

#[test]
fn test_raw_reserved_rename_reported() {
    let input = StructDecl {
        name: "S".to_string(),
        attrs: vec![rename_attr(Lit::Str("r#self".to_string()))],
        data: StructData::Struct(vec![]),
    };
    let mut c = Vec::new();
    macro_input::lint::Name.lint(&input, &mut c);
    assert_eq!(c, vec![Error::InvalidRename { name: "r#self".to_string() }]);
}

#[test]
fn test_underscore_renames() {
    for (name, fine) in [("_", false), ("_x", true), ("x_", true), ("1x", false)] {
        let input = StructDecl {
            name: "S".to_string(),
            attrs: vec![rename_attr(Lit::Str(name.to_string()))],
            data: StructData::Struct(vec![]),
        };
        let mut c = Vec::new();
        macro_input::lint::Name.lint(&input, &mut c);
        assert_eq!(c.is_empty(), fine, "rename {:?}", name);
    }
}

#[test]
fn test_unicode_rename_accepted() {
    let input = StructDecl {
        name: "S".to_string(),
        attrs: vec![rename_attr(Lit::Str("lo\u{0308}we_1".to_string()))],
        data: StructData::Struct(vec![]),
    };
    let mut c = Vec::new();
    macro_input::lint::Name.lint(&input, &mut c);
    assert!(c.is_empty());
}

#[test]
fn test_conflicting_default_reported() {
    let input = StructDecl {
        name: "S".to_string(),
        attrs: vec![],
        data: StructData::Struct(vec![FieldDecl {
            name: Some("x".to_string()),
            ty: TySig::Generic("Option".to_string(), Box::new(TySig::Named("i32".to_string()))),
            attrs: vec![Attr {
                path: "macro_input".to_string(),
                kind: AttrKind::List(vec![MetaEntry::NameValue(
                    "default_value".to_string(),
                    Lit::Int(3),
                )]),
            }],
        }]),
    };
    let mut c = Vec::new();
    FieldType.lint(&input, &mut c);
    assert!(c.contains(&Error::ConflictingDefault));
}
