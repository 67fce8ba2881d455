use macro_input::{
    Attr, AttrKind, ConstFields, FieldDecl, FieldValue, Lit, MetaEntry, StructData, StructDecl,
    StripExpand, TryFromAttributes, TySig,
};

fn list_attr(path: &str, entries: Vec<MetaEntry>) -> Attr {
    Attr { path: path.to_string(), kind: AttrKind::List(entries) }
}

fn name_value(name: &str, lit: Lit) -> MetaEntry {
    MetaEntry::NameValue(name.to_string(), lit)
}

fn named(n: &str) -> TySig {
    TySig::Named(n.to_string())
}

fn option_of(inner: TySig) -> TySig {
    TySig::Generic("Option".to_string(), Box::new(inner))
}

fn field(name: &str, ty: TySig, attrs: Vec<Attr>) -> FieldDecl {
    FieldDecl { name: Some(name.to_string()), ty, attrs }
}

/// The declaration the basic round of tests works on: a flag, an optional
/// integer, a defaulted integer and a required integer.
fn basic_input() -> StructDecl {
    StructDecl {
        name: "Input".to_string(),
        attrs: vec![],
        data: StructData::Struct(vec![
            field("flag", option_of(TySig::Unit), vec![]),
            field("optional", option_of(named("i32")), vec![]),
            field(
                "with_default",
                named("i32"),
                vec![list_attr("macro_input", vec![name_value("default_value", Lit::Int(3))])],
            ),
            field("required", named("i32"), vec![]),
        ]),
    }
}

/// The definition set the derive builds for a declaration, as the generated
/// validator uses it.
fn built_defs(input: &StructDecl) -> macro_input::Defs {
    let consts = ConstFields.build(input).unwrap();
    macro_input::Defs::new(consts.into_iter().map(|(_, def)| def).collect())
}

#[test]
fn test_basic_input() {
    let input = basic_input();

    let attr1 = list_attr(
        "input",
        vec![
            MetaEntry::Flag("flag".to_string()),
            name_value("optional", Lit::Int(1)),
            name_value("with_default", Lit::Int(2)),
            name_value("required", Lit::Int(3)),
        ],
    );
    let mut diags = Vec::new();
    built_defs(&input).lint(&vec![attr1.clone()], &mut diags);
    assert!(diags.is_empty());

    let values = TryFromAttributes.apply(&input, &vec![attr1]).unwrap();
    assert_eq!(
        values,
        vec![
            FieldValue::Flag(Some(())),
            FieldValue::I32(Some(1)),
            FieldValue::I32(Some(2)),
            FieldValue::I32(Some(3)),
        ]
    );

    let attr2 = list_attr("input", vec![name_value("required", Lit::Int(3))]);
    let values = TryFromAttributes.apply(&input, &vec![attr2]).unwrap();
    assert_eq!(
        values,
        vec![
            FieldValue::Flag(None),
            FieldValue::I32(None),
            FieldValue::I32(Some(3)),
            FieldValue::I32(Some(3)),
        ]
    );
}

#[test]
fn test_other_input() {
    let input = StructDecl {
        name: "OtherInput".to_string(),
        attrs: vec![list_attr(
            "macro_input",
            vec![name_value("rename", Lit::Str("yet_another_name".to_string()))],
        )],
        data: StructData::Struct(vec![field(
            "renamed",
            named("i32"),
            vec![list_attr(
                "macro_input",
                vec![name_value("rename", Lit::Str("new_name".to_string()))],
            )],
        )]),
    };

    let attr = list_attr("yet_another_name", vec![name_value("new_name", Lit::Int(3))]);
    let mut diags = Vec::new();
    built_defs(&input).lint(&vec![attr.clone()], &mut diags);
    assert!(diags.is_empty());

    let values = TryFromAttributes.apply(&input, &vec![attr]).unwrap();
    assert_eq!(values, vec![FieldValue::I32(Some(3))]);
}

#[test]
fn test_const_fields_built() {
    let input = basic_input();
    let consts = ConstFields.build(&input).unwrap();
    assert_eq!(consts.len(), 4);

    let (cname, def) = &consts[0];
    assert_eq!(cname, "FLAG_FIELD");
    assert_eq!(def.path, "input");
    assert_eq!(def.name, "flag");
    assert!(!def.required);

    let (cname, def) = &consts[2];
    assert_eq!(cname, "WITH_DEFAULT_FIELD");
    assert_eq!(def.name, "with_default");
    assert!(!def.required);
    assert_eq!(def.default, macro_input::DefaultValue::I32(Some(3)));

    let (cname, def) = &consts[3];
    assert_eq!(cname, "REQUIRED_FIELD");
    assert!(def.required);
}

#[test]
fn test_strip_expand() {
    let input = basic_input();
    let mut attrs = vec![
        list_attr(
            "input",
            vec![MetaEntry::Flag("flag".to_string()), name_value("other", Lit::Int(9))],
        ),
        list_attr("some", vec![name_value("thing", Lit::Str("value".to_string()))]),
    ];
    StripExpand.apply(&input, &mut attrs).unwrap();
    assert_eq!(
        attrs,
        vec![
            list_attr("input", vec![name_value("other", Lit::Int(9))]),
            list_attr("some", vec![name_value("thing", Lit::Str("value".to_string()))]),
        ]
    );
}

#[test]
fn test_not_a_struct_refused() {
    let input = StructDecl {
        name: "NotAStruct".to_string(),
        attrs: vec![],
        data: StructData::Other,
    };
    let err = TryFromAttributes.apply(&input, &vec![]).unwrap_err();
    assert_eq!(err, macro_input::Error::StructMismatch);
}

#[test]
fn test_double_option_refused() {
    let input = StructDecl {
        name: "Bad".to_string(),
        attrs: vec![],
        data: StructData::Struct(vec![field("x", option_of(option_of(named("i32"))), vec![])]),
    };
    let err = ConstFields.build(&input).unwrap_err();
    assert_eq!(err, macro_input::Error::UnknownType);
}
