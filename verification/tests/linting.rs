use macro_input::{
    Attr, AttrKind, Def, Defs, DefaultValue, Error, Lit, MetaEntry, StructData, StructDecl,
    StructLint, Type, Types,
};

fn list_attr(path: &str, entries: Vec<MetaEntry>) -> Attr {
    Attr { path: path.to_string(), kind: AttrKind::List(entries) }
}

fn name_value(name: &str, lit: Lit) -> MetaEntry {
    MetaEntry::NameValue(name.to_string(), lit)
}

fn foo_defs() -> Defs {
    Defs::new(vec![
        Def::new("foo", "bar", false, DefaultValue::Bool(None)),
        Def::new("foo", "baz", false, DefaultValue::Str(None)),
    ])
}

#[test]
fn test_unrecognized_field_reported() {
    let attrs = vec![list_attr("foo", vec![name_value("nope", Lit::Int(1))])];
    let mut c = Vec::new();
    foo_defs().lint(&attrs, &mut c);
    assert!(c.contains(&Error::Unrecognized { path: "foo".to_string(), name: "nope".to_string() }));
}

#[test]
fn test_unknown_namespace_ignored() {
    let attrs = vec![list_attr("other", vec![name_value("nope", Lit::Int(1))])];
    let mut c = Vec::new();
    foo_defs().lint(&attrs, &mut c);
    assert!(c.is_empty());
}

#[test]
fn test_duplicate_reported() {
    let attrs = vec![list_attr(
        "foo",
        vec![name_value("bar", Lit::Bool(true)), name_value("bar", Lit::Bool(false))],
    )];
    let mut c = Vec::new();
    foo_defs().lint(&attrs, &mut c);
    assert!(c.contains(&Error::Duplicate { path: "foo".to_string(), name: "bar".to_string() }));
}

#[test]
fn test_missing_required_reported() {
    let defs = Defs::new(vec![Def::new("foo", "bar", true, DefaultValue::I32(None))]);
    let attrs: Vec<Attr> = Vec::new();
    let mut c = Vec::new();
    defs.lint(&attrs, &mut c);
    assert_eq!(
        c,
        vec![Error::MissingRequired { path: "foo".to_string(), name: "bar".to_string() }]
    );
}

#[test]
fn test_value_kind_checked() {
    let attrs = vec![list_attr("foo", vec![name_value("bar", Lit::Int(5))])];
    let mut c = Vec::new();
    foo_defs().lint(&attrs, &mut c);
    assert_eq!(
        c,
        vec![Error::KindMismatch {
            expected: Type { ty: Types::Bool, optional: true },
            found: Some(Lit::Int(5)),
        }]
    );
}

#[test]
fn test_malformed_entry_reported() {
    let attrs = vec![list_attr(
        "foo",
        vec![MetaEntry::Literal(Lit::Int(5)), MetaEntry::List("bar".to_string())],
    )];
    let mut c = Vec::new();
    foo_defs().lint(&attrs, &mut c);
    assert!(c.contains(&Error::MalformedShape));
}

#[test]
fn test_bare_attr_under_known_path_reported() {
    let attrs = vec![Attr { path: "foo".to_string(), kind: AttrKind::Bare }];
    let mut c = Vec::new();
    foo_defs().lint(&attrs, &mut c);
    assert_eq!(c, vec![Error::MalformedShape]);
}

#[test]
fn test_struct_lint_accepts_struct() {
    let lint = StructLint::new(Defs::empty(), foo_defs());
    let input = StructDecl {
        name: "S".to_string(),
        attrs: vec![],
        data: StructData::Struct(vec![]),
    };
    let mut c = Vec::new();
    lint.lint(&input, &mut c);
    assert!(c.is_empty());
}

#[test]
fn test_struct_lint_refuses_other() {
    let lint = StructLint::new(Defs::empty(), foo_defs());
    let input = StructDecl { name: "E".to_string(), attrs: vec![], data: StructData::Other };
    let mut c = Vec::new();
    lint.lint(&input, &mut c);
    assert_eq!(c, vec![Error::StructMismatch]);
}
