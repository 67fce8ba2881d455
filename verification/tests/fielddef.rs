use macro_input::{Attr, AttrKind, Def, DefaultValue, Lit, MetaEntry};

fn list_attr(path: &str, entries: Vec<MetaEntry>) -> Attr {
    Attr { path: path.to_string(), kind: AttrKind::List(entries) }
}

fn name_value(name: &str, lit: Lit) -> MetaEntry {
    MetaEntry::NameValue(name.to_string(), lit)
}

#[test]
fn test_string() {
    let field = Def::new("foo", "bar", true, DefaultValue::Str(None));
    let attrs = vec![list_attr("foo", vec![name_value("bar", Lit::Str("baz".to_string()))])];
    assert_eq!(field.get_value::<String>(&attrs).unwrap(), "baz".to_string());
}

#[test]
fn test_flag() {
    let field = Def::new("foo", "bar", false, DefaultValue::Flag);

    let attrs = vec![list_attr("foo", vec![MetaEntry::Flag("bar".to_string())])];
    assert_eq!(field.get_value::<Option<()>>(&attrs).unwrap(), Some(()));

    let attrs = vec![list_attr("foo", vec![MetaEntry::Flag("other".to_string())])];
    assert_eq!(field.get_value::<Option<()>>(&attrs).unwrap(), None);
}

#[test]
fn test_optional_string() {
    let field = Def::new("foo", "bar", false, DefaultValue::Str(None));

    let attrs = vec![list_attr("foo", vec![name_value("bar", Lit::Str("baz".to_string()))])];
    assert_eq!(
        field.get_value::<Option<String>>(&attrs).unwrap(),
        Some("baz".to_string())
    );

    let attrs = vec![list_attr("foo", vec![name_value("other", Lit::Str("baz".to_string()))])];
    assert_eq!(field.get_value::<Option<String>>(&attrs).unwrap(), None);
}

#[test]
fn test_default_string() {
    let field = Def::new("foo", "bar", false, DefaultValue::Str(Some("baz".to_string())));

    let attrs = vec![list_attr("foo", vec![name_value("bar", Lit::Str("qux".to_string()))])];
    assert_eq!(field.get_value::<String>(&attrs).unwrap(), "qux".to_string());

    let attrs = vec![list_attr("foo", vec![name_value("other", Lit::Str("qux".to_string()))])];
    assert_eq!(field.get_value::<String>(&attrs).unwrap(), "baz".to_string());
}

#[test]
fn test_required_i32() {
    let field = Def::new("foo", "bar", true, DefaultValue::I32(None));

    let attrs = vec![list_attr("foo", vec![name_value("bar", Lit::Int(5))])];
    assert_eq!(field.get_value::<i32>(&attrs).unwrap(), 5);

    let attrs: Vec<Attr> = Vec::new();
    let err = field.get_value::<i32>(&attrs).unwrap_err();
    assert_eq!(
        err,
        macro_input::Error::MissingRequired { path: "foo".to_string(), name: "bar".to_string() }
    );
}

#[test]
fn test_flag_with_value() {
    let field = Def::new("foo", "bar", false, DefaultValue::Flag);

    let attrs = vec![list_attr("foo", vec![name_value("bar", Lit::Int(1))])];
    let err = field.get_value::<Option<()>>(&attrs).unwrap_err();
    assert_eq!(err, macro_input::Error::UnexpectedShape);
}

#[test]
fn test_first_match_wins() {
    let field = Def::new("foo", "bar", false, DefaultValue::I32(None));
    let attrs = vec![
        list_attr("foo", vec![name_value("bar", Lit::Int(1)), name_value("bar", Lit::Int(2))]),
        list_attr("foo", vec![name_value("bar", Lit::Int(3))]),
    ];
    assert_eq!(field.get_value::<i32>(&attrs).unwrap(), 1);
}

#[test]
fn test_get_lit_of_flag_is_none() {
    let field = Def::new("foo", "bar", false, DefaultValue::Str(None));
    let attrs = vec![list_attr("foo", vec![MetaEntry::Flag("bar".to_string())])];
    assert_eq!(field.get_lit(&attrs).unwrap(), None);
}

#[test]
fn test_synthesized_default_entry() {
    let field = Def::new("foo", "bar", false, DefaultValue::Str(Some("baz".to_string())));
    let attrs: Vec<Attr> = Vec::new();
    let entry = field.get_meta(&attrs).unwrap();
    assert_eq!(
        entry,
        Some(MetaEntry::NameValue("foo".to_string(), Lit::Str("baz".to_string())))
    );
}

#[test]
fn test_wrong_kind_reported() {
    let field = Def::new("foo", "bar", true, DefaultValue::I32(None));
    let attrs = vec![list_attr("foo", vec![name_value("bar", Lit::Bool(true))])];
    let err = field.get_value::<i32>(&attrs).unwrap_err();
    assert_eq!(
        err,
        macro_input::Error::KindMismatch {
            expected: macro_input::Type { ty: macro_input::Types::I32, optional: false },
            found: Some(Lit::Bool(true)),
        }
    );
}
