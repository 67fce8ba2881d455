use macro_input::{Attr, AttrKind, Def, Defs, DefaultValue, Lit, MetaEntry};

fn list_attr(path: &str, entries: Vec<MetaEntry>) -> Attr {
    Attr { path: path.to_string(), kind: AttrKind::List(entries) }
}

fn name_value(name: &str, lit: Lit) -> MetaEntry {
    MetaEntry::NameValue(name.to_string(), lit)
}

#[test]
fn test_strip_single_field() {
    let foo_attr = list_attr("foo", vec![name_value("bar", Lit::Bool(false))]);
    let other_attr = list_attr("some", vec![name_value("thing", Lit::Str("value".to_string()))]);
    let mut attrs = vec![foo_attr, other_attr.clone()];

    let bar_field = Def::new("foo", "bar", false, DefaultValue::Bool(None));
    bar_field.strip(&mut attrs);

    assert_eq!(attrs, vec![other_attr]);
}

#[test]
fn test_strip_keeps_other_entries_in_order() {
    let attr1 = list_attr("foo", vec![name_value("bar", Lit::Bool(false))]);
    let attr2 = list_attr("foo", vec![name_value("baz", Lit::Str("baz".to_string()))]);
    let attr3 = list_attr(
        "foo",
        vec![
            name_value("qux", Lit::Str("qux".to_string())),
            name_value("quux", Lit::Int(3)),
        ],
    );
    let attr4 = list_attr("foo", vec![name_value("quuz", Lit::Char('b'))]);
    let attr5 = list_attr("some", vec![name_value("thing", Lit::Str("value".to_string()))]);
    let mut attrs = vec![attr1, attr2, attr3, attr4, attr5];

    let defs = Defs::new(vec![
        Def::new("foo", "bar", false, DefaultValue::Bool(None)),
        Def::new("foo", "baz", false, DefaultValue::Str(None)),
        Def::new("foo", "qux", false, DefaultValue::Str(None)),
    ]);
    defs.strip(&mut attrs);

    assert_eq!(
        attrs,
        vec![
            list_attr("foo", vec![name_value("quux", Lit::Int(3))]),
            list_attr("foo", vec![name_value("quuz", Lit::Char('b'))]),
            list_attr("some", vec![name_value("thing", Lit::Str("value".to_string()))]),
        ]
    );
}

#[test]
fn test_strip_twice_is_strip_once() {
    let defs = Defs::new(vec![
        Def::new("foo", "bar", false, DefaultValue::Bool(None)),
        Def::new("foo", "baz", false, DefaultValue::Str(None)),
    ]);
    let mut attrs = vec![
        list_attr("foo", vec![name_value("bar", Lit::Bool(true)), name_value("keep", Lit::Int(1))]),
        Attr { path: "foo".to_string(), kind: AttrKind::Bare },
        list_attr("other", vec![name_value("baz", Lit::Int(2))]),
    ];
    defs.strip(&mut attrs);
    let once = attrs.clone();
    defs.strip(&mut attrs);
    assert_eq!(attrs, once);
}

#[test]
fn test_strip_consumes_bare_attr() {
    let mut attrs = vec![
        Attr { path: "foo".to_string(), kind: AttrKind::Bare },
        Attr { path: "other".to_string(), kind: AttrKind::Bare },
    ];
    let bar_field = Def::new("foo", "bar", false, DefaultValue::Bool(None));
    bar_field.strip(&mut attrs);
    assert_eq!(attrs, vec![Attr { path: "other".to_string(), kind: AttrKind::Bare }]);
}

#[test]
fn test_strip_keeps_name_value_attr() {
    let nv = Attr { path: "foo".to_string(), kind: AttrKind::NameValue(Lit::Int(1)) };
    let mut attrs = vec![nv.clone()];
    let bar_field = Def::new("foo", "bar", false, DefaultValue::Bool(None));
    bar_field.strip(&mut attrs);
    assert_eq!(attrs, vec![nv]);
}

#[test]
fn test_strip_removes_emptied_list() {
    let mut attrs = vec![list_attr("foo", vec![name_value("bar", Lit::Int(1))])];
    let defs = Defs::new(vec![Def::new("foo", "bar", false, DefaultValue::I32(None))]);
    defs.strip(&mut attrs);
    assert_eq!(attrs, Vec::<Attr>::new());
}
