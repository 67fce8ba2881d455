use crate::attr::{entry_named, Attr, AttrKind, AttrKindView, AttrView, MetaEntry, MetaEntryView};
use crate::error::{Error, ErrorView};
use crate::lit::Lit;
use crate::ty::{type_lint_spec, Type};
use crate::value::{as_lit_spec, has_payload, kind_of, DefaultValue, DefaultValueView};
use vstd::prelude::*;

verus! {

/// A field definition: a namespaced, named, typed field specification.
///
/// The invariant expected of a well-formed definition is that a required
/// field never carries a default payload; the two are mutually exclusive.
#[derive(Debug, PartialEq, Eq)]
pub struct Def {
    /// the namespace path of the field
    pub path: String,
    /// the name of the field
    pub name: String,
    /// whether this field must be given
    pub required: bool,
    /// the typed default value
    pub default: DefaultValue,
}

/// The mathematical value of a [`Def`].
#[verifier::ext_equal]
pub struct DefView {
    /// the namespace path of the field
    pub path: Seq<char>,
    /// the name of the field
    pub name: Seq<char>,
    /// whether this field must be given
    pub required: bool,
    /// the typed default value
    pub default: DefaultValueView,
}

impl View for Def {
    type V = DefView;

    open spec fn view(&self) -> DefView {
        DefView {
            path: self.path@,
            name: self.name@,
            required: self.required,
            default: self.default@,
        }
    }
}

impl DeepView for Def {
    type V = DefView;

    open spec fn deep_view(&self) -> DefView {
        self.view()
    }
}

/// The first entry carrying the given name in a list of nested entries.
pub open spec fn find_in_entries(name: Seq<char>, es: Seq<MetaEntryView>) -> Option<MetaEntryView>
    decreases es.len(),
{
    if es.len() == 0 {
        None
    } else if entry_named(es[0], name) {
        Some(es[0])
    } else {
        find_in_entries(name, es.skip(1))
    }
}

/// The entry a single attribute contributes for a field: its first nested
/// entry with the field's name, if the attribute is a list under the field's
/// path.
pub open spec fn attr_match(d: DefView, a: AttrView) -> Option<MetaEntryView> {
    if a.path == d.path {
        match a.kind {
            AttrKindView::List(es) => find_in_entries(d.name, es),
            _ => None,
        }
    } else {
        None
    }
}

/// The first match for a field across an attribute list: the first matching
/// nested entry of the first attribute that has one.
pub open spec fn find_match(d: DefView, attrs: Seq<AttrView>) -> Option<MetaEntryView>
    decreases attrs.len(),
{
    if attrs.len() == 0 {
        None
    } else {
        match attr_match(d, attrs[0]) {
            Some(m) => Some(m),
            None => find_match(d, attrs.skip(1)),
        }
    }
}

/// Whether no attribute in the list contributes a match for the field.
pub open spec fn no_match(d: DefView, attrs: Seq<AttrView>) -> bool {
    forall|i: int| 0 <= i < attrs.len() ==> attr_match(d, #[trigger] attrs[i]) is None
}

/// What looking a field up answers: the first match if there is one; a
/// missing-required failure if the field is required; a synthesized
/// `path = <default literal>` entry if the default carries a payload; and
/// nothing otherwise.
pub open spec fn get_meta_spec(d: DefView, attrs: Seq<AttrView>) -> Result<
    Option<MetaEntryView>,
    ErrorView,
> {
    match find_match(d, attrs) {
        Some(m) => Ok(Some(m)),
        None => {
            if d.required {
                Err(ErrorView::MissingRequired { path: d.path, name: d.name })
            } else {
                match as_lit_spec(d.default) {
                    Some(l) => Ok(Some(MetaEntryView::NameValue(d.path, l))),
                    None => Ok(None),
                }
            }
        },
    }
}

/// What looking a field's literal up answers: the literal of the entry that
/// [`get_meta_spec`] answers where that entry is a name-and-value, nothing
/// where it has another shape.
pub open spec fn get_lit_spec(d: DefView, attrs: Seq<AttrView>) -> Result<
    Option<crate::lit::LitView>,
    ErrorView,
> {
    match get_meta_spec(d, attrs) {
        Ok(m) => match m {
            Some(MetaEntryView::NameValue(_, l)) => Ok(Some(l)),
            _ => Ok(None),
        },
        Err(e) => Err(e),
    }
}

proof fn lemma_find_in_entries_skip(name: Seq<char>, es: Seq<MetaEntryView>, i: int)
    requires
        0 <= i <= es.len(),
        forall|j: int| 0 <= j < i ==> !entry_named(#[trigger] es[j], name),
    ensures
        find_in_entries(name, es) == find_in_entries(name, es.skip(i)),
    decreases i,
{
    if i == 0 {
        assert(es.skip(0) =~= es);
    } else {
        lemma_find_in_entries_skip(name, es, i - 1);
        let s = es.skip(i - 1);
        assert(s[0] == es[i - 1]);
        assert(s.skip(1) =~= es.skip(i));
    }
}

proof fn lemma_find_match_skip(d: DefView, attrs: Seq<AttrView>, i: int)
    requires
        0 <= i <= attrs.len(),
        forall|j: int| 0 <= j < i ==> attr_match(d, #[trigger] attrs[j]) is None,
    ensures
        find_match(d, attrs) == find_match(d, attrs.skip(i)),
    decreases i,
{
    if i == 0 {
        assert(attrs.skip(0) =~= attrs);
    } else {
        lemma_find_match_skip(d, attrs, i - 1);
        let s = attrs.skip(i - 1);
        assert(s[0] == attrs[i - 1]);
        assert(s.skip(1) =~= attrs.skip(i));
    }
}

/// An absent match means an absent match attribute by attribute.
pub proof fn lemma_no_match(d: DefView, attrs: Seq<AttrView>)
    ensures
        no_match(d, attrs) <==> find_match(d, attrs) is None,
    decreases attrs.len(),
{
    if attrs.len() > 0 {
        lemma_no_match(d, attrs.skip(1));
        assert(forall|j: int|
            0 <= j < attrs.skip(1).len() ==> attrs.skip(1)[j] == #[trigger] attrs[j + 1]);
        if attr_match(d, attrs[0]) is None && no_match(d, attrs.skip(1)) {
            assert forall|i: int| 0 <= i < attrs.len() implies attr_match(
                d,
                #[trigger] attrs[i],
            ) is None by {
                if i > 0 {
                    assert(attrs[i] == attrs.skip(1)[i - 1]);
                }
            }
        }
    }
}

impl Clone for Def {
    /// Copy the definition, value preserved.
    fn clone(&self) -> (r: Self)
        ensures
            r@ == self@,
    {
        Def {
            path: self.path.clone(),
            name: self.name.clone(),
            required: self.required,
            default: self.default.clone(),
        }
    }
}

impl Def {
    /// Create a new field definition.
    pub fn new(path: &str, name: &str, required: bool, default: DefaultValue) -> (d: Def)
        ensures
            d@ == (DefView { path: path@, name: name@, required, default: default@ }),
    {
        Def { path: path.to_owned(), name: name.to_owned(), required, default }
    }

    /// Find the first nested entry with this field's name inside a list of
    /// entries, as an index.
    fn find_in(&self, es: &Vec<MetaEntry>) -> (r: Option<usize>)
        ensures
            match r {
                Some(i) => i < es.len() && find_in_entries(self@.name, es.deep_view()) == Some(
                    es.deep_view()[i as int],
                ),
                None => find_in_entries(self@.name, es.deep_view()) is None,
            },
    {
        let ghost dv = es.deep_view();
        let mut i: usize = 0;
        while i < es.len()
            invariant
                i <= es.len(),
                dv == es.deep_view(),
                dv.len() == es.len(),
                forall|j: int| 0 <= j < i ==> !entry_named(#[trigger] dv[j], self@.name),
            decreases es.len() - i,
        {
            if es[i].is_named(&self.name) {
                proof {
                    lemma_find_in_entries_skip(self@.name, dv, i as int);
                    assert(dv.skip(i as int)[0] == dv[i as int]);
                }
                return Some(i);
            }
            i += 1;
        }
        proof {
            lemma_find_in_entries_skip(self@.name, dv, es.len() as int);
            assert(dv.skip(dv.len() as int).len() == 0);
        }
        None
    }

    /// Keep the nested entries this field does not name, in order.
    fn filter_entries(&self, es: &Vec<MetaEntry>) -> (r: Vec<MetaEntry>)
        ensures
            r.deep_view() == crate::strip::strip_entries(
                seq![self@],
                self@.path,
                es.deep_view(),
            ),
    {
        let ghost d = self@;
        let ghost dv = es.deep_view();
        let mut r: Vec<MetaEntry> = Vec::new();
        let mut i: usize = 0;
        while i < es.len()
            invariant
                i <= es.len(),
                d == self@,
                dv == es.deep_view(),
                dv.len() == es.len(),
                d == self@,
                r.deep_view() == crate::strip::strip_entries(seq![d], d.path, dv.take(i as int)),
            decreases es.len() - i,
        {
            proof {
                assert(dv[i as int] == es@[i as int].deep_view());
                assert(dv.take(i as int).push(dv[i as int]) =~= dv.take(i + 1));
                crate::strip::lemma_strip_entries_snoc(seq![d], d.path, dv.take(i as int), dv[i as int]);
                crate::strip::lemma_hits_singleton(d, d.path, dv[i as int]);
            }
            if !es[i].is_named(&self.name) {
                let ghost prev = r.deep_view();
                r.push(es[i].clone());
                proof {
                    assert(r.deep_view() =~= prev.push(dv[i as int]));
                }
            }
            proof {
                assert(r.deep_view() =~= crate::strip::strip_entries(
                    seq![d],
                    d.path,
                    dv.take(i + 1),
                ));
            }
            i += 1;
        }
        proof {
            assert(dv.take(dv.len() as int) =~= dv);
        }
        r
    }

    /// Strip away the attributes for this field: remove every nested entry
    /// it names, remove a list attribute that is left empty and a bare
    /// attribute under its path, and keep everything else in order.
    pub fn strip(&self, attrs: &mut Vec<Attr>)
        ensures
            final(attrs).deep_view() == crate::strip::strip_attrs(
                seq![self@],
                old(attrs).deep_view(),
            ),
    {
        let ghost d = self@;
        let ghost av = attrs.deep_view();
        let mut out: Vec<Attr> = Vec::new();
        let mut i: usize = 0;
        while i < attrs.len()
            invariant
                i <= attrs.len(),
                d == self@,
                av == attrs.deep_view(),
                av.len() == attrs.len(),
                out.deep_view() == crate::strip::strip_attrs(seq![d], av.take(i as int)),
            decreases attrs.len() - i,
        {
            proof {
                assert(av.take(i as int).push(av[i as int]) =~= av.take(i + 1));
                crate::strip::lemma_strip_attrs_snoc(seq![d], av.take(i as int), av[i as int]);
            }
            let a = &attrs[i];
            proof {
                assert(av[i as int] == attrs@[i as int].deep_view());
                assert(*a == attrs@[i as int]);
                assert(a.path@ == av[i as int].path);
            }
            if a.path == self.path {
                match &a.kind {
                    AttrKind::Bare => {
                        proof {
                            crate::strip::lemma_path_known_singleton(d, av[i as int].path);
                        }
                    },
                    AttrKind::NameValue(_) => {
                        let ghost prev = out.deep_view();
                        out.push(a.clone());
                        proof {
                            assert(out.deep_view() =~= prev.push(av[i as int]));
                        }
                    },
                    AttrKind::List(es) => {
                        let kept = self.filter_entries(es);
                        proof {
                            crate::strip::lemma_path_known_singleton(d, av[i as int].path);
                        }
                        if kept.len() == 0 {
                        } else {
                            let ghost prev = out.deep_view();
                            let ghost keptv = kept.deep_view();
                            out.push(Attr { path: a.path.clone(), kind: AttrKind::List(kept) });
                            proof {
                                assert(out.deep_view() =~= prev.push(
                                    AttrView { path: av[i as int].path, kind: AttrKindView::List(keptv) },
                                ));
                            }
                        }
                    },
                }
            } else {
                proof {
                    assert(a.path@ != self.path@);
                    assert(d.path != av[i as int].path);
                    crate::strip::lemma_path_known_singleton(d, av[i as int].path);
                    crate::strip::lemma_strip_foreign_attr(seq![d], av[i as int]);
                }
                let ghost prev = out.deep_view();
                out.push(a.clone());
                proof {
                    assert(out.deep_view() =~= prev.push(av[i as int]));
                }
            }
            proof {
                assert(out.deep_view() =~= crate::strip::strip_attrs(seq![d], av.take(i + 1)));
            }
            i += 1;
        }
        proof {
            assert(av.take(av.len() as int) =~= av);
        }
        *attrs = out;
    }

    /// Try to find the entry that has the value for this field: the first
    /// matching nested entry, a synthesized default, or a missing-required
    /// failure.
    pub fn get_meta(&self, attrs: &Vec<Attr>) -> (r: Result<Option<MetaEntry>, Error>)
        ensures
            crate::views::res_dv(r) == get_meta_spec(self@, attrs.deep_view()),
    {
        let ghost av = attrs.deep_view();
        let mut i: usize = 0;
        while i < attrs.len()
            invariant
                i <= attrs.len(),
                av == attrs.deep_view(),
                av.len() == attrs.len(),
                forall|j: int| 0 <= j < i ==> attr_match(self@, #[trigger] av[j]) is None,
            decreases attrs.len() - i,
        {
            let a = &attrs[i];
            proof {
                assert(av[i as int] == attrs@[i as int].deep_view());
                assert(*a == attrs@[i as int]);
                assert(a.path@ == av[i as int].path);
            }
            if a.path == self.path {
                match &a.kind {
                    AttrKind::List(es) => {
                        match self.find_in(es) {
                            Some(j) => {
                                proof {
                                    lemma_find_match_skip(self@, av, i as int);
                                    assert(av.skip(i as int)[0] == av[i as int]);
                                }
                                return Ok(Some(es[j].clone()));
                            },
                            None => {},
                        }
                    },
                    _ => {},
                }
            }
            proof {
                assert(attr_match(self@, av[i as int]) is None);
            }
            i += 1;
        }
        proof {
            lemma_find_match_skip(self@, av, attrs.len() as int);
            assert(av.skip(av.len() as int).len() == 0);
        }
        if self.required {
            return Err(
                Error::MissingRequired { path: self.path.clone(), name: self.name.clone() },
            );
        }
        match self.default.as_lit() {
            Some(l) => Ok(Some(MetaEntry::NameValue(self.path.clone(), l))),
            None => Ok(None),
        }
    }

    /// Try to extract the typed value for this field: look the field's entry
    /// up, then convert it as the target type extracts; the first failure is
    /// answered at once.
    pub fn get_value<V: crate::convert::FromMeta>(&self, attrs: &Vec<Attr>) -> (r: Result<
        V,
        Error,
    >)
        ensures
            (match get_meta_spec(self@, attrs.deep_view()) {
                Ok(m) => match r {
                    Ok(v) => V::from_meta_ok(m) && v.deep_view() == V::from_meta_val(m),
                    Err(e) => !V::from_meta_ok(m) && e@ == V::from_meta_err(m),
                },
                Err(ge) => r matches Err(e) && e@ == ge,
            }),
    {
        match self.get_meta(attrs) {
            Ok(m) => V::from_meta(m),
            Err(e) => Err(e),
        }
    }

    /// Try to find the literal that has the value for this field.
    pub fn get_lit(&self, attrs: &Vec<Attr>) -> (r: Result<Option<Lit>, Error>)
        ensures
            crate::views::res_dv(r) == get_lit_spec(self@, attrs.deep_view()),
    {
        match self.get_meta(attrs) {
            Ok(m) => match m {
                Some(MetaEntry::NameValue(_, l)) => Ok(Some(l)),
                _ => Ok(None),
            },
            Err(e) => Err(e),
        }
    }
}

/// Every entry carrying the given name in a list of nested entries, in
/// order.
pub open spec fn named_entries(name: Seq<char>, es: Seq<MetaEntryView>) -> Seq<MetaEntryView>
    decreases es.len(),
{
    if es.len() == 0 {
        Seq::empty()
    } else {
        let rest = named_entries(name, es.skip(1));
        if entry_named(es[0], name) {
            seq![es[0]] + rest
        } else {
            rest
        }
    }
}

/// Every entry one attribute contributes for a field.
pub open spec fn matches_in_attr(d: DefView, a: AttrView) -> Seq<MetaEntryView> {
    if a.path == d.path {
        match a.kind {
            AttrKindView::List(es) => named_entries(d.name, es),
            _ => Seq::empty(),
        }
    } else {
        Seq::empty()
    }
}

/// Every entry an attribute list contributes for a field, in order.
pub open spec fn all_matches(d: DefView, attrs: Seq<AttrView>) -> Seq<MetaEntryView>
    decreases attrs.len(),
{
    if attrs.len() == 0 {
        Seq::empty()
    } else {
        matches_in_attr(d, attrs[0]) + all_matches(d, attrs.skip(1))
    }
}

/// The type a field's matches are checked against: the default's kind, and
/// optional exactly when the field is neither required nor given a default.
pub open spec fn def_ty(d: DefView) -> Type {
    Type { ty: kind_of(d.default), optional: !d.required && !has_payload(d.default) }
}

/// What checking a field against its matches reports, in scan order: a
/// duplicate for every match after the first, a type check of each match's
/// value, a malformed shape for a nested list, and a missing-required
/// failure when a required field has no match at all.
pub open spec fn lint_matches(d: DefView, ms: Seq<MetaEntryView>, found: bool) -> Seq<ErrorView>
    decreases ms.len(),
{
    if ms.len() == 0 {
        if !found && d.required {
            seq![ErrorView::MissingRequired { path: d.path, name: d.name }]
        } else {
            Seq::empty()
        }
    } else {
        let dup: Seq<ErrorView> = if found {
            seq![ErrorView::Duplicate { path: d.path, name: d.name }]
        } else {
            Seq::empty()
        };
        match ms[0] {
            MetaEntryView::NameValue(_, l) => dup + type_lint_spec(def_ty(d), Some(l))
                + lint_matches(d, ms.skip(1), true),
            MetaEntryView::Flag(_) => dup + type_lint_spec(def_ty(d), None) + lint_matches(
                d,
                ms.skip(1),
                true,
            ),
            MetaEntryView::List(_) => seq![ErrorView::MalformedShape] + lint_matches(
                d,
                ms.skip(1),
                found,
            ),
            MetaEntryView::Literal(_) => lint_matches(d, ms.skip(1), found),
        }
    }
}

/// What validating a field against an attribute list reports.
pub open spec fn def_lint_spec(d: DefView, attrs: Seq<AttrView>) -> Seq<ErrorView> {
    lint_matches(d, all_matches(d, attrs), false)
}

impl Def {
    /// Collect every entry the attribute list contributes for this field,
    /// in order.
    fn collect_matches(&self, attrs: &Vec<Attr>) -> (ms: Vec<MetaEntry>)
        ensures
            ms.deep_view() == all_matches(self@, attrs.deep_view()),
    {
        let ghost d = self@;
        let ghost av = attrs.deep_view();
        let mut ms: Vec<MetaEntry> = Vec::new();
        proof {
            assert(av.skip(0) =~= av);
            assert(ms.deep_view() + all_matches(d, av.skip(0)) =~= all_matches(d, av));
        }
        let mut i: usize = 0;
        while i < attrs.len()
            invariant
                i <= attrs.len(),
                d == self@,
                av == attrs.deep_view(),
                av.len() == attrs.len(),
                ms.deep_view() + all_matches(d, av.skip(i as int)) == all_matches(d, av),
            decreases attrs.len() - i,
        {
            proof {
                assert(av.skip(i as int)[0] == av[i as int]);
                assert(av.skip(i as int).skip(1) =~= av.skip(i + 1));
            }
            let ghost start = ms.deep_view();
            let a = &attrs[i];
            proof {
                assert(av[i as int] == attrs@[i as int].deep_view());
            }
            if a.path == self.path {
                match &a.kind {
                    AttrKind::List(es) => {
                        let ghost ev = es.deep_view();
                        proof {
                            assert(ev.skip(0) =~= ev);
                            assert(ms.deep_view() + named_entries(d.name, ev.skip(0)) =~= start
                                + named_entries(d.name, ev));
                        }
                        let mut j: usize = 0;
                        while j < es.len()
                            invariant
                                j <= es.len(),
                                d == self@,
                                ev == es.deep_view(),
                                ev.len() == es.len(),
                                ms.deep_view() + named_entries(d.name, ev.skip(j as int)) == start
                                    + named_entries(d.name, ev),
                            decreases es.len() - j,
                        {
                            proof {
                                assert(ev.skip(j as int)[0] == ev[j as int]);
                                assert(ev.skip(j as int).skip(1) =~= ev.skip(j + 1));
                            }
                            if es[j].is_named(&self.name) {
                                let ghost prev = ms.deep_view();
                                ms.push(es[j].clone());
                                proof {
                                    assert(ms.deep_view() =~= prev.push(ev[j as int]));
                                    assert(ms.deep_view() + named_entries(d.name, ev.skip(j + 1))
                                        =~= prev + named_entries(d.name, ev.skip(j as int)));
                                }
                            }
                            j += 1;
                        }
                        proof {
                            assert(ev.skip(ev.len() as int).len() == 0);
                            assert(ms.deep_view() + Seq::<MetaEntryView>::empty()
                                =~= ms.deep_view());
                            assert(ms.deep_view() == start + matches_in_attr(d, av[i as int]));
                        }
                    },
                    _ => {
                        proof {
                            assert(ms.deep_view() =~= start + matches_in_attr(d, av[i as int]));
                        }
                    },
                }
            } else {
                proof {
                    assert(ms.deep_view() =~= start + matches_in_attr(d, av[i as int]));
                }
            }
            proof {
                assert(ms.deep_view() + all_matches(d, av.skip(i + 1)) =~= start + (matches_in_attr(
                    d,
                    av[i as int],
                ) + all_matches(d, av.skip(i + 1))));
                assert(ms.deep_view() + all_matches(d, av.skip(i + 1)) == all_matches(d, av));
            }
            i += 1;
        }
        proof {
            assert(av.skip(av.len() as int).len() == 0);
            assert(ms.deep_view() + Seq::<MetaEntryView>::empty() =~= ms.deep_view());
        }
        ms
    }

    /// Validate this field against an attribute list: report a duplicate for
    /// every match after the first, check each match's value against the
    /// field's type, and report a required field with no match as missing.
    pub fn lint(&self, attrs: &Vec<Attr>, c: &mut Vec<Error>)
        ensures
            final(c).deep_view() == old(c).deep_view() + def_lint_spec(
                self@,
                attrs.deep_view(),
            ),
    {
        let ghost d = self@;
        let ms = self.collect_matches(attrs);
        let ghost msv = ms.deep_view();
        let ghost c0 = c.deep_view();
        proof {
            assert(msv.skip(0) =~= msv);
            assert(c.deep_view() + lint_matches(d, msv.skip(0), false) =~= c0 + lint_matches(
                d,
                msv,
                false,
            ));
        }
        let mut found = false;
        let mut j: usize = 0;
        while j < ms.len()
            invariant
                j <= ms.len(),
                d == self@,
                msv == ms.deep_view(),
                msv.len() == ms.len(),
                c.deep_view() + lint_matches(d, msv.skip(j as int), found) == c0 + lint_matches(
                    d,
                    msv,
                    false,
                ),
            decreases ms.len() - j,
        {
            proof {
                assert(msv.skip(j as int)[0] == msv[j as int]);
                assert(msv.skip(j as int).skip(1) =~= msv.skip(j + 1));
                assert(msv[j as int] == ms@[j as int].deep_view());
            }
            let ghost pre = c.deep_view();
            match &ms[j] {
                MetaEntry::NameValue(_, l) => {
                    if found {
                        c.push(
                            Error::Duplicate { path: self.path.clone(), name: self.name.clone() },
                        );
                        proof {
                            assert(c.deep_view() =~= pre + seq![
                                ErrorView::Duplicate { path: d.path, name: d.name },
                            ]);
                        }
                    }
                    let ghost mid = c.deep_view();
                    let ty = self.default.ty(!self.required && !self.default.has_default_data());
                    ty.lint(Some(l), c);
                    proof {
                        assert(c.deep_view() =~= pre + (if found {
                            seq![ErrorView::Duplicate { path: d.path, name: d.name }]
                        } else {
                            Seq::<ErrorView>::empty()
                        }) + type_lint_spec(def_ty(d), Some(l@)));
                    }
                    found = true;
                },
                MetaEntry::Flag(_) => {
                    if found {
                        c.push(
                            Error::Duplicate { path: self.path.clone(), name: self.name.clone() },
                        );
                        proof {
                            assert(c.deep_view() =~= pre + seq![
                                ErrorView::Duplicate { path: d.path, name: d.name },
                            ]);
                        }
                    }
                    let ty = self.default.ty(!self.required && !self.default.has_default_data());
                    ty.lint(None, c);
                    proof {
                        assert(c.deep_view() =~= pre + (if found {
                            seq![ErrorView::Duplicate { path: d.path, name: d.name }]
                        } else {
                            Seq::<ErrorView>::empty()
                        }) + type_lint_spec(def_ty(d), None));
                    }
                    found = true;
                },
                MetaEntry::List(_) => {
                    c.push(Error::MalformedShape);
                    proof {
                        assert(c.deep_view() =~= pre + seq![ErrorView::MalformedShape]);
                    }
                },
                MetaEntry::Literal(_) => {},
            }
            proof {
                assert(c.deep_view() + lint_matches(d, msv.skip(j + 1), found) =~= c0
                    + lint_matches(d, msv, false));
            }
            j += 1;
        }
        proof {
            assert(msv.skip(msv.len() as int).len() == 0);
        }
        if !found && self.required {
            let ghost pre = c.deep_view();
            c.push(Error::MissingRequired { path: self.path.clone(), name: self.name.clone() });
            proof {
                assert(c.deep_view() =~= pre + seq![
                    ErrorView::MissingRequired { path: d.path, name: d.name },
                ]);
            }
        } else {
            proof {
                assert(c.deep_view() + Seq::<ErrorView>::empty() =~= c.deep_view());
            }
        }
    }
}

/// An optional field without a default answers nothing when no entry
/// matches: the extracted value for an optional target type is absent.
pub proof fn lemma_absent_optional(d: DefView, attrs: Seq<AttrView>)
    requires
        no_match(d, attrs),
        !d.required,
        !has_payload(d.default),
    ensures
        get_meta_spec(d, attrs) == Ok::<Option<MetaEntryView>, ErrorView>(None),
{
    lemma_no_match(d, attrs);
}

/// A field with a default payload answers exactly that payload's literal,
/// as if it had been written out, when no entry matches.
pub proof fn lemma_absent_default(d: DefView, attrs: Seq<AttrView>)
    requires
        no_match(d, attrs),
        !d.required,
        has_payload(d.default),
    ensures
        get_lit_spec(d, attrs) == Ok::<Option<crate::lit::LitView>, ErrorView>(
            as_lit_spec(d.default),
        ),
        as_lit_spec(d.default) is Some,
{
    lemma_no_match(d, attrs);
}

/// A required field fails with a missing-required error, carrying its path
/// and name, when no entry matches.
pub proof fn lemma_absent_required(d: DefView, attrs: Seq<AttrView>)
    requires
        no_match(d, attrs),
        d.required,
    ensures
        get_meta_spec(d, attrs) == Err::<Option<MetaEntryView>, ErrorView>(
            ErrorView::MissingRequired { path: d.path, name: d.name },
        ),
{
    lemma_no_match(d, attrs);
}

} // verus!
