use crate::attr::{Attr, AttrKind, AttrKindView, AttrView, MetaEntry, MetaEntryView};
use crate::error::{Error, ErrorView};
use crate::field::{def_lint_spec, Def, DefView};
use crate::strip::{lemma_strip_attrs_compose, path_known, strip_attrs};
use vstd::prelude::*;

verus! {

/// Whether some definition in the set carries exactly this path and name.
pub open spec fn known_pair(defs: Seq<DefView>, path: Seq<char>, name: Seq<char>) -> bool {
    exists|k: int|
        0 <= k < defs.len() && (#[trigger] defs[k]).path == path && defs[k].name == name
}

/// What the closed-schema check reports for one nested entry under a
/// recognized namespace: a malformed shape for anything that is not a
/// name-and-value or a bare name, and an unrecognized field for a name no
/// definition carries.
pub open spec fn entry_pass(defs: Seq<DefView>, path: Seq<char>, e: MetaEntryView) -> Seq<
    ErrorView,
> {
    match e {
        MetaEntryView::NameValue(n, _) => unrecognized(defs, path, n),
        MetaEntryView::Flag(n) => unrecognized(defs, path, n),
        MetaEntryView::List(n) => seq![ErrorView::MalformedShape] + unrecognized(defs, path, n),
        MetaEntryView::Literal(_) => seq![ErrorView::MalformedShape],
    }
}

/// An unrecognized-field diagnostic where no definition carries the pair.
pub open spec fn unrecognized(defs: Seq<DefView>, path: Seq<char>, name: Seq<char>) -> Seq<
    ErrorView,
> {
    if known_pair(defs, path, name) {
        Seq::empty()
    } else {
        seq![ErrorView::Unrecognized { path, name }]
    }
}

/// The closed-schema check over the nested entries of one attribute.
pub open spec fn entries_pass(defs: Seq<DefView>, path: Seq<char>, es: Seq<MetaEntryView>) -> Seq<
    ErrorView,
>
    decreases es.len(),
{
    if es.len() == 0 {
        Seq::empty()
    } else {
        entry_pass(defs, path, es[0]) + entries_pass(defs, path, es.skip(1))
    }
}

/// The closed-schema check for one attribute: an attribute under a
/// recognized namespace must be a parenthesized list, and each of its
/// entries must pass; other namespaces are not looked at.
pub open spec fn attr_pass(defs: Seq<DefView>, a: AttrView) -> Seq<ErrorView> {
    if path_known(defs, a.path) {
        match a.kind {
            AttrKindView::List(es) => entries_pass(defs, a.path, es),
            _ => seq![ErrorView::MalformedShape],
        }
    } else {
        Seq::empty()
    }
}

/// The closed-schema check over a whole attribute list.
pub open spec fn attrs_pass(defs: Seq<DefView>, attrs: Seq<AttrView>) -> Seq<ErrorView>
    decreases attrs.len(),
{
    if attrs.len() == 0 {
        Seq::empty()
    } else {
        attr_pass(defs, attrs[0]) + attrs_pass(defs, attrs.skip(1))
    }
}

/// Every definition's own check, definition by definition.
pub open spec fn all_def_lints(defs: Seq<DefView>, attrs: Seq<AttrView>) -> Seq<ErrorView>
    decreases defs.len(),
{
    if defs.len() == 0 {
        Seq::empty()
    } else {
        def_lint_spec(defs[0], attrs) + all_def_lints(defs.skip(1), attrs)
    }
}

/// What validating a definition set against an attribute list reports:
/// first each definition's own duplicate, type and missing checks, then the
/// closed-schema pass over every recognized-namespace attribute.
pub open spec fn defs_lint_spec(defs: Seq<DefView>, attrs: Seq<AttrView>) -> Seq<ErrorView> {
    all_def_lints(defs, attrs) + attrs_pass(defs, attrs)
}

/// An ordered collection of field definitions sharing a namespace.
#[derive(Debug, PartialEq, Eq)]
pub struct Defs {
    defs: Vec<Def>,
}

impl View for Defs {
    type V = Seq<DefView>;

    closed spec fn view(&self) -> Seq<DefView> {
        self.defs.deep_view()
    }
}

impl DeepView for Defs {
    type V = Seq<DefView>;

    open spec fn deep_view(&self) -> Seq<DefView> {
        self.view()
    }
}

impl Defs {
    /// Create a new collection of field definitions.
    pub fn new(defs: Vec<Def>) -> (r: Defs)
        ensures
            r@ == defs.deep_view(),
    {
        Defs { defs }
    }

    /// An empty collection of field definitions.
    pub fn empty() -> (r: Defs)
        ensures
            r@.len() == 0,
    {
        Defs { defs: Vec::new() }
    }

    /// Strip away the attributes for all fields, definition by definition:
    /// exactly the entries some definition names are removed, and surviving
    /// attributes and entries keep their original relative order.
    pub fn strip(&self, attrs: &mut Vec<Attr>)
        ensures
            final(attrs).deep_view() == strip_attrs(self@, old(attrs).deep_view()),
    {
        let ghost av = attrs.deep_view();
        let ghost ds = self@;
        proof {
            crate::strip::lemma_strip_attrs_no_defs(ds.take(0), av);
        }
        let mut k: usize = 0;
        while k < self.defs.len()
            invariant
                k <= self.defs.len(),
                ds == self@,
                ds.len() == self.defs.len(),
                attrs.deep_view() == strip_attrs(ds.take(k as int), av),
            decreases self.defs.len() - k,
        {
            self.defs[k].strip(attrs);
            proof {
                lemma_strip_attrs_compose(ds[k as int], ds.take(k as int), av);
                assert(ds.take(k as int).push(ds[k as int]) =~= ds.take(k + 1));
            }
            k += 1;
        }
        proof {
            assert(ds.take(ds.len() as int) =~= ds);
        }
    }

    /// Validate an attribute list against the whole collection: run every
    /// definition's own check, then close the schema by reporting every
    /// malformed or unrecognized entry under a recognized namespace.
    pub fn lint(&self, attrs: &Vec<Attr>, c: &mut Vec<Error>)
        ensures
            final(c).deep_view() == old(c).deep_view() + defs_lint_spec(
                self@,
                attrs.deep_view(),
            ),
    {
        let ghost ds = self@;
        let ghost av = attrs.deep_view();
        let ghost c0 = c.deep_view();
        proof {
            assert(ds.skip(0) =~= ds);
            assert(c.deep_view() + all_def_lints(ds.skip(0), av) =~= c0 + all_def_lints(ds, av));
        }
        let mut k: usize = 0;
        while k < self.defs.len()
            invariant
                k <= self.defs.len(),
                ds == self@,
                ds.len() == self.defs.len(),
                av == attrs.deep_view(),
                c.deep_view() + all_def_lints(ds.skip(k as int), av) == c0 + all_def_lints(ds, av),
            decreases self.defs.len() - k,
        {
            proof {
                assert(ds.skip(k as int)[0] == ds[k as int]);
                assert(ds.skip(k as int).skip(1) =~= ds.skip(k + 1));
                assert(ds[k as int] == self.defs@[k as int].deep_view());
            }
            let ghost pre = c.deep_view();
            self.defs[k].lint(attrs, c);
            proof {
                assert(c.deep_view() + all_def_lints(ds.skip(k + 1), av) =~= pre + (def_lint_spec(
                    ds[k as int],
                    av,
                ) + all_def_lints(ds.skip(k + 1), av)));
                assert(c.deep_view() + all_def_lints(ds.skip(k + 1), av) == c0 + all_def_lints(
                    ds,
                    av,
                ));
            }
            k += 1;
        }
        proof {
            assert(ds.skip(ds.len() as int).len() == 0);
            assert(c.deep_view() + Seq::<ErrorView>::empty() =~= c.deep_view());
        }
        let ghost c1 = c.deep_view();
        proof {
            assert(av.skip(0) =~= av);
            assert(c.deep_view() + attrs_pass(ds, av.skip(0)) =~= c1 + attrs_pass(ds, av));
        }
        let mut i: usize = 0;
        while i < attrs.len()
            invariant
                i <= attrs.len(),
                ds == self@,
                av == attrs.deep_view(),
                av.len() == attrs.len(),
                c.deep_view() + attrs_pass(ds, av.skip(i as int)) == c1 + attrs_pass(ds, av),
            decreases attrs.len() - i,
        {
            proof {
                assert(av.skip(i as int)[0] == av[i as int]);
                assert(av.skip(i as int).skip(1) =~= av.skip(i + 1));
                assert(av[i as int] == attrs@[i as int].deep_view());
            }
            let ghost pre = c.deep_view();
            let a = &attrs[i];
            if self.has_path(&a.path) {
                match &a.kind {
                    AttrKind::List(es) => {
                        let ghost ev = es.deep_view();
                        proof {
                            assert(ev.skip(0) =~= ev);
                            assert(c.deep_view() + entries_pass(ds, av[i as int].path, ev.skip(0))
                                =~= pre + entries_pass(ds, av[i as int].path, ev));
                        }
                        let mut j: usize = 0;
                        while j < es.len()
                            invariant
                                j <= es.len(),
                                ds == self@,
                                ev == es.deep_view(),
                                ev.len() == es.len(),
                                a.path@ == av[i as int].path,
                                av == attrs.deep_view(),
                                c.deep_view() + entries_pass(
                                    ds,
                                    av[i as int].path,
                                    ev.skip(j as int),
                                ) == pre + entries_pass(ds, av[i as int].path, ev),
                            decreases es.len() - j,
                        {
                            proof {
                                assert(ev.skip(j as int)[0] == ev[j as int]);
                                assert(ev.skip(j as int).skip(1) =~= ev.skip(j + 1));
                                assert(ev[j as int] == es@[j as int].deep_view());
                            }
                            let ghost mid = c.deep_view();
                            match &es[j] {
                                MetaEntry::NameValue(n, _) => {
                                    if !self.has_pair(&a.path, n) {
                                        c.push(
                                            Error::Unrecognized {
                                                path: a.path.clone(),
                                                name: n.clone(),
                                            },
                                        );
                                    }
                                },
                                MetaEntry::Flag(n) => {
                                    if !self.has_pair(&a.path, n) {
                                        c.push(
                                            Error::Unrecognized {
                                                path: a.path.clone(),
                                                name: n.clone(),
                                            },
                                        );
                                    }
                                },
                                MetaEntry::List(n) => {
                                    c.push(Error::MalformedShape);
                                    if !self.has_pair(&a.path, n) {
                                        c.push(
                                            Error::Unrecognized {
                                                path: a.path.clone(),
                                                name: n.clone(),
                                            },
                                        );
                                    }
                                },
                                MetaEntry::Literal(_) => {
                                    c.push(Error::MalformedShape);
                                },
                            }
                            proof {
                                assert(c.deep_view() =~= mid + entry_pass(
                                    ds,
                                    av[i as int].path,
                                    ev[j as int],
                                ));
                                assert(c.deep_view() + entries_pass(
                                    ds,
                                    av[i as int].path,
                                    ev.skip(j + 1),
                                ) =~= pre + entries_pass(ds, av[i as int].path, ev));
                            }
                            j += 1;
                        }
                        proof {
                            assert(ev.skip(ev.len() as int).len() == 0);
                            assert(c.deep_view() + Seq::<ErrorView>::empty() =~= c.deep_view());
                            assert(c.deep_view() =~= pre + attr_pass(ds, av[i as int]));
                        }
                    },
                    _ => {
                        c.push(Error::MalformedShape);
                        proof {
                            assert(c.deep_view() =~= pre + attr_pass(ds, av[i as int]));
                        }
                    },
                }
            } else {
                proof {
                    assert(c.deep_view() =~= pre + attr_pass(ds, av[i as int]));
                }
            }
            proof {
                assert(c.deep_view() + attrs_pass(ds, av.skip(i + 1)) =~= pre + (attr_pass(
                    ds,
                    av[i as int],
                ) + attrs_pass(ds, av.skip(i + 1))));
                assert(c.deep_view() + attrs_pass(ds, av.skip(i + 1)) == c1 + attrs_pass(ds, av));
            }
            i += 1;
        }
        proof {
            assert(av.skip(av.len() as int).len() == 0);
            assert(c.deep_view() + Seq::<ErrorView>::empty() =~= c.deep_view());
        }
    }

    /// Whether some definition in the collection carries exactly this path
    /// and name.
    pub fn has_pair(&self, path: &String, name: &String) -> (r: bool)
        ensures
            r == known_pair(self@, path@, name@),
    {
        let ghost ds = self@;
        let mut k: usize = 0;
        while k < self.defs.len()
            invariant
                k <= self.defs.len(),
                ds == self@,
                ds.len() == self.defs.len(),
                forall|j: int|
                    0 <= j < k ==> !((#[trigger] ds[j]).path == path@ && ds[j].name == name@),
            decreases self.defs.len() - k,
        {
            if self.defs[k].path == *path && self.defs[k].name == *name {
                proof {
                    assert(ds[k as int] == self.defs@[k as int].deep_view());
                    assert(ds[k as int].path == path@ && ds[k as int].name == name@);
                    assert(known_pair(ds, path@, name@));
                }
                return true;
            }
            k += 1;
        }
        false
    }

    /// Whether some definition in the collection uses this namespace path.
    pub fn has_path(&self, path: &String) -> (r: bool)
        ensures
            r == path_known(self@, path@),
    {
        let ghost ds = self@;
        let mut k: usize = 0;
        while k < self.defs.len()
            invariant
                k <= self.defs.len(),
                ds == self@,
                ds.len() == self.defs.len(),
                forall|j: int| 0 <= j < k ==> (#[trigger] ds[j]).path != path@,
            decreases self.defs.len() - k,
        {
            if self.defs[k].path == *path {
                proof {
                    assert(ds[k as int] == self.defs@[k as int].deep_view());
                    assert(ds[k as int].path == path@);
                    assert(path_known(ds, path@));
                }
                return true;
            }
            k += 1;
        }
        false
    }
}


/// An element of either part is an element of the concatenation.
proof fn lemma_concat_contains<T>(a: Seq<T>, b: Seq<T>, x: T)
    requires
        a.contains(x) || b.contains(x),
    ensures
        (a + b).contains(x),
{
    if a.contains(x) {
        let i = choose|i: int| 0 <= i < a.len() && a[i] == x;
        assert((a + b)[i] == x);
    } else {
        let i = choose|i: int| 0 <= i < b.len() && b[i] == x;
        assert((a + b)[a.len() + i] == x);
    }
}

/// What the closed-schema check reports for one entry, it reports for the
/// whole entry list.
proof fn lemma_entries_pass_contains(
    defs: Seq<DefView>,
    path: Seq<char>,
    es: Seq<MetaEntryView>,
    j: int,
    x: ErrorView,
)
    requires
        0 <= j < es.len(),
        entry_pass(defs, path, es[j]).contains(x),
    ensures
        entries_pass(defs, path, es).contains(x),
    decreases j,
{
    if j == 0 {
        lemma_concat_contains(entry_pass(defs, path, es[0]), entries_pass(defs, path, es.skip(1)), x);
    } else {
        assert(es.skip(1)[j - 1] == es[j]);
        lemma_entries_pass_contains(defs, path, es.skip(1), j - 1, x);
        lemma_concat_contains(entry_pass(defs, path, es[0]), entries_pass(defs, path, es.skip(1)), x);
    }
}

/// What the closed-schema check reports for one attribute, it reports for
/// the whole attribute list.
proof fn lemma_attrs_pass_contains(defs: Seq<DefView>, attrs: Seq<AttrView>, i: int, x: ErrorView)
    requires
        0 <= i < attrs.len(),
        attr_pass(defs, attrs[i]).contains(x),
    ensures
        attrs_pass(defs, attrs).contains(x),
    decreases i,
{
    if i == 0 {
        lemma_concat_contains(attr_pass(defs, attrs[0]), attrs_pass(defs, attrs.skip(1)), x);
    } else {
        assert(attrs.skip(1)[i - 1] == attrs[i]);
        lemma_attrs_pass_contains(defs, attrs.skip(1), i - 1, x);
        lemma_concat_contains(attr_pass(defs, attrs[0]), attrs_pass(defs, attrs.skip(1)), x);
    }
}

/// Closed-schema law: an attribute list holding a recognized-namespace list
/// attribute with a named entry that no definition carries always makes
/// validation report that entry as unrecognized.
pub proof fn lemma_unrecognized_reported(
    defs: Seq<DefView>,
    attrs: Seq<AttrView>,
    i: int,
    es: Seq<MetaEntryView>,
    j: int,
    n: Seq<char>,
)
    requires
        0 <= i < attrs.len(),
        path_known(defs, attrs[i].path),
        attrs[i].kind == AttrKindView::List(es),
        0 <= j < es.len(),
        crate::attr::entry_name(es[j]) == Some(n),
        !known_pair(defs, attrs[i].path, n),
    ensures
        defs_lint_spec(defs, attrs).contains(
            ErrorView::Unrecognized { path: attrs[i].path, name: n },
        ),
{
    let x = ErrorView::Unrecognized { path: attrs[i].path, name: n };
    assert(entry_pass(defs, attrs[i].path, es[j]).contains(x)) by {
        match es[j] {
            MetaEntryView::NameValue(_, _) => {
                assert(unrecognized(defs, attrs[i].path, n)[0] == x);
            },
            MetaEntryView::Flag(_) => {
                assert(unrecognized(defs, attrs[i].path, n)[0] == x);
            },
            MetaEntryView::List(_) => {
                assert((seq![ErrorView::MalformedShape] + unrecognized(defs, attrs[i].path, n))[1]
                    == x);
            },
            MetaEntryView::Literal(_) => {},
        }
    }
    lemma_entries_pass_contains(defs, attrs[i].path, es, j, x);
    lemma_attrs_pass_contains(defs, attrs, i, x);
    lemma_concat_contains(all_def_lints(defs, attrs), attrs_pass(defs, attrs), x);
}

} // verus!
