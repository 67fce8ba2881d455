use crate::attr::{entry_named, AttrKindView, AttrView, MetaEntryView};
use crate::field::DefView;
use vstd::prelude::*;

verus! {

/// Whether some definition in the set names this entry under this path.
pub open spec fn strip_hits(defs: Seq<DefView>, path: Seq<char>, e: MetaEntryView) -> bool {
    exists|k: int|
        0 <= k < defs.len() && (#[trigger] defs[k]).path == path && entry_named(e, defs[k].name)
}

/// Whether some definition in the set uses this namespace path.
pub open spec fn path_known(defs: Seq<DefView>, path: Seq<char>) -> bool {
    exists|k: int| 0 <= k < defs.len() && (#[trigger] defs[k]).path == path
}

/// The nested entries that survive stripping: exactly those that no
/// definition in the set names, in their original order.
pub open spec fn strip_entries(
    defs: Seq<DefView>,
    path: Seq<char>,
    es: Seq<MetaEntryView>,
) -> Seq<MetaEntryView>
    decreases es.len(),
{
    if es.len() == 0 {
        Seq::empty()
    } else {
        let rest = strip_entries(defs, path, es.skip(1));
        if strip_hits(defs, path, es[0]) {
            rest
        } else {
            seq![es[0]] + rest
        }
    }
}

/// What stripping leaves of one attribute: a bare attribute under a known
/// path is consumed whole; a list attribute keeps its surviving entries and
/// is consumed when a known path leaves none; anything else is untouched.
pub open spec fn strip_attr(defs: Seq<DefView>, a: AttrView) -> Option<AttrView> {
    match a.kind {
        AttrKindView::Bare => {
            if path_known(defs, a.path) {
                None
            } else {
                Some(a)
            }
        },
        AttrKindView::NameValue(_) => Some(a),
        AttrKindView::List(es) => {
            let kept = strip_entries(defs, a.path, es);
            if path_known(defs, a.path) && kept.len() == 0 {
                None
            } else {
                Some(AttrView { path: a.path, kind: AttrKindView::List(kept) })
            }
        },
    }
}

/// What stripping leaves of an attribute list, surviving attributes in their
/// original relative order.
pub open spec fn strip_attrs(defs: Seq<DefView>, attrs: Seq<AttrView>) -> Seq<AttrView>
    decreases attrs.len(),
{
    if attrs.len() == 0 {
        Seq::empty()
    } else {
        let rest = strip_attrs(defs, attrs.skip(1));
        match strip_attr(defs, attrs[0]) {
            Some(a) => seq![a] + rest,
            None => rest,
        }
    }
}

/// Peeling the first entry off the list being stripped.
proof fn lemma_strip_entries_cons(
    defs: Seq<DefView>,
    path: Seq<char>,
    e: MetaEntryView,
    es: Seq<MetaEntryView>,
)
    ensures
        strip_entries(defs, path, seq![e] + es) == if strip_hits(defs, path, e) {
            strip_entries(defs, path, es)
        } else {
            seq![e] + strip_entries(defs, path, es)
        },
{
    let s = seq![e] + es;
    assert(s[0] == e);
    assert(s.skip(1) =~= es);
}

/// Appending one entry to the list being stripped.
pub(crate) proof fn lemma_strip_entries_snoc(
    defs: Seq<DefView>,
    path: Seq<char>,
    es: Seq<MetaEntryView>,
    e: MetaEntryView,
)
    ensures
        strip_entries(defs, path, es.push(e)) == if strip_hits(defs, path, e) {
            strip_entries(defs, path, es)
        } else {
            strip_entries(defs, path, es).push(e)
        },
    decreases es.len(),
{
    let s = es.push(e);
    if es.len() == 0 {
        assert(s.len() == 1);
        assert(s[0] == e);
        assert(s.skip(1) =~= Seq::<MetaEntryView>::empty());
        assert(strip_entries(defs, path, s.skip(1)) =~= Seq::<MetaEntryView>::empty());
        assert(strip_entries(defs, path, es) =~= Seq::<MetaEntryView>::empty());
        if strip_hits(defs, path, e) {
            assert(strip_entries(defs, path, s) =~= strip_entries(defs, path, es));
        } else {
            assert(strip_entries(defs, path, s) =~= seq![e]
                + Seq::<MetaEntryView>::empty());
            assert(strip_entries(defs, path, s) =~= strip_entries(defs, path, es).push(e));
        }
    } else {
        assert(s[0] == es[0]);
        assert(s.skip(1) =~= es.skip(1).push(e));
        lemma_strip_entries_snoc(defs, path, es.skip(1), e);
        if strip_hits(defs, path, es[0]) {
        } else {
            if strip_hits(defs, path, e) {
            } else {
                assert(seq![es[0]] + strip_entries(defs, path, es.skip(1)).push(e) =~= (seq![es[0]]
                    + strip_entries(defs, path, es.skip(1))).push(e));
            }
        }
    }
}

/// Peeling the first attribute off the list being stripped.
proof fn lemma_strip_attrs_cons(defs: Seq<DefView>, a: AttrView, attrs: Seq<AttrView>)
    ensures
        strip_attrs(defs, seq![a] + attrs) == match strip_attr(defs, a) {
            Some(kept) => seq![kept] + strip_attrs(defs, attrs),
            None => strip_attrs(defs, attrs),
        },
{
    let s = seq![a] + attrs;
    assert(s[0] == a);
    assert(s.skip(1) =~= attrs);
}

/// Appending one attribute to the list being stripped.
pub proof fn lemma_strip_attrs_snoc(defs: Seq<DefView>, attrs: Seq<AttrView>, a: AttrView)
    ensures
        strip_attrs(defs, attrs.push(a)) == match strip_attr(defs, a) {
            Some(kept) => strip_attrs(defs, attrs).push(kept),
            None => strip_attrs(defs, attrs),
        },
    decreases attrs.len(),
{
    let s = attrs.push(a);
    if attrs.len() == 0 {
        assert(s.len() == 1);
        assert(s[0] == a);
        assert(s.skip(1) =~= Seq::<AttrView>::empty());
        assert(strip_attrs(defs, s.skip(1)) =~= Seq::<AttrView>::empty());
        assert(strip_attrs(defs, attrs) =~= Seq::<AttrView>::empty());
        match strip_attr(defs, a) {
            Some(kept) => {
                assert(strip_attrs(defs, s) =~= seq![kept] + Seq::<AttrView>::empty());
                assert(strip_attrs(defs, s) =~= strip_attrs(defs, attrs).push(kept));
            },
            None => {
                assert(strip_attrs(defs, s) =~= strip_attrs(defs, attrs));
            },
        }
    } else {
        assert(s[0] == attrs[0]);
        assert(s.skip(1) =~= attrs.skip(1).push(a));
        lemma_strip_attrs_snoc(defs, attrs.skip(1), a);
        match strip_attr(defs, attrs[0]) {
            Some(k0) => {
                match strip_attr(defs, a) {
                    Some(kept) => {
                        assert(seq![k0] + strip_attrs(defs, attrs.skip(1)).push(kept) =~= (seq![k0]
                            + strip_attrs(defs, attrs.skip(1))).push(kept));
                    },
                    None => {},
                }
            },
            None => {},
        }
    }
}

/// Stripping entries that already survived stripping changes nothing.
proof fn lemma_strip_entries_idem(defs: Seq<DefView>, path: Seq<char>, es: Seq<MetaEntryView>)
    ensures
        strip_entries(defs, path, strip_entries(defs, path, es)) == strip_entries(defs, path, es),
    decreases es.len(),
{
    if es.len() > 0 {
        lemma_strip_entries_idem(defs, path, es.skip(1));
        let rest = strip_entries(defs, path, es.skip(1));
        if strip_hits(defs, path, es[0]) {
        } else {
            lemma_strip_entries_cons(defs, path, es[0], rest);
        }
    }
}

/// Stripping an attribute list twice with the same definitions yields what
/// stripping it once yields: stripping is idempotent.
pub proof fn lemma_strip_idempotent(defs: Seq<DefView>, attrs: Seq<AttrView>)
    ensures
        strip_attrs(defs, strip_attrs(defs, attrs)) == strip_attrs(defs, attrs),
    decreases attrs.len(),
{
    if attrs.len() > 0 {
        lemma_strip_idempotent(defs, attrs.skip(1));
        let rest = strip_attrs(defs, attrs.skip(1));
        match strip_attr(defs, attrs[0]) {
            Some(a1) => {
                lemma_strip_attrs_cons(defs, a1, rest);
                assert(strip_attr(defs, a1) == Some(a1)) by {
                    match attrs[0].kind {
                        AttrKindView::Bare => {},
                        AttrKindView::NameValue(_) => {},
                        AttrKindView::List(es) => {
                            lemma_strip_entries_idem(defs, attrs[0].path, es);
                        },
                    }
                }
            },
            None => {},
        }
    }
}

/// An attribute whose namespace path no definition uses is left untouched.
pub proof fn lemma_strip_foreign_attr(defs: Seq<DefView>, a: AttrView)
    requires
        !path_known(defs, a.path),
    ensures
        strip_attr(defs, a) == Some(a),
{
    match a.kind {
        AttrKindView::Bare => {},
        AttrKindView::NameValue(_) => {},
        AttrKindView::List(es) => {
            lemma_strip_entries_all_kept(defs, a.path, es);
        },
    }
}

/// When no definition names anything under this path, every entry survives.
proof fn lemma_strip_entries_all_kept(defs: Seq<DefView>, path: Seq<char>, es: Seq<MetaEntryView>)
    requires
        !path_known(defs, path),
    ensures
        strip_entries(defs, path, es) == es,
    decreases es.len(),
{
    if es.len() > 0 {
        lemma_strip_entries_all_kept(defs, path, es.skip(1));
        assert(!strip_hits(defs, path, es[0]));
        assert(seq![es[0]] + es.skip(1) =~= es);
    }
}

/// The entries that survive stripping are the entries no definition names,
/// as a filter of the original list.
pub proof fn lemma_strip_entries_is_filter(
    defs: Seq<DefView>,
    path: Seq<char>,
    es: Seq<MetaEntryView>,
)
    ensures
        strip_entries(defs, path, es) == es.filter(|e: MetaEntryView| !strip_hits(defs, path, e)),
    decreases es.len(),
{
    reveal(Seq::filter);
    if es.len() > 0 {
        lemma_strip_entries_is_filter(defs, path, es.drop_last());
        lemma_strip_entries_snoc(defs, path, es.drop_last(), es.last());
        assert(es.drop_last().push(es.last()) =~= es);
    }
}

/// Stripping removes exactly the entries whose path and name some
/// definition carries and leaves all others in their original relative
/// order: a list attribute's survivors are the filter of its entries, the
/// attribute itself going only when a known path leaves it empty.
pub proof fn lemma_strip_exact(defs: Seq<DefView>, a: AttrView, es: Seq<MetaEntryView>)
    requires
        a.kind == AttrKindView::List(es),
    ensures
        ({
            let kept = es.filter(|e: MetaEntryView| !strip_hits(defs, a.path, e));
            strip_attr(defs, a) == if path_known(defs, a.path) && kept.len() == 0 {
                None
            } else {
                Some(AttrView { path: a.path, kind: AttrKindView::List(kept) })
            }
        }),
{
    lemma_strip_entries_is_filter(defs, a.path, es);
}

/// Stripping with no definitions at all changes nothing.
pub proof fn lemma_strip_attrs_no_defs(defs: Seq<DefView>, attrs: Seq<AttrView>)
    requires
        defs.len() == 0,
    ensures
        strip_attrs(defs, attrs) == attrs,
    decreases attrs.len(),
{
    if attrs.len() > 0 {
        lemma_strip_attrs_no_defs(defs, attrs.skip(1));
        assert(!path_known(defs, attrs[0].path));
        lemma_strip_foreign_attr(defs, attrs[0]);
        assert(seq![attrs[0]] + attrs.skip(1) =~= attrs);
    }
}

/// Growing the definition set by one: what the larger set strips is what the
/// smaller set strips, stripped once more by the added definition.
pub proof fn lemma_strip_entries_compose(
    d: DefView,
    defs: Seq<DefView>,
    path: Seq<char>,
    es: Seq<MetaEntryView>,
)
    ensures
        strip_entries(seq![d], path, strip_entries(defs, path, es)) == strip_entries(
            defs.push(d),
            path,
            es,
        ),
    decreases es.len(),
{
    if es.len() > 0 {
        lemma_strip_entries_compose(d, defs, path, es.skip(1));
        let rest = strip_entries(defs, path, es.skip(1));
        assert(strip_hits(defs.push(d), path, es[0]) <==> (strip_hits(defs, path, es[0])
            || strip_hits(seq![d], path, es[0]))) by {
            lemma_hits_push(d, defs, path, es[0]);
            lemma_hits_singleton(d, path, es[0]);
        }
        if strip_hits(defs, path, es[0]) {
        } else {
            lemma_strip_entries_cons(seq![d], path, es[0], rest);
        }
    }
}

/// What a definition set of one names.
pub(crate) proof fn lemma_hits_singleton(d: DefView, path: Seq<char>, e: MetaEntryView)
    ensures
        strip_hits(seq![d], path, e) <==> (d.path == path && entry_named(e, d.name)),
{
    assert(seq![d][0] == d);
    if strip_hits(seq![d], path, e) {
        let k = choose|k: int|
            0 <= k < seq![d].len() && (#[trigger] seq![d][k]).path == path && entry_named(
                e,
                seq![d][k].name,
            );
        assert(k == 0);
    }
}

/// A path is known to a definition set of one exactly when it is that
/// definition's path.
pub(crate) proof fn lemma_path_known_singleton(d: DefView, path: Seq<char>)
    ensures
        path_known(seq![d], path) <==> d.path == path,
{
    assert(seq![d][0] == d);
    if path_known(seq![d], path) {
        let k = choose|k: int| 0 <= k < seq![d].len() && (#[trigger] seq![d][k]).path == path;
        assert(k == 0);
    }
}

/// Membership in a definition set grown by one.
proof fn lemma_hits_push(d: DefView, defs: Seq<DefView>, path: Seq<char>, e: MetaEntryView)
    ensures
        strip_hits(defs.push(d), path, e) <==> (strip_hits(defs, path, e) || (d.path == path
            && entry_named(e, d.name))),
{
    let s = defs.push(d);
    assert(s[defs.len() as int] == d);
    assert(forall|k: int| 0 <= k < defs.len() ==> s[k] == #[trigger] defs[k]);
    if strip_hits(s, path, e) {
        let k = choose|k: int| 0 <= k < s.len() && (#[trigger] s[k]).path == path && entry_named(
            e,
            s[k].name,
        );
        if k < defs.len() {
            assert(defs[k].path == path && entry_named(e, defs[k].name));
        }
    }
    if strip_hits(seq![d], path, e) {
        assert(seq![d][0] == d);
    }
    if d.path == path && entry_named(e, d.name) {
        assert(seq![d][0] == d);
        assert(strip_hits(seq![d], path, e));
    }
}

/// Path recognition in a definition set grown by one.
proof fn lemma_path_known_push(d: DefView, defs: Seq<DefView>, path: Seq<char>)
    ensures
        path_known(defs.push(d), path) <==> (path_known(defs, path) || d.path == path),
{
    let s = defs.push(d);
    assert(s[defs.len() as int] == d);
    assert(forall|k: int| 0 <= k < defs.len() ==> s[k] == #[trigger] defs[k]);
    if path_known(s, path) {
        let k = choose|k: int| 0 <= k < s.len() && (#[trigger] s[k]).path == path;
        if k < defs.len() {
            assert(defs[k].path == path);
        }
    }
}

/// A definition set of one strips what that one definition strips.
proof fn lemma_strip_attr_push(d: DefView, defs: Seq<DefView>, a: AttrView)
    ensures
        strip_attr(defs.push(d), a) == match strip_attr(defs, a) {
            Some(kept) => strip_attr(seq![d], kept),
            None => None::<AttrView>,
        },
{
    lemma_path_known_push(d, defs, a.path);
    assert(path_known(seq![d], a.path) <==> d.path == a.path) by {
        assert(seq![d][0] == d);
        if path_known(seq![d], a.path) {
            let k = choose|k: int|
                0 <= k < seq![d].len() && (#[trigger] seq![d][k]).path == a.path;
            assert(k == 0);
        }
    }
    match a.kind {
        AttrKindView::Bare => {},
        AttrKindView::NameValue(_) => {},
        AttrKindView::List(es) => {
            lemma_strip_entries_compose(d, defs, a.path, es);
            let kept1 = strip_entries(defs, a.path, es);
            let kept2 = strip_entries(seq![d], a.path, kept1);
            if path_known(defs, a.path) && kept1.len() == 0 {
                assert(kept2.len() == 0);
            } else {
                if !(d.path == a.path) {
                    lemma_strip_entries_all_kept(seq![d], a.path, kept1);
                }
            }
        },
    }
}

/// Stripping with a set then with one more definition is stripping with the
/// grown set.
pub proof fn lemma_strip_attrs_compose(d: DefView, defs: Seq<DefView>, attrs: Seq<AttrView>)
    ensures
        strip_attrs(seq![d], strip_attrs(defs, attrs)) == strip_attrs(defs.push(d), attrs),
    decreases attrs.len(),
{
    if attrs.len() > 0 {
        lemma_strip_attrs_compose(d, defs, attrs.skip(1));
        let rest = strip_attrs(defs, attrs.skip(1));
        lemma_strip_attr_push(d, defs, attrs[0]);
        match strip_attr(defs, attrs[0]) {
            Some(a1) => {
                lemma_strip_attrs_cons(seq![d], a1, rest);
            },
            None => {},
        }
    }
}

} // verus!
