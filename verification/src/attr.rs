use crate::lit::{Lit, LitView};
use vstd::prelude::*;

verus! {

/// A nested entry inside an attribute's parenthesized list.
#[derive(Debug, PartialEq, Eq)]
pub enum MetaEntry {
    /// `name = literal`
    NameValue(String, Lit),
    /// a bare `name`
    Flag(String),
    /// a nested `name(...)` list; validation reports it as malformed,
    /// nothing reads what is inside
    List(String),
    /// a bare literal with no name; validation reports it as malformed
    Literal(Lit),
}

/// The mathematical value of a [`MetaEntry`].
#[verifier::ext_equal]
pub enum MetaEntryView {
    /// `name = literal`
    NameValue(Seq<char>, LitView),
    /// a bare `name`
    Flag(Seq<char>),
    /// a nested `name(...)` list
    List(Seq<char>),
    /// a bare literal with no name
    Literal(LitView),
}

/// What stands after an attribute's namespace path.
#[derive(Debug, PartialEq, Eq)]
pub enum AttrKind {
    /// a bare path with no content, `#[foo]`
    Bare,
    /// a top-level `#[foo = literal]`
    NameValue(Lit),
    /// a parenthesized list of nested entries, `#[foo(...)]`
    List(Vec<MetaEntry>),
}

/// The mathematical value of an [`AttrKind`].
#[verifier::ext_equal]
pub enum AttrKindView {
    /// a bare path with no content
    Bare,
    /// a top-level `path = literal`
    NameValue(LitView),
    /// a parenthesized list of nested entries
    List(Seq<MetaEntryView>),
}

/// An attribute entry: a namespace path with its content.
#[derive(Debug, PartialEq, Eq)]
pub struct Attr {
    /// the namespace path
    pub path: String,
    /// the content that stands after the path
    pub kind: AttrKind,
}

/// The mathematical value of an [`Attr`].
#[verifier::ext_equal]
pub struct AttrView {
    /// the namespace path
    pub path: Seq<char>,
    /// the content that stands after the path
    pub kind: AttrKindView,
}

impl View for MetaEntry {
    type V = MetaEntryView;

    open spec fn view(&self) -> MetaEntryView {
        match self {
            MetaEntry::NameValue(n, l) => MetaEntryView::NameValue(n@, l@),
            MetaEntry::Flag(n) => MetaEntryView::Flag(n@),
            MetaEntry::List(n) => MetaEntryView::List(n@),
            MetaEntry::Literal(l) => MetaEntryView::Literal(l@),
        }
    }
}

impl DeepView for MetaEntry {
    type V = MetaEntryView;

    open spec fn deep_view(&self) -> MetaEntryView {
        self.view()
    }
}

impl View for AttrKind {
    type V = AttrKindView;

    open spec fn view(&self) -> AttrKindView {
        match self {
            AttrKind::Bare => AttrKindView::Bare,
            AttrKind::NameValue(l) => AttrKindView::NameValue(l@),
            AttrKind::List(entries) => AttrKindView::List(entries.deep_view()),
        }
    }
}

impl DeepView for AttrKind {
    type V = AttrKindView;

    open spec fn deep_view(&self) -> AttrKindView {
        self.view()
    }
}

impl View for Attr {
    type V = AttrView;

    open spec fn view(&self) -> AttrView {
        AttrView { path: self.path@, kind: self.kind@ }
    }
}

impl DeepView for Attr {
    type V = AttrView;

    open spec fn deep_view(&self) -> AttrView {
        self.view()
    }
}

/// The name of a nested entry, if it has one: a bare literal does not.
pub open spec fn entry_name(e: MetaEntryView) -> Option<Seq<char>> {
    match e {
        MetaEntryView::NameValue(n, _) => Some(n),
        MetaEntryView::Flag(n) => Some(n),
        MetaEntryView::List(n) => Some(n),
        MetaEntryView::Literal(_) => None,
    }
}

/// Whether a nested entry carries the given name.
pub open spec fn entry_named(e: MetaEntryView, name: Seq<char>) -> bool {
    entry_name(e) == Some(name)
}

impl MetaEntry {
    /// Whether this entry carries the given name.
    pub fn is_named(&self, name: &String) -> (r: bool)
        ensures
            r == entry_named(self@, name@),
    {
        match self {
            MetaEntry::NameValue(n, _) => *n == *name,
            MetaEntry::Flag(n) => *n == *name,
            MetaEntry::List(n) => *n == *name,
            MetaEntry::Literal(_) => false,
        }
    }
}

/// Copy a list of nested entries, values preserved.
pub(crate) fn clone_entries(v: &Vec<MetaEntry>) -> (r: Vec<MetaEntry>)
    ensures
        r.deep_view() == v.deep_view(),
{
    let mut r: Vec<MetaEntry> = Vec::new();
    let mut i: usize = 0;
    while i < v.len()
        invariant
            i <= v.len(),
            r@.len() == i,
            r.deep_view() == v.deep_view().take(i as int),
        decreases v.len() - i,
    {
        r.push(v[i].clone());
        assert(r.deep_view() =~= v.deep_view().take(i + 1));
        i += 1;
    }
    assert(v.deep_view().take(v.len() as int) =~= v.deep_view());
    r
}

impl Clone for AttrKind {
    /// Copy the attribute content, value preserved.
    fn clone(&self) -> (r: Self)
        ensures
            r@ == self@,
    {
        match self {
            AttrKind::Bare => AttrKind::Bare,
            AttrKind::NameValue(l) => AttrKind::NameValue(l.clone()),
            AttrKind::List(es) => AttrKind::List(clone_entries(es)),
        }
    }
}

impl Clone for Attr {
    /// Copy the attribute, value preserved.
    fn clone(&self) -> (r: Self)
        ensures
            r@ == self@,
    {
        Attr { path: self.path.clone(), kind: self.kind.clone() }
    }
}

impl Clone for MetaEntry {
    /// Copy the entry, value preserved.
    fn clone(&self) -> (r: Self)
        ensures
            r@ == self@,
    {
        match self {
            MetaEntry::NameValue(n, l) => MetaEntry::NameValue(n.clone(), l.clone()),
            MetaEntry::Flag(n) => MetaEntry::Flag(n.clone()),
            MetaEntry::List(n) => MetaEntry::List(n.clone()),
            MetaEntry::Literal(l) => MetaEntry::Literal(l.clone()),
        }
    }
}

} // verus!
