use crate::attr::{MetaEntry, MetaEntryView};
use crate::error::{Error, ErrorView};
use crate::lit::{Lit, LitView};
use crate::ty::{Type, Types};
use vstd::prelude::*;

verus! {

/// A value that can be extracted from an optional literal.
///
/// Each implementation fixes which literals it accepts, the value extracted
/// from an accepted literal, and the failure reported for the rest.
pub trait FromLit: Sized + DeepView {
    /// Whether extraction succeeds on this literal.
    spec fn from_lit_ok(l: Option<LitView>) -> bool;

    /// The value extracted when extraction succeeds.
    spec fn from_lit_val(l: Option<LitView>) -> Self::V;

    /// The failure reported when extraction fails.
    spec fn from_lit_err(l: Option<LitView>) -> ErrorView;

    /// Extract the value from an optional literal.
    fn from_lit(l: Option<Lit>) -> (r: Result<Self, Error>)
        ensures
            (match r {
                Ok(v) => Self::from_lit_ok(l.deep_view()) && v.deep_view() == Self::from_lit_val(
                    l.deep_view(),
                ),
                Err(e) => !Self::from_lit_ok(l.deep_view()) && e@ == Self::from_lit_err(
                    l.deep_view(),
                ),
            }),
    ;
}

/// A value that can be extracted from an optional attribute entry.
///
/// Every [`FromLit`] implementation extracts through the entry's literal; a
/// flag extracts from the entry's bare presence instead.
pub trait FromMeta: Sized + DeepView {
    /// Whether extraction succeeds on this entry.
    spec fn from_meta_ok(m: Option<MetaEntryView>) -> bool;

    /// The value extracted when extraction succeeds.
    spec fn from_meta_val(m: Option<MetaEntryView>) -> Self::V;

    /// The failure reported when extraction fails.
    spec fn from_meta_err(m: Option<MetaEntryView>) -> ErrorView;

    /// Extract the value from an optional attribute entry.
    fn from_meta(m: Option<MetaEntry>) -> (r: Result<Self, Error>)
        ensures
            (match r {
                Ok(v) => Self::from_meta_ok(m.deep_view()) && v.deep_view()
                    == Self::from_meta_val(m.deep_view()),
                Err(e) => !Self::from_meta_ok(m.deep_view()) && e@ == Self::from_meta_err(
                    m.deep_view(),
                ),
            }),
    ;
}

/// A flag: present exactly when the field was given as a bare name, and
/// failing when the field was given a value.
impl FromMeta for Option<()> {
    open spec fn from_meta_ok(m: Option<MetaEntryView>) -> bool {
        match m {
            None => true,
            Some(MetaEntryView::Flag(_)) => true,
            Some(_) => false,
        }
    }

    open spec fn from_meta_val(m: Option<MetaEntryView>) -> Option<()> {
        match m {
            None => None,
            Some(_) => Some(()),
        }
    }

    open spec fn from_meta_err(m: Option<MetaEntryView>) -> ErrorView {
        ErrorView::UnexpectedShape
    }

    fn from_meta(m: Option<MetaEntry>) -> (r: Result<Self, Error>) {
        match m {
            None => Ok(None),
            Some(MetaEntry::Flag(_)) => Ok(Some(())),
            Some(_) => Err(Error::UnexpectedShape),
        }
    }
}

impl<F: FromLit> FromMeta for F {
    open spec fn from_meta_ok(m: Option<MetaEntryView>) -> bool {
        match m {
            None => F::from_lit_ok(None),
            Some(MetaEntryView::NameValue(_, l)) => F::from_lit_ok(Some(l)),
            Some(_) => false,
        }
    }

    open spec fn from_meta_val(m: Option<MetaEntryView>) -> Self::V {
        match m {
            Some(MetaEntryView::NameValue(_, l)) => F::from_lit_val(Some(l)),
            _ => F::from_lit_val(None),
        }
    }

    open spec fn from_meta_err(m: Option<MetaEntryView>) -> ErrorView {
        match m {
            None => F::from_lit_err(None),
            Some(MetaEntryView::NameValue(_, l)) => F::from_lit_err(Some(l)),
            Some(_) => ErrorView::UnexpectedShape,
        }
    }

    fn from_meta(m: Option<MetaEntry>) -> (r: Result<Self, Error>) {
        match m {
            None => F::from_lit(None),
            Some(MetaEntry::NameValue(_, l)) => F::from_lit(Some(l)),
            Some(_) => Err(Error::UnexpectedShape),
        }
    }
}

/// Any literal at all, kept as it stands.
impl FromLit for Option<Lit> {
    open spec fn from_lit_ok(l: Option<LitView>) -> bool {
        true
    }

    open spec fn from_lit_val(l: Option<LitView>) -> Option<LitView> {
        l
    }

    open spec fn from_lit_err(l: Option<LitView>) -> ErrorView {
        ErrorView::UnexpectedShape
    }

    fn from_lit(l: Option<Lit>) -> (r: Result<Self, Error>) {
        Ok(l)
    }
}

/// A string, from a string literal.
impl FromLit for String {
    open spec fn from_lit_ok(l: Option<LitView>) -> bool {
        l matches Some(LitView::Str(_))
    }

    open spec fn from_lit_val(l: Option<LitView>) -> Seq<char> {
        match l {
            Some(LitView::Str(s)) => s,
            _ => Seq::empty(),
        }
    }

    open spec fn from_lit_err(l: Option<LitView>) -> ErrorView {
        ErrorView::KindMismatch { expected: Type { ty: Types::Str, optional: false }, found: l }
    }

    fn from_lit(l: Option<Lit>) -> (r: Result<Self, Error>) {
        match l {
            Some(Lit::Str(s)) => Ok(s),
            _ => Err(
                Error::KindMismatch { expected: Type { ty: Types::Str, optional: false }, found: l },
            ),
        }
    }
}

/// A byte string, from a byte string literal.
impl FromLit for Vec<u8> {
    open spec fn from_lit_ok(l: Option<LitView>) -> bool {
        l matches Some(LitView::ByteStr(_))
    }

    open spec fn from_lit_val(l: Option<LitView>) -> Seq<u8> {
        match l {
            Some(LitView::ByteStr(b)) => b,
            _ => Seq::empty(),
        }
    }

    open spec fn from_lit_err(l: Option<LitView>) -> ErrorView {
        ErrorView::KindMismatch { expected: Type { ty: Types::ByteStr, optional: false }, found: l }
    }

    fn from_lit(l: Option<Lit>) -> (r: Result<Self, Error>) {
        match l {
            Some(Lit::ByteStr(b)) => {
                let ghost bv = b@;
                proof {
                    assert(b.deep_view() =~= bv);
                }
                Ok(b)
            },
            _ => Err(
                Error::KindMismatch {
                    expected: Type { ty: Types::ByteStr, optional: false },
                    found: l,
                },
            ),
        }
    }
}

/// A byte, from a byte literal.
impl FromLit for u8 {
    open spec fn from_lit_ok(l: Option<LitView>) -> bool {
        l matches Some(LitView::Byte(_))
    }

    open spec fn from_lit_val(l: Option<LitView>) -> u8 {
        match l {
            Some(LitView::Byte(b)) => b,
            _ => 0,
        }
    }

    open spec fn from_lit_err(l: Option<LitView>) -> ErrorView {
        ErrorView::KindMismatch { expected: Type { ty: Types::Byte, optional: false }, found: l }
    }

    fn from_lit(l: Option<Lit>) -> (r: Result<Self, Error>) {
        match l {
            Some(Lit::Byte(b)) => Ok(b),
            _ => Err(
                Error::KindMismatch {
                    expected: Type { ty: Types::Byte, optional: false },
                    found: l,
                },
            ),
        }
    }
}

/// A character, from a character literal.
impl FromLit for char {
    open spec fn from_lit_ok(l: Option<LitView>) -> bool {
        l matches Some(LitView::Char(_))
    }

    open spec fn from_lit_val(l: Option<LitView>) -> char {
        match l {
            Some(LitView::Char(c)) => c,
            _ => ' ',
        }
    }

    open spec fn from_lit_err(l: Option<LitView>) -> ErrorView {
        ErrorView::KindMismatch { expected: Type { ty: Types::Char, optional: false }, found: l }
    }

    fn from_lit(l: Option<Lit>) -> (r: Result<Self, Error>) {
        match l {
            Some(Lit::Char(c)) => Ok(c),
            _ => Err(
                Error::KindMismatch {
                    expected: Type { ty: Types::Char, optional: false },
                    found: l,
                },
            ),
        }
    }
}

/// A 32-bit signed integer, from an integer literal.
impl FromLit for i32 {
    open spec fn from_lit_ok(l: Option<LitView>) -> bool {
        l matches Some(LitView::Int(_))
    }

    open spec fn from_lit_val(l: Option<LitView>) -> i32 {
        match l {
            Some(LitView::Int(i)) => i,
            _ => 0,
        }
    }

    open spec fn from_lit_err(l: Option<LitView>) -> ErrorView {
        ErrorView::KindMismatch { expected: Type { ty: Types::I32, optional: false }, found: l }
    }

    fn from_lit(l: Option<Lit>) -> (r: Result<Self, Error>) {
        match l {
            Some(Lit::Int(i)) => Ok(i),
            _ => Err(
                Error::KindMismatch { expected: Type { ty: Types::I32, optional: false }, found: l },
            ),
        }
    }
}

/// A boolean, from a boolean literal.
impl FromLit for bool {
    open spec fn from_lit_ok(l: Option<LitView>) -> bool {
        l matches Some(LitView::Bool(_))
    }

    open spec fn from_lit_val(l: Option<LitView>) -> bool {
        match l {
            Some(LitView::Bool(b)) => b,
            _ => false,
        }
    }

    open spec fn from_lit_err(l: Option<LitView>) -> ErrorView {
        ErrorView::KindMismatch { expected: Type { ty: Types::Bool, optional: false }, found: l }
    }

    fn from_lit(l: Option<Lit>) -> (r: Result<Self, Error>) {
        match l {
            Some(Lit::Bool(b)) => Ok(b),
            _ => Err(
                Error::KindMismatch {
                    expected: Type { ty: Types::Bool, optional: false },
                    found: l,
                },
            ),
        }
    }
}

/// An optional value: absent when the literal is absent, and otherwise
/// extracted as the inner type is.
impl<V: FromLit> FromLit for Option<V> {
    open spec fn from_lit_ok(l: Option<LitView>) -> bool {
        match l {
            None => true,
            Some(_) => V::from_lit_ok(l),
        }
    }

    open spec fn from_lit_val(l: Option<LitView>) -> Option<V::V> {
        match l {
            None => None,
            Some(_) => Some(V::from_lit_val(l)),
        }
    }

    open spec fn from_lit_err(l: Option<LitView>) -> ErrorView {
        V::from_lit_err(l)
    }

    fn from_lit(l: Option<Lit>) -> (r: Result<Self, Error>) {
        match l {
            None => Ok(None),
            Some(l) => match V::from_lit(Some(l)) {
                Ok(v) => Ok(Some(v)),
                Err(e) => Err(e),
            },
        }
    }
}

} // verus!
