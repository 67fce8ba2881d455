use crate::error::{Error, ErrorView};
use crate::lit::{lit_kind, Lit, LitView};
use crate::ty::{Type, Types};
use crate::views::res_dv;
use vstd::prelude::*;

verus! {

/// A typed default value for a [`Def`](crate::Def): one variant per literal
/// kind, each carrying the default payload if the field has one.
///
/// The float variant keeps the decimal text of its literal, as [`Lit`] does.
#[derive(Debug, PartialEq, Eq)]
pub enum DefaultValue {
    /// any literal
    Any(Option<Lit>),
    /// a flag that never carries a value
    Flag,
    /// a string
    Str(Option<String>),
    /// a byte string
    ByteStr(Option<Vec<u8>>),
    /// a byte
    Byte(Option<u8>),
    /// a character
    Char(Option<char>),
    /// a 32-bit signed integer
    I32(Option<i32>),
    /// a 32-bit float, as the decimal text of its literal
    F32(Option<String>),
    /// a boolean
    Bool(Option<bool>),
}

/// The mathematical value of a [`DefaultValue`].
#[verifier::ext_equal]
pub enum DefaultValueView {
    /// any literal
    Any(Option<LitView>),
    /// a flag that never carries a value
    Flag,
    /// a string
    Str(Option<Seq<char>>),
    /// a byte string
    ByteStr(Option<Seq<u8>>),
    /// a byte
    Byte(Option<u8>),
    /// a character
    Char(Option<char>),
    /// a 32-bit signed integer
    I32(Option<i32>),
    /// a 32-bit float, as the decimal text of its literal
    F32(Option<Seq<char>>),
    /// a boolean
    Bool(Option<bool>),
}

impl View for DefaultValue {
    type V = DefaultValueView;

    open spec fn view(&self) -> DefaultValueView {
        match self {
            DefaultValue::Any(l) => DefaultValueView::Any(l.deep_view()),
            DefaultValue::Flag => DefaultValueView::Flag,
            DefaultValue::Str(s) => DefaultValueView::Str(s.deep_view()),
            DefaultValue::ByteStr(b) => DefaultValueView::ByteStr(
                match b {
                    Some(b) => Some(b@),
                    None => None,
                },
            ),
            DefaultValue::Byte(b) => DefaultValueView::Byte(*b),
            DefaultValue::Char(c) => DefaultValueView::Char(*c),
            DefaultValue::I32(i) => DefaultValueView::I32(*i),
            DefaultValue::F32(f) => DefaultValueView::F32(f.deep_view()),
            DefaultValue::Bool(b) => DefaultValueView::Bool(*b),
        }
    }
}

impl DeepView for DefaultValue {
    type V = DefaultValueView;

    open spec fn deep_view(&self) -> DefaultValueView {
        self.view()
    }
}

/// The literal kind a default value belongs to.
pub open spec fn kind_of(v: DefaultValueView) -> Types {
    match v {
        DefaultValueView::Any(_) => Types::Any,
        DefaultValueView::Flag => Types::Flag,
        DefaultValueView::Str(_) => Types::Str,
        DefaultValueView::ByteStr(_) => Types::ByteStr,
        DefaultValueView::Byte(_) => Types::Byte,
        DefaultValueView::Char(_) => Types::Char,
        DefaultValueView::I32(_) => Types::I32,
        DefaultValueView::F32(_) => Types::F32,
        DefaultValueView::Bool(_) => Types::Bool,
    }
}

/// Whether a default value carries a concrete payload.
pub open spec fn has_payload(v: DefaultValueView) -> bool {
    match v {
        DefaultValueView::Any(l) => l is Some,
        DefaultValueView::Flag => false,
        DefaultValueView::Str(s) => s is Some,
        DefaultValueView::ByteStr(b) => b is Some,
        DefaultValueView::Byte(b) => b is Some,
        DefaultValueView::Char(c) => c is Some,
        DefaultValueView::I32(i) => i is Some,
        DefaultValueView::F32(f) => f is Some,
        DefaultValueView::Bool(b) => b is Some,
    }
}

/// What constructing a default from a type and a literal answers: for `Any`
/// anything is accepted, a flag accepts no literal at all, and every other
/// kind requires the literal's kind to match exactly.
pub open spec fn from_lit_spec(ty: Type, lit: Option<LitView>) -> Result<
    DefaultValueView,
    ErrorView,
> {
    match ty.ty {
        Types::Any => Ok(DefaultValueView::Any(lit)),
        Types::Flag => match lit {
            None => Ok(DefaultValueView::Flag),
            Some(l) => Err(ErrorView::KindMismatch { expected: ty, found: Some(l) }),
        },
        Types::Str => match lit {
            None => Ok(DefaultValueView::Str(None)),
            Some(LitView::Str(s)) => Ok(DefaultValueView::Str(Some(s))),
            Some(l) => Err(ErrorView::KindMismatch { expected: ty, found: Some(l) }),
        },
        Types::ByteStr => match lit {
            None => Ok(DefaultValueView::ByteStr(None)),
            Some(LitView::ByteStr(b)) => Ok(DefaultValueView::ByteStr(Some(b))),
            Some(l) => Err(ErrorView::KindMismatch { expected: ty, found: Some(l) }),
        },
        Types::Byte => match lit {
            None => Ok(DefaultValueView::Byte(None)),
            Some(LitView::Byte(b)) => Ok(DefaultValueView::Byte(Some(b))),
            Some(l) => Err(ErrorView::KindMismatch { expected: ty, found: Some(l) }),
        },
        Types::Char => match lit {
            None => Ok(DefaultValueView::Char(None)),
            Some(LitView::Char(c)) => Ok(DefaultValueView::Char(Some(c))),
            Some(l) => Err(ErrorView::KindMismatch { expected: ty, found: Some(l) }),
        },
        Types::I32 => match lit {
            None => Ok(DefaultValueView::I32(None)),
            Some(LitView::Int(i)) => Ok(DefaultValueView::I32(Some(i))),
            Some(l) => Err(ErrorView::KindMismatch { expected: ty, found: Some(l) }),
        },
        Types::F32 => match lit {
            None => Ok(DefaultValueView::F32(None)),
            Some(LitView::Float(f)) => Ok(DefaultValueView::F32(Some(f))),
            Some(l) => Err(ErrorView::KindMismatch { expected: ty, found: Some(l) }),
        },
        Types::Bool => match lit {
            None => Ok(DefaultValueView::Bool(None)),
            Some(LitView::Bool(b)) => Ok(DefaultValueView::Bool(Some(b))),
            Some(l) => Err(ErrorView::KindMismatch { expected: ty, found: Some(l) }),
        },
    }
}

/// The literal a default's payload round-trips back to; a flag and an empty
/// default yield none.
pub open spec fn as_lit_spec(v: DefaultValueView) -> Option<LitView> {
    match v {
        DefaultValueView::Any(l) => l,
        DefaultValueView::Flag => None,
        DefaultValueView::Str(s) => match s {
            Some(s) => Some(LitView::Str(s)),
            None => None,
        },
        DefaultValueView::ByteStr(b) => match b {
            Some(b) => Some(LitView::ByteStr(b)),
            None => None,
        },
        DefaultValueView::Byte(b) => match b {
            Some(b) => Some(LitView::Byte(b)),
            None => None,
        },
        DefaultValueView::Char(c) => match c {
            Some(c) => Some(LitView::Char(c)),
            None => None,
        },
        DefaultValueView::I32(i) => match i {
            Some(i) => Some(LitView::Int(i)),
            None => None,
        },
        DefaultValueView::F32(f) => match f {
            Some(f) => Some(LitView::Float(f)),
            None => None,
        },
        DefaultValueView::Bool(b) => match b {
            Some(b) => Some(LitView::Bool(b)),
            None => None,
        },
    }
}

impl Clone for DefaultValue {
    /// Copy the default value, payload preserved.
    fn clone(&self) -> (r: Self)
        ensures
            r@ == self@,
    {
        match self {
            DefaultValue::Any(l) => DefaultValue::Any(
                match l {
                    Some(l) => Some(l.clone()),
                    None => None,
                },
            ),
            DefaultValue::Flag => DefaultValue::Flag,
            DefaultValue::Str(s) => DefaultValue::Str(
                match s {
                    Some(s) => Some(s.clone()),
                    None => None,
                },
            ),
            DefaultValue::ByteStr(b) => DefaultValue::ByteStr(
                match b {
                    Some(b) => Some(crate::lit::clone_bytes(b)),
                    None => None,
                },
            ),
            DefaultValue::Byte(b) => DefaultValue::Byte(*b),
            DefaultValue::Char(c) => DefaultValue::Char(*c),
            DefaultValue::I32(i) => DefaultValue::I32(*i),
            DefaultValue::F32(f) => DefaultValue::F32(
                match f {
                    Some(f) => Some(f.clone()),
                    None => None,
                },
            ),
            DefaultValue::Bool(b) => DefaultValue::Bool(*b),
        }
    }
}

impl DefaultValue {
    /// Construct a default value from a type and an optional literal, failing
    /// when the literal's kind does not fit the type.
    pub fn from_lit(ty: Type, lit: Option<Lit>) -> (r: Result<DefaultValue, Error>)
        ensures
            res_dv(r) == from_lit_spec(ty, lit.deep_view()),
    {
        match ty.ty {
            Types::Any => Ok(DefaultValue::Any(lit)),
            Types::Flag => match lit {
                None => Ok(DefaultValue::Flag),
                Some(l) => Err(Error::KindMismatch { expected: ty, found: Some(l) }),
            },
            Types::Str => match lit {
                None => Ok(DefaultValue::Str(None)),
                Some(Lit::Str(s)) => Ok(DefaultValue::Str(Some(s))),
                Some(l) => Err(Error::KindMismatch { expected: ty, found: Some(l) }),
            },
            Types::ByteStr => match lit {
                None => Ok(DefaultValue::ByteStr(None)),
                Some(Lit::ByteStr(b)) => Ok(DefaultValue::ByteStr(Some(b))),
                Some(l) => Err(Error::KindMismatch { expected: ty, found: Some(l) }),
            },
            Types::Byte => match lit {
                None => Ok(DefaultValue::Byte(None)),
                Some(Lit::Byte(b)) => Ok(DefaultValue::Byte(Some(b))),
                Some(l) => Err(Error::KindMismatch { expected: ty, found: Some(l) }),
            },
            Types::Char => match lit {
                None => Ok(DefaultValue::Char(None)),
                Some(Lit::Char(c)) => Ok(DefaultValue::Char(Some(c))),
                Some(l) => Err(Error::KindMismatch { expected: ty, found: Some(l) }),
            },
            Types::I32 => match lit {
                None => Ok(DefaultValue::I32(None)),
                Some(Lit::Int(i)) => Ok(DefaultValue::I32(Some(i))),
                Some(l) => Err(Error::KindMismatch { expected: ty, found: Some(l) }),
            },
            Types::F32 => match lit {
                None => Ok(DefaultValue::F32(None)),
                Some(Lit::Float(f)) => Ok(DefaultValue::F32(Some(f))),
                Some(l) => Err(Error::KindMismatch { expected: ty, found: Some(l) }),
            },
            Types::Bool => match lit {
                None => Ok(DefaultValue::Bool(None)),
                Some(Lit::Bool(b)) => Ok(DefaultValue::Bool(Some(b))),
                Some(l) => Err(Error::KindMismatch { expected: ty, found: Some(l) }),
            },
        }
    }

    /// The literal kind this default belongs to.
    pub fn kind(&self) -> (k: Types)
        ensures
            k == kind_of(self@),
    {
        match self {
            DefaultValue::Any(_) => Types::Any,
            DefaultValue::Flag => Types::Flag,
            DefaultValue::Str(_) => Types::Str,
            DefaultValue::ByteStr(_) => Types::ByteStr,
            DefaultValue::Byte(_) => Types::Byte,
            DefaultValue::Char(_) => Types::Char,
            DefaultValue::I32(_) => Types::I32,
            DefaultValue::F32(_) => Types::F32,
            DefaultValue::Bool(_) => Types::Bool,
        }
    }

    /// The type of the value, with the given optionality.
    pub fn ty(&self, optional: bool) -> (t: Type)
        ensures
            t == (Type { ty: kind_of(self@), optional }),
    {
        Type { ty: self.kind(), optional }
    }

    /// Whether this default carries a concrete payload.
    pub fn has_default_data(&self) -> (r: bool)
        ensures
            r == has_payload(self@),
    {
        match self {
            DefaultValue::Any(l) => l.is_some(),
            DefaultValue::Flag => false,
            DefaultValue::Str(s) => s.is_some(),
            DefaultValue::ByteStr(b) => b.is_some(),
            DefaultValue::Byte(b) => b.is_some(),
            DefaultValue::Char(c) => c.is_some(),
            DefaultValue::I32(i) => i.is_some(),
            DefaultValue::F32(f) => f.is_some(),
            DefaultValue::Bool(b) => b.is_some(),
        }
    }

    /// Round-trip the default's payload back to a literal; a flag and an
    /// empty default yield none.
    pub fn as_lit(&self) -> (r: Option<Lit>)
        ensures
            r.deep_view() == as_lit_spec(self@),
    {
        match self {
            DefaultValue::Any(l) => match l {
                Some(l) => Some(l.clone()),
                None => None,
            },
            DefaultValue::Flag => None,
            DefaultValue::Str(s) => match s {
                Some(s) => Some(Lit::Str(s.clone())),
                None => None,
            },
            DefaultValue::ByteStr(b) => match b {
                Some(b) => Some(Lit::ByteStr(crate::lit::clone_bytes(b))),
                None => None,
            },
            DefaultValue::Byte(b) => match b {
                Some(b) => Some(Lit::Byte(*b)),
                None => None,
            },
            DefaultValue::Char(c) => match c {
                Some(c) => Some(Lit::Char(*c)),
                None => None,
            },
            DefaultValue::I32(i) => match i {
                Some(i) => Some(Lit::Int(*i)),
                None => None,
            },
            DefaultValue::F32(f) => match f {
                Some(f) => Some(Lit::Float(f.clone())),
                None => None,
            },
            DefaultValue::Bool(b) => match b {
                Some(b) => Some(Lit::Bool(*b)),
                None => None,
            },
        }
    }
}

/// Round-trip law: a literal accepted for a type comes back unchanged when
/// the constructed default is turned into a literal again.
pub proof fn lemma_lit_round_trip(ty: Type, l: LitView)
    requires
        ty.ty == Types::Any || lit_kind(l) == ty.ty,
    ensures
        from_lit_spec(ty, Some(l)) matches Ok(v) && as_lit_spec(v) == Some(l),
{
}

} // verus!
