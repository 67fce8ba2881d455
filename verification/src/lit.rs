use crate::ty::Types;
use vstd::prelude::*;

verus! {

/// A literal value inside an attribute entry.
///
/// A float literal keeps the decimal text it was written with: literals are
/// a piece of syntax, and two float literals are the same exactly when their
/// text is the same.
#[derive(Debug, PartialEq, Eq)]
pub enum Lit {
    /// a string literal
    Str(String),
    /// a byte string literal
    ByteStr(Vec<u8>),
    /// a byte literal
    Byte(u8),
    /// a character literal
    Char(char),
    /// a 32-bit signed integer literal
    Int(i32),
    /// a 32-bit float literal, as its decimal text
    Float(String),
    /// a boolean literal
    Bool(bool),
}

/// The mathematical value of a [`Lit`].
#[verifier::ext_equal]
pub enum LitView {
    /// a string literal
    Str(Seq<char>),
    /// a byte string literal
    ByteStr(Seq<u8>),
    /// a byte literal
    Byte(u8),
    /// a character literal
    Char(char),
    /// a 32-bit signed integer literal
    Int(i32),
    /// a 32-bit float literal, as its decimal text
    Float(Seq<char>),
    /// a boolean literal
    Bool(bool),
}

impl View for Lit {
    type V = LitView;

    open spec fn view(&self) -> LitView {
        match self {
            Lit::Str(s) => LitView::Str(s@),
            Lit::ByteStr(b) => LitView::ByteStr(b@),
            Lit::Byte(b) => LitView::Byte(*b),
            Lit::Char(c) => LitView::Char(*c),
            Lit::Int(i) => LitView::Int(*i),
            Lit::Float(f) => LitView::Float(f@),
            Lit::Bool(b) => LitView::Bool(*b),
        }
    }
}

impl DeepView for Lit {
    type V = LitView;

    open spec fn deep_view(&self) -> LitView {
        self.view()
    }
}

/// The kind of literal a [`LitView`] is.
pub open spec fn lit_kind(l: LitView) -> Types {
    match l {
        LitView::Str(_) => Types::Str,
        LitView::ByteStr(_) => Types::ByteStr,
        LitView::Byte(_) => Types::Byte,
        LitView::Char(_) => Types::Char,
        LitView::Int(_) => Types::I32,
        LitView::Float(_) => Types::F32,
        LitView::Bool(_) => Types::Bool,
    }
}

/// Copy a byte vector, contents preserved.
pub(crate) fn clone_bytes(v: &Vec<u8>) -> (r: Vec<u8>)
    ensures
        r@ == v@,
{
    let r = v.clone();
    proof {
        assert forall|i: int| 0 <= i < v@.len() implies r@[i] == v@[i] by {
            assert(cloned::<u8>(v@[i], r@[i]));
        }
        assert(r@ =~= v@);
    }
    r
}

impl Clone for Lit {
    /// Copy the literal, value preserved.
    fn clone(&self) -> (r: Self)
        ensures
            r@ == self@,
    {
        match self {
            Lit::Str(s) => Lit::Str(s.clone()),
            Lit::ByteStr(b) => Lit::ByteStr(clone_bytes(b)),
            Lit::Byte(b) => Lit::Byte(*b),
            Lit::Char(c) => Lit::Char(*c),
            Lit::Int(i) => Lit::Int(*i),
            Lit::Float(f) => Lit::Float(f.clone()),
            Lit::Bool(b) => Lit::Bool(*b),
        }
    }
}

impl Lit {
    /// The kind of literal this is.
    pub fn kind(&self) -> (k: Types)
        ensures
            k == lit_kind(self@),
    {
        match self {
            Lit::Str(_) => Types::Str,
            Lit::ByteStr(_) => Types::ByteStr,
            Lit::Byte(_) => Types::Byte,
            Lit::Char(_) => Types::Char,
            Lit::Int(_) => Types::I32,
            Lit::Float(_) => Types::F32,
            Lit::Bool(_) => Types::Bool,
        }
    }
}

} // verus!
