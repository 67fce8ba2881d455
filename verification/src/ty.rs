use crate::error::{Error, ErrorView};
use crate::lit::{lit_kind, Lit, LitView};
use crate::naming::str_is;
use vstd::prelude::*;

verus! {

/// All the kinds of literal a field can accept.
#[derive(Clone, Copy, Debug, PartialEq, Eq, Structural)]
pub enum Types {
    /// can contain any literal
    Any,
    /// doesn't have a value, the field is either present or absent
    Flag,
    /// a string literal
    Str,
    /// a byte string literal
    ByteStr,
    /// a byte literal
    Byte,
    /// a character literal
    Char,
    /// a 32-bit signed integer literal
    I32,
    /// a 32-bit float literal
    F32,
    /// a boolean literal
    Bool,
}

/// The type of a field: a literal kind together with optionality.
#[derive(Clone, Copy, Debug, PartialEq, Eq, Structural)]
pub struct Type {
    /// the kind of literal the field accepts
    pub ty: Types,
    /// whether the value for the field may be absent
    pub optional: bool,
}

/// The shape of a declared field type, as far as classification reads it.
pub enum TySig {
    /// a plain single-segment path type such as `i32` or `String`
    Named(String),
    /// a single-segment path with one type argument, such as `Option<T>` or `Vec<u8>`
    Generic(String, Box<TySig>),
    /// the empty tuple type
    Unit,
    /// any other type shape
    Other,
}

/// What classification answers for a given type shape: the recognized leaf
/// types, `Vec<u8>`, the empty tuple, and a single level of `Option` around
/// a non-optional type; everything else is refused.
pub open spec fn classify_spec(sig: TySig) -> Result<Type, Error>
    decreases sig,
{
    match sig {
        TySig::Named(s) => {
            if s@ == "String"@ {
                Ok(Type { ty: Types::Str, optional: false })
            } else if s@ == "u8"@ {
                Ok(Type { ty: Types::Byte, optional: false })
            } else if s@ == "char"@ {
                Ok(Type { ty: Types::Char, optional: false })
            } else if s@ == "i32"@ {
                Ok(Type { ty: Types::I32, optional: false })
            } else if s@ == "f32"@ {
                Ok(Type { ty: Types::F32, optional: false })
            } else if s@ == "bool"@ {
                Ok(Type { ty: Types::Bool, optional: false })
            } else {
                Err(Error::UnknownType)
            }
        },
        TySig::Generic(s, inner) => {
            if s@ == "Vec"@ && (*inner matches TySig::Named(n) && n@ == "u8"@) {
                Ok(Type { ty: Types::ByteStr, optional: false })
            } else if s@ == "Option"@ {
                match classify_spec(*inner) {
                    Ok(t) => {
                        if t.optional {
                            Err(Error::UnknownType)
                        } else {
                            Ok(Type { ty: t.ty, optional: true })
                        }
                    },
                    Err(e) => Err(e),
                }
            } else {
                Err(Error::UnknownType)
            }
        },
        TySig::Unit => Ok(Type { ty: Types::Flag, optional: false }),
        TySig::Other => Err(Error::UnknownType),
    }
}

/// What checking a literal against a type reports: nothing for a fitting
/// literal, a fitting absence (a flag, or an optional type), or anything for
/// `Any`; one kind-mismatch diagnostic otherwise.
pub open spec fn type_lint_spec(t: Type, l: Option<LitView>) -> Seq<ErrorView> {
    match l {
        Some(lv) => {
            if t.ty == Types::Any || lit_kind(lv) == t.ty {
                Seq::empty()
            } else {
                seq![ErrorView::KindMismatch { expected: t, found: Some(lv) }]
            }
        },
        None => {
            if t.ty == Types::Flag || t.optional {
                Seq::empty()
            } else {
                seq![ErrorView::KindMismatch { expected: t, found: None }]
            }
        },
    }
}

impl Type {
    /// Check a literal, or its absence, against this type, reporting a
    /// kind mismatch into the collector when it does not fit.
    pub fn lint(&self, lit: Option<&Lit>, c: &mut Vec<Error>)
        ensures
            final(c).deep_view() == old(c).deep_view() + type_lint_spec(*self, lit.deep_view()),
    {
        let ghost pre = c.deep_view();
        match lit {
            Some(l) => {
                let fits = match self.ty {
                    Types::Any => true,
                    _ => {
                        let k = l.kind();
                        k == self.ty
                    },
                };
                if !fits {
                    c.push(Error::KindMismatch { expected: *self, found: Some(l.clone()) });
                    proof {
                        assert(c.deep_view() =~= pre + type_lint_spec(*self, lit.deep_view()));
                    }
                } else {
                    proof {
                        assert(c.deep_view() =~= pre + type_lint_spec(*self, lit.deep_view()));
                    }
                }
            },
            None => {
                let fits = match self.ty {
                    Types::Flag => true,
                    _ => self.optional,
                };
                if !fits {
                    c.push(Error::KindMismatch { expected: *self, found: None });
                    proof {
                        assert(c.deep_view() =~= pre + type_lint_spec(*self, lit.deep_view()));
                    }
                } else {
                    proof {
                        assert(c.deep_view() =~= pre + type_lint_spec(*self, lit.deep_view()));
                    }
                }
            },
        }
    }

    /// Classify a declared type shape, failing on anything that is not a
    /// recognized leaf type or a single-level `Option` of one.
    pub fn try_from_sig(sig: &TySig) -> (r: Result<Type, Error>)
        ensures
            r == classify_spec(*sig),
        decreases *sig,
    {
        match sig {
            TySig::Named(s) => {
                if str_is(s, "String") {
                    Ok(Type { ty: Types::Str, optional: false })
                } else if str_is(s, "u8") {
                    Ok(Type { ty: Types::Byte, optional: false })
                } else if str_is(s, "char") {
                    Ok(Type { ty: Types::Char, optional: false })
                } else if str_is(s, "i32") {
                    Ok(Type { ty: Types::I32, optional: false })
                } else if str_is(s, "f32") {
                    Ok(Type { ty: Types::F32, optional: false })
                } else if str_is(s, "bool") {
                    Ok(Type { ty: Types::Bool, optional: false })
                } else {
                    Err(Error::UnknownType)
                }
            },
            TySig::Generic(s, inner) => {
                if str_is(s, "Vec") && Self::sig_is_u8(inner) {
                    Ok(Type { ty: Types::ByteStr, optional: false })
                } else if str_is(s, "Option") {
                    match Self::try_from_sig(inner) {
                        Ok(t) => {
                            if t.optional {
                                Err(Error::UnknownType)
                            } else {
                                Ok(Type { ty: t.ty, optional: true })
                            }
                        },
                        Err(e) => Err(e),
                    }
                } else {
                    Err(Error::UnknownType)
                }
            },
            TySig::Unit => Ok(Type { ty: Types::Flag, optional: false }),
            TySig::Other => Err(Error::UnknownType),
        }
    }

    fn sig_is_u8(sig: &TySig) -> (r: bool)
        ensures
            r == (*sig matches TySig::Named(n) && n@ == "u8"@),
    {
        match sig {
            TySig::Named(n) => str_is(n, "u8"),
            _ => false,
        }
    }
}

} // verus!
