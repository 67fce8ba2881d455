use crate::attr::{Attr, AttrView, MetaEntry, MetaEntryView};
use crate::error::{Error, ErrorView};
use crate::field::{get_meta_spec, Def, DefView};
use crate::fielddef::{const_field_spec, const_fields_list_spec, const_fields_spec, ConstFields};
use crate::fields::Defs;
use crate::lit::{Lit, LitView};
use crate::strip::strip_attrs;
use crate::strukt::{FieldDeclView, StructData, StructDataView, StructDecl};
use crate::ty::{classify_spec, Type, Types};
use vstd::prelude::*;

verus! {

/// A typed value extracted for one member: one variant per literal kind,
/// carrying the payload where the member was given or defaulted, and
/// nothing where an optional member was absent.
#[derive(Debug, PartialEq, Eq)]
pub enum FieldValue {
    /// any literal, kept as it stands
    Any(Option<Lit>),
    /// a flag: present or absent
    Flag(Option<()>),
    /// a string
    Str(Option<String>),
    /// a byte string
    ByteStr(Option<Vec<u8>>),
    /// a byte
    Byte(Option<u8>),
    /// a character
    Char(Option<char>),
    /// a 32-bit signed integer
    I32(Option<i32>),
    /// a 32-bit float, as the decimal text of its literal
    F32(Option<String>),
    /// a boolean
    Bool(Option<bool>),
}

/// The mathematical value of a [`FieldValue`].
#[verifier::ext_equal]
pub enum FieldValueView {
    /// any literal, kept as it stands
    Any(Option<LitView>),
    /// a flag: present or absent
    Flag(Option<()>),
    /// a string
    Str(Option<Seq<char>>),
    /// a byte string
    ByteStr(Option<Seq<u8>>),
    /// a byte
    Byte(Option<u8>),
    /// a character
    Char(Option<char>),
    /// a 32-bit signed integer
    I32(Option<i32>),
    /// a 32-bit float, as the decimal text of its literal
    F32(Option<Seq<char>>),
    /// a boolean
    Bool(Option<bool>),
}

impl View for FieldValue {
    type V = FieldValueView;

    open spec fn view(&self) -> FieldValueView {
        match self {
            FieldValue::Any(l) => FieldValueView::Any(l.deep_view()),
            FieldValue::Flag(f) => FieldValueView::Flag(*f),
            FieldValue::Str(s) => FieldValueView::Str(s.deep_view()),
            FieldValue::ByteStr(b) => FieldValueView::ByteStr(
                match b {
                    Some(b) => Some(b@),
                    None => None,
                },
            ),
            FieldValue::Byte(b) => FieldValueView::Byte(*b),
            FieldValue::Char(c) => FieldValueView::Char(*c),
            FieldValue::I32(i) => FieldValueView::I32(*i),
            FieldValue::F32(f) => FieldValueView::F32(f.deep_view()),
            FieldValue::Bool(b) => FieldValueView::Bool(*b),
        }
    }
}

impl DeepView for FieldValue {
    type V = FieldValueView;

    open spec fn deep_view(&self) -> FieldValueView {
        self.view()
    }
}

/// What extracting one member's typed value answers, given the member's
/// definition and its classified type: the found or defaulted entry is
/// required to carry the member's kind of literal, an absent entry is
/// allowed only for an optional type or a flag, and an entry of the wrong
/// shape is refused.
pub open spec fn extract_spec(d: DefView, ty: Type, attrs: Seq<AttrView>) -> Result<
    FieldValueView,
    ErrorView,
> {
    match get_meta_spec(d, attrs) {
        Err(e) => Err(e),
        Ok(m) => match ty.ty {
            Types::Any => match m {
                None => Ok(FieldValueView::Any(None)),
                Some(MetaEntryView::NameValue(_, l)) => Ok(FieldValueView::Any(Some(l))),
                Some(_) => Err(ErrorView::UnexpectedShape),
            },
            Types::Flag => match m {
                None => Ok(FieldValueView::Flag(None)),
                Some(MetaEntryView::Flag(_)) => Ok(FieldValueView::Flag(Some(()))),
                Some(_) => Err(ErrorView::UnexpectedShape),
            },
            Types::Str => match m {
                None => {
                    if ty.optional {
                        Ok(FieldValueView::Str(None))
                    } else {
                        Err(kind_err(Types::Str, None))
                    }
                },
                Some(MetaEntryView::NameValue(_, l)) => match l {
                    LitView::Str(s) => Ok(FieldValueView::Str(Some(s))),
                    _ => Err(kind_err(Types::Str, Some(l))),
                },
                Some(_) => Err(ErrorView::UnexpectedShape),
            },
            Types::ByteStr => match m {
                None => {
                    if ty.optional {
                        Ok(FieldValueView::ByteStr(None))
                    } else {
                        Err(kind_err(Types::ByteStr, None))
                    }
                },
                Some(MetaEntryView::NameValue(_, l)) => match l {
                    LitView::ByteStr(b) => Ok(FieldValueView::ByteStr(Some(b))),
                    _ => Err(kind_err(Types::ByteStr, Some(l))),
                },
                Some(_) => Err(ErrorView::UnexpectedShape),
            },
            Types::Byte => match m {
                None => {
                    if ty.optional {
                        Ok(FieldValueView::Byte(None))
                    } else {
                        Err(kind_err(Types::Byte, None))
                    }
                },
                Some(MetaEntryView::NameValue(_, l)) => match l {
                    LitView::Byte(b) => Ok(FieldValueView::Byte(Some(b))),
                    _ => Err(kind_err(Types::Byte, Some(l))),
                },
                Some(_) => Err(ErrorView::UnexpectedShape),
            },
            Types::Char => match m {
                None => {
                    if ty.optional {
                        Ok(FieldValueView::Char(None))
                    } else {
                        Err(kind_err(Types::Char, None))
                    }
                },
                Some(MetaEntryView::NameValue(_, l)) => match l {
                    LitView::Char(c) => Ok(FieldValueView::Char(Some(c))),
                    _ => Err(kind_err(Types::Char, Some(l))),
                },
                Some(_) => Err(ErrorView::UnexpectedShape),
            },
            Types::I32 => match m {
                None => {
                    if ty.optional {
                        Ok(FieldValueView::I32(None))
                    } else {
                        Err(kind_err(Types::I32, None))
                    }
                },
                Some(MetaEntryView::NameValue(_, l)) => match l {
                    LitView::Int(i) => Ok(FieldValueView::I32(Some(i))),
                    _ => Err(kind_err(Types::I32, Some(l))),
                },
                Some(_) => Err(ErrorView::UnexpectedShape),
            },
            Types::F32 => match m {
                None => {
                    if ty.optional {
                        Ok(FieldValueView::F32(None))
                    } else {
                        Err(kind_err(Types::F32, None))
                    }
                },
                Some(MetaEntryView::NameValue(_, l)) => match l {
                    LitView::Float(f) => Ok(FieldValueView::F32(Some(f))),
                    _ => Err(kind_err(Types::F32, Some(l))),
                },
                Some(_) => Err(ErrorView::UnexpectedShape),
            },
            Types::Bool => match m {
                None => {
                    if ty.optional {
                        Ok(FieldValueView::Bool(None))
                    } else {
                        Err(kind_err(Types::Bool, None))
                    }
                },
                Some(MetaEntryView::NameValue(_, l)) => match l {
                    LitView::Bool(b) => Ok(FieldValueView::Bool(Some(b))),
                    _ => Err(kind_err(Types::Bool, Some(l))),
                },
                Some(_) => Err(ErrorView::UnexpectedShape),
            },
        },
    }
}

/// The kind-mismatch failure extraction reports for a member's own kind.
pub open spec fn kind_err(k: Types, found: Option<LitView>) -> ErrorView {
    ErrorView::KindMismatch { expected: Type { ty: k, optional: false }, found }
}

/// Extract one member's typed value.
pub fn extract(d: &Def, ty: Type, attrs: &Vec<Attr>) -> (r: Result<FieldValue, Error>)
    ensures
        crate::views::res_dv(r) == extract_spec(d@, ty, attrs.deep_view()),
{
    let m = match d.get_meta(attrs) {
        Ok(m) => m,
        Err(e) => {
            return Err(e);
        },
    };
    match ty.ty {
        Types::Any => match m {
            None => Ok(FieldValue::Any(None)),
            Some(MetaEntry::NameValue(_, l)) => Ok(FieldValue::Any(Some(l))),
            Some(_) => Err(Error::UnexpectedShape),
        },
        Types::Flag => match m {
            None => Ok(FieldValue::Flag(None)),
            Some(MetaEntry::Flag(_)) => Ok(FieldValue::Flag(Some(()))),
            Some(_) => Err(Error::UnexpectedShape),
        },
        Types::Str => match m {
            None => {
                if ty.optional {
                    Ok(FieldValue::Str(None))
                } else {
                    Err(kind_err_val(Types::Str, None))
                }
            },
            Some(MetaEntry::NameValue(_, l)) => match l {
                Lit::Str(s) => Ok(FieldValue::Str(Some(s))),
                _ => Err(kind_err_val(Types::Str, Some(l))),
            },
            Some(_) => Err(Error::UnexpectedShape),
        },
        Types::ByteStr => match m {
            None => {
                if ty.optional {
                    Ok(FieldValue::ByteStr(None))
                } else {
                    Err(kind_err_val(Types::ByteStr, None))
                }
            },
            Some(MetaEntry::NameValue(_, l)) => match l {
                Lit::ByteStr(b) => Ok(FieldValue::ByteStr(Some(b))),
                _ => Err(kind_err_val(Types::ByteStr, Some(l))),
            },
            Some(_) => Err(Error::UnexpectedShape),
        },
        Types::Byte => match m {
            None => {
                if ty.optional {
                    Ok(FieldValue::Byte(None))
                } else {
                    Err(kind_err_val(Types::Byte, None))
                }
            },
            Some(MetaEntry::NameValue(_, l)) => match l {
                Lit::Byte(b) => Ok(FieldValue::Byte(Some(b))),
                _ => Err(kind_err_val(Types::Byte, Some(l))),
            },
            Some(_) => Err(Error::UnexpectedShape),
        },
        Types::Char => match m {
            None => {
                if ty.optional {
                    Ok(FieldValue::Char(None))
                } else {
                    Err(kind_err_val(Types::Char, None))
                }
            },
            Some(MetaEntry::NameValue(_, l)) => match l {
                Lit::Char(c) => Ok(FieldValue::Char(Some(c))),
                _ => Err(kind_err_val(Types::Char, Some(l))),
            },
            Some(_) => Err(Error::UnexpectedShape),
        },
        Types::I32 => match m {
            None => {
                if ty.optional {
                    Ok(FieldValue::I32(None))
                } else {
                    Err(kind_err_val(Types::I32, None))
                }
            },
            Some(MetaEntry::NameValue(_, l)) => match l {
                Lit::Int(i) => Ok(FieldValue::I32(Some(i))),
                _ => Err(kind_err_val(Types::I32, Some(l))),
            },
            Some(_) => Err(Error::UnexpectedShape),
        },
        Types::F32 => match m {
            None => {
                if ty.optional {
                    Ok(FieldValue::F32(None))
                } else {
                    Err(kind_err_val(Types::F32, None))
                }
            },
            Some(MetaEntry::NameValue(_, l)) => match l {
                Lit::Float(f) => Ok(FieldValue::F32(Some(f))),
                _ => Err(kind_err_val(Types::F32, Some(l))),
            },
            Some(_) => Err(Error::UnexpectedShape),
        },
        Types::Bool => match m {
            None => {
                if ty.optional {
                    Ok(FieldValue::Bool(None))
                } else {
                    Err(kind_err_val(Types::Bool, None))
                }
            },
            Some(MetaEntry::NameValue(_, l)) => match l {
                Lit::Bool(b) => Ok(FieldValue::Bool(Some(b))),
                _ => Err(kind_err_val(Types::Bool, Some(l))),
            },
            Some(_) => Err(Error::UnexpectedShape),
        },
    }
}

/// The kind-mismatch failure extraction reports for a member's own kind.
fn kind_err_val(k: Types, found: Option<Lit>) -> (e: Error)
    ensures
        e@ == kind_err(k, found.deep_view()),
{
    Error::KindMismatch { expected: Type { ty: k, optional: false }, found }
}

/// Extracting every member's typed value in declaration order, stopping at
/// the first failure.
pub open spec fn fields_extract_spec(
    path: Seq<char>,
    fs: Seq<FieldDeclView>,
    attrs: Seq<AttrView>,
) -> Result<Seq<FieldValueView>, ErrorView>
    decreases fs.len(),
{
    if fs.len() == 0 {
        Ok(Seq::empty())
    } else {
        match const_field_spec(path, fs[0]) {
            Err(e) => Err(e),
            Ok((_, d)) => match classify_spec(fs[0].ty) {
                Err(e) => Err(e@),
                Ok(ty) => match extract_spec(d, ty, attrs) {
                    Err(e) => Err(e),
                    Ok(v) => match fields_extract_spec(path, fs.skip(1), attrs) {
                        Err(e) => Err(e),
                        Ok(rest) => Ok(seq![v] + rest),
                    },
                },
            },
        }
    }
}

/// What the generated constructor answers: with the declaration's
/// definitions all built, each member's typed value is extracted from the
/// attribute list in declaration order, stopping at the first failure.
pub open spec fn try_from_spec(
    input: crate::strukt::StructDeclView,
    attrs: Seq<AttrView>,
) -> Result<Seq<FieldValueView>, ErrorView> {
    match input.data {
        StructDataView::Other => Err(ErrorView::StructMismatch),
        StructDataView::Struct(fs) => match crate::fielddef::struct_path_spec(input) {
            Err(e) => Err(e),
            Ok(p) => match const_fields_list_spec(p, fs) {
                Err(e) => Err(e),
                Ok(_) => fields_extract_spec(p, fs, attrs),
            },
        },
    }
}

/// The definitions a built constant list holds, in order.
pub open spec fn defs_of(cfs: Seq<(Seq<char>, DefView)>) -> Seq<DefView> {
    cfs.map_values(|cf: (Seq<char>, DefView)| cf.1)
}

/// A successful build answers one constant per member.
proof fn lemma_const_fields_len(path: Seq<char>, fs: Seq<FieldDeclView>)
    requires
        const_fields_list_spec(path, fs) is Ok,
    ensures
        const_fields_list_spec(path, fs)->Ok_0.len() == fs.len(),
    decreases fs.len(),
{
    if fs.len() > 0 {
        lemma_const_fields_len(path, fs.skip(1));
    }
}

/// Each constant of a successful build is its member's own.
proof fn lemma_const_fields_index(path: Seq<char>, fs: Seq<FieldDeclView>, i: int)
    requires
        const_fields_list_spec(path, fs) is Ok,
        0 <= i < fs.len(),
    ensures
        const_field_spec(path, fs[i]) is Ok,
        const_fields_list_spec(path, fs)->Ok_0.len() == fs.len(),
        const_fields_list_spec(path, fs)->Ok_0[i] == const_field_spec(path, fs[i])->Ok_0,
    decreases i,
{
    lemma_const_fields_len(path, fs);
    if i == 0 {
        lemma_const_fields_len(path, fs.skip(1));
    } else {
        assert(fs.skip(1)[i - 1] == fs[i]);
        lemma_const_fields_index(path, fs.skip(1), i - 1);
    }
}

/// The expansion that builds the generated constructor's behaviour: the
/// typed values of every member, extracted from an attribute list.
pub struct TryFromAttributes;

impl TryFromAttributes {
    /// Extract every member's typed value from an attribute list, in
    /// declaration order, stopping at the first failure.
    pub fn apply(&self, input: &StructDecl, attrs: &Vec<Attr>) -> (r: Result<
        Vec<FieldValue>,
        Error,
    >)
        ensures
            crate::views::res_dv(r) == try_from_spec(input@, attrs.deep_view()),
    {
        let cfs = match (ConstFields).build(input) {
            Ok(cfs) => cfs,
            Err(e) => {
                return Err(e);
            },
        };
        let fs = match &input.data {
            StructData::Struct(fs) => fs,
            StructData::Other => {
                proof {
                    assert(false);
                }
                return Err(Error::StructMismatch);
            },
        };
        let ghost p = crate::fielddef::struct_path_spec(input@)->Ok_0;
        let ghost fv = fs.deep_view();
        let ghost av = attrs.deep_view();
        let mut out: Vec<FieldValue> = Vec::new();
        proof {
            lemma_const_fields_len(p, fv);
            assert(fv.skip(0) =~= fv);
            match fields_extract_spec(p, fv, av) {
                Ok(rest) => {
                    assert(out.deep_view() + rest =~= rest);
                },
                Err(_) => {},
            }
        }
        let mut i: usize = 0;
        while i < fs.len()
            invariant
                i <= fs.len(),
                fv == fs.deep_view(),
                fv.len() == fs.len(),
                av == attrs.deep_view(),
                cfs.deep_view().len() == fs.len(),
                cfs@.len() == fs.len(),
                const_fields_list_spec(p, fv) == Ok::<Seq<(Seq<char>, DefView)>, ErrorView>(
                    cfs.deep_view(),
                ),
                input@.data == StructDataView::Struct(fv),
                crate::fielddef::struct_path_spec(input@) == Ok::<Seq<char>, ErrorView>(p),
                try_from_spec(input@, av) == (match fields_extract_spec(p, fv.skip(i as int), av) {
                    Ok(rest) => Ok::<Seq<FieldValueView>, ErrorView>(out.deep_view() + rest),
                    Err(e) => Err(e),
                }),
            decreases fs.len() - i,
        {
            proof {
                assert(fv.skip(i as int)[0] == fv[i as int]);
                assert(fv.skip(i as int).skip(1) =~= fv.skip(i + 1));
                assert(fv[i as int] == fs@[i as int].deep_view());
                lemma_const_fields_index(p, fv, i as int);
                assert(cfs.deep_view()[i as int] == cfs@[i as int].deep_view());
            }
            let d = &cfs[i].1;
            let ty = match Type::try_from_sig(&fs[i].ty) {
                Ok(ty) => ty,
                Err(_) => {
                    proof {
                        assert(false);
                    }
                    return Err(Error::UnknownType);
                },
            };
            let ghost prev = out.deep_view();
            match extract(d, ty, attrs) {
                Ok(v) => {
                    out.push(v);
                    proof {
                        let ev = extract_spec(
                            const_field_spec(p, fv[i as int])->Ok_0.1,
                            ty,
                            av,
                        );
                        assert(ev is Ok);
                        assert(out.deep_view() =~= prev.push(ev->Ok_0));
                        match fields_extract_spec(p, fv.skip(i + 1), av) {
                            Ok(rest) => {
                                assert(out.deep_view() + rest =~= prev + (seq![ev->Ok_0] + rest));
                            },
                            Err(_) => {},
                        }
                    }
                },
                Err(e) => {
                    return Err(e);
                },
            }
            i += 1;
        }
        proof {
            assert(fv.skip(fv.len() as int).len() == 0);
            assert(out.deep_view() + Seq::<FieldValueView>::empty() =~= out.deep_view());
        }
        Ok(out)
    }
}

/// The expansion that builds the generated stripping accessor's behaviour:
/// every member's definition stripped from an attribute list.
pub struct StripExpand;

impl StripExpand {
    /// Strip every member's definition from an attribute list; a
    /// declaration whose definitions cannot be built leaves the list
    /// untouched and answers the failure.
    pub fn apply(&self, input: &StructDecl, attrs: &mut Vec<Attr>) -> (r: Result<(), Error>)
        ensures
            (match const_fields_spec(input@) {
                Ok(cfs) => r is Ok && final(attrs).deep_view() == strip_attrs(
                    defs_of(cfs),
                    old(attrs).deep_view(),
                ),
                Err(e) => (r matches Err(e2) && e2@ == e) && final(attrs).deep_view() == old(
                    attrs,
                ).deep_view(),
            }),
    {
        let cfs = match (ConstFields).build(input) {
            Ok(cfs) => cfs,
            Err(e) => {
                return Err(e);
            },
        };
        let ghost cfv = cfs.deep_view();
        let mut ds: Vec<Def> = Vec::new();
        let mut i: usize = 0;
        while i < cfs.len()
            invariant
                i <= cfs.len(),
                cfv == cfs.deep_view(),
                cfv.len() == cfs.len(),
                ds.deep_view() == defs_of(cfv).take(i as int),
            decreases cfs.len() - i,
        {
            proof {
                assert(cfv[i as int] == cfs@[i as int].deep_view());
            }
            let ghost prev = ds.deep_view();
            ds.push(cfs[i].1.clone());
            proof {
                assert(ds.deep_view() =~= prev.push(cfv[i as int].1));
                assert(ds.deep_view() =~= defs_of(cfv).take(i + 1));
            }
            i += 1;
        }
        proof {
            assert(defs_of(cfv).take(cfv.len() as int) =~= defs_of(cfv));
        }
        let defs = Defs::new(ds);
        defs.strip(attrs);
        Ok(())
    }
}

} // verus!
