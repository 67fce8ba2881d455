use crate::attr::MetaEntryView;
use crate::error::{Error, ErrorView};
use crate::field::{get_lit_spec, get_meta_spec, Def, DefView};
use crate::input::{default_value_def_view, default_value_field, rename_def_view, rename_field};
use crate::lit::{Lit, LitView};
use crate::naming::{field_name, field_name_spec, is_valid_ident, snake_of};
use crate::strukt::{FieldDecl, FieldDeclView, StructData, StructDataView, StructDecl};
use crate::ty::{classify_spec, type_lint_spec, Type, TySig};
use crate::value::{from_lit_spec, DefaultValue};
use vstd::prelude::*;

verus! {

/// The literal a found entry carries, where it is a name-and-value.
pub open spec fn lit_of_meta(m: Option<MetaEntryView>) -> Option<LitView> {
    match m {
        Some(MetaEntryView::NameValue(_, l)) => Some(l),
        _ => None,
    }
}

/// Whether a declared type shape is wrapped in `Option`.
pub open spec fn is_optional_sig(t: TySig) -> bool {
    match t {
        TySig::Named(s) => s@ == "Option"@,
        TySig::Generic(s, _) => s@ == "Option"@,
        _ => false,
    }
}

/// What checking one member's type reports: a classification failure; a
/// default value on a declared-optional member; and the default literal,
/// where one is given, checked against the member's type.
pub open spec fn field_type_lint_spec(f: FieldDeclView) -> Seq<ErrorView> {
    match classify_spec(f.ty) {
        Ok(ty) => match get_meta_spec(default_value_def_view(), f.attrs) {
            Ok(m) => (if ty.optional && m is Some {
                seq![ErrorView::ConflictingDefault]
            } else {
                Seq::empty()
            }) + type_lint_spec(Type { ty: ty.ty, optional: true }, lit_of_meta(m)),
            Err(_) => Seq::empty(),
        },
        Err(e) => seq![e@],
    }
}

/// The member-by-member type check over a declaration; a declaration that
/// is not a struct is left to the structural check.
pub open spec fn field_type_lint_all(data: StructDataView) -> Seq<ErrorView>
    decreases data,
{
    match data {
        StructDataView::Struct(fs) => field_type_lint_fields(fs),
        StructDataView::Other => Seq::empty(),
    }
}

/// The member-by-member type check over a field list.
pub open spec fn field_type_lint_fields(fs: Seq<FieldDeclView>) -> Seq<ErrorView>
    decreases fs.len(),
{
    if fs.len() == 0 {
        Seq::empty()
    } else {
        field_type_lint_spec(fs[0]) + field_type_lint_fields(fs.skip(1))
    }
}

/// A check of every member's declared type: it must classify, a
/// declared-optional member must not also carry a default value, and a
/// given default literal must fit the type.
pub struct FieldType;

impl FieldType {
    /// Check every member's declared type and default value.
    pub fn lint(&self, input: &StructDecl, c: &mut Vec<Error>)
        ensures
            final(c).deep_view() == old(c).deep_view() + field_type_lint_all(input@.data),
    {
        let ghost c0 = c.deep_view();
        match &input.data {
            StructData::Struct(fs) => {
                let ghost fv = fs.deep_view();
                proof {
                    assert(fv.skip(0) =~= fv);
                    assert(c.deep_view() + field_type_lint_fields(fv.skip(0)) =~= c0
                        + field_type_lint_fields(fv));
                }
                let mut i: usize = 0;
                while i < fs.len()
                    invariant
                        i <= fs.len(),
                        fv == fs.deep_view(),
                        fv.len() == fs.len(),
                        c.deep_view() + field_type_lint_fields(fv.skip(i as int)) == c0
                            + field_type_lint_fields(fv),
                    decreases fs.len() - i,
                {
                    proof {
                        assert(fv.skip(i as int)[0] == fv[i as int]);
                        assert(fv.skip(i as int).skip(1) =~= fv.skip(i + 1));
                        assert(fv[i as int] == fs@[i as int].deep_view());
                    }
                    let ghost pre = c.deep_view();
                    let f = &fs[i];
                    match Type::try_from_sig(&f.ty) {
                        Ok(ty) => {
                            let dvf = default_value_field();
                            match dvf.get_meta(&f.attrs) {
                                Ok(m) => {
                                    if ty.optional && m.is_some() {
                                        c.push(Error::ConflictingDefault);
                                        proof {
                                            assert(c.deep_view() =~= pre + seq![
                                                ErrorView::ConflictingDefault,
                                            ]);
                                        }
                                    }
                                    let ghost mid = c.deep_view();
                                    let checked = Type { ty: ty.ty, optional: true };
                                    let dl = match &m {
                                        Some(crate::attr::MetaEntry::NameValue(_, l)) => Some(l),
                                        _ => None,
                                    };
                                    checked.lint(dl, c);
                                    proof {
                                        assert(c.deep_view() =~= pre + field_type_lint_spec(
                                            fv[i as int],
                                        ));
                                    }
                                },
                                Err(_) => {
                                    proof {
                                        assert(false);
                                    }
                                },
                            }
                        },
                        Err(e) => {
                            c.push(e);
                            proof {
                                assert(c.deep_view() =~= pre + field_type_lint_spec(fv[i as int]));
                            }
                        },
                    }
                    proof {
                        assert(c.deep_view() + field_type_lint_fields(fv.skip(i + 1)) =~= pre + (
                        field_type_lint_spec(fv[i as int]) + field_type_lint_fields(
                            fv.skip(i + 1),
                        )));
                        assert(c.deep_view() + field_type_lint_fields(fv.skip(i + 1)) == c0
                            + field_type_lint_fields(fv));
                    }
                    i += 1;
                }
                proof {
                    assert(fv.skip(fv.len() as int).len() == 0);
                    assert(c.deep_view() + Seq::<ErrorView>::empty() =~= c.deep_view());
                }
            },
            StructData::Other => {
                proof {
                    assert(c.deep_view() + Seq::<ErrorView>::empty() =~= c.deep_view());
                }
            },
        }
    }
}

/// What checking one member's name reports: a rename that is not a valid
/// identifier or not a string, or a member of an unnamed struct with no
/// rename to take a name from.
pub open spec fn name_lint_spec(f: FieldDeclView) -> Seq<ErrorView> {
    match get_lit_spec(rename_def_view(), f.attrs) {
        Ok(l) => match l {
            Some(LitView::Str(s)) => {
                if is_valid_ident(s) {
                    Seq::empty()
                } else {
                    seq![ErrorView::InvalidRename { name: s }]
                }
            },
            Some(_) => seq![ErrorView::UnexpectedShape],
            None => match f.name {
                Some(_) => Seq::empty(),
                None => seq![ErrorView::UnnamedField],
            },
        },
        Err(_) => Seq::empty(),
    }
}

/// The member-by-member name check over a field list.
pub open spec fn name_lint_fields(fs: Seq<FieldDeclView>) -> Seq<ErrorView>
    decreases fs.len(),
{
    if fs.len() == 0 {
        Seq::empty()
    } else {
        name_lint_spec(fs[0]) + name_lint_fields(fs.skip(1))
    }
}

/// The member-by-member name check over a declaration; a declaration that
/// is not a struct is left to the structural check.
pub open spec fn name_lint_all(data: StructDataView) -> Seq<ErrorView> {
    match data {
        StructDataView::Struct(fs) => name_lint_fields(fs),
        StructDataView::Other => Seq::empty(),
    }
}

/// A check of every member's name: a rename must be a valid identifier,
/// and a member without a declared identifier must be renamed.
pub struct Name;

impl Name {
    /// Check every member's rename and name.
    pub fn lint(&self, input: &StructDecl, c: &mut Vec<Error>)
        ensures
            final(c).deep_view() == old(c).deep_view() + name_lint_all(input@.data),
    {
        let ghost c0 = c.deep_view();
        match &input.data {
            StructData::Struct(fs) => {
                let ghost fv = fs.deep_view();
                proof {
                    assert(fv.skip(0) =~= fv);
                    assert(c.deep_view() + name_lint_fields(fv.skip(0)) =~= c0 + name_lint_fields(
                        fv,
                    ));
                }
                let mut i: usize = 0;
                while i < fs.len()
                    invariant
                        i <= fs.len(),
                        fv == fs.deep_view(),
                        fv.len() == fs.len(),
                        c.deep_view() + name_lint_fields(fv.skip(i as int)) == c0
                            + name_lint_fields(fv),
                    decreases fs.len() - i,
                {
                    proof {
                        assert(fv.skip(i as int)[0] == fv[i as int]);
                        assert(fv.skip(i as int).skip(1) =~= fv.skip(i + 1));
                        assert(fv[i as int] == fs@[i as int].deep_view());
                    }
                    let ghost pre = c.deep_view();
                    let f = &fs[i];
                    let rename = rename_field();
                    match rename.get_lit(&f.attrs) {
                        Ok(l) => match l {
                            Some(Lit::Str(s)) => {
                                if !crate::naming::valid_ident(s.as_str()) {
                                    c.push(Error::InvalidRename { name: s });
                                }
                            },
                            Some(_) => {
                                c.push(Error::UnexpectedShape);
                            },
                            None => match &f.name {
                                Some(_) => {},
                                None => {
                                    c.push(Error::UnnamedField);
                                },
                            },
                        },
                        Err(_) => {
                            proof {
                                assert(false);
                            }
                        },
                    }
                    proof {
                        assert(c.deep_view() =~= pre + name_lint_spec(fv[i as int]));
                        assert(c.deep_view() + name_lint_fields(fv.skip(i + 1)) =~= pre + (
                        name_lint_spec(fv[i as int]) + name_lint_fields(fv.skip(i + 1))));
                        assert(c.deep_view() + name_lint_fields(fv.skip(i + 1)) == c0
                            + name_lint_fields(fv));
                    }
                    i += 1;
                }
                proof {
                    assert(fv.skip(fv.len() as int).len() == 0);
                    assert(c.deep_view() + Seq::<ErrorView>::empty() =~= c.deep_view());
                }
            },
            StructData::Other => {
                proof {
                    assert(c.deep_view() + Seq::<ErrorView>::empty() =~= c.deep_view());
                }
            },
        }
    }
}

/// What naming the generated constants' namespace answers: the type's
/// rename where one is given (a string, or the declaration is refused),
/// else the type's identifier in snake case.
pub open spec fn struct_path_spec(input: crate::strukt::StructDeclView) -> Result<
    Seq<char>,
    ErrorView,
> {
    match get_lit_spec(rename_def_view(), input.attrs) {
        Ok(l) => match l {
            Some(LitView::Str(s)) => Ok(s),
            Some(_) => Err(ErrorView::UnexpectedShape),
            None => Ok(snake_of(input.name)),
        },
        Err(e) => Err(e),
    }
}

/// What building one member's constant answers: the constant's name beside
/// the member's field definition, with the member's name, the shared
/// namespace path, a default built from the default-value key, and required
/// exactly when the member is neither declared optional nor given a
/// default.
pub open spec fn const_field_spec(path: Seq<char>, f: FieldDeclView) -> Result<
    (Seq<char>, DefView),
    ErrorView,
> {
    match field_name_spec(f) {
        Ok((name, cname)) => match get_lit_spec(default_value_def_view(), f.attrs) {
            Ok(dl) => match classify_spec(f.ty) {
                Ok(ty) => match from_lit_spec(ty, dl) {
                    Ok(value) => Ok(
                        (
                            cname,
                            DefView {
                                path,
                                name,
                                required: !(is_optional_sig(f.ty) || dl is Some),
                                default: value,
                            },
                        ),
                    ),
                    Err(e) => Err(e),
                },
                Err(e) => Err(e@),
            },
            Err(e) => Err(e),
        },
        Err(e) => Err(e),
    }
}

/// Building every member's constant in declaration order, stopping at the
/// first failure.
pub open spec fn const_fields_list_spec(path: Seq<char>, fs: Seq<FieldDeclView>) -> Result<
    Seq<(Seq<char>, DefView)>,
    ErrorView,
>
    decreases fs.len(),
{
    if fs.len() == 0 {
        Ok(Seq::empty())
    } else {
        match const_field_spec(path, fs[0]) {
            Ok(cf) => match const_fields_list_spec(path, fs.skip(1)) {
                Ok(rest) => Ok(seq![cf] + rest),
                Err(e) => Err(e),
            },
            Err(e) => Err(e),
        }
    }
}

/// What expanding a declaration's constants answers: one named constant
/// definition per member under the declaration's namespace path, or the
/// first failure; a declaration that is not a struct is refused.
pub open spec fn const_fields_spec(input: crate::strukt::StructDeclView) -> Result<
    Seq<(Seq<char>, DefView)>,
    ErrorView,
> {
    match input.data {
        StructDataView::Struct(fs) => match struct_path_spec(input) {
            Ok(p) => const_fields_list_spec(p, fs),
            Err(e) => Err(e),
        },
        StructDataView::Other => Err(ErrorView::StructMismatch),
    }
}

/// The expansion that builds one constant field definition per member.
pub struct ConstFields;

impl ConstFields {
    /// Whether a declared type shape is wrapped in `Option`.
    fn sig_is_optional(t: &TySig) -> (r: bool)
        ensures
            r == is_optional_sig(*t),
    {
        match t {
            TySig::Named(s) => crate::naming::str_is(s, "Option"),
            TySig::Generic(s, _) => crate::naming::str_is(s, "Option"),
            _ => false,
        }
    }

    /// Build every member's named constant field definition, in declaration
    /// order, stopping at the first failure.
    pub fn build(&self, input: &StructDecl) -> (r: Result<Vec<(String, Def)>, Error>)
        ensures
            crate::views::res_dv(r) == const_fields_spec(input@),
    {
        let fs = match &input.data {
            StructData::Struct(fs) => fs,
            StructData::Other => {
                return Err(Error::StructMismatch);
            },
        };
        let rename = rename_field();
        let path: String = match rename.get_lit(&input.attrs) {
            Ok(l) => match l {
                Some(Lit::Str(s)) => s,
                Some(_) => {
                    return Err(Error::UnexpectedShape);
                },
                None => crate::naming::to_snake(input.name.as_str()),
            },
            Err(e) => {
                return Err(e);
            },
        };
        let ghost p = path@;
        let ghost fv = fs.deep_view();
        let mut out: Vec<(String, Def)> = Vec::new();
        proof {
            assert(fv.skip(0) =~= fv);
            match const_fields_list_spec(p, fv) {
                Ok(rest) => {
                    assert(out.deep_view() + rest =~= rest);
                },
                Err(_) => {},
            }
        }
        let mut i: usize = 0;
        while i < fs.len()
            invariant
                i <= fs.len(),
                p == path@,
                fv == fs.deep_view(),
                fv.len() == fs.len(),
                input@.data == StructDataView::Struct(fv),
                struct_path_spec(input@) == Ok::<Seq<char>, ErrorView>(p),
                const_fields_list_spec(p, fv) == (match const_fields_list_spec(
                    p,
                    fv.skip(i as int),
                ) {
                    Ok(rest) => Ok::<Seq<(Seq<char>, DefView)>, ErrorView>(
                        out.deep_view() + rest,
                    ),
                    Err(e) => Err(e),
                }),
            decreases fs.len() - i,
        {
            proof {
                assert(fv.skip(i as int)[0] == fv[i as int]);
                assert(fv.skip(i as int).skip(1) =~= fv.skip(i + 1));
                assert(fv[i as int] == fs@[i as int].deep_view());
            }
            let f = &fs[i];
            let (name, cname) = match field_name(f) {
                Ok(nc) => nc,
                Err(e) => {
                    return Err(e);
                },
            };
            let dvf = default_value_field();
            let dl = match dvf.get_lit(&f.attrs) {
                Ok(dl) => dl,
                Err(e) => {
                    return Err(e);
                },
            };
            let ty = match Type::try_from_sig(&f.ty) {
                Ok(ty) => ty,
                Err(e) => {
                    return Err(e);
                },
            };
            let has_default = dl.is_some();
            let value = match DefaultValue::from_lit(ty, dl) {
                Ok(v) => v,
                Err(e) => {
                    return Err(e);
                },
            };
            let optional = Self::sig_is_optional(&f.ty) || has_default;
            let ghost prev = out.deep_view();
            out.push(
                (cname, Def { path: path.clone(), name, required: !optional, default: value }),
            );
            proof {
                let cf = const_field_spec(p, fv[i as int]);
                assert(cf is Ok);
                let cf0 = cf->Ok_0;
                assert(out.deep_view() =~= prev.push(cf0));
                match const_fields_list_spec(p, fv.skip(i + 1)) {
                    Ok(rest) => {
                        assert(out.deep_view() + rest =~= prev + (seq![cf0] + rest));
                    },
                    Err(_) => {},
                }
            }
            i += 1;
        }
        proof {
            assert(fv.skip(fv.len() as int).len() == 0);
            assert(out.deep_view() + Seq::<(Seq<char>, DefView)>::empty() =~= out.deep_view());
        }
        Ok(out)
    }
}

} // verus!
