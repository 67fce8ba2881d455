use crate::error::{Error, ErrorView};
use crate::field::get_lit_spec;
use crate::input::{rename_def_view, rename_field};
use crate::lit::{Lit, LitView};
use crate::naming::is_valid_ident;
use crate::strukt::{StructDecl, StructDeclView};
use vstd::prelude::*;

verus! {

/// What checking a declaration's own rename reports: a rename that is not
/// a valid identifier or not a string; a declaration without a rename is
/// fine.
pub open spec fn struct_name_lint_spec(input: StructDeclView) -> Seq<ErrorView> {
    match get_lit_spec(rename_def_view(), input.attrs) {
        Ok(l) => match l {
            Some(LitView::Str(s)) => {
                if is_valid_ident(s) {
                    Seq::empty()
                } else {
                    seq![ErrorView::InvalidRename { name: s }]
                }
            },
            Some(_) => seq![ErrorView::UnexpectedShape],
            None => Seq::empty(),
        },
        Err(_) => Seq::empty(),
    }
}

/// A check of the declaration's own rename: where one is given, it must be
/// a string holding a valid identifier.
pub struct Name;

impl Name {
    /// Check the declaration's rename.
    pub fn lint(&self, input: &StructDecl, c: &mut Vec<Error>)
        ensures
            final(c).deep_view() == old(c).deep_view() + struct_name_lint_spec(input@),
    {
        let ghost pre = c.deep_view();
        let rename = rename_field();
        match rename.get_lit(&input.attrs) {
            Ok(l) => match l {
                Some(Lit::Str(s)) => {
                    if !crate::naming::valid_ident(s.as_str()) {
                        c.push(Error::InvalidRename { name: s });
                    }
                },
                Some(_) => {
                    c.push(Error::UnexpectedShape);
                },
                None => {},
            },
            Err(_) => {
                proof {
                    assert(false);
                }
            },
        }
        proof {
            assert(c.deep_view() =~= pre + struct_name_lint_spec(input@));
        }
    }
}

} // verus!
