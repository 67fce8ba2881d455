use crate::attr::{Attr, AttrView};
use crate::error::{Error, ErrorView};
use crate::field::DefView;
use crate::fields::{defs_lint_spec, Defs};
use crate::ty::TySig;
use vstd::prelude::*;

verus! {

/// A member of a struct declaration, as far as validation and expansion
/// read it: its declared identifier if it has one, the shape of its type,
/// and its attributes.
pub struct FieldDecl {
    /// the declared identifier; a tuple struct's members have none
    pub name: Option<String>,
    /// the shape of the declared type
    pub ty: TySig,
    /// the attributes on the member
    pub attrs: Vec<Attr>,
}

/// The mathematical value of a [`FieldDecl`]; the type shape is carried as
/// it stands, classification reads it directly.
#[verifier::ext_equal]
pub struct FieldDeclView {
    /// the declared identifier
    pub name: Option<Seq<char>>,
    /// the shape of the declared type
    pub ty: TySig,
    /// the attributes on the member
    pub attrs: Seq<AttrView>,
}

impl View for FieldDecl {
    type V = FieldDeclView;

    open spec fn view(&self) -> FieldDeclView {
        FieldDeclView {
            name: match self.name {
                Some(ref n) => Some(n@),
                None => None,
            },
            ty: self.ty,
            attrs: self.attrs.deep_view(),
        }
    }
}

impl DeepView for FieldDecl {
    type V = FieldDeclView;

    open spec fn deep_view(&self) -> FieldDeclView {
        self.view()
    }
}

/// What a declaration declares: a struct with its members, or anything
/// else.
pub enum StructData {
    /// a struct, with its members in declaration order
    Struct(Vec<FieldDecl>),
    /// an enum, a union, or any other declaration shape
    Other,
}

/// The mathematical value of a [`StructData`].
#[verifier::ext_equal]
pub enum StructDataView {
    /// a struct, with its members in declaration order
    Struct(Seq<FieldDeclView>),
    /// an enum, a union, or any other declaration shape
    Other,
}

impl View for StructData {
    type V = StructDataView;

    open spec fn view(&self) -> StructDataView {
        match self {
            StructData::Struct(fs) => StructDataView::Struct(fs.deep_view()),
            StructData::Other => StructDataView::Other,
        }
    }
}

impl DeepView for StructData {
    type V = StructDataView;

    open spec fn deep_view(&self) -> StructDataView {
        self.view()
    }
}

/// A type declaration, as far as validation and expansion read it.
pub struct StructDecl {
    /// the declared type's identifier
    pub name: String,
    /// the attributes on the declaration itself
    pub attrs: Vec<Attr>,
    /// what the declaration declares
    pub data: StructData,
}

/// The mathematical value of a [`StructDecl`].
#[verifier::ext_equal]
pub struct StructDeclView {
    /// the declared type's identifier
    pub name: Seq<char>,
    /// the attributes on the declaration itself
    pub attrs: Seq<AttrView>,
    /// what the declaration declares
    pub data: StructDataView,
}

impl View for StructDecl {
    type V = StructDeclView;

    open spec fn view(&self) -> StructDeclView {
        StructDeclView { name: self.name@, attrs: self.attrs.deep_view(), data: self.data@ }
    }
}

impl DeepView for StructDecl {
    type V = StructDeclView;

    open spec fn deep_view(&self) -> StructDeclView {
        self.view()
    }
}

/// A validation pass over a whole struct declaration: one definition set
/// for the attributes on the type itself, one for the attributes on each
/// member.
pub struct StructLint {
    struct_defs: Defs,
    fields_defs: Defs,
}

/// The mathematical value of a [`StructLint`].
#[verifier::ext_equal]
pub struct StructLintView {
    /// the definitions checked against the type's own attributes
    pub struct_defs: Seq<DefView>,
    /// the definitions checked against each member's attributes
    pub fields_defs: Seq<DefView>,
}

impl View for StructLint {
    type V = StructLintView;

    closed spec fn view(&self) -> StructLintView {
        StructLintView { struct_defs: self.struct_defs@, fields_defs: self.fields_defs@ }
    }
}

/// The member-by-member validation of a struct's fields.
pub open spec fn fields_lint_spec(defs: Seq<DefView>, fs: Seq<FieldDeclView>) -> Seq<ErrorView>
    decreases fs.len(),
{
    if fs.len() == 0 {
        Seq::empty()
    } else {
        defs_lint_spec(defs, fs[0].attrs) + fields_lint_spec(defs, fs.skip(1))
    }
}

/// What validating a declaration reports: the type's own attributes are
/// checked first; then either every member's attributes in declaration
/// order, or a single structural mismatch for anything that is not a
/// struct.
pub open spec fn struct_lint_spec(sl: StructLintView, input: StructDeclView) -> Seq<ErrorView> {
    defs_lint_spec(sl.struct_defs, input.attrs) + match input.data {
        StructDataView::Struct(fs) => fields_lint_spec(sl.fields_defs, fs),
        StructDataView::Other => seq![ErrorView::StructMismatch],
    }
}

impl StructLint {
    /// Create a new struct lint: `struct_defs` checks attributes on the
    /// struct itself and `fields_defs` checks the attributes of each field.
    pub fn new(struct_defs: Defs, fields_defs: Defs) -> (r: StructLint)
        ensures
            r@ == (StructLintView { struct_defs: struct_defs@, fields_defs: fields_defs@ }),
    {
        StructLint { struct_defs, fields_defs }
    }

    /// Validate a declaration: its own attributes, then each member's, or
    /// report a declaration that is not a struct.
    pub fn lint(&self, input: &StructDecl, c: &mut Vec<Error>)
        ensures
            final(c).deep_view() == old(c).deep_view() + struct_lint_spec(self@, input@),
    {
        let ghost sl = self@;
        let ghost iv = input@;
        self.struct_defs.lint(&input.attrs, c);
        let ghost c1 = c.deep_view();
        match &input.data {
            StructData::Struct(fs) => {
                let ghost fv = fs.deep_view();
                proof {
                    assert(fv.skip(0) =~= fv);
                    assert(c.deep_view() + fields_lint_spec(sl.fields_defs, fv.skip(0)) =~= c1
                        + fields_lint_spec(sl.fields_defs, fv));
                }
                let mut i: usize = 0;
                while i < fs.len()
                    invariant
                        i <= fs.len(),
                        sl == self@,
                        fv == fs.deep_view(),
                        fv.len() == fs.len(),
                        c.deep_view() + fields_lint_spec(sl.fields_defs, fv.skip(i as int)) == c1
                            + fields_lint_spec(sl.fields_defs, fv),
                    decreases fs.len() - i,
                {
                    proof {
                        assert(fv.skip(i as int)[0] == fv[i as int]);
                        assert(fv.skip(i as int).skip(1) =~= fv.skip(i + 1));
                        assert(fv[i as int] == fs@[i as int].deep_view());
                    }
                    let ghost pre = c.deep_view();
                    self.fields_defs.lint(&fs[i].attrs, c);
                    proof {
                        assert(c.deep_view() + fields_lint_spec(sl.fields_defs, fv.skip(i + 1))
                            =~= pre + (defs_lint_spec(sl.fields_defs, fv[i as int].attrs)
                            + fields_lint_spec(sl.fields_defs, fv.skip(i + 1))));
                        assert(c.deep_view() + fields_lint_spec(sl.fields_defs, fv.skip(i + 1))
                            == c1 + fields_lint_spec(sl.fields_defs, fv));
                    }
                    i += 1;
                }
                proof {
                    assert(fv.skip(fv.len() as int).len() == 0);
                    assert(c.deep_view() + Seq::<ErrorView>::empty() =~= c.deep_view());
                    assert(c.deep_view() =~= old(c).deep_view() + struct_lint_spec(sl, iv));
                }
            },
            StructData::Other => {
                let ghost pre = c.deep_view();
                c.push(Error::StructMismatch);
                proof {
                    assert(c.deep_view() =~= pre + seq![ErrorView::StructMismatch]);
                    assert(c.deep_view() =~= old(c).deep_view() + struct_lint_spec(sl, iv));
                }
            },
        }
    }
}

} // verus!
