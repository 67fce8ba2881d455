use crate::field::{Def, DefView};
use crate::fields::Defs;
use crate::strukt::{StructLint, StructLintView};
use crate::value::{DefaultValue, DefaultValueView};
use vstd::prelude::*;

verus! {

/// The definition of the rename key: an optional string under the reserved
/// namespace, accepted on the type itself and on each member.
pub open spec fn rename_def_view() -> DefView {
    DefView {
        path: "macro_input"@,
        name: "rename"@,
        required: false,
        default: DefaultValueView::Str(None),
    }
}

/// The definition of the default-value key: an optional literal of any
/// kind under the reserved namespace, accepted on members only.
pub open spec fn default_value_def_view() -> DefView {
    DefView {
        path: "macro_input"@,
        name: "default_value"@,
        required: false,
        default: DefaultValueView::Any(None),
    }
}

/// The rename key's field definition.
pub fn rename_field() -> (d: Def)
    ensures
        d@ == rename_def_view(),
{
    Def::new("macro_input", "rename", false, DefaultValue::Str(None))
}

/// The default-value key's field definition.
pub fn default_value_field() -> (d: Def)
    ensures
        d@ == default_value_def_view(),
{
    Def::new("macro_input", "default_value", false, DefaultValue::Any(None))
}

/// The definitions accepted on each member: the rename key and the
/// default-value key.
pub fn fields_field_defs() -> (r: Defs)
    ensures
        r@ == seq![rename_def_view(), default_value_def_view()],
{
    let mut v: Vec<Def> = Vec::new();
    v.push(rename_field());
    v.push(default_value_field());
    let r = Defs::new(v);
    proof {
        assert(r@ =~= seq![rename_def_view(), default_value_def_view()]);
    }
    r
}

/// The definitions accepted on the type itself: the rename key alone.
pub fn struct_field_defs() -> (r: Defs)
    ensures
        r@ == seq![rename_def_view()],
{
    let mut v: Vec<Def> = Vec::new();
    v.push(rename_field());
    let r = Defs::new(v);
    proof {
        assert(r@ =~= seq![rename_def_view()]);
    }
    r
}

/// The validation pass the derive runs over an opted-in declaration.
pub fn struct_lint() -> (r: StructLint)
    ensures
        r@ == (StructLintView {
            struct_defs: seq![rename_def_view()],
            fields_defs: seq![rename_def_view(), default_value_def_view()],
        }),
{
    StructLint::new(struct_field_defs(), fields_field_defs())
}

} // verus!
