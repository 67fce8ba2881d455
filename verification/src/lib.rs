//! A declarative engine for typed fields inside structured annotation syntax.
//!
//! A schema is a set of field definitions ([`Def`], [`Defs`]): each names a
//! namespace path, a field name, a required flag and a typed default value.
//! The schema is matched against an ordered list of attribute entries
//! ([`Attr`]): fields are looked up and extracted as typed values, unknown or
//! duplicated entries are reported as diagnostics, and recognized entries can
//! be stripped out while preserving everything else.

pub mod attr;
pub mod convert;
pub mod error;
pub mod expand;
pub mod field;
pub mod fielddef;
pub mod fields;
pub mod input;
pub mod lint;
pub mod lit;
pub mod naming;
pub mod strip;
pub mod strukt;
pub mod ty;
pub mod value;
pub mod views;

pub use attr::{Attr, AttrKind, AttrKindView, AttrView, MetaEntry, MetaEntryView};
pub use convert::{FromLit, FromMeta};
pub use error::{Error, ErrorView};
pub use expand::{FieldValue, FieldValueView, StripExpand, TryFromAttributes};
pub use field::Def;
pub use fielddef::{ConstFields, FieldType};
pub use fields::Defs;
pub use lit::{Lit, LitView};
pub use naming::{field_name, mod_name};
pub use strukt::{FieldDecl, StructData, StructDecl, StructLint};
pub use ty::{Type, TySig, Types};
pub use value::{DefaultValue, DefaultValueView};
