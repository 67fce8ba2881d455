use crate::lit::{Lit, LitView};
use crate::ty::Type;
use vstd::prelude::*;

verus! {

/// A diagnostic or extraction failure.
///
/// Validation collects these into a list without stopping; extraction stops
/// at the first one.
#[derive(Debug, PartialEq, Eq)]
pub enum Error {
    /// a required field has no matching attribute entry
    MissingRequired {
        /// the namespace path of the field
        path: String,
        /// the name of the field
        name: String,
    },
    /// the same field is given more than once
    Duplicate {
        /// the namespace path of the field
        path: String,
        /// the name of the field
        name: String,
    },
    /// a literal is present but has the wrong shape for the declared type
    KindMismatch {
        /// the type the field accepts
        expected: Type,
        /// the literal that was found, if any
        found: Option<Lit>,
    },
    /// the namespace is recognized but the field name is not
    Unrecognized {
        /// the namespace path of the entry
        path: String,
        /// the name of the entry
        name: String,
    },
    /// an entry is neither a name-and-value nor a bare path
    MalformedShape,
    /// a value was found where none belongs, or none where one was needed
    UnexpectedShape,
    /// the declaration is not a struct
    StructMismatch,
    /// a rename value is not a valid identifier
    InvalidRename {
        /// the rejected rename value
        name: String,
    },
    /// a default value was supplied for a declared-optional field
    ConflictingDefault,
    /// a declared type is not one of the recognized shapes
    UnknownType,
    /// a field of an unnamed struct has no rename to take a name from
    UnnamedField,
}

/// The mathematical value of an [`Error`].
#[verifier::ext_equal]
pub enum ErrorView {
    /// a required field has no matching attribute entry
    MissingRequired {
        /// the namespace path of the field
        path: Seq<char>,
        /// the name of the field
        name: Seq<char>,
    },
    /// the same field is given more than once
    Duplicate {
        /// the namespace path of the field
        path: Seq<char>,
        /// the name of the field
        name: Seq<char>,
    },
    /// a literal is present but has the wrong shape for the declared type
    KindMismatch {
        /// the type the field accepts
        expected: Type,
        /// the literal that was found, if any
        found: Option<LitView>,
    },
    /// the namespace is recognized but the field name is not
    Unrecognized {
        /// the namespace path of the entry
        path: Seq<char>,
        /// the name of the entry
        name: Seq<char>,
    },
    /// an entry is neither a name-and-value nor a bare path
    MalformedShape,
    /// a value was found where none belongs, or none where one was needed
    UnexpectedShape,
    /// the declaration is not a struct
    StructMismatch,
    /// a rename value is not a valid identifier
    InvalidRename {
        /// the rejected rename value
        name: Seq<char>,
    },
    /// a default value was supplied for a declared-optional field
    ConflictingDefault,
    /// a declared type is not one of the recognized shapes
    UnknownType,
    /// a field of an unnamed struct has no rename to take a name from
    UnnamedField,
}

impl View for Error {
    type V = ErrorView;

    open spec fn view(&self) -> ErrorView {
        match self {
            Error::MissingRequired { path, name } => ErrorView::MissingRequired {
                path: path@,
                name: name@,
            },
            Error::Duplicate { path, name } => ErrorView::Duplicate { path: path@, name: name@ },
            Error::KindMismatch { expected, found } => ErrorView::KindMismatch {
                expected: *expected,
                found: match found {
                    Some(l) => Some(l@),
                    None => None,
                },
            },
            Error::Unrecognized { path, name } => ErrorView::Unrecognized {
                path: path@,
                name: name@,
            },
            Error::MalformedShape => ErrorView::MalformedShape,
            Error::UnexpectedShape => ErrorView::UnexpectedShape,
            Error::StructMismatch => ErrorView::StructMismatch,
            Error::InvalidRename { name } => ErrorView::InvalidRename { name: name@ },
            Error::ConflictingDefault => ErrorView::ConflictingDefault,
            Error::UnknownType => ErrorView::UnknownType,
            Error::UnnamedField => ErrorView::UnnamedField,
        }
    }
}

impl DeepView for Error {
    type V = ErrorView;

    open spec fn deep_view(&self) -> ErrorView {
        self.view()
    }
}

} // verus!
