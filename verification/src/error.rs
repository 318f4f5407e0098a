//! What can go wrong while a manifest is read, written or moved through an archive.

use crate::field::Field;
use vstd::prelude::*;

verus! {

/// `std::io::Error`, carried through as it came.
#[verifier::external_type_specification]
#[verifier::external_body]
pub struct ExIoError(std::io::Error);

/// Why a text stands for no value of the type that was asked for.
#[derive(Clone, Debug, PartialEq, Eq)]
pub enum ValueError {
    /// A boolean is written `true` or `false` and in no other way.
    InvalidBoolean { text: String },
    /// A bundle kind is written as the name of one of its variants.
    InvalidKind { text: String },
}

/// The model of a [`ValueError`].
pub enum ValueErrorView {
    InvalidBoolean { text: Seq<char> },
    InvalidKind { text: Seq<char> },
}

impl View for ValueError {
    type V = ValueErrorView;

    open spec fn view(&self) -> ValueErrorView {
        match self {
            ValueError::InvalidBoolean { text } => ValueErrorView::InvalidBoolean { text: text@ },
            ValueError::InvalidKind { text } => ValueErrorView::InvalidKind { text: text@ },
        }
    }
}

/// Why a text is not a manifest.
#[derive(Clone, Debug, PartialEq, Eq)]
pub enum DecodeError {
    /// A line that the INI grammar refuses, or that could not be read as text.
    Malformed { message: String },
    /// There is no `[Bundle]` section.
    MissingSection,
    /// There is a second `[Bundle]` section.
    DuplicateSection,
    /// `Bundle` stands as a key before the first section, where only the section can give the record.
    ExpectedSection,
    /// A required key is absent from the section.
    MissingField { field: Field },
    /// A key occurs a second time in the section.
    DuplicateField { field: Field },
    /// A key of the section stands for no field.
    UnknownField { key: String },
    /// The value of a boolean field is neither `true` nor `false`.
    InvalidBoolean { text: String },
    /// The value of `Type` names no bundle kind.
    InvalidKind { text: String },
    /// An element of a list is refused; `index` counts the elements from 0.
    InvalidListElement { index: usize, cause: ValueError },
}

/// The model of a [`DecodeError`].
pub enum DecodeErrorView {
    Malformed { message: Seq<char> },
    MissingSection,
    DuplicateSection,
    ExpectedSection,
    MissingField { field: Field },
    DuplicateField { field: Field },
    UnknownField { key: Seq<char> },
    InvalidBoolean { text: Seq<char> },
    InvalidKind { text: Seq<char> },
    InvalidListElement { index: int, cause: ValueErrorView },
}

impl View for DecodeError {
    type V = DecodeErrorView;

    open spec fn view(&self) -> DecodeErrorView {
        match self {
            DecodeError::Malformed { message } => DecodeErrorView::Malformed { message: message@ },
            DecodeError::MissingSection => DecodeErrorView::MissingSection,
            DecodeError::DuplicateSection => DecodeErrorView::DuplicateSection,
            DecodeError::ExpectedSection => DecodeErrorView::ExpectedSection,
            DecodeError::MissingField { field } => DecodeErrorView::MissingField { field: *field },
            DecodeError::DuplicateField { field } => DecodeErrorView::DuplicateField {
                field: *field,
            },
            DecodeError::UnknownField { key } => DecodeErrorView::UnknownField { key: key@ },
            DecodeError::InvalidBoolean { text } => DecodeErrorView::InvalidBoolean { text: text@ },
            DecodeError::InvalidKind { text } => DecodeErrorView::InvalidKind { text: text@ },
            DecodeError::InvalidListElement { index, cause } => DecodeErrorView::InvalidListElement {
                index: *index as int,
                cause: cause@,
            },
        }
    }
}

/// The decode error that a refused value of a field amounts to.
pub open spec fn field_fault(cause: ValueErrorView) -> DecodeErrorView {
    match cause {
        ValueErrorView::InvalidBoolean { text } => DecodeErrorView::InvalidBoolean { text },
        ValueErrorView::InvalidKind { text } => DecodeErrorView::InvalidKind { text },
    }
}

impl DecodeError {
    /// The decode error that a refused value of a field amounts to.
    pub fn of_field(cause: ValueError) -> (e: DecodeError)
        ensures
            e@ == field_fault(cause@),
    {
        match cause {
            ValueError::InvalidBoolean { text } => DecodeError::InvalidBoolean { text },
            ValueError::InvalidKind { text } => DecodeError::InvalidKind { text },
        }
    }
}

/// Why an archive gave no manifest or took none.
#[derive(Debug)]
pub enum ArchiveError {
    /// Reading or writing the archive's bytes failed.
    Io(std::io::Error),
    /// The bytes are not a zip archive.
    InvalidArchive(&'static str),
    /// The archive uses something that the zip library does not support.
    UnsupportedArchive(&'static str),
    /// The archive has no entry of the name asked for.
    EntryNotFound,
}

/// Any failure of this library.
#[derive(Debug)]
pub enum BundleError {
    /// The archive could not be used.
    Zip(ArchiveError),
    /// The text is not a manifest.
    De(DecodeError),
    /// The raw bytes could not be read.
    Io(std::io::Error),
    /// The manifest could not be written out.
    Ser(std::io::Error),
}

/// What this library's operations give back.
pub type BundleResult<T> = Result<T, BundleError>;

} // verus!
