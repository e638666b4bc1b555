//! The error type shared by every fallible operation of the crate.

use vstd::prelude::*;
use crate::api::entity_types::EntityTypes;
use crate::text::{hex_digits, hex_text, push_hex, push_hex_digits, to_unsigned_bits, unsigned_bits};

verus! {

/// Status of a conversion that was asked of a value with an incompatible tag.
pub const DISP_E_TYPEMISMATCH: i32 = -2147352571;

/// Status of a conversion whose source value does not fit the requested type.
pub const DISP_E_OVERFLOW: i32 = -2147352566;

/// Status of an object extraction from a value that holds no live object.
pub const TYPE_E_TYPEMISMATCH: i32 = -2147316576;

/// Everything that can go wrong while talking to the application.
#[derive(Debug, Clone)]
pub enum Error {
    /// The foreign call subsystem could not be initialized; carries its status.
    ComRuntimeInitFailed(i32),
    /// A precondition of the session state machine was violated.
    InvalidOperation(String),
    /// A project is already opened.
    AlreadyOpened(String),
    /// A consistency check after a foreign call failed.
    Internal(String),
    /// A filesystem path does not exist.
    NonexistentPath(String),
    /// An entity type that is not valid where it was given.
    InvalidCategory(EntityTypes),
    /// There is no active transaction.
    NoActiveTransaction,
    /// A value could not be parsed from its textual form.
    ParseError(String),
    /// A foreign call failed or a value could not be converted; carries the
    /// status that the call layer reported.
    WinApi(i32),
}

/// The mathematical value of an [`Error`]: messages are sequences of characters.
pub enum ErrorView {
    ComRuntimeInitFailed(i32),
    InvalidOperation(Seq<char>),
    AlreadyOpened(Seq<char>),
    Internal(Seq<char>),
    NonexistentPath(Seq<char>),
    InvalidCategory(EntityTypes),
    NoActiveTransaction,
    ParseError(Seq<char>),
    WinApi(i32),
}

impl View for Error {
    type V = ErrorView;

    open spec fn view(&self) -> ErrorView {
        match self {
            Error::ComRuntimeInitFailed(code) => ErrorView::ComRuntimeInitFailed(*code),
            Error::InvalidOperation(text) => ErrorView::InvalidOperation(text@),
            Error::AlreadyOpened(text) => ErrorView::AlreadyOpened(text@),
            Error::Internal(text) => ErrorView::Internal(text@),
            Error::NonexistentPath(text) => ErrorView::NonexistentPath(text@),
            Error::InvalidCategory(kind) => ErrorView::InvalidCategory(*kind),
            Error::NoActiveTransaction => ErrorView::NoActiveTransaction,
            Error::ParseError(text) => ErrorView::ParseError(text@),
            Error::WinApi(code) => ErrorView::WinApi(*code),
        }
    }
}

impl ErrorView {
    /// The message of the error, as a reader sees it. A status of the
    /// subsystem's initialization is written in hexadecimal without leading
    /// zeros, a status of the call layer with all its eight digits.
    pub open spec fn message(self) -> Seq<char> {
        match self {
            ErrorView::ComRuntimeInitFailed(code) =>
                "COM Runtime initialization process failed with error code 0x"@ + hex_digits(
                    unsigned_bits(code),
                ),
            ErrorView::InvalidOperation(text) => "Invalid operation: "@ + text,
            ErrorView::AlreadyOpened(text) => "Already opened: "@ + text,
            ErrorView::Internal(text) => "Internal error: "@ + text,
            ErrorView::NonexistentPath(text) => "Nonexistent path: "@ + text,
            ErrorView::InvalidCategory(kind) => "Invalid entity type: "@ + kind.display_spec(),
            ErrorView::NoActiveTransaction =>
                "No active transaction. Start new transaction first."@,
            ErrorView::ParseError(text) => "Error parsing value from string: "@ + text,
            ErrorView::WinApi(code) => "WinAPI error: 0x"@ + hex_text(unsigned_bits(code), 8),
        }
    }
}

impl Error {
    /// Returns the message of the error, as a reader sees it.
    pub fn to_string(&self) -> (text: String)
        ensures
            text@ == self@.message(),
    {
        match self {
            Error::ComRuntimeInitFailed(code) => {
                let mut text = String::from_str(
                    "COM Runtime initialization process failed with error code 0x",
                );
                push_hex_digits(&mut text, to_unsigned_bits(*code));
                text
            },
            Error::InvalidOperation(detail) => String::from_str("Invalid operation: ").concat(
                detail.as_str(),
            ),
            Error::AlreadyOpened(detail) => String::from_str("Already opened: ").concat(
                detail.as_str(),
            ),
            Error::Internal(detail) => String::from_str("Internal error: ").concat(detail.as_str()),
            Error::NonexistentPath(detail) => String::from_str("Nonexistent path: ").concat(
                detail.as_str(),
            ),
            Error::InvalidCategory(kind) => String::from_str("Invalid entity type: ").concat(
                kind.to_string().as_str(),
            ),
            Error::NoActiveTransaction => String::from_str(
                "No active transaction. Start new transaction first.",
            ),
            Error::ParseError(detail) => String::from_str(
                "Error parsing value from string: ",
            ).concat(detail.as_str()),
            Error::WinApi(code) => {
                let mut text = String::from_str("WinAPI error: 0x");
                push_hex(&mut text, to_unsigned_bits(*code) as u64, 8);
                text
            },
        }
    }

    /// A copy of this error.
    pub fn duplicate(&self) -> (copy: Error)
        ensures
            copy@ == self@,
    {
        match self {
            Error::ComRuntimeInitFailed(code) => Error::ComRuntimeInitFailed(*code),
            Error::InvalidOperation(text) => Error::InvalidOperation(text.clone()),
            Error::AlreadyOpened(text) => Error::AlreadyOpened(text.clone()),
            Error::Internal(text) => Error::Internal(text.clone()),
            Error::NonexistentPath(text) => Error::NonexistentPath(text.clone()),
            Error::InvalidCategory(kind) => Error::InvalidCategory(*kind),
            Error::NoActiveTransaction => Error::NoActiveTransaction,
            Error::ParseError(text) => Error::ParseError(text.clone()),
            Error::WinApi(code) => Error::WinApi(*code),
        }
    }
}

} // verus!
