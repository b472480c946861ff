//! The ways in which building an identifier can fail.

use crate::text::{decimal_text, push_decimal};
use vstd::prelude::*;

verus! {

/// Why an identifier could not be built.
///
/// Every failure is final for the operation that reports it: nothing is
/// retried, and no partly valid identifier is ever handed out.
#[derive(Debug)]
#[non_exhaustive]
pub enum Error {
    /// A byte or integer form lies outside the 128-bit range.
    InvalidFlake,
    /// A string is in none of the accepted encodings.
    ParseError {
        /// The string that was given.
        input: String,
        /// What was wrong with it.
        reason: String,
    },
    /// A timestamp above `MAX_TIMESTAMP`; holds the timestamp.
    InvalidTimestamp(u64),
    /// A random component above `MAX_RANDOM`.
    InvalidRandom,
    /// A failure while converting to or from a UUID.
    UuidError(String),
    /// A value that does not fit the target representation; holds the details.
    ConversionError(String),
}

/// What an [`Error`] says, with its strings as sequences of characters.
pub enum ErrorView {
    InvalidFlake,
    ParseError { input: Seq<char>, reason: Seq<char> },
    InvalidTimestamp(u64),
    InvalidRandom,
    UuidError(Seq<char>),
    ConversionError(Seq<char>),
}

impl View for Error {
    type V = ErrorView;

    open spec fn view(&self) -> ErrorView {
        match self {
            Error::InvalidFlake => ErrorView::InvalidFlake,
            Error::ParseError { input, reason } => ErrorView::ParseError {
                input: input@,
                reason: reason@,
            },
            Error::InvalidTimestamp(timestamp) => ErrorView::InvalidTimestamp(*timestamp),
            Error::InvalidRandom => ErrorView::InvalidRandom,
            Error::UuidError(details) => ErrorView::UuidError(details@),
            Error::ConversionError(details) => ErrorView::ConversionError(details@),
        }
    }
}

impl ErrorView {
    /// The message that describes the failure to a reader.
    pub open spec fn message(self) -> Seq<char> {
        match self {
            ErrorView::InvalidFlake => "Invalid Timeflake: value out of valid range"@,
            ErrorView::ParseError { input, reason } => "Failed to parse '"@ + input
                + "' as Timeflake: "@ + reason,
            ErrorView::InvalidTimestamp(timestamp) => "Invalid timestamp: "@ + decimal_text(
                timestamp as nat,
            ) + " exceeds maximum allowed value"@,
            ErrorView::InvalidRandom => "Invalid random component: exceeds maximum allowed value"@,
            ErrorView::UuidError(details) => "UUID error: "@ + details,
            ErrorView::ConversionError(details) => "Conversion error: "@ + details,
        }
    }
}

impl Error {
    /// The message that describes the failure to a reader.
    pub fn to_string(&self) -> (message: String)
        ensures
            message@ == self@.message(),
    {
        match self {
            Error::InvalidFlake => "Invalid Timeflake: value out of valid range".to_owned(),
            Error::ParseError { input, reason } => {
                let mut message = "Failed to parse '".to_owned();
                message.append(input.as_str());
                message.append("' as Timeflake: ");
                message.append(reason.as_str());
                message
            },
            Error::InvalidTimestamp(timestamp) => {
                let mut message = "Invalid timestamp: ".to_owned();
                push_decimal(&mut message, *timestamp);
                message.append(" exceeds maximum allowed value");
                message
            },
            Error::InvalidRandom => {
                "Invalid random component: exceeds maximum allowed value".to_owned()
            },
            Error::UuidError(details) => {
                let mut message = "UUID error: ".to_owned();
                message.append(details.as_str());
                message
            },
            Error::ConversionError(details) => {
                let mut message = "Conversion error: ".to_owned();
                message.append(details.as_str());
                message
            },
        }
    }
}

/// The result of an operation that can fail with an [`Error`].
pub type Result<T> = core::result::Result<T, Error>;

} // verus!
