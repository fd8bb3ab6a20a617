//! The errors of the parsers.

use vstd::prelude::*;
use vstd::string::*;

verus! {

/// Why a text is not a playlist.
#[derive(Debug, PartialEq)]
pub enum Error {
    /// No lexical rule matches the text at some point. Holds the text from
    /// that point up to the next white space.
    Lex(String),
    /// A tag or attribute is not followed by a value of the kind it takes.
    /// Holds the name of the field.
    MissingValue(String),
    /// The value of an enumerated field is none of the field's enumeration:
    /// it is a literal of another kind, or text that is no token. Holds the
    /// name of the field.
    InvalidEnumeration(String),
    /// A number that is the value of no field does not fit a `usize`. Holds
    /// the literal.
    InvalidNumber(String),
    /// The value of a field is a number that does not fit a `usize`. Holds
    /// the name of the field and the literal.
    InvalidValue { field: String, literal: String },
    /// Any other failure, with a message.
    Generic(String),
}

/// The mathematical value of an [`Error`].
pub enum ErrorView {
    Lex(Seq<char>),
    MissingValue(Seq<char>),
    InvalidEnumeration(Seq<char>),
    InvalidNumber(Seq<char>),
    InvalidValue { field: Seq<char>, literal: Seq<char> },
    Generic(Seq<char>),
}

impl View for Error {
    type V = ErrorView;

    open spec fn view(&self) -> ErrorView {
        match self {
            Error::Lex(text) => ErrorView::Lex(text@),
            Error::MissingValue(field) => ErrorView::MissingValue(field@),
            Error::InvalidEnumeration(field) => ErrorView::InvalidEnumeration(field@),
            Error::InvalidNumber(text) => ErrorView::InvalidNumber(text@),
            Error::InvalidValue { field, literal } => ErrorView::InvalidValue {
                field: field@,
                literal: literal@,
            },
            Error::Generic(message) => ErrorView::Generic(message@),
        }
    }
}

impl ErrorView {
    /// The error as the value of the field `field` gives it: a number that
    /// does not fit is that field's; any other error is as it was.
    pub open spec fn attributed(self, field: Seq<char>) -> ErrorView {
        match self {
            ErrorView::InvalidNumber(literal) => ErrorView::InvalidValue { field, literal },
            other => other,
        }
    }

    /// The error in words.
    pub open spec fn message(self) -> Seq<char> {
        match self {
            ErrorView::Lex(text) => "Unrecognized input: "@ + text,
            ErrorView::MissingValue(field) => "Missing value: "@ + field,
            ErrorView::InvalidEnumeration(field) => "Invalid enumeration value: "@ + field,
            ErrorView::InvalidNumber(text) => "Invalid number: "@ + text,
            ErrorView::InvalidValue { field, literal } => "Invalid number for "@ + field + ": "@
                + literal,
            ErrorView::Generic(message) => "Generic Error: "@ + message,
        }
    }
}

impl Error {
    /// The error of a field that lacks its value.
    pub fn missing_value(field: &str) -> (error: Error)
        ensures
            error@ == ErrorView::MissingValue(field@),
    {
        Error::MissingValue(String::from_str(field))
    }

    /// The error of an enumerated field whose value is none of its enumeration.
    pub fn invalid_enumeration(field: &str) -> (error: Error)
        ensures
            error@ == ErrorView::InvalidEnumeration(field@),
    {
        Error::InvalidEnumeration(String::from_str(field))
    }

    /// The error as the value of the field `field` gives it.
    pub fn attributed(self, field: &str) -> (error: Error)
        ensures
            error@ == self@.attributed(field@),
    {
        match self {
            Error::InvalidNumber(literal) => Error::InvalidValue {
                field: String::from_str(field),
                literal,
            },
            other => other,
        }
    }

    /// The error in words.
    pub fn message(&self) -> (text: String)
        ensures
            text@ == self@.message(),
    {
        match self {
            Error::Lex(text) => String::from_str("Unrecognized input: ").concat(text.as_str()),
            Error::MissingValue(field) => String::from_str("Missing value: ").concat(
                field.as_str(),
            ),
            Error::InvalidEnumeration(field) => String::from_str(
                "Invalid enumeration value: ",
            ).concat(field.as_str()),
            Error::InvalidNumber(text) => String::from_str("Invalid number: ").concat(
                text.as_str(),
            ),
            Error::InvalidValue { field, literal } => String::from_str(
                "Invalid number for ",
            ).concat(field.as_str()).concat(": ").concat(literal.as_str()),
            Error::Generic(message) => String::from_str("Generic Error: ").concat(
                message.as_str(),
            ),
        }
    }
}

impl From<String> for Error {
    fn from(message: String) -> (error: Error) {
        Error::Generic(message)
    }
}

impl vstd::std_specs::convert::FromSpecImpl<String> for Error {
    open spec fn obeys_from_spec() -> bool {
        true
    }

    open spec fn from_spec(message: String) -> Error {
        Error::Generic(message)
    }
}

/// Turns the absence of a value into an error that names a field.
pub trait Context<T> {
    /// The value that `self` holds, or a [`Error::MissingValue`] for the field `context`.
    fn context(self, context: &str) -> (r: Result<T, Error>);
}

impl<T> Context<T> for Option<T> {
    fn context(self, context: &str) -> (r: Result<T, Error>)
        ensures
            match self {
                Some(value) => r == Ok::<T, Error>(value),
                None => r is Err && r->Err_0@ == ErrorView::MissingValue(context@),
            },
    {
        match self {
            Some(value) => Ok(value),
            None => Err(Error::missing_value(context)),
        }
    }
}

} // verus!
