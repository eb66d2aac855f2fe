//! The one error type that every entry point reports.

use cosmwasm_std::StdError;
use vstd::prelude::*;

verus! {

/// `cosmwasm_std::StdError`, carried through as it is: nothing here looks inside.
#[verifier::external_type_specification]
#[verifier::external_body]
pub struct ExStdError(StdError);

/// The entry points that a contract may leave out.
#[derive(Clone, Copy, Debug, PartialEq, Eq, Structural)]
pub enum EntryPoint {
    Sudo,
    Reply,
    Migrate,
}

/// Why a call failed. Callers are owed no more than the rendered cause, see
/// [`Error::message`]; the variants say where the failure arose.
#[derive(Debug)]
pub enum Error {
    /// The payload was not a well-formed message of the entry point.
    Decoding(StdError),
    /// The handler ran and reported this cause.
    Logic(String),
    /// The handler ran and reported this error of `cosmwasm_std`.
    Std(StdError),
    /// The contract has no handler for the entry point.
    NotImplemented(EntryPoint),
}

/// The text that `StdError` displays as.
pub uninterp spec fn std_error_text(err: StdError) -> Seq<char>;

/// Renders a `StdError` with its `Display`, through `to_string`: the result
/// is the displayed text.
#[verifier::external_body]
fn describe(err: &StdError) -> (out: String)
    ensures
        out@ == std_error_text(*err),
{
    err.to_string()
}

/// The fixed diagnostic for a missing entry point.
pub open spec fn missing_text(entry: EntryPoint) -> Seq<char> {
    match entry {
        EntryPoint::Sudo => "Sudo not implemented on the contract"@,
        EntryPoint::Reply => "Reply not implemented on the contract"@,
        EntryPoint::Migrate => "Migrate not implemented on the contract"@,
    }
}

impl Error {
    /// The cause, as a caller reads it.
    pub open spec fn text(&self) -> Seq<char> {
        match self {
            Error::Decoding(err) => std_error_text(*err),
            Error::Logic(cause) => cause@,
            Error::Std(err) => std_error_text(*err),
            Error::NotImplemented(entry) => missing_text(*entry),
        }
    }

    /// Renders the cause.
    pub fn message(&self) -> (out: String)
        ensures
            out@ == self.text(),
    {
        match self {
            Error::Decoding(err) => describe(err),
            Error::Logic(cause) => cause.clone(),
            Error::Std(err) => describe(err),
            Error::NotImplemented(EntryPoint::Sudo) => "Sudo not implemented on the contract".to_string(),
            Error::NotImplemented(EntryPoint::Reply) => "Reply not implemented on the contract".to_string(),
            Error::NotImplemented(EntryPoint::Migrate) => "Migrate not implemented on the contract".to_string(),
        }
    }
}

/// `From<T> for T` of the standard library is the identity: a handler that
/// already reports the uniform error has it passed on as it is.
pub assume_specification<V>[ <V as core::convert::From<V>>::from ](value: V) -> (out: V)
    ensures
        out == value,
;

/// A handler that reports its failures as text needs no conversion of its
/// own: the text becomes the cause.
impl From<String> for Error {
    fn from(cause: String) -> (out: Error) {
        Error::Logic(cause)
    }
}

impl vstd::std_specs::convert::FromSpecImpl<String> for Error {
    open spec fn obeys_from_spec() -> bool {
        true
    }

    open spec fn from_spec(cause: String) -> Error {
        Error::Logic(cause)
    }
}

/// A handler that reports `cosmwasm_std`'s error needs no conversion of its
/// own either: the error is kept as the handler's.
impl From<StdError> for Error {
    fn from(err: StdError) -> (out: Error) {
        Error::Std(err)
    }
}

impl vstd::std_specs::convert::FromSpecImpl<StdError> for Error {
    open spec fn obeys_from_spec() -> bool {
        true
    }

    open spec fn from_spec(err: StdError) -> Error {
        Error::Std(err)
    }
}

} // verus!
