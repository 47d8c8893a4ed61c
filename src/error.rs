use vstd::prelude::*;

use vstd::string::StringExecFns;

use crate::apdu::DecodeError;
use crate::launch::{decimal, decimal_text};

verus! {

#[verifier::external_type_specification]
#[verifier::external_body]
pub struct ExIoError(std::io::Error);

#[verifier::external_type_specification]
#[verifier::external_body]
pub struct ExReqwestError(reqwest::Error);

/// Speculos client errors.
///
/// `IoError` and `NotReady` come from the emulator process; the others from talking to its
/// HTTP API.
#[derive(Debug)]
pub enum SpeculosError {
    /// System IO errors: launching or signalling the emulator process.
    IoError(std::io::Error),
    /// HTTP errors from `reqwest`: the request failed, timed out, or its body was malformed.
    ReqwestError(reqwest::Error),
    /// The automation endpoint answered with a status outside the success range.
    Status(u16),
    /// The data of an APDU response is not valid hex text.
    Decode(DecodeError),
    /// The emulator's diagnostic stream ended before it announced readiness.
    NotReady,
}

/// Relies on `std::io::Error`'s `Display`: a description of the error, which may come from
/// the operating system.
#[verifier::external_body]
fn io_error_text(error: &std::io::Error) -> String {
    error.to_string()
}

/// Relies on `reqwest::Error`'s `Display`: a description of the failed request.
#[verifier::external_body]
fn reqwest_error_text(error: &reqwest::Error) -> String {
    error.to_string()
}

/// The message of each error that this library raises itself.
pub open spec fn own_message(e: SpeculosError) -> Seq<char> {
    match e {
        SpeculosError::Status(status) => "HTTP status "@ + decimal(status as nat),
        SpeculosError::Decode(DecodeError::OddLength) => "odd number of hex digits"@,
        SpeculosError::Decode(DecodeError::InvalidHexCharacter) => "invalid hex character"@,
        SpeculosError::NotReady => "emulator exited before it was ready"@,
        _ => Seq::empty(),
    }
}

impl SpeculosError {
    /// A human-readable description of the error. System and HTTP errors are described by
    /// their own messages.
    pub fn message(&self) -> (r: String)
        ensures
            !(self is IoError) && !(self is ReqwestError) ==> r@ == own_message(*self),
    {
        match self {
            SpeculosError::IoError(error) => io_error_text(error),
            SpeculosError::ReqwestError(error) => reqwest_error_text(error),
            SpeculosError::Status(status) => {
                let mut text = "HTTP status ".to_owned();
                text.append(decimal_text(*status).as_str());
                text
            },
            SpeculosError::Decode(DecodeError::OddLength) => "odd number of hex digits".to_owned(),
            SpeculosError::Decode(DecodeError::InvalidHexCharacter) => "invalid hex character".to_owned(),
            SpeculosError::NotReady => "emulator exited before it was ready".to_owned(),
        }
    }
}

impl From<std::io::Error> for SpeculosError {
    fn from(value: std::io::Error) -> (r: Self)
        ensures
            r == SpeculosError::IoError(value),
    {
        SpeculosError::IoError(value)
    }
}

impl vstd::std_specs::convert::FromSpecImpl<std::io::Error> for SpeculosError {
    open spec fn obeys_from_spec() -> bool {
        true
    }

    open spec fn from_spec(v: std::io::Error) -> Self {
        SpeculosError::IoError(v)
    }
}

impl From<reqwest::Error> for SpeculosError {
    fn from(value: reqwest::Error) -> (r: Self)
        ensures
            r == SpeculosError::ReqwestError(value),
    {
        SpeculosError::ReqwestError(value)
    }
}

impl vstd::std_specs::convert::FromSpecImpl<reqwest::Error> for SpeculosError {
    open spec fn obeys_from_spec() -> bool {
        true
    }

    open spec fn from_spec(v: reqwest::Error) -> Self {
        SpeculosError::ReqwestError(v)
    }
}

} // verus!
