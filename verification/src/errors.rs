//! The error taxonomy: validation failures caught before any network call,
//! transport failures, rejected HTTP statuses, and undecodable bodies; each
//! carries a human-readable message that replaces any prior one.

use vstd::prelude::*;
use vstd::string::StringExecFns;
use crate::text::{dec_chars, u16_to_string};

verus! {

/// The input a validation error complains about.
#[derive(PartialEq, Eq, Structural, Clone, Copy, Debug)]
pub enum Field {
    Endpoint,
    Username,
    Password,
    OtpCode,
    CodeCount,
}

/// What went wrong with an action. Failures are local to the action that
/// triggered them: no error corrupts previously loaded state.
#[derive(PartialEq, Eq, Structural, Clone, Copy, Debug)]
pub enum ApiError {
    /// A required input is empty or out of range; nothing was sent.
    Validation(Field),
    /// The transport failed: no HTTP response arrived.
    Network,
    /// The backend answered with the given non-success status.
    Server(u16),
    /// The backend answered success with a body the client cannot read.
    Decode,
}

/// The message of each error.
pub open spec fn message_of(e: ApiError) -> Seq<char> {
    match e {
        ApiError::Validation(Field::Endpoint) => "Please enter a valid invite manager endpoint."@,
        ApiError::Validation(Field::Username) => "Please enter a valid username."@,
        ApiError::Validation(Field::Password) => "Please enter a valid password."@,
        ApiError::Validation(Field::OtpCode) => "Please enter a 2FA code."@,
        ApiError::Validation(Field::CodeCount) => "Please enter a valid number of codes."@,
        ApiError::Network => "An error occurred connecting to the server. Please check the invite manager endpoint and try again."@,
        ApiError::Server(s) => "Received HTTP Status: "@ + dec_chars(s as nat),
        ApiError::Decode => "The server response could not be decoded."@,
    }
}

impl ApiError {
    /// The human-readable message that the frontend shows for this error.
    pub fn message(&self) -> (r: String)
        ensures
            r@ == message_of(*self),
    {
        match self {
            ApiError::Validation(Field::Endpoint) => "Please enter a valid invite manager endpoint.".to_owned(),
            ApiError::Validation(Field::Username) => "Please enter a valid username.".to_owned(),
            ApiError::Validation(Field::Password) => "Please enter a valid password.".to_owned(),
            ApiError::Validation(Field::OtpCode) => "Please enter a 2FA code.".to_owned(),
            ApiError::Validation(Field::CodeCount) => "Please enter a valid number of codes.".to_owned(),
            ApiError::Network => "An error occurred connecting to the server. Please check the invite manager endpoint and try again.".to_owned(),
            ApiError::Server(s) => {
                let front = "Received HTTP Status: ".to_owned();
                front.concat(u16_to_string(*s).as_str())
            },
            ApiError::Decode => "The server response could not be decoded.".to_owned(),
        }
    }
}

} // verus!
