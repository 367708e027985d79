use vstd::prelude::*;

verus! {

/// serde_json's error type, carried through unread.
#[verifier::external_type_specification]
#[verifier::external_body]
pub struct ExJsonError(serde_json::Error);

/// reqwest's error type, carried through unread.
#[verifier::external_type_specification]
#[verifier::external_body]
pub struct ExHttpError(reqwest::Error);

/// The ways a trigger or resolve call can fail.
#[derive(Debug)]
pub enum EventError {
    /// The request document could not be encoded as JSON.
    Encoding(serde_json::Error),
    /// The transport failed (connection, TLS, timeout); holds the cause.
    Transport(reqwest::Error),
    /// The service answered with a status other than 202 Accepted.
    UnexpectedStatus(u16),
}

} // verus!
