//! SDK error types.

use vstd::prelude::*;

verus! {

/// The error type of `tungstenite`, carried unchanged.
#[verifier::external_type_specification]
#[verifier::external_body]
pub struct ExWsError(tokio_tungstenite::tungstenite::Error);

/// The error type of `reqwest`, carried unchanged.
#[verifier::external_type_specification]
#[verifier::external_body]
pub struct ExHttpError(reqwest::Error);

/// The error type of `serde_json`, carried unchanged.
#[verifier::external_type_specification]
#[verifier::external_body]
pub struct ExJsonError(serde_json::Error);

/// Errors that can occur during SDK operations.
#[derive(Debug)]
pub enum SdkError {
    /// WebSocket connection error
    WebSocket(tokio_tungstenite::tungstenite::Error),
    /// HTTP request error
    Http(reqwest::Error),
    /// JSON serialization/deserialization error
    Json(serde_json::Error),
    /// Authentication failed
    Auth(String),
    /// Agent is not connected
    NotConnected,
    /// Content validation error
    Validation(String),
    /// Generic error
    Other(String),
}

} // verus!
