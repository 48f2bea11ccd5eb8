//! The closed set of failures that the client reports.
use vstd::prelude::*;
use reqwest::header::InvalidHeaderValue;

verus! {

#[verifier::external_type_specification]
#[verifier::external_body]
pub struct ExReqwestError(reqwest::Error);

#[verifier::external_type_specification]
#[verifier::external_body]
pub struct ExUrlParseError(url::ParseError);

#[verifier::external_type_specification]
#[verifier::external_body]
pub struct ExJsonError(serde_json::Error);

/// Errors that can occur when using the QStash client.
#[derive(Debug)]
pub enum QStashError {
    /// The HTTP transport failed, or the service answered with a failure status.
    ClientError(reqwest::Error),
    /// A token or a settings value cannot stand in an HTTP header.
    InvalidHeaderValue(InvalidHeaderValue),
    /// An endpoint address could not be formed.
    UrlError(url::ParseError),
    /// A body could not be encoded or decoded as JSON.
    SerdeError(serde_json::Error),
    /// A failure of no other kind.
    Unknown,
}

} // verus!
