//! The error taxonomy surfaced by this crate.

use vstd::prelude::*;

verus! {

/// The common error type returned by this crate.
///
/// Every failure surfaced to a caller is one of these variants; no opaque
/// error leaks out of the execution layer. Variants that wrap an underlying
/// failure carry its rendered message so the cause stays available for
/// diagnostics.
#[allow(inconsistent_fields)]
#[derive(Debug)]
pub enum ClientError {
    /// The Consul server returned an error response; carries the HTTP status
    /// code and the response body (when it was valid UTF-8).
    APIError { code: u16, message: Option<String> },
    /// A Base64-encoded value failed to decode.
    Base64DecodeError { message: String },
    /// A typed read found no entries to decode.
    EmptyResponseError,
    /// A file could not be read while building a client.
    FileReadError { message: String, path: String },
    /// A response body did not match the declared response shape.
    JsonDeserializeError { message: String },
    /// A request payload could not be encoded.
    JsonSerializeError { message: String },
    /// A CA or client certificate could not be parsed while building a client.
    ParseCertificateError { message: String, path: String },
    /// The request returned an empty response where a body was required.
    ResponseEmptyError,
    /// The transport failed before a response was obtained.
    RestClientError { message: String },
    /// The backing HTTP client could not be built.
    RestClientBuildError { message: String },
    /// Bytes that should have been UTF-8 text were not.
    Utf8DecodeError { message: String },
}

impl ClientError {
    /// A short human-readable description of the error, in place of `Display`:
    /// the wrapped cause where one was recorded, a fixed sentence otherwise.
    pub fn message(&self) -> (r: String)
        ensures
            r@ == (match self {
                ClientError::APIError { message: Some(m), .. } => m@,
                ClientError::APIError { message: None, .. } => {
                    "the Consul server returned an error"@
                },
                ClientError::Base64DecodeError { message } => message@,
                ClientError::EmptyResponseError => "empty response"@,
                ClientError::FileReadError { message, .. } => message@,
                ClientError::JsonDeserializeError { message } => message@,
                ClientError::JsonSerializeError { message } => message@,
                ClientError::ParseCertificateError { message, .. } => message@,
                ClientError::ResponseEmptyError => "the request returned an empty response"@,
                ClientError::RestClientError { message } => message@,
                ClientError::RestClientBuildError { message } => message@,
                ClientError::Utf8DecodeError { message } => message@,
            }),
    {
        match self {
            ClientError::APIError { message, .. } => match message {
                Some(m) => m.clone(),
                None => String::from_str("the Consul server returned an error"),
            },
            ClientError::Base64DecodeError { message } => message.clone(),
            ClientError::EmptyResponseError => String::from_str("empty response"),
            ClientError::FileReadError { message, .. } => message.clone(),
            ClientError::JsonDeserializeError { message } => message.clone(),
            ClientError::JsonSerializeError { message } => message.clone(),
            ClientError::ParseCertificateError { message, .. } => message.clone(),
            ClientError::ResponseEmptyError => String::from_str(
                "the request returned an empty response",
            ),
            ClientError::RestClientError { message } => message.clone(),
            ClientError::RestClientBuildError { message } => message.clone(),
            ClientError::Utf8DecodeError { message } => message.clone(),
        }
    }

    /// True for errors reported by the remote API itself, as opposed to
    /// failures of the transport or of local (de)serialization.
    pub fn is_api_error(&self) -> (r: bool)
        ensures
            r == (self matches ClientError::APIError { .. }),
    {
        match self {
            ClientError::APIError { .. } => true,
            _ => false,
        }
    }
}

} // verus!
