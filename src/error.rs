//! The error taxonomy shared by every client operation.
use vstd::prelude::*;

verus! {

/// A transport-level failure reported by the HTTP client.
#[verifier::external_type_specification]
#[verifier::external_body]
pub struct ExTransportError(reqwest::Error);

/// A JSON syntax error reported by the JSON parser.
#[verifier::external_type_specification]
#[verifier::external_body]
pub struct ExJsonError(serde_json::Error);

/// Errors returned by client operations.
#[derive(Debug)]
pub enum ClientError {
    /// Base URL is not a valid absolute URL.
    InvalidBaseUrl(String),
    /// Endpoint path could not be joined to the base URL.
    InvalidPath(String),
    /// The operation id is not in the catalog, or its method is not a valid HTTP method.
    UnknownOperation(String),
    /// A required path template parameter was not provided.
    MissingPathParameter { operation_id: String, parameter: String },
    /// HTTP transport-layer failure.
    Request(reqwest::Error),
    /// Response body could not be parsed as JSON.
    Json(serde_json::Error),
    /// Non-success HTTP status, with the response text kept verbatim.
    HttpStatus { status: u16, body: String },
}

/// `e` is `InvalidBaseUrl` carrying `url`.
pub open spec fn is_invalid_base_url(e: ClientError, url: Seq<char>) -> bool {
    e matches ClientError::InvalidBaseUrl(u) && u@ == url
}

/// `e` is `InvalidPath` carrying `path`.
pub open spec fn is_invalid_path(e: ClientError, path: Seq<char>) -> bool {
    e matches ClientError::InvalidPath(p) && p@ == path
}

/// `e` is `UnknownOperation` carrying `id`.
pub open spec fn is_unknown_operation(e: ClientError, id: Seq<char>) -> bool {
    e matches ClientError::UnknownOperation(o) && o@ == id
}

/// `e` is `MissingPathParameter` naming operation `id` and parameter `param`.
pub open spec fn is_missing_parameter(e: ClientError, id: Seq<char>, param: Seq<char>) -> bool {
    e matches ClientError::MissingPathParameter { operation_id, parameter } && operation_id@ == id
        && parameter@ == param
}

/// `e` is `HttpStatus` carrying `status` and the response text `body`.
pub open spec fn is_http_status(e: ClientError, status: u16, body: Seq<char>) -> bool {
    e matches ClientError::HttpStatus { status: s, body: b } && s == status && b@ == body
}

} // verus!
