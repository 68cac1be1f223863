//! The client side of the owner's HTTP surface: addresses, the reading of
//! a health probe and the wording of failures.

pub mod remote_store;

pub use remote_store::RemoteVectorStore;

use crate::text::{decimal, decimal_string, join, same_text};
use vstd::prelude::*;

verus! {

/// Host of the owner's HTTP surface when none is configured.
pub const DEFAULT_HOST: &'static str = "127.0.0.1";

/// Port of the owner's HTTP surface when none is configured.
pub const DEFAULT_PORT: u16 = 3200;

/// Time that a health probe may take, in seconds.
pub const PROBE_TIMEOUT_SECS: u64 = 2;

/// Time that a forwarded storage call may take, in seconds.
pub const REQUEST_TIMEOUT_SECS: u64 = 30;

/// The status code of a successful answer.
pub const HTTP_OK: u16 = 200;

/// The base address of a service.
pub open spec fn service_url(host: Seq<char>, port: u16) -> Seq<char> {
    "http://"@ + host + ":"@ + decimal(port as nat)
}

/// The address of the health endpoint of a service.
pub open spec fn health_url(host: Seq<char>, port: u16) -> Seq<char> {
    service_url(host, port) + "/health"@
}

/// An owner is healthy if and only if its answer is a success and the
/// answer's body reports the status `healthy`.
pub open spec fn healthy(status: u16, reported: Option<Seq<char>>) -> bool {
    status == HTTP_OK && reported == Some("healthy"@)
}

/// Builds the base address of a service.
pub fn get_service_url(host: &str, port: u16) -> (url: String)
    ensures
        url@ == service_url(host@, port),
{
    let mut url = "http://".to_owned();
    url.append(host);
    url.append(":");
    url.append(decimal_string(port as usize).as_str());
    url
}

/// Builds the address of the health endpoint of a service.
pub fn get_health_url(host: &str, port: u16) -> (url: String)
    ensures
        url@ == health_url(host@, port),
{
    let mut url = get_service_url(host, port);
    url.append("/health");
    url
}

/// Reads the answer of a health probe: the status code and, where the
/// body could be parsed, the status that it reports.
pub fn is_healthy(status: u16, reported: Option<&str>) -> (r: bool)
    ensures
        r == healthy(
            status,
            match reported {
                Some(s) => Some(s@),
                None => None,
            },
        ),
{
    if status != HTTP_OK {
        return false;
    }
    match reported {
        Some(s) => same_text(s, "healthy"),
        None => false,
    }
}

/// Error body of the service.
#[derive(Debug)]
pub struct ErrorResponse {
    pub error: String,
    pub code: String,
}

/// How a request to the service failed.
#[derive(Debug)]
pub enum HttpFailure {
    /// The service answered with an error status; the body is there if it
    /// could be parsed.
    Status { code: u16, body: Option<ErrorResponse> },
    /// The request did not get through.
    Transport(String),
}

/// The words for a failed request.
pub open spec fn failure_text(failure: HttpFailure) -> Seq<char> {
    match failure {
        HttpFailure::Status { code, body } => match body {
            Some(b) => "HTTP "@ + decimal(code as nat) + " - "@ + b.code@ + ": "@ + b.error@,
            None => "HTTP error: "@ + decimal(code as nat),
        },
        HttpFailure::Transport(detail) => "Transport error: "@ + detail@,
    }
}

/// Puts a failed request into words.
pub fn handle_http_error(error: HttpFailure) -> (text: String)
    ensures
        text@ == failure_text(error),
{
    match error {
        HttpFailure::Status { code, body } => match body {
            Some(b) => {
                let mut text = "HTTP ".to_owned();
                text.append(decimal_string(code as usize).as_str());
                text.append(" - ");
                text.append(b.code.as_str());
                text.append(": ");
                text.append(b.error.as_str());
                text
            },
            None => join("HTTP error: ", decimal_string(code as usize).as_str()),
        },
        HttpFailure::Transport(detail) => join("Transport error: ", detail.as_str()),
    }
}

} // verus!
