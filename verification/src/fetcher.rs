//! The remote-fetch boundary: what the worker asks of the transport and
//! how it judges what came back.
//!
//! The transport performs a single GET with a fixed User-Agent header
//! and a deadline measured from the moment of invocation; no retry
//! happens inside a call — the next periodic invocation is the retry
//! mechanism. A fetch cancelled mid-flight yields no partial result.

use vstd::prelude::*;

use crate::errors::NetworkError;

verus! {

/// The two fixed endpoints the worker fetches.
#[derive(Clone, Copy, PartialEq, Eq, Structural, Debug)]
pub enum Endpoint {
    /// The price document: `{"data":{"name":…,"priceUsd":…}}`.
    Price,
    /// The metadata document: `{"login":…,"blog":…,"public_repos":…}`.
    Metadata,
}

/// A request handed to the transport.
#[derive(Clone, Copy, PartialEq, Eq, Structural, Debug)]
pub struct HttpRequest {
    pub endpoint: Endpoint,
    pub deadline_ms: u64,
}

/// What the transport reports back for a request.
pub enum FetchOutcome {
    /// The deadline elapsed before a response was received.
    TimedOut,
    /// A lower-level network failure.
    TransportFailed,
    /// A response arrived, with its HTTP status and body.
    Responded { status: u32, body: Vec<u8> },
}

/// Build the request for `endpoint` under the given deadline.
pub fn build_request(endpoint: Endpoint, deadline_ms: u64) -> (r: HttpRequest)
    ensures
        r == (HttpRequest { endpoint, deadline_ms }),
{
    HttpRequest { endpoint, deadline_ms }
}

/// Judge what the transport reported: only a status-200 response yields
/// its body; a timeout, a transport failure and any other status each
/// map to their own recoverable error.
pub fn classify_response(outcome: FetchOutcome) -> (r: Result<Vec<u8>, NetworkError>)
    ensures
        match outcome {
            FetchOutcome::TimedOut => r == Err::<Vec<u8>, NetworkError>(NetworkError::Timeout),
            FetchOutcome::TransportFailed => r == Err::<Vec<u8>, NetworkError>(
                NetworkError::Transport,
            ),
            FetchOutcome::Responded { status, body } => if status == 200 {
                r matches Ok(b) && b@ == body@
            } else {
                r == Err::<Vec<u8>, NetworkError>(NetworkError::UnexpectedStatus)
            },
        },
{
    match outcome {
        FetchOutcome::TimedOut => Err(NetworkError::Timeout),
        FetchOutcome::TransportFailed => Err(NetworkError::Transport),
        FetchOutcome::Responded { status, body } => {
            if status == 200 {
                Ok(body)
            } else {
                Err(NetworkError::UnexpectedStatus)
            }
        },
    }
}

} // verus!
