//! Connections to the node: the two transports, which endpoints they
//! take, and the chain identifier learned over them.

use crate::error::HarnessError;
use ethers::providers::{Http, Provider};
use vstd::prelude::*;

verus! {

/// The transport a client speaks. A client is bound to exactly one.
#[derive(Clone, Copy, Debug, PartialEq, Eq, Structural)]
pub enum TransportKind {
    /// One request, one response, over HTTP. Nothing is exchanged before the first call.
    RequestResponse,
    /// A persistent socket, opened by a handshake.
    Streaming,
}

/// A client of the node, bound to one transport and the endpoint it speaks to.
#[derive(Debug)]
pub struct ConnectedClient {
    pub transport: TransportKind,
    /// The endpoint of that transport.
    pub url: String,
}

/// The text with which the request/response transport refuses `endpoint`
/// as the URL of a node: `None` where it takes it.
pub uninterp spec fn http_endpoint_refusal(endpoint: Seq<char>) -> Option<Seq<char>>;

/// `Provider::<Http>::try_from`, asked only whether it succeeds, and with
/// which error it does not.
///
/// Trusted: the refusal returned is the one named by
/// `http_endpoint_refusal`: the text of the provider's error, and none
/// where it succeeds. The provider parses the text as a URL and opens no
/// connection.
#[verifier::external_body]
fn refuse_http_endpoint(endpoint: &str) -> (refusal: Option<String>)
    ensures
        refusal is Some <==> http_endpoint_refusal(endpoint@) is Some,
        refusal matches Some(text) ==> http_endpoint_refusal(endpoint@) == Some(text@),
{
    match Provider::<Http>::try_from(endpoint) {
        Ok(_) => None,
        Err(error) => Some(error.to_string()),
    }
}

impl ConnectedClient {
    /// Whether `self` is a request/response client for `endpoint`.
    pub open spec fn is_request_response_for(self, endpoint: Seq<char>) -> bool {
        self.transport == TransportKind::RequestResponse && self.url@ == endpoint
    }

    /// Whether `self` is a streaming client for `endpoint`.
    pub open spec fn is_streaming_for(self, endpoint: Seq<char>) -> bool {
        self.transport == TransportKind::Streaming && self.url@ == endpoint
    }

    /// A request/response client for `endpoint`. Where the transport does
    /// not take the endpoint, a `ConnectionFailure` with the transport's
    /// own words.
    pub fn request_response(endpoint: &String) -> (client: Result<ConnectedClient, HarnessError>)
        ensures
            match http_endpoint_refusal(endpoint@) {
                None => client matches Ok(c) && c.is_request_response_for(endpoint@),
                Some(text) => client matches Err(HarnessError::ConnectionFailure { detail })
                    && detail@ == text,
            },
    {
        match refuse_http_endpoint(endpoint.as_str()) {
            None => Ok(
                ConnectedClient { transport: TransportKind::RequestResponse, url: endpoint.clone() },
            ),
            Some(detail) => Err(HarnessError::ConnectionFailure { detail }),
        }
    }

    /// A streaming client for `endpoint`, once the remote has taken the handshake.
    pub fn streaming(endpoint: &String) -> (client: ConnectedClient)
        ensures
            client.is_streaming_for(endpoint@),
    {
        ConnectedClient { transport: TransportKind::Streaming, url: endpoint.clone() }
    }
}

/// The chain identifier that a 256-bit quantity stands for, given as four
/// words from the lowest up: the lowest word where the others are zero,
/// and none where the quantity does not fit in 64 bits.
pub open spec fn chain_id_of(words: [u64; 4]) -> Option<u64> {
    if words@[1] == 0 && words@[2] == 0 && words@[3] == 0 {
        Some(words@[0])
    } else {
        None
    }
}

/// Narrows the quantity a node answered to a chain identifier.
pub fn narrow_chain_id(words: &[u64; 4]) -> (chain_id: Option<u64>)
    ensures
        chain_id == chain_id_of(*words),
{
    if words[1] == 0 && words[2] == 0 && words[3] == 0 {
        Some(words[0])
    } else {
        None
    }
}

} // verus!
