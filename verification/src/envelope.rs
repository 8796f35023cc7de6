//! The attested envelope and the fetch program's decision: a successful
//! fetch is sealed together with the commitment of the identifier that
//! produced it; a failed fetch attests nothing.

use vstd::prelude::*;
use crate::hashing::{generate_request_hash, request_hash_of};

verus! {

/// The structured result of the HTTP fetch.
#[derive(Debug)]
pub struct ApiResponse {
    pub some_response_param: String,
}

/// Pairs a fetched payload with the commitment computed from the request
/// identifier that produced it. This is the unit carried inside the proof
/// journal, across the trust boundary.
#[derive(Debug)]
pub struct VerifiedResponse {
    pub response: ApiResponse,
    pub request_hash: String,
}

impl VerifiedResponse {
    /// The envelope's trust property: its commitment equals the commitment
    /// of the given request identifier.
    pub open spec fn attests(self, url: Seq<char>) -> bool {
        self.request_hash@ == request_hash_of(url)
    }
}

/// Seals a fetched payload together with the commitment of the identifier
/// that produced it.
pub fn seal_response(response: ApiResponse, url: &str) -> (r: VerifiedResponse)
    ensures
        r.response == response,
        r.attests(url@),
{
    let request_hash = generate_request_hash(url);
    VerifiedResponse { response, request_hash }
}

/// The fetch program's only success path: a successful fetch yields an
/// envelope that attests to the identifier; every failure yields nothing,
/// so no envelope can ever exist for a failed fetch.
pub fn attest_fetch(outcome: Result<ApiResponse, String>, url: &str) -> (r: Option<
    VerifiedResponse,
>)
    ensures
        match outcome {
            Ok(response) => (r matches Some(env) && env.response == response && env.attests(
                url@,
            )),
            Err(_) => r is None,
        },
{
    match outcome {
        Ok(response) => Some(seal_response(response, url)),
        Err(_) => None,
    }
}

} // verus!
