//! The retrieval gate of the pull variant: an API-key-gated endpoint that
//! lets the original application consume a stored result by token, at most
//! once.

use vstd::prelude::*;

use crate::auth::{key_accepted, key_listed};
use crate::json::{json_string, json_string_of};
use crate::response::HttpResponse;
use crate::state::State;

verus! {

/// The query parameter of the retrieval endpoint.
pub struct RetrievalParams {
    pub state: String,
}

/// Exactly what retrieval must do: a missing or unaccepted key is turned
/// away with `400` and consumes nothing; an accepted key takes the stored
/// result under `state` — a second retrieval, like a probe of a token never
/// stored, finds nothing — and answers `200` with the code as a JSON string
/// literal, or with JSON `null` when none is stored.
pub open spec fn retrieval_post(
    m0: Map<Seq<char>, String>,
    keys: Seq<String>,
    api_key: Option<String>,
    state: Seq<char>,
    m1: Map<Seq<char>, String>,
    r: HttpResponse,
) -> bool {
    match api_key {
        None => r.status == 400 && r.body@ == "No X-Api-Key present"@ && m1 == m0,
        Some(k) => if key_listed(keys, k@) {
            &&& m1 == m0.remove(state)
            &&& r.status == 200
            &&& if m0.contains_key(state) {
                r.body@ == json_string_of(m0[state]@)
            } else {
                r.body@ == "null"@
            }
        } else {
            r.status == 400 && r.body@ == "X-Api-Key doesn't match"@ && m1 == m0
        },
    }
}

impl State {
    /// Consumes and returns the stored result for `params.state`, gated by
    /// the `x-api-key` header value the transport hands in.
    pub fn handle_retrieval(&mut self, api_key: Option<String>, params: &RetrievalParams) -> (r:
        HttpResponse)
        ensures
            final(self).api_keys == old(self).api_keys,
            retrieval_post(
                old(self).received_users@,
                old(self).api_keys@,
                api_key,
                params.state@,
                final(self).received_users@,
                r,
            ),
    {
        let key = match api_key {
            None => {
                return HttpResponse { status: 400, body: "No X-Api-Key present".to_owned() };
            },
            Some(k) => k,
        };
        if !key_accepted(&self.api_keys, &key) {
            return HttpResponse { status: 400, body: "X-Api-Key doesn't match".to_owned() };
        }
        match self.received_users.remove(&params.state) {
            Some(code) => HttpResponse { status: 200, body: json_string(code.as_str()) },
            None => HttpResponse { status: 200, body: "null".to_owned() },
        }
    }
}

} // verus!
