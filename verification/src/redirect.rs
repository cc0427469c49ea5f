//! The redirect correlator: the provider's browser redirect arrives with
//! `state` and `code`, and the entry under `state` is taken from the
//! registry — exactly once — to deliver the code to the waiting client.
//!
//! A `200` answer guarantees the entry was consumed and the payload handed
//! to its send capability; a `400` answer guarantees nothing was consumed.

use vstd::prelude::*;

use crate::json::{delivery_payload, payload_of};
use crate::registry::Registry;
use crate::response::HttpResponse;

verus! {

/// The two query parameters of the redirect endpoint.
pub struct RedirectParams {
    pub state: String,
    pub code: String,
}

/// A delivery the transport still has to perform: the payload text to send
/// over the recovered send capability. A send failure is advisory only —
/// the entry is already consumed and the code is never replayed.
pub struct Delivery<S> {
    pub sink: S,
    pub payload: String,
}

/// The correlator's full answer: what to tell the browser, and the delivery
/// to perform if the token was registered.
pub struct RedirectReply<S> {
    pub response: HttpResponse,
    pub delivery: Option<Delivery<S>>,
}

/// Exactly what the correlator must do: take the entry under `state` out of
/// the registry; if one was there, answer `200` and deliver the payload
/// `{"code":…,"state":…}` over it, and otherwise — also when an earlier
/// redirect already consumed the token — answer `400` with nothing
/// delivered and nothing changed.
pub open spec fn redirect_post<S>(
    params: RedirectParams,
    reg0: Map<Seq<char>, S>,
    reg1: Map<Seq<char>, S>,
    r: RedirectReply<S>,
) -> bool {
    &&& reg1 == reg0.remove(params.state@)
    &&& if reg0.contains_key(params.state@) {
        &&& r.response.status == 200
        &&& r.response.body@ == "You may now close this tab"@
        &&& r.delivery matches Some(d) && d.sink == reg0[params.state@] && d.payload@
            == payload_of(params.code@, params.state@)
    } else {
        &&& r.response.status == 400
        &&& r.response.body@ == "state parameter not registered"@
        &&& r.delivery is None
    }
}

/// Takes the entry under `params.state` and prepares the delivery: the
/// single commit point of the whole flow.
pub fn handle_redirect<S>(reg: &mut Registry<S>, params: &RedirectParams) -> (r: RedirectReply<S>)
    ensures
        redirect_post(*params, old(reg)@, final(reg)@, r),
{
    match reg.remove(&params.state) {
        None => RedirectReply {
            response: HttpResponse {
                status: 400,
                body: "state parameter not registered".to_owned(),
            },
            delivery: None,
        },
        Some(sink) => {
            let payload = delivery_payload(params.code.as_str(), params.state.as_str());
            RedirectReply {
                response: HttpResponse { status: 200, body: "You may now close this tab".to_owned() },
                delivery: Some(Delivery { sink, payload }),
            }
        },
    }
}

} // verus!
