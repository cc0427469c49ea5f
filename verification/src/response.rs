//! The shape of an HTTP answer the correlators hand back to the transport:
//! a status code and a plain-text body.

use vstd::prelude::*;

verus! {

/// An HTTP answer: the status code and the body to send.
pub struct HttpResponse {
    pub status: u16,
    pub body: String,
}

} // verus!
