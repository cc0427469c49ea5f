//! The pull-variant server state: the accepted key set loaded once at
//! startup, and the results map holding each delivered code until the
//! client that started the flow comes back for it.

use vstd::prelude::*;

use crate::redirect::RedirectParams;
use crate::registry::Registry;
use crate::response::HttpResponse;

verus! {

/// The shared state of the pull variant: an immutable set of accepted keys
/// and the results map from correlation token to stored code.
pub struct State {
    pub received_users: Registry<String>,
    pub api_keys: Vec<String>,
}

impl State {
    /// A fresh state holding the accepted keys and no stored result.
    pub fn new(keys: Vec<String>) -> (s: Self)
        ensures
            s.api_keys == keys,
            s.received_users@ == Map::<Seq<char>, String>::empty(),
    {
        State { received_users: Registry::new(), api_keys: keys }
    }

    /// The pull-variant redirect: instead of delivering over a socket, the
    /// code is stored under its token — a later registration of the same
    /// token overwrites, the most recent one winning — and the browser is
    /// told to go poll.
    pub fn handle_redirect(&mut self, params: RedirectParams) -> (r: HttpResponse)
        ensures
            final(self).api_keys == old(self).api_keys,
            final(self).received_users@ == old(self).received_users@.insert(
                params.state@,
                params.code,
            ),
            r.status == 200,
            r.body@
                == "You may now close this tab, the application may take up to 5 seconds to refresh"@,
    {
        self.received_users.insert(params.state, params.code);
        HttpResponse {
            status: 200,
            body: "You may now close this tab, the application may take up to 5 seconds to refresh".to_owned(),
        }
    }
}

} // verus!
