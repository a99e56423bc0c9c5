use vstd::prelude::*;
use crate::model::{
    ServiceError, TunnelError, TunnelLocator, TunnelRecord, get_host_token_from_tunnel,
};

verus! {

/// Provides a fixed token, never refreshing it.
pub struct StaticAccessTokenProvider(pub String);

impl StaticAccessTokenProvider {
    pub fn new(token: String) -> (r: Self)
        ensures
            r.0@ == token@,
    {
        StaticAccessTokenProvider(token)
    }

    /// The fixed token; never fails.
    pub fn refresh_token(&self) -> (r: Result<String, TunnelError>)
        ensures
            r is Ok && r->Ok_0@ == self.0@,
    {
        Ok(self.0.clone())
    }
}

/// Where the next token comes from.
pub enum TokenSource {
    /// This token, without a remote call.
    Ready(String),
    /// A lookup of the host-scoped token of the tunnel at this locator.
    Lookup(TunnelLocator),
}

/// Provides the host token of a tunnel by looking it up remotely. A token
/// already at hand (right after the tunnel was created) serves the first request.
pub struct LookupAccessTokenProvider {
    pub locator: TunnelLocator,
    pub initial_token: Option<String>,
}

impl LookupAccessTokenProvider {
    pub fn new(locator: TunnelLocator, initial_token: Option<String>) -> (r: Self)
        ensures
            r.locator == locator,
            r.initial_token == initial_token,
    {
        LookupAccessTokenProvider { locator, initial_token }
    }

    /// Starts a refresh: hands out the initial token once, and asks for a lookup
    /// on every later refresh.
    pub fn begin_refresh(&mut self) -> (r: TokenSource)
        ensures
            final(self).initial_token is None,
            final(self).locator == old(self).locator,
            old(self).initial_token is Some ==> r == TokenSource::Ready(old(self).initial_token->0),
            old(self).initial_token is None ==> r is Lookup && r->Lookup_0.cluster@
                == old(self).locator.cluster@ && r->Lookup_0.id@ == old(self).locator.id@,
    {
        match self.initial_token.take() {
            Some(t) => TokenSource::Ready(t),
            None => TokenSource::Lookup(
                TunnelLocator { cluster: self.locator.cluster.clone(), id: self.locator.id.clone() },
            ),
        }
    }

    /// Finishes a refresh from the outcome of the lookup.
    pub fn finish_refresh(lookup: Result<TunnelRecord, ServiceError>) -> (r: Result<String, TunnelError>)
        ensures
            lookup is Ok && lookup->Ok_0.host_token is Some ==> r is Ok && r->Ok_0@
                == lookup->Ok_0.host_token->0@,
            lookup is Ok && lookup->Ok_0.host_token is None ==> r == Err::<String, TunnelError>(
                TunnelError::MissingHostToken,
            ),
            lookup is Err ==> r is Err && r->Err_0 is Remote && r->Err_0->Remote_1 == lookup->Err_0,
    {
        match lookup {
            Ok(t) => get_host_token_from_tunnel(&t),
            Err(e) => Err(TunnelError::Remote(String::from_str("failed to lookup tunnel"), e)),
        }
    }
}

} // verus!
