//! The one-time decision to register a proxy-capable network transport.
use vstd::prelude::*;

verus! {

/// Startup state of the network transport registration. Registration happens
/// at most once, and only when a proxy is configured and a network handle
/// could be built for it.
pub struct TransportBootstrap {
    pub registered: bool,
}

impl TransportBootstrap {
    pub fn new() -> (r: TransportBootstrap)
        ensures
            !r.registered,
    {
        TransportBootstrap { registered: false }
    }

    /// Whether a network handle should be built: only when a proxy is
    /// configured and nothing was registered yet.
    pub fn wants_handle(&self, proxy_configured: bool) -> (r: bool)
        ensures
            r == (proxy_configured && !self.registered),
    {
        proxy_configured && !self.registered
    }

    /// Records whether the handle was built. Returns whether it must now be
    /// registered; a handle that could not be built leaves the default
    /// transport in place.
    pub fn handle_ready(&mut self, handle_built: bool) -> (register: bool)
        requires
            !old(self).registered,
        ensures
            register == handle_built,
            final(self).registered == handle_built,
    {
        self.registered = handle_built;
        handle_built
    }
}

} // verus!
