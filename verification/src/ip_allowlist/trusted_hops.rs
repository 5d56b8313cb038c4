//! Trusted-proxy-hop configuration for client IP resolution.
//!
//! The service is meant to run behind a reverse proxy / load balancer that
//! terminates client connections and appends the peer address to
//! `X-Forwarded-For`. The application cannot verify the network topology for
//! itself, so the number of trusted hops is configured explicitly rather than
//! inferred. A value of `0` means "no proxy in front of us": the direct peer
//! address is the client and `X-Forwarded-For` is ignored entirely.

use vstd::prelude::*;

verus! {

/// Number of trusted proxy hops in front of this service.
///
/// This is the count of proxies between the client and this service whose
/// `X-Forwarded-For` entries may be trusted. It must match the real
/// deployment topology; it is never derived from request data.
#[derive(Debug, Clone, Copy, PartialEq, Eq, Structural)]
pub struct TrustedHops(usize);

impl TrustedHops {
    /// The configured hop count.
    pub closed spec fn hops(self) -> nat {
        self.0 as nat
    }

    /// No proxy in front of the service. The direct peer is the client and
    /// `X-Forwarded-For` is not trusted at all.
    pub fn none() -> (t: TrustedHops)
        ensures
            t.hops() == 0,
    {
        TrustedHops(0)
    }

    /// A single trusted reverse proxy / load balancer in front of the service.
    pub fn single_proxy() -> (t: TrustedHops)
        ensures
            t.hops() == 1,
    {
        TrustedHops(1)
    }

    /// Construct from an explicit, configured hop count.
    pub fn new(hops: usize) -> (t: TrustedHops)
        ensures
            t.hops() == hops,
    {
        TrustedHops(hops)
    }

    /// The configured number of trusted hops.
    pub fn get(self) -> (n: usize)
        ensures
            n == self.hops(),
    {
        self.0
    }

    /// Whether any proxy hop is trusted. When `false`, forwarded headers must
    /// be ignored and the direct peer address used instead.
    pub fn trusts_any_proxy(self) -> (b: bool)
        ensures
            b == (self.hops() > 0),
    {
        self.0 > 0
    }
}

impl Default for TrustedHops {
    /// Defaults to trusting a single proxy, matching the documented topology.
    /// Deployments without a proxy must set [`TrustedHops::none`] explicitly.
    fn default() -> (t: TrustedHops)
        ensures
            t.hops() == 1,
    {
        TrustedHops::single_proxy()
    }
}

impl From<usize> for TrustedHops {
    fn from(hops: usize) -> (t: TrustedHops)
        ensures
            t.hops() == hops,
    {
        TrustedHops::new(hops)
    }
}

impl vstd::std_specs::convert::FromSpecImpl<usize> for TrustedHops {
    open spec fn obeys_from_spec() -> bool {
        true
    }

    closed spec fn from_spec(hops: usize) -> TrustedHops {
        TrustedHops(hops)
    }
}

} // verus!
