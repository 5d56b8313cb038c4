//! IP allowlisting for admin routes and internal metrics endpoints.
//!
//! # Proxy topology
//!
//! This service runs behind a reverse proxy / load balancer that terminates
//! client connections and appends the peer address to `X-Forwarded-For`.
//! The number of trusted proxy hops in front of it is configured explicitly
//! (see [`trusted_hops`]). `X-Forwarded-For` is only honored when a proxy is
//! trusted; the client IP is then derived by walking the forwarded chain from
//! the trusted end (see [`resolve`]), so an external client cannot spoof an
//! allowlisted address.

pub mod resolve;
pub mod trusted_hops;

pub use resolve::resolve_client_ip;
pub use trusted_hops::TrustedHops;

use vstd::prelude::*;

use self::resolve::{resolve_spec, IpAddress};

verus! {

/// Allowlist of source IPs permitted to reach protected routes.
#[derive(Debug, Clone)]
pub struct IpAllowlist {
    allowed: Vec<IpAddress>,
    trusted_hops: TrustedHops,
}

impl IpAllowlist {
    /// The permitted addresses.
    pub closed spec fn allowed(&self) -> Seq<IpAddress> {
        self.allowed@
    }

    /// The configured trusted hop count.
    pub closed spec fn hops(&self) -> TrustedHops {
        self.trusted_hops
    }

    /// Build an allowlist from a set of permitted IPs and an explicit
    /// trusted-proxy-hop count.
    pub fn new(allowed: Vec<IpAddress>, trusted_hops: TrustedHops) -> (a: IpAllowlist)
        ensures
            a.allowed() == allowed@,
            a.hops() == trusted_hops,
    {
        IpAllowlist { allowed, trusted_hops }
    }

    /// Resolve the client IP for a request given the immediate peer address
    /// and the parsed `X-Forwarded-For` entries (if the header is present),
    /// then check it against the allowlist.
    pub fn is_allowed(
        &self,
        peer: IpAddress,
        forwarded_for: Option<&Vec<Option<IpAddress>>>,
    ) -> (b: bool)
        ensures
            b == self.allowed().contains(
                resolve_spec(
                    peer,
                    match forwarded_for {
                        Some(v) => Some(v@),
                        None => None,
                    },
                    self.hops().hops(),
                ),
            ),
    {
        let client = resolve_client_ip(peer, forwarded_for, self.trusted_hops);
        let n = self.allowed.len();
        for i in 0..n
            invariant
                client == resolve_spec(
                    peer,
                    match forwarded_for {
                        Some(v) => Some(v@),
                        None => None,
                    },
                    self.hops().hops(),
                ),
                n == self.allowed@.len(),
                forall|j: int| 0 <= j < i ==> self.allowed@[j] != client,
        {
            if self.allowed[i] == client {
                assert(self.allowed@[i as int] == client);
                assert(self.allowed@.contains(client));
                return true;
            }
        }
        false
    }
}

} // verus!
