//! Client IP resolution from `X-Forwarded-For`.
//!
//! `X-Forwarded-For` is a comma-separated list of addresses, appended to by
//! each proxy as the request traverses the chain: every proxy appends the
//! address of the peer it accepted the connection from. The rightmost
//! `trusted_hops` entries were therefore written by trusted proxies, and the
//! leftmost of them is the address that the outermost trusted proxy observed:
//! the client. Every entry to the left of them is attacker-controlled and is
//! never returned.

use vstd::prelude::*;

use super::trusted_hops::TrustedHops;
use crate::text::{split_and_trim, split_trimmed, strings_view};

verus! {

/// An IP address: version 4 as its 32-bit value, version 6 as its 128-bit
/// value, both in network order read as a big-endian number.
#[derive(Debug, Clone, Copy, PartialEq, Eq, Structural)]
pub enum IpAddress {
    V4(u32),
    V6(u128),
}

/// The entries of a raw `X-Forwarded-For` header value, in order, each
/// without its surrounding white space. Each entry is then parsed as an IP
/// address; those that fail to parse are ignored.
pub fn forwarded_entries(header: &str) -> (entries: Vec<String>)
    ensures
        strings_view(entries@) == split_trimmed(header@, ','),
{
    split_and_trim(header, ',')
}

/// The addresses among the parse results, in order.
pub open spec fn parsed_addresses(parsed: Seq<Option<IpAddress>>) -> Seq<IpAddress>
    decreases parsed.len(),
{
    if parsed.len() == 0 {
        Seq::empty()
    } else {
        let rest = parsed_addresses(parsed.drop_last());
        match parsed.last() {
            Some(a) => rest.push(a),
            None => rest,
        }
    }
}

/// The client IP for a request whose immediate peer is `peer`, whose
/// `X-Forwarded-For` entries parsed as `forwarded` (`None` when the header is
/// absent), behind `hops` trusted proxies.
pub open spec fn resolve_spec(
    peer: IpAddress,
    forwarded: Option<Seq<Option<IpAddress>>>,
    hops: nat,
) -> IpAddress {
    if hops == 0 {
        peer
    } else {
        match forwarded {
            None => peer,
            Some(parsed) => {
                let chain = parsed_addresses(parsed);
                if chain.len() < hops {
                    peer
                } else {
                    chain[chain.len() - hops]
                }
            },
        }
    }
}

/// Resolve the client IP for a request.
///
/// * `peer` is the immediate network peer (the address the connection was
///   accepted from).
/// * `forwarded_for` holds, for each entry of the raw `X-Forwarded-For`
///   header (see [`forwarded_entries`]), that entry parsed as an IP address,
///   or `None` when the header is absent.
/// * `trusted_hops` is the configured number of trusted proxy hops.
///
/// If no proxy hop is trusted, or the header is absent, the immediate peer
/// is returned. Otherwise the rightmost `trusted_hops` addresses of the
/// chain were appended by trusted proxies, and the leftmost of them, the
/// address that the outermost trusted proxy observed, is returned. A chain
/// shorter than the configured topology cannot be trusted: the immediate
/// peer is returned.
pub fn resolve_client_ip(
    peer: IpAddress,
    forwarded_for: Option<&Vec<Option<IpAddress>>>,
    trusted_hops: TrustedHops,
) -> (client: IpAddress)
    ensures
        client == resolve_spec(
            peer,
            match forwarded_for {
                Some(v) => Some(v@),
                None => None,
            },
            trusted_hops.hops(),
        ),
{
    if !trusted_hops.trusts_any_proxy() {
        return peer;
    }
    let parsed = match forwarded_for {
        Some(v) => v,
        None => return peer,
    };
    let mut chain: Vec<IpAddress> = Vec::new();
    let n = parsed.len();
    for i in 0..n
        invariant
            n == parsed.len(),
            chain@ == parsed_addresses(parsed@.take(i as int)),
    {
        proof {
            assert(parsed@.take(i + 1).drop_last() =~= parsed@.take(i as int));
        }
        match parsed[i] {
            Some(a) => chain.push(a),
            None => {},
        }
    }
    assert(parsed@.take(n as int) =~= parsed@);
    let hops = trusted_hops.get();
    if chain.len() < hops {
        return peer;
    }
    chain[chain.len() - hops]
}

/// The addresses parsed from entries written before `p` stand before those
/// parsed from `p`.
pub proof fn lemma_parsed_addresses_append(prefix: Seq<Option<IpAddress>>, p: Seq<Option<IpAddress>>)
    ensures
        parsed_addresses(prefix + p) == parsed_addresses(prefix) + parsed_addresses(p),
    decreases p.len(),
{
    if p.len() == 0 {
        assert(prefix + p =~= prefix);
        assert(parsed_addresses(prefix) + parsed_addresses(p) =~= parsed_addresses(prefix));
    } else {
        lemma_parsed_addresses_append(prefix, p.drop_last());
        assert((prefix + p).drop_last() =~= prefix + p.drop_last());
        assert((prefix + p).last() == p.last());
        match p.last() {
            Some(a) => {
                assert(parsed_addresses(prefix) + parsed_addresses(p.drop_last()).push(a)
                    =~= (parsed_addresses(prefix) + parsed_addresses(p.drop_last())).push(a));
            },
            None => {},
        }
    }
}

/// Every entry that parsed is part of the chain, whatever the version of
/// its address, and entries that did not parse are left out; so with one
/// trusted hop the client is the address that the last parsed entry holds.
/// When every entry parsed, the client behind `hops` trusted proxies is
/// the entry `hops` places from the right end of the header.
pub proof fn law_chain_holds_every_parsed_address(
    peer: IpAddress,
    parsed: Seq<Option<IpAddress>>,
    a: IpAddress,
    addresses: Seq<IpAddress>,
    hops: nat,
)
    ensures
        parsed_addresses(parsed.push(Some(a))) == parsed_addresses(parsed).push(a),
        parsed_addresses(parsed.push(None)) == parsed_addresses(parsed),
        resolve_spec(peer, Some(parsed.push(Some(a))), 1) == a,
        1 <= hops <= addresses.len() ==> resolve_spec(
            peer,
            Some(addresses.map_values(|x: IpAddress| Some(x))),
            hops,
        ) == addresses[addresses.len() - hops],
{
    assert(parsed.push(Some(a)).drop_last() =~= parsed);
    assert(parsed.push(None).drop_last() =~= parsed);
    lemma_parsed_addresses_all(addresses);
}

/// When every entry parsed, the chain is every address in order.
proof fn lemma_parsed_addresses_all(addresses: Seq<IpAddress>)
    ensures
        parsed_addresses(addresses.map_values(|x: IpAddress| Some(x))) == addresses,
    decreases addresses.len(),
{
    let p = addresses.map_values(|x: IpAddress| Some(x));
    if addresses.len() > 0 {
        lemma_parsed_addresses_all(addresses.drop_last());
        assert(p.drop_last() =~= addresses.drop_last().map_values(|x: IpAddress| Some(x)));
        assert(addresses =~= addresses.drop_last().push(addresses.last()));
    } else {
        assert(addresses =~= Seq::<IpAddress>::empty());
    }
}

/// Entries to the left of what the trusted proxies appended are
/// attacker-controlled, and they cannot change the resolved client: once the
/// chain holds at least as many addresses as there are trusted hops, putting
/// any entries in front of it leaves the resolved client unchanged.
pub proof fn law_spoofed_prefix_ignored(
    peer: IpAddress,
    spoofed: Seq<Option<IpAddress>>,
    forwarded: Seq<Option<IpAddress>>,
    hops: nat,
)
    requires
        parsed_addresses(forwarded).len() >= hops,
    ensures
        resolve_spec(peer, Some(spoofed + forwarded), hops) == resolve_spec(
            peer,
            Some(forwarded),
            hops,
        ),
{
    lemma_parsed_addresses_append(spoofed, forwarded);
}

/// Without a trusted proxy, or with a chain shorter than the trusted
/// topology, the header is ignored and the immediate peer is the client.
/// Otherwise the client is an address that a trusted proxy appended: one of
/// the rightmost `hops` addresses of the chain, never one written to the
/// left of them.
pub proof fn law_untrusted_header_ignored(
    peer: IpAddress,
    forwarded: Option<Seq<Option<IpAddress>>>,
    hops: nat,
)
    ensures
        hops == 0 ==> resolve_spec(peer, forwarded, hops) == peer,
        forwarded is None ==> resolve_spec(peer, forwarded, hops) == peer,
        forwarded is Some && parsed_addresses(forwarded->0).len() < hops ==> resolve_spec(
            peer,
            forwarded,
            hops,
        ) == peer,
        forwarded is Some && hops > 0 && parsed_addresses(forwarded->0).len() >= hops
            ==> parsed_addresses(forwarded->0).subrange(
            parsed_addresses(forwarded->0).len() - hops,
            parsed_addresses(forwarded->0).len() as int,
        ).contains(resolve_spec(peer, forwarded, hops)),
{
    if let Some(p) = forwarded {
        if hops > 0 && parsed_addresses(p).len() >= hops {
            let c = parsed_addresses(p);
            let t = c.subrange(c.len() - hops, c.len() as int);
            assert(t[0] == resolve_spec(peer, forwarded, hops));
        }
    }
}

} // verus!
