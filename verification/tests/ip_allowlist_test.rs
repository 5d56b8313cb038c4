use backend::ip_allowlist::resolve::{forwarded_entries, resolve_client_ip, IpAddress};
use backend::ip_allowlist::trusted_hops::TrustedHops;
use backend::ip_allowlist::IpAllowlist;

fn v4(a: u8, b: u8, c: u8, d: u8) -> IpAddress {
    IpAddress::V4(u32::from_be_bytes([a, b, c, d]))
}

#[test]
fn trusted_hops_constructors() {
    assert_eq!(TrustedHops::new(3).get(), 3);
    assert!(TrustedHops::new(3).trusts_any_proxy());
    assert_eq!(TrustedHops::none().get(), 0);
    assert!(!TrustedHops::none().trusts_any_proxy());
    assert_eq!(TrustedHops::single_proxy().get(), 1);
    assert_eq!(TrustedHops::default(), TrustedHops::single_proxy());
    assert_eq!(TrustedHops::from(2), TrustedHops::new(2));
}

#[test]
fn forwarded_entries_split_and_trim() {
    assert_eq!(
        forwarded_entries(" 1.2.3.4 , 5.6.7.8,,\t9.9.9.9 "),
        vec!["1.2.3.4", "5.6.7.8", "", "9.9.9.9"]
    );
    assert_eq!(forwarded_entries(""), vec![""]);
    assert_eq!(forwarded_entries("   "), vec![""]);
    assert_eq!(forwarded_entries("a,"), vec!["a", ""]);
    assert_eq!(forwarded_entries("\u{a0}1.1.1.1\u{3000}, ::1"), vec!["1.1.1.1", "::1"]);
}

#[test]
fn forwarded_entries_match_std_split_and_trim() {
    for header in ["x, y ,z", " , ,", "\r\n10.0.0.1\u{2003},\u{85}", "a b , c"] {
        let expected: Vec<String> = header.split(',').map(|e| e.trim().to_string()).collect();
        assert_eq!(forwarded_entries(header), expected);
    }
}

#[test]
fn no_trusted_hop_ignores_header() {
    let peer = v4(10, 0, 0, 1);
    let parsed = vec![Some(v4(1, 1, 1, 1)), Some(v4(2, 2, 2, 2))];
    assert_eq!(resolve_client_ip(peer, Some(&parsed), TrustedHops::none()), peer);
}

#[test]
fn absent_or_empty_header_gives_peer() {
    let peer = v4(10, 0, 0, 1);
    assert_eq!(resolve_client_ip(peer, None, TrustedHops::single_proxy()), peer);
    assert_eq!(resolve_client_ip(peer, Some(&vec![]), TrustedHops::single_proxy()), peer);
    assert_eq!(resolve_client_ip(peer, Some(&vec![None, None]), TrustedHops::single_proxy()), peer);
}

#[test]
fn walks_chain_from_trusted_end() {
    let peer = v4(10, 0, 0, 1);
    let forged = v4(6, 6, 6, 6);
    let client = v4(203, 0, 113, 7);
    // The client wrote 6.6.6.6; the trusted proxy appended the address it saw.
    let parsed = vec![Some(forged), Some(client)];
    assert_eq!(resolve_client_ip(peer, Some(&parsed), TrustedHops::single_proxy()), client);
    assert_eq!(resolve_client_ip(peer, Some(&parsed), TrustedHops::new(2)), forged);
    assert_eq!(resolve_client_ip(peer, Some(&parsed), TrustedHops::new(3)), peer);
    // The single proxy re-set the header to the one address it observed.
    assert_eq!(resolve_client_ip(peer, Some(&vec![Some(client)]), TrustedHops::single_proxy()), client);
    let a = v4(192, 0, 2, 1);
    let b = v4(198, 51, 100, 2);
    let c = v4(192, 0, 2, 9);
    let three = vec![Some(a), None, Some(b), Some(c)];
    assert_eq!(resolve_client_ip(peer, Some(&three), TrustedHops::single_proxy()), c);
    assert_eq!(resolve_client_ip(peer, Some(&three), TrustedHops::new(2)), b);
    assert_eq!(resolve_client_ip(peer, Some(&three), TrustedHops::new(3)), a);
    assert_eq!(resolve_client_ip(peer, Some(&three), TrustedHops::new(4)), peer);
}

#[test]
fn spoofed_entries_on_the_left_do_not_change_the_client() {
    let peer = v4(10, 0, 0, 1);
    let client = v4(203, 0, 113, 7);
    let honest = vec![Some(client)];
    let spoofed = vec![Some(v4(127, 0, 0, 1)), None, Some(IpAddress::V6(1)), Some(client)];
    let hops = TrustedHops::single_proxy();
    assert_eq!(resolve_client_ip(peer, Some(&spoofed), hops), client);
    assert_eq!(
        resolve_client_ip(peer, Some(&spoofed), hops),
        resolve_client_ip(peer, Some(&honest), hops)
    );
    let two = vec![Some(v4(1, 2, 3, 4)), Some(client), Some(v4(10, 0, 0, 2))];
    assert_eq!(resolve_client_ip(peer, Some(&two), TrustedHops::new(2)), client);
}

#[test]
fn allowlist_checks_resolved_client() {
    let admin = v4(192, 0, 2, 10);
    let list = IpAllowlist::new(vec![admin, IpAddress::V6(0x2001_0db8 << 96)], TrustedHops::single_proxy());
    let proxy = v4(10, 0, 0, 1);
    // The trusted proxy observed the admin address.
    assert!(list.is_allowed(proxy, Some(&vec![Some(admin)])));
    assert!(list.is_allowed(proxy, Some(&vec![Some(v4(6, 6, 6, 6)), Some(admin)])));
    // A client that forges the admin address in the header is not trusted.
    assert!(!list.is_allowed(proxy, Some(&vec![Some(admin), Some(v4(198, 51, 100, 9))])));
    assert!(!list.is_allowed(proxy, None));
    assert!(!list.is_allowed(proxy, Some(&vec![])));
    let direct = IpAllowlist::new(vec![admin], TrustedHops::none());
    assert!(direct.is_allowed(admin, Some(&vec![Some(v4(6, 6, 6, 6))])));
    assert!(!direct.is_allowed(proxy, Some(&vec![Some(admin)])));
}
