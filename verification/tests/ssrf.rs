use warp_cors::address::{IpAddress, SocketAddress};
use warp_cors::ssrf::{
    blocked_url_reason, redirect_reason, settled_reason, DeviceAddress, PublicAddressResolver, Resolution, Vetting,
    ANY_PORT,
};
use warp_cors::target::{Host, Target};

const LAN: IpAddress = IpAddress::V4(192, 168, 1, 77);
const PUBLIC: IpAddress = IpAddress::V4(93, 184, 216, 34);
const OTHER_PUBLIC: IpAddress = IpAddress::V4(93, 184, 216, 35);

fn parse(url: &str) -> Target {
    Target::parse(url).expect("test URL should parse")
}

/// Runs a check to its end, on a device that answers on `device` and where
/// every name resolves to `found`.
fn reason(url: &Target, found: Option<&[IpAddress]>, device: &[IpAddress]) -> Option<String> {
    settle(blocked_url_reason(url), found, device)
}

fn settle(mut state: Vetting, found: Option<&[IpAddress]>, device: &[IpAddress]) -> Option<String> {
    loop {
        state = match state {
            Vetting::Done(reason) => return reason,
            Vetting::Resolve { .. } => state.resolved(found.map(|found| found.to_vec())),
            Vetting::Probe { address, .. } => {
                let answers = device.contains(&address);
                state.probed(answers)
            }
        };
    }
}

fn no_lookup(url: &Target) -> Option<String> {
    assert!(!matches!(blocked_url_reason(url), Vetting::Resolve { .. }));
    reason(url, None, &[])
}

fn at(ip: IpAddress) -> SocketAddress {
    SocketAddress { ip, port: ANY_PORT, flowinfo: 0, scope_id: 0 }
}

fn resolve(addresses: Vec<SocketAddress>, device: &[IpAddress]) -> Result<Vec<SocketAddress>, DeviceAddress> {
    let mut state = PublicAddressResolver.resolve(addresses);
    loop {
        state = match state {
            Resolution::Connect(addresses) => return Ok(addresses),
            Resolution::Refused(refusal) => return Err(refusal),
            Resolution::Probe { address, .. } => {
                let answers = device.contains(&address);
                state.probed(answers)
            }
        };
    }
}

#[test]
fn blocked_url_reason_when_loopback_literal_should_refuse() {
    let reason = no_lookup(&parse("http://127.0.0.1:4040/api/v3/screens/"));

    assert_eq!(
        reason,
        Some(String::from(
            "Target is an address of this device: http://127.0.0.1:4040/api/v3/screens/"
        ))
    );
}

#[test]
fn blocked_url_reason_when_ipv6_loopback_literal_should_refuse() {
    let reason = no_lookup(&parse("http://[::1]:3030/"));

    assert_eq!(
        reason,
        Some(String::from(
            "Target is an address of this device: http://[::1]:3030/"
        ))
    );
}

#[test]
fn blocked_url_reason_when_scheme_is_not_http_should_refuse() {
    let reason = no_lookup(&parse("file:///etc/passwd"));

    assert_eq!(
        reason,
        Some(String::from(
            "Target scheme is not allowed: file:///etc/passwd"
        ))
    );
}

#[test]
fn blocked_url_reason_when_public_literal_should_allow() {
    let reason = no_lookup(&parse("https://93.184.216.34/index.html"));

    assert_eq!(reason, None);
}

#[test]
fn blocked_url_reason_when_the_device_answers_on_a_literal_should_refuse() {
    let url = parse("http://192.168.1.77/");
    assert_eq!(
        reason(&url, None, &[LAN]),
        Some(String::from("Target is an address of this device: http://192.168.1.77/"))
    );
    assert_eq!(reason(&url, None, &[PUBLIC]), None);
}

#[test]
fn blocked_url_reason_when_a_mapped_literal_is_the_device_should_refuse() {
    let url = parse("http://[::ffff:192.168.1.77]/");
    assert_eq!(
        reason(&url, None, &[LAN]),
        Some(String::from(
            "Target is an address of this device: http://[::ffff:c0a8:14d]/"
        ))
    );
    assert_eq!(
        no_lookup(&parse("http://[::ffff:127.0.0.1]/")),
        Some(String::from(
            "Target is an address of this device: http://[::ffff:7f00:1]/"
        ))
    );
}

#[test]
fn blocked_url_reason_when_a_number_means_loopback_should_refuse() {
    assert_eq!(
        no_lookup(&parse("http://2130706433/")),
        Some(String::from("Target is an address of this device: http://127.0.0.1/"))
    );
    assert_eq!(
        no_lookup(&parse("http://0/")),
        Some(String::from("Target is an address of this device: http://0.0.0.0/"))
    );
}

#[test]
fn blocked_url_reason_when_other_schemes_are_asked_for_should_refuse() {
    for url in ["ftp://93.184.216.34/", "ws://example.org/", "mailto:someone@example.org"] {
        assert_eq!(
            no_lookup(&parse(url)),
            Some(format!("Target scheme is not allowed: {url}"))
        );
    }
}

#[test]
fn blocked_url_reason_asks_for_the_name_to_be_looked_up() {
    match blocked_url_reason(&parse("https://Example.org/a?b#c")) {
        Vetting::Resolve { url, domain } => {
            assert_eq!(url, "https://example.org/a?b#c");
            assert_eq!(domain, "example.org");
        }
        state => panic!("a name has to be looked up: {state:?}"),
    }
}

#[test]
fn blocked_url_reason_when_a_name_does_not_resolve_should_refuse() {
    let url = parse("http://nowhere.example/");
    let refused = Some(String::from("Target host does not resolve: http://nowhere.example/"));
    assert_eq!(reason(&url, None, &[]), refused);
    assert_eq!(reason(&url, Some(&[]), &[]), refused);
}

#[test]
fn blocked_url_reason_when_a_name_leads_to_the_device_should_refuse() {
    let url = parse("http://rebound.example/");
    let refused = Some(String::from(
        "Target is an address of this device: http://rebound.example/",
    ));
    assert_eq!(reason(&url, Some(&[IpAddress::V4(127, 0, 0, 1)]), &[]), refused);
    assert_eq!(reason(&url, Some(&[PUBLIC, LAN]), &[LAN]), refused);
    assert_eq!(reason(&url, Some(&[PUBLIC, IpAddress::V4(0, 1, 2, 3)]), &[]), refused);
    assert_eq!(
        reason(&url, Some(&[PUBLIC, IpAddress::V6(0, 0, 0, 0, 0, 0, 0, 1), LAN]), &[]),
        refused
    );
}

#[test]
fn blocked_url_reason_when_no_address_of_a_name_is_the_device_should_allow() {
    let url = parse("http://example.org/");
    assert_eq!(reason(&url, Some(&[PUBLIC]), &[LAN]), None);
    assert_eq!(reason(&url, Some(&[PUBLIC, OTHER_PUBLIC]), &[LAN]), None);
}

#[test]
fn every_address_of_a_name_is_asked_about_in_turn() {
    let state = blocked_url_reason(&parse("http://example.org/"));
    let state = state.resolved(Some(vec![PUBLIC, OTHER_PUBLIC]));
    assert!(matches!(state, Vetting::Probe { next: 0, address: PUBLIC, .. }));
    let state = state.probed(false);
    assert!(matches!(state, Vetting::Probe { next: 1, address: OTHER_PUBLIC, .. }));
    let state = state.probed(false);
    assert!(matches!(state, Vetting::Done(None)));
}

#[test]
fn target_without_a_host_is_let_through() {
    let url = Target {
        text: String::from("http:"),
        scheme: String::from("http"),
        host: None,
    };
    assert!(matches!(blocked_url_reason(&url), Vetting::Done(None)));
}

#[test]
fn target_that_could_not_be_checked_is_refused() {
    assert_eq!(
        settled_reason(None),
        Some(String::from("Target could not be checked"))
    );
    assert_eq!(settled_reason(Some(None)), None);
    assert_eq!(
        settled_reason(Some(Some(String::from("why")))),
        Some(String::from("why"))
    );
}

#[test]
fn target_is_parsed_and_normalised() {
    let target = parse("HTTP://Example.ORG:80/a/../b");
    assert_eq!(
        target,
        Target {
            text: String::from("http://example.org/b"),
            scheme: String::from("http"),
            host: Some(Host::Domain(String::from("example.org"))),
        }
    );
    assert!(target.has_web_scheme());
    assert!(parse("https://example.org").has_web_scheme());
    assert!(!parse("httpx://example.org").has_web_scheme());
    assert_eq!(
        parse("http://[2001:db8::1]/").host,
        Some(Host::Address(IpAddress::V6(0x2001, 0xdb8, 0, 0, 0, 0, 0, 1)))
    );
    assert_eq!(
        parse("http://1.2.3.4/").host,
        Some(Host::Address(IpAddress::V4(1, 2, 3, 4)))
    );
    assert_eq!(parse("file:///etc/passwd").host, None);
}

#[test]
fn resolver_hands_back_the_addresses_it_vetted() {
    let addresses = vec![
        at(OTHER_PUBLIC),
        SocketAddress { ip: IpAddress::V6(0xfe80, 0, 0, 0, 0, 0, 0, 9), port: 0, flowinfo: 5, scope_id: 2 },
        at(PUBLIC),
        at(PUBLIC),
    ];
    assert_eq!(resolve(addresses.clone(), &[LAN]), Ok(addresses.clone()));
    assert!(addresses.iter().all(|address| address.port == ANY_PORT));
}

#[test]
fn resolver_keeps_a_name_without_addresses() {
    assert_eq!(resolve(vec![], &[]), Ok(vec![]));
}

#[test]
fn resolver_refuses_a_name_that_leads_to_the_device() {
    assert_eq!(resolve(vec![at(IpAddress::V4(127, 0, 0, 1))], &[]), Err(DeviceAddress));
    assert_eq!(resolve(vec![at(PUBLIC), at(LAN)], &[LAN]), Err(DeviceAddress));
    assert_eq!(
        resolve(vec![at(PUBLIC), at(IpAddress::V6(0, 0, 0, 0, 0, 0xffff, 0xc0a8, 0x014d))], &[LAN]),
        Err(DeviceAddress)
    );
    assert_eq!(DeviceAddress.message(), "Target is an address of this device");
}

#[test]
fn resolver_and_url_check_agree() {
    let url = parse("http://example.org/");
    for found in [
        vec![PUBLIC],
        vec![PUBLIC, LAN],
        vec![IpAddress::V4(127, 0, 0, 1), PUBLIC],
        vec![IpAddress::V4(10, 1, 2, 3), OTHER_PUBLIC],
    ] {
        let handed = resolve(found.iter().map(|ip| at(*ip)).collect(), &[LAN]);
        assert_eq!(handed.is_err(), reason(&url, Some(&found), &[LAN]).is_some());
    }
}

#[test]
fn redirect_to_an_address_of_the_device_is_refused() {
    let hop = |url: &str| settle(redirect_reason(&parse(url)), None, &[LAN]);
    assert_eq!(
        hop("http://127.0.0.1:4040/"),
        Some(String::from("Target is an address of this device: http://127.0.0.1:4040/"))
    );
    assert_eq!(
        hop("http://192.168.1.77/"),
        Some(String::from("Target is an address of this device: http://192.168.1.77/"))
    );
    assert_eq!(
        hop("file:///etc/passwd"),
        Some(String::from("Target scheme is not allowed: file:///etc/passwd"))
    );
    assert_eq!(hop("http://93.184.216.34/"), None);
}

#[test]
fn redirect_to_a_name_is_left_to_the_resolver() {
    let state = redirect_reason(&parse("http://rebound.example/"));
    assert!(matches!(state, Vetting::Done(None)));
    assert_eq!(resolve(vec![at(PUBLIC), at(LAN)], &[LAN]), Err(DeviceAddress));
}
