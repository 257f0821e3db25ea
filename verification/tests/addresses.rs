use warp_cors::address::{unmapped, IpAddress};
use warp_cors::ssrf::{is_blocked_address, probe_for};

const LOCALHOST: IpAddress = IpAddress::V4(127, 0, 0, 1);
const MAPPED_LOCALHOST: IpAddress = IpAddress::V6(0, 0, 0, 0, 0, 0xffff, 0x7f00, 0x0001);
const LOCALHOST_V6: IpAddress = IpAddress::V6(0, 0, 0, 0, 0, 0, 0, 1);
const UNSPECIFIED_V6: IpAddress = IpAddress::V6(0, 0, 0, 0, 0, 0, 0, 0);

#[test]
fn is_blocked_address_when_loopback_should_block() {
    assert!(is_blocked_address(LOCALHOST, false));
}

#[test]
fn is_blocked_address_when_loopback_outside_the_first_octet_should_block() {
    assert!(is_blocked_address(IpAddress::V4(127, 13, 37, 1), false));
}

#[test]
fn is_blocked_address_when_unspecified_should_block() {
    assert!(is_blocked_address(IpAddress::V4(0, 0, 0, 0), false));
}

#[test]
fn is_blocked_address_when_in_this_host_range_should_block() {
    assert!(is_blocked_address(IpAddress::V4(0, 1, 2, 3), false));
}

#[test]
fn is_blocked_address_when_ipv6_loopback_should_block() {
    assert!(is_blocked_address(LOCALHOST_V6, false));
}

#[test]
fn is_blocked_address_when_ipv6_unspecified_should_block() {
    assert!(is_blocked_address(UNSPECIFIED_V6, false));
}

#[test]
fn is_blocked_address_when_ipv4_mapped_loopback_should_block() {
    assert!(is_blocked_address(MAPPED_LOCALHOST, false));
}

// A device answers on its own loopback address, and on the address it has in
// its network.
#[test]
fn is_blocked_address_when_an_address_of_this_device_should_block() {
    assert!(is_blocked_address(LOCALHOST, true));
    assert!(is_blocked_address(IpAddress::V4(192, 168, 1, 77), true));
}

#[test]
fn is_blocked_address_when_public_should_allow() {
    assert!(!is_blocked_address(IpAddress::V4(93, 184, 216, 34), false));
}

#[test]
fn is_blocked_address_when_ipv6_public_should_allow() {
    assert!(!is_blocked_address(
        IpAddress::V6(0x2606, 0x2800, 0x220, 0x1, 0x248, 0x1893, 0x25c8, 0x1946),
        false
    ));
}

// A player sits on a customer network and content there is fair game, so the
// private ranges must stay reachable.
#[test]
fn is_blocked_address_when_private_class_a_should_allow() {
    assert!(!is_blocked_address(IpAddress::V4(10, 1, 2, 3), false));
}

#[test]
fn is_blocked_address_when_private_class_c_should_allow() {
    assert!(!is_blocked_address(IpAddress::V4(192, 168, 1, 1), false));
}

#[test]
fn is_blocked_address_when_the_device_answers_should_block() {
    assert!(is_blocked_address(IpAddress::V4(10, 1, 2, 3), true));
    assert!(is_blocked_address(
        IpAddress::V6(0xfe80, 0, 0, 0, 0, 0, 0, 1),
        true
    ));
}

#[test]
fn is_blocked_address_next_to_the_ranges_should_allow() {
    assert!(!is_blocked_address(IpAddress::V4(126, 255, 255, 255), false));
    assert!(!is_blocked_address(IpAddress::V4(128, 0, 0, 0), false));
    assert!(!is_blocked_address(IpAddress::V4(1, 0, 0, 0), false));
    assert!(!is_blocked_address(
        IpAddress::V6(0, 0, 0, 0, 0, 0, 0, 2),
        false
    ));
    assert!(!is_blocked_address(
        IpAddress::V6(0, 0, 0, 0, 0, 0, 1, 1),
        false
    ));
}

#[test]
fn mapped_and_plain_spelling_are_the_same_address() {
    assert_eq!(unmapped(MAPPED_LOCALHOST), LOCALHOST);
    assert_eq!(
        unmapped(IpAddress::V6(0, 0, 0, 0, 0, 0xffff, 0xc0a8, 0x014d)),
        IpAddress::V4(192, 168, 1, 77)
    );
    assert_eq!(unmapped(LOCALHOST), LOCALHOST);
    assert_eq!(unmapped(unmapped(MAPPED_LOCALHOST)), LOCALHOST);
}

// `::127.0.0.1` is written alike and is not the v4 address.
#[test]
fn compatible_spelling_is_not_unwrapped() {
    let compatible = IpAddress::V6(0, 0, 0, 0, 0, 0, 0x7f00, 0x0001);
    assert_eq!(unmapped(compatible), compatible);
    let longer = IpAddress::V6(0, 0, 0, 0, 1, 0xffff, 0x7f00, 0x0001);
    assert_eq!(unmapped(longer), longer);
}

#[test]
fn device_is_asked_about_the_address_really_connected_to() {
    assert_eq!(probe_for(LOCALHOST), None);
    assert_eq!(probe_for(MAPPED_LOCALHOST), None);
    assert_eq!(probe_for(LOCALHOST_V6), None);
    assert_eq!(probe_for(UNSPECIFIED_V6), None);
    assert_eq!(probe_for(IpAddress::V4(0, 1, 2, 3)), None);
    assert_eq!(
        probe_for(IpAddress::V6(0, 0, 0, 0, 0, 0xffff, 0xc0a8, 0x014d)),
        Some(IpAddress::V4(192, 168, 1, 77))
    );
    assert_eq!(
        probe_for(IpAddress::V4(10, 1, 2, 3)),
        Some(IpAddress::V4(10, 1, 2, 3))
    );
}

#[test]
fn address_classes() {
    assert!(LOCALHOST.is_loopback());
    assert!(LOCALHOST_V6.is_loopback());
    assert!(!MAPPED_LOCALHOST.is_loopback());
    assert!(!UNSPECIFIED_V6.is_loopback());
    assert!(UNSPECIFIED_V6.is_unspecified());
    assert!(IpAddress::V4(0, 0, 0, 0).is_unspecified());
    assert!(!IpAddress::V4(0, 0, 0, 1).is_unspecified());
    assert!(IpAddress::V4(0, 0, 0, 1).is_in_this_host_range());
    assert!(!UNSPECIFIED_V6.is_in_this_host_range());
    assert!(!LOCALHOST.is_in_this_host_range());
}
