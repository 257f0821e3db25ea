//! Network addresses as plain numbers.

use vstd::prelude::*;

verus! {

/// An IP address: the four octets of a v4 address, or the eight segments of a
/// v6 address.
#[derive(Clone, Copy, Debug, PartialEq, Eq, Structural)]
pub enum IpAddress {
    V4(u8, u8, u8, u8),
    V6(u16, u16, u16, u16, u16, u16, u16, u16),
}

/// An address a connection can be made to.
///
/// The flow information and the scope belong to v6 addresses and are zero for
/// the others.
#[derive(Clone, Copy, Debug, PartialEq, Eq, Structural)]
pub struct SocketAddress {
    pub ip: IpAddress,
    pub port: u16,
    pub flowinfo: u32,
    pub scope_id: u32,
}

/// The v6 address `::ffff:a.b.c.d`.
pub open spec fn mapped(a: u8, b: u8, c: u8, d: u8) -> IpAddress {
    IpAddress::V6(0, 0, 0, 0, 0, 0xffff, (a * 256 + b) as u16, (c * 256 + d) as u16)
}

/// The address a connection to `address` really goes to: a v4 address written
/// as `::ffff:a.b.c.d` is that v4 address, any other address is itself.
pub open spec fn canonical(address: IpAddress) -> IpAddress {
    match address {
        IpAddress::V6(s0, s1, s2, s3, s4, s5, s6, s7) => if s0 == 0 && s1 == 0 && s2 == 0 && s3 == 0
            && s4 == 0 && s5 == 0xffff {
            IpAddress::V4((s6 / 256) as u8, (s6 % 256) as u8, (s7 / 256) as u8, (s7 % 256) as u8)
        } else {
            address
        },
        IpAddress::V4(..) => address,
    }
}

/// `127.0.0.0/8` and `::1`.
pub open spec fn loopback(address: IpAddress) -> bool {
    match address {
        IpAddress::V4(a, _, _, _) => a == 127,
        IpAddress::V6(..) => address == IpAddress::V6(0, 0, 0, 0, 0, 0, 0, 1),
    }
}

/// `0.0.0.0` and `::`.
pub open spec fn unspecified(address: IpAddress) -> bool {
    address == IpAddress::V4(0, 0, 0, 0) || address == IpAddress::V6(0, 0, 0, 0, 0, 0, 0, 0)
}

/// `0.0.0.0/8`.
pub open spec fn in_this_host_range(address: IpAddress) -> bool {
    address matches IpAddress::V4(a, _, _, _) && a == 0
}

/// Unwraps `::ffff:a.b.c.d` to the v4 address actually connected to.
pub fn unmapped(address: IpAddress) -> (plain: IpAddress)
    ensures
        plain == canonical(address),
{
    match address {
        IpAddress::V6(s0, s1, s2, s3, s4, s5, s6, s7) => {
            if s0 == 0 && s1 == 0 && s2 == 0 && s3 == 0 && s4 == 0 && s5 == 0xffff {
                IpAddress::V4(
                    (s6 / 256) as u8,
                    (s6 % 256) as u8,
                    (s7 / 256) as u8,
                    (s7 % 256) as u8,
                )
            } else {
                address
            }
        },
        IpAddress::V4(..) => address,
    }
}

impl IpAddress {
    /// True for `127.0.0.0/8` and `::1`.
    pub fn is_loopback(self) -> (yes: bool)
        ensures
            yes == loopback(self),
    {
        match self {
            IpAddress::V4(a, _, _, _) => a == 127,
            IpAddress::V6(..) => self == IpAddress::V6(0, 0, 0, 0, 0, 0, 0, 1),
        }
    }

    /// True for `0.0.0.0` and `::`.
    pub fn is_unspecified(self) -> (yes: bool)
        ensures
            yes == unspecified(self),
    {
        self == IpAddress::V4(0, 0, 0, 0) || self == IpAddress::V6(0, 0, 0, 0, 0, 0, 0, 0)
    }

    /// True for `0.0.0.0/8`, all of which means this host.
    pub fn is_in_this_host_range(self) -> (yes: bool)
        ensures
            yes == in_this_host_range(self),
    {
        match self {
            IpAddress::V4(a, _, _, _) => a == 0,
            IpAddress::V6(..) => false,
        }
    }
}

/// A v4 address keeps its meaning when it is written as a v6 address.
pub proof fn mapped_address_is_the_plain_one(a: u8, b: u8, c: u8, d: u8)
    ensures
        canonical(mapped(a, b, c, d)) == IpAddress::V4(a, b, c, d),
        canonical(mapped(a, b, c, d)) == canonical(IpAddress::V4(a, b, c, d)),
{
    let s6: int = a * 256 + b;
    let s7: int = c * 256 + d;
    assert(s6 / 256 == a && s6 % 256 == b);
    assert(s7 / 256 == c && s7 % 256 == d);
}

/// Unwrapping an address twice changes nothing more than unwrapping it once.
pub proof fn canonical_twice_is_canonical(address: IpAddress)
    ensures
        canonical(canonical(address)) == canonical(address),
{
}

/// What [`unmapped`] gives back is the address itself, unless the address is a v4
/// one written as `::ffff:a.b.c.d`; then it is the v4 address whose octets make up
/// the last two segments. Every other v6 address is kept whole.
pub proof fn unmapped_keeps_every_address_but_mapped_ones(address: IpAddress, plain: IpAddress)
    requires
        call_ensures(unmapped, (address,), plain),
    ensures
        address is V4 ==> plain == address,
        address matches IpAddress::V6(s0, s1, s2, s3, s4, s5, s6, s7) ==> if s0 == 0 && s1 == 0
            && s2 == 0 && s3 == 0 && s4 == 0 && s5 == 0xffff {
            plain matches IpAddress::V4(a, b, c, d) && a * 256 + b == s6 && c * 256 + d == s7
        } else {
            plain == address
        },
        plain == canonical(address),
{
}

/// Two addresses are unwrapped to the same one only if they are the same, or one
/// is the v6 spelling of the other.
pub proof fn unmapped_confuses_no_two_addresses(
    address1: IpAddress,
    plain1: IpAddress,
    address2: IpAddress,
    plain2: IpAddress,
)
    requires
        call_ensures(unmapped, (address1,), plain1),
        call_ensures(unmapped, (address2,), plain2),
    ensures
        (address1 is V4) == (address2 is V4) ==> (plain1 == plain2 <==> address1 == address2),
        address1 is V4 && address2 is V6 && plain1 == plain2 ==> {
            &&& address1 matches IpAddress::V4(a, b, c, d)
            &&& address2 matches IpAddress::V6(s0, s1, s2, s3, s4, s5, s6, s7)
            &&& s0 == 0 && s1 == 0 && s2 == 0 && s3 == 0 && s4 == 0 && s5 == 0xffff
            &&& s6 == a * 256 + b && s7 == c * 256 + d
        },
{
    unmapped_keeps_every_address_but_mapped_ones(address1, plain1);
    unmapped_keeps_every_address_but_mapped_ones(address2, plain2);
}

/// A v4 address is told by its octets: loopback by the first, the unspecified
/// address by all four, the range of this host by the first. A v6 address has to
/// be zero up to its last segment for one of the first two, and is never in the
/// range.
pub proof fn classes_are_told_by_the_numbers(
    address: IpAddress,
    is_loopback: bool,
    is_unspecified: bool,
    is_in_this_host_range: bool,
)
    requires
        call_ensures(IpAddress::is_loopback, (address,), is_loopback),
        call_ensures(IpAddress::is_unspecified, (address,), is_unspecified),
        call_ensures(IpAddress::is_in_this_host_range, (address,), is_in_this_host_range),
    ensures
        address matches IpAddress::V4(a, b, c, d) ==> {
            &&& is_loopback <==> a == 127
            &&& is_unspecified <==> a == 0 && b == 0 && c == 0 && d == 0
            &&& is_in_this_host_range <==> a == 0
        },
        address matches IpAddress::V6(s0, s1, s2, s3, s4, s5, s6, s7) ==> {
            &&& is_loopback <==> s0 == 0 && s1 == 0 && s2 == 0 && s3 == 0 && s4 == 0 && s5 == 0
                && s6 == 0 && s7 == 1
            &&& is_unspecified <==> s0 == 0 && s1 == 0 && s2 == 0 && s3 == 0 && s4 == 0 && s5 == 0
                && s6 == 0 && s7 == 0
            &&& !is_in_this_host_range
        },
        is_loopback == loopback(address),
        is_unspecified == unspecified(address),
        is_in_this_host_range == in_this_host_range(address),
{
}

/// The v6 spelling of a v4 address is `::ffff:` and two segments of two octets
/// each.
pub proof fn mapped_spelling(a: u8, b: u8, c: u8, d: u8)
    ensures
        mapped(a, b, c, d) matches IpAddress::V6(s0, s1, s2, s3, s4, s5, s6, s7) && s0 == 0 && s1
            == 0 && s2 == 0 && s3 == 0 && s4 == 0 && s5 == 0xffff && s6 == a * 256 + b && s7 == c
            * 256 + d,
{
}

} // verus!
