//! Refuses proxy targets that point back at the device running the proxy.
//!
//! Every target the proxy fetches comes from the caller, and the caller is web
//! content. A page that names a loopback target reaches services meant for the
//! device alone, and it can read what they answer. Reaching the rest of the
//! network stays allowed: only the device itself is out of bounds, which means
//! loopback and every address the device answers on.
//!
//! Two things are not decided here: what a name resolves to, and whether the
//! device answers on an address. A check that needs one of them stops and says
//! so, and goes on when it is told.

use vstd::prelude::*;
use vstd::string::*;

use crate::address::{
    canonical, in_this_host_range, loopback, mapped, mapped_address_is_the_plain_one, unmapped,
    unspecified, IpAddress, SocketAddress,
};
use crate::target::{web_scheme, Host, HostView, Target, TargetView};

verus! {

/// The port that goes with a name to look it up, and with an address to ask
/// whether the device owns it.
///
/// Only the address matters there. The port has to stay zero in what the
/// resolver hands back, because zero is what the HTTP client replaces with the
/// port that the scheme calls for.
pub const ANY_PORT: u16 = 0;

/// True when `address` means this host wherever the proxy runs: loopback, the
/// unspecified address, and all of `0.0.0.0/8`.
pub open spec fn this_host(address: IpAddress) -> bool {
    let plain = canonical(address);
    loopback(plain) || unspecified(plain) || in_this_host_range(plain)
}

/// True when a proxied request must not reach `address`, on a device that
/// answers on the addresses in `device`.
pub open spec fn blocked(address: IpAddress, device: spec_fn(IpAddress) -> bool) -> bool {
    this_host(address) || device(canonical(address))
}

/// The address to ask the device about before a request may reach `address`,
/// or `None` when no answer could let it through.
pub fn probe_for(address: IpAddress) -> (probe: Option<IpAddress>)
    ensures
        probe == (if this_host(address) {
            None
        } else {
            Some(canonical(address))
        }),
{
    let plain = unmapped(address);
    // All of 0.0.0.0/8 means this host, but only 0.0.0.0 itself is unspecified.
    if plain.is_loopback() || plain.is_unspecified() || plain.is_in_this_host_range() {
        None
    } else {
        Some(plain)
    }
}

/// True when a proxied request must not reach `address`: it is loopback, or it
/// is one the device itself answers on.
///
/// `device_answers` tells whether the device answers on the address of
/// [`probe_for`]; it plays no part where that is `None`.
pub fn is_blocked_address(address: IpAddress, device_answers: bool) -> (yes: bool)
    ensures
        yes == (this_host(address) || device_answers),
{
    match probe_for(address) {
        None => true,
        Some(_) => device_answers,
    }
}

pub open spec fn scheme_reason(url: Seq<char>) -> Seq<char> {
    "Target scheme is not allowed: "@ + url
}

pub open spec fn unresolved_reason(url: Seq<char>) -> Seq<char> {
    "Target host does not resolve: "@ + url
}

pub open spec fn device_reason(url: Seq<char>) -> Seq<char> {
    "Target is an address of this device: "@ + url
}

/// How far the check of a URL has come, and with it what has to happen next.
///
/// The check stops at the first address that names the device.
#[derive(Debug)]
pub enum Vetting {
    /// `domain` has to be looked up. Goes on with [`Vetting::resolved`].
    Resolve { url: String, domain: String },
    /// The device has to be asked whether it answers on `address`, which is
    /// where a connection to `addresses[next]` would go. Goes on with
    /// [`Vetting::probed`].
    Probe { url: String, addresses: Vec<IpAddress>, next: usize, address: IpAddress },
    /// The check is over: the reason the URL must not be fetched, or `None`
    /// when it may be.
    Done(Option<String>),
}

/// What a [`Vetting`] says.
#[verifier::ext_equal]
pub enum VettingView {
    Resolve { url: Seq<char>, domain: Seq<char> },
    Probe { url: Seq<char>, addresses: Seq<IpAddress>, next: int, address: IpAddress },
    Done(Option<Seq<char>>),
}

impl View for Vetting {
    type V = VettingView;

    open spec fn view(&self) -> VettingView {
        match self {
            Vetting::Resolve { url, domain } => VettingView::Resolve { url: url@, domain: domain@ },
            Vetting::Probe { url, addresses, next, address } => VettingView::Probe {
                url: url@,
                addresses: addresses@,
                next: *next as int,
                address: *address,
            },
            Vetting::Done(Some(reason)) => VettingView::Done(Some(reason@)),
            Vetting::Done(None) => VettingView::Done(None),
        }
    }
}

impl VettingView {
    /// Holds of every state that a check can be in: the address asked about is
    /// the one at `next`, and nothing up to there is out of bounds whatever the
    /// device answers.
    pub open spec fn wf(self) -> bool {
        match self {
            VettingView::Probe { url, addresses, next, address } => {
                &&& 0 <= next < addresses.len()
                &&& address == canonical(addresses[next])
                &&& forall|i: int| 0 <= i <= next ==> !this_host(#[trigger] addresses[i])
            },
            _ => true,
        }
    }
}

/// The state of a check that has cleared all addresses before `next`.
pub open spec fn scanning(url: Seq<char>, addresses: Seq<IpAddress>, next: int) -> VettingView {
    if next >= addresses.len() {
        VettingView::Done(None)
    } else if this_host(addresses[next]) {
        VettingView::Done(Some(device_reason(url)))
    } else {
        VettingView::Probe { url, addresses, next, address: canonical(addresses[next]) }
    }
}

/// The state in which the check of `url` begins.
pub open spec fn begun(url: TargetView) -> VettingView {
    if !web_scheme(url.scheme) {
        VettingView::Done(Some(scheme_reason(url.text)))
    } else {
        match url.host {
            None => VettingView::Done(None),
            Some(HostView::Address(address)) => scanning(url.text, seq![address], 0),
            Some(HostView::Domain(domain)) => VettingView::Resolve { url: url.text, domain },
        }
    }
}

/// The state of a check whose name has been looked up.
pub open spec fn after_lookup(url: Seq<char>, found: Option<Seq<IpAddress>>) -> VettingView {
    match found {
        Some(addresses) => if addresses.len() == 0 {
            VettingView::Done(Some(unresolved_reason(url)))
        } else {
            scanning(url, addresses, 0)
        },
        None => VettingView::Done(Some(unresolved_reason(url))),
    }
}

/// The state of a check that asked about `addresses[next]`.
pub open spec fn after_probe(
    url: Seq<char>,
    addresses: Seq<IpAddress>,
    next: int,
    device_answers: bool,
) -> VettingView {
    if device_answers {
        VettingView::Done(Some(device_reason(url)))
    } else {
        scanning(url, addresses, next + 1)
    }
}

fn scan(url: String, addresses: Vec<IpAddress>, next: usize) -> (state: Vetting)
    requires
        next <= addresses@.len(),
        forall|i: int| 0 <= i < next ==> !this_host(#[trigger] addresses@[i]),
    ensures
        state@ == scanning(url@, addresses@, next as int),
        state@.wf(),
{
    if next >= addresses.len() {
        return Vetting::Done(None);
    }
    match probe_for(addresses[next]) {
        None => Vetting::Done(Some(refusal("Target is an address of this device: ", &url))),
        Some(address) => Vetting::Probe { url, addresses, next, address },
    }
}

fn refusal(class: &str, url: &String) -> (reason: String)
    ensures
        reason@ == class@ + url@,
{
    let mut reason = class.to_owned();
    reason.append(url.as_str());
    reason
}

/// Starts the check of a URL.
///
/// A literal address is decided without a lookup; a hostname is resolved and
/// no address it answers with may name the device, so a name pointing at
/// loopback is refused as well. A hostname that does not resolve is refused,
/// because it cannot be vetted. The reason names the class of refusal and the
/// URL, never the resolved address.
pub fn blocked_url_reason(url: &Target) -> (state: Vetting)
    ensures
        state@ == begun(url@),
        state@.wf(),
{
    if !url.has_web_scheme() {
        return Vetting::Done(Some(refusal("Target scheme is not allowed: ", &url.text)));
    }
    match &url.host {
        None => Vetting::Done(None),
        Some(Host::Address(address)) => {
            let addresses = vec![*address];
            assert(addresses@ =~= seq![*address]);
            scan(url.text.clone(), addresses, 0)
        },
        Some(Host::Domain(domain)) => Vetting::Resolve {
            url: url.text.clone(),
            domain: domain.clone(),
        },
    }
}

/// The state in which the check of a redirect to `url` begins.
pub open spec fn redirected(url: TargetView) -> VettingView {
    if begun(url) is Resolve {
        VettingView::Done(None)
    } else {
        begun(url)
    }
}

/// Starts the check of a URL that a target redirects to.
///
/// A hop that names a host is left to [`PublicAddressResolver`], which sees the
/// addresses that are connected to. Only a hop that names an address passes it
/// by, and is checked here.
pub fn redirect_reason(url: &Target) -> (state: Vetting)
    ensures
        state@ == redirected(url@),
        state@.wf(),
{
    match blocked_url_reason(url) {
        Vetting::Resolve { .. } => Vetting::Done(None),
        state => state,
    }
}

impl Vetting {
    /// Goes on after a lookup: `found` holds the addresses the name answered
    /// with, and is `None` when the lookup failed.
    pub fn resolved(self, found: Option<Vec<IpAddress>>) -> (state: Vetting)
        requires
            self is Resolve,
        ensures
            state@ == after_lookup(
                self->Resolve_url@,
                match found {
                    Some(addresses) => Some(addresses@),
                    None => None,
                },
            ),
            state@.wf(),
    {
        match self {
            Vetting::Resolve { url, domain: _ } => match found {
                Some(addresses) => {
                    if addresses.len() == 0 {
                        Vetting::Done(Some(refusal("Target host does not resolve: ", &url)))
                    } else {
                        scan(url, addresses, 0)
                    }
                },
                None => Vetting::Done(Some(refusal("Target host does not resolve: ", &url))),
            },
            other => other,
        }
    }

    /// Goes on after the device was asked about the address of
    /// [`Vetting::Probe`].
    pub fn probed(self, device_answers: bool) -> (state: Vetting)
        requires
            self is Probe,
            self@.wf(),
        ensures
            state@ == after_probe(
                self->Probe_url@,
                self->addresses@,
                self->next as int,
                device_answers,
            ),
            state@.wf(),
    {
        match self {
            Vetting::Probe { url, addresses, next, address: _ } => {
                if is_blocked_address(addresses[next], device_answers) {
                    Vetting::Done(Some(refusal("Target is an address of this device: ", &url)))
                } else {
                    assert(next < addresses.len());
                    scan(url, addresses, next + 1)
                }
            },
            other => other,
        }
    }
}

/// Reads the outcome of a check that ran elsewhere: the reason it came to, or
/// `None` when the check itself broke down. A target that could not be checked
/// is refused.
pub fn settled_reason(outcome: Option<Option<String>>) -> (reason: Option<String>)
    ensures
        match outcome {
            Some(found) => reason == found,
            None => reason matches Some(text) && text@ == "Target could not be checked"@,
        },
{
    match outcome {
        Some(found) => found,
        None => Some("Target could not be checked".to_owned()),
    }
}

/// Says that a name resolves to an address of this device. The message
/// deliberately names no address.
#[derive(Clone, Copy, Debug, PartialEq, Eq, Structural)]
pub struct DeviceAddress;

impl DeviceAddress {
    pub fn message(&self) -> (text: String)
        ensures
            text@ == "Target is an address of this device"@,
    {
        "Target is an address of this device".to_owned()
    }
}

/// The resolver the HTTP client connects through, which refuses to hand back an
/// address of this device.
///
/// Vetting a URL and then letting the client look the name up again leaves a
/// window where the second answer differs from the checked one, which is all a
/// rebinding host needs. Resolving here means the addresses that were vetted
/// are exactly the addresses connected to, and it covers redirect hops too,
/// since every name the client connects to comes through this resolver.
pub struct PublicAddressResolver;

/// How far the resolver has come with the addresses of a name, and with it what
/// has to happen next.
#[derive(Debug)]
pub enum Resolution {
    /// The device has to be asked whether it answers on `address`, which is
    /// where a connection to `addresses[next]` would go. Goes on with
    /// [`Resolution::probed`].
    Probe { addresses: Vec<SocketAddress>, next: usize, address: IpAddress },
    /// The name leads to the device.
    Refused(DeviceAddress),
    /// The addresses to connect to.
    Connect(Vec<SocketAddress>),
}

/// What a [`Resolution`] says.
#[verifier::ext_equal]
pub enum ResolutionView {
    Probe { addresses: Seq<SocketAddress>, next: int, address: IpAddress },
    Refused(DeviceAddress),
    Connect(Seq<SocketAddress>),
}

impl View for Resolution {
    type V = ResolutionView;

    open spec fn view(&self) -> ResolutionView {
        match self {
            Resolution::Probe { addresses, next, address } => ResolutionView::Probe {
                addresses: addresses@,
                next: *next as int,
                address: *address,
            },
            Resolution::Refused(refusal) => ResolutionView::Refused(*refusal),
            Resolution::Connect(addresses) => ResolutionView::Connect(addresses@),
        }
    }
}

impl ResolutionView {
    /// Holds of every state that the resolver can be in.
    pub open spec fn wf(self) -> bool {
        match self {
            ResolutionView::Probe { addresses, next, address } => {
                &&& 0 <= next < addresses.len()
                &&& address == canonical(addresses[next].ip)
                &&& forall|i: int| 0 <= i <= next ==> !this_host(#[trigger] addresses[i].ip)
            },
            _ => true,
        }
    }
}

/// The state of a resolver that has cleared all addresses before `next`.
pub open spec fn resolving(addresses: Seq<SocketAddress>, next: int) -> ResolutionView {
    if next >= addresses.len() {
        ResolutionView::Connect(addresses)
    } else if this_host(addresses[next].ip) {
        ResolutionView::Refused(DeviceAddress)
    } else {
        ResolutionView::Probe { addresses, next, address: canonical(addresses[next].ip) }
    }
}

/// The state of a resolver that asked about `addresses[next]`.
pub open spec fn resolving_after_probe(
    addresses: Seq<SocketAddress>,
    next: int,
    device_answers: bool,
) -> ResolutionView {
    if device_answers {
        ResolutionView::Refused(DeviceAddress)
    } else {
        resolving(addresses, next + 1)
    }
}

impl PublicAddressResolver {
    /// Starts to vet the addresses that a name was found to have.
    pub fn resolve(&self, addresses: Vec<SocketAddress>) -> (state: Resolution)
        ensures
            state@ == resolving(addresses@, 0),
            state@.wf(),
    {
        Self::vet(addresses, 0)
    }

    fn vet(addresses: Vec<SocketAddress>, next: usize) -> (state: Resolution)
        requires
            next <= addresses@.len(),
            forall|i: int| 0 <= i < next ==> !this_host(#[trigger] addresses@[i].ip),
        ensures
            state@ == resolving(addresses@, next as int),
            state@.wf(),
    {
        if next >= addresses.len() {
            return Resolution::Connect(addresses);
        }
        match probe_for(addresses[next].ip) {
            None => Resolution::Refused(DeviceAddress),
            Some(address) => Resolution::Probe { addresses, next, address },
        }
    }
}

impl Resolution {
    /// Goes on after the device was asked about the address of
    /// [`Resolution::Probe`].
    pub fn probed(self, device_answers: bool) -> (state: Resolution)
        requires
            self is Probe,
            self@.wf(),
        ensures
            state@ == resolving_after_probe(self->addresses@, self->next as int, device_answers),
            state@.wf(),
    {
        match self {
            Resolution::Probe { addresses, next, address: _ } => {
                if is_blocked_address(addresses[next].ip, device_answers) {
                    Resolution::Refused(DeviceAddress)
                } else {
                    assert(next < addresses.len());
                    PublicAddressResolver::vet(addresses, next + 1)
                }
            },
            other => other,
        }
    }
}

/// The answer a check ends with when names resolve as `lookup` says and the
/// device answers on the addresses in `device`.
pub open spec fn verdict(
    state: VettingView,
    lookup: spec_fn(Seq<char>) -> Option<Seq<IpAddress>>,
    device: spec_fn(IpAddress) -> bool,
) -> Option<Seq<char>>
    decreases
            (if state is Resolve {
                1int
            } else {
                0int
            }),
            (match state {
                VettingView::Probe { url, addresses, next, address } => addresses.len() - next,
                _ => 0int,
            }),
{
    match state {
        VettingView::Resolve { url, domain } => verdict(
            after_lookup(url, lookup(domain)),
            lookup,
            device,
        ),
        VettingView::Probe { url, addresses, next, address } => if next < addresses.len() {
            verdict(after_probe(url, addresses, next, device(address)), lookup, device)
        } else {
            None
        },
        VettingView::Done(reason) => reason,
    }
}

/// True when some address from `from` on must not be reached.
pub open spec fn any_blocked(
    addresses: Seq<IpAddress>,
    from: int,
    device: spec_fn(IpAddress) -> bool,
) -> bool {
    exists|i: int| from <= i < addresses.len() && blocked(#[trigger] addresses[i], device)
}

proof fn scanning_verdict(
    url: Seq<char>,
    addresses: Seq<IpAddress>,
    next: int,
    lookup: spec_fn(Seq<char>) -> Option<Seq<IpAddress>>,
    device: spec_fn(IpAddress) -> bool,
)
    requires
        0 <= next <= addresses.len(),
    ensures
        verdict(scanning(url, addresses, next), lookup, device) == (if any_blocked(
            addresses,
            next,
            device,
        ) {
            Some(device_reason(url))
        } else {
            None
        }),
    decreases addresses.len() - next,
{
    reveal_with_fuel(verdict, 2);
    if next < addresses.len() {
        if blocked(addresses[next], device) {
            assert(any_blocked(addresses, next, device));
        } else {
            scanning_verdict(url, addresses, next + 1, lookup, device);
            assert(any_blocked(addresses, next, device) == any_blocked(
                addresses,
                next + 1,
                device,
            ));
        }
    }
}

/// A target that names an address is refused exactly when the address is out of
/// bounds: the device is never reached, and the rest of the network always is.
pub proof fn literal_target_is_refused_iff_blocked(
    url: TargetView,
    address: IpAddress,
    lookup: spec_fn(Seq<char>) -> Option<Seq<IpAddress>>,
    device: spec_fn(IpAddress) -> bool,
)
    requires
        web_scheme(url.scheme),
        url.host == Some(HostView::Address(address)),
    ensures
        verdict(begun(url), lookup, device) == (if blocked(address, device) {
            Some(device_reason(url.text))
        } else {
            None
        }),
{
    let addresses = seq![address];
    scanning_verdict(url.text, addresses, 0, lookup, device);
    assert(addresses[0] == address);
    assert(any_blocked(addresses, 0, device) == blocked(address, device));
}

/// A target that names a host is refused when the name does not resolve, and
/// when one of the addresses it resolves to is out of bounds; otherwise it may
/// be fetched.
pub proof fn named_target_is_refused_iff_unresolved_or_blocked(
    url: TargetView,
    domain: Seq<char>,
    lookup: spec_fn(Seq<char>) -> Option<Seq<IpAddress>>,
    device: spec_fn(IpAddress) -> bool,
)
    requires
        web_scheme(url.scheme),
        url.host == Some(HostView::Domain(domain)),
    ensures
        verdict(begun(url), lookup, device) == (match lookup(domain) {
            None => Some(unresolved_reason(url.text)),
            Some(addresses) => if addresses.len() == 0 {
                Some(unresolved_reason(url.text))
            } else if any_blocked(addresses, 0, device) {
                Some(device_reason(url.text))
            } else {
                None
            },
        }),
{
    reveal_with_fuel(verdict, 2);
    if let Some(addresses) = lookup(domain) {
        scanning_verdict(url.text, addresses, 0, lookup, device);
    }
}

/// A target of another scheme than `http` and `https` is refused for its
/// scheme, whatever it names.
pub proof fn other_scheme_is_refused(
    url: TargetView,
    lookup: spec_fn(Seq<char>) -> Option<Seq<IpAddress>>,
    device: spec_fn(IpAddress) -> bool,
)
    requires
        !web_scheme(url.scheme),
    ensures
        begun(url) == VettingView::Done(Some(scheme_reason(url.text))),
        verdict(begun(url), lookup, device) == Some(scheme_reason(url.text)),
{
}

/// Loopback is out of bounds on every device, also where the device denies
/// answering on it, and so is a v6 spelling of it.
pub proof fn loopback_is_blocked_on_every_device(
    address: IpAddress,
    device: spec_fn(IpAddress) -> bool,
)
    requires
        loopback(canonical(address)),
    ensures
        blocked(address, device),
{
}

/// An address that the device answers on is out of bounds, in both spellings
/// of a v4 address.
pub proof fn device_address_is_blocked_in_both_spellings(
    a: u8,
    b: u8,
    c: u8,
    d: u8,
    device: spec_fn(IpAddress) -> bool,
)
    ensures
        blocked(mapped(a, b, c, d), device) == blocked(IpAddress::V4(a, b, c, d), device),
        device(IpAddress::V4(a, b, c, d)) ==> blocked(mapped(a, b, c, d), device),
{
    mapped_address_is_the_plain_one(a, b, c, d);
}

/// An address outside loopback and `0.0.0.0/8` stays reachable unless the
/// device answers on it. That holds for private networks as for public ones.
pub proof fn other_addresses_stay_reachable(
    address: IpAddress,
    device: spec_fn(IpAddress) -> bool,
)
    requires
        match canonical(address) {
            IpAddress::V4(a, _, _, _) => a != 127 && a != 0,
            IpAddress::V6(s0, s1, s2, s3, s4, s5, s6, s7) => s0 != 0 || s1 != 0 || s2 != 0
                || s3 != 0 || s4 != 0 || s5 != 0 || s6 != 0 || s7 > 1,
        },
        !device(canonical(address)),
    ensures
        !blocked(address, device),
{
}

/// A refusal is one of three sentences that end in the URL. Nothing that the
/// lookup found out shows in it.
pub proof fn reason_names_the_class_and_the_url(
    url: TargetView,
    lookup: spec_fn(Seq<char>) -> Option<Seq<IpAddress>>,
    device: spec_fn(IpAddress) -> bool,
)
    ensures
        match verdict(begun(url), lookup, device) {
            Some(reason) => {
                ||| reason == scheme_reason(url.text)
                ||| reason == unresolved_reason(url.text)
                ||| reason == device_reason(url.text)
            },
            None => true,
        },
{
    if web_scheme(url.scheme) {
        match url.host {
            Some(HostView::Address(address)) => {
                literal_target_is_refused_iff_blocked(url, address, lookup, device);
            },
            Some(HostView::Domain(domain)) => {
                named_target_is_refused_iff_unresolved_or_blocked(url, domain, lookup, device);
            },
            None => {},
        }
    }
}

/// A name that resolves into the device gives the same reason whichever of its
/// addresses that is, on every device.
pub proof fn reason_hides_the_resolved_address(
    url: TargetView,
    domain: Seq<char>,
    lookup1: spec_fn(Seq<char>) -> Option<Seq<IpAddress>>,
    device1: spec_fn(IpAddress) -> bool,
    lookup2: spec_fn(Seq<char>) -> Option<Seq<IpAddress>>,
    device2: spec_fn(IpAddress) -> bool,
)
    requires
        web_scheme(url.scheme),
        url.host == Some(HostView::Domain(domain)),
        lookup1(domain) matches Some(addresses) && any_blocked(addresses, 0, device1),
        lookup2(domain) matches Some(addresses) && any_blocked(addresses, 0, device2),
    ensures
        verdict(begun(url), lookup1, device1) == verdict(begun(url), lookup2, device2),
        verdict(begun(url), lookup1, device1) == Some(device_reason(url.text)),
{
    named_target_is_refused_iff_unresolved_or_blocked(url, domain, lookup1, device1);
    named_target_is_refused_iff_unresolved_or_blocked(url, domain, lookup2, device2);
}

/// A literal address is decided without a lookup: the check never asks for one,
/// and its outcome is the same whatever names resolve to.
pub proof fn literal_target_needs_no_lookup(
    url: TargetView,
    address: IpAddress,
    lookup1: spec_fn(Seq<char>) -> Option<Seq<IpAddress>>,
    lookup2: spec_fn(Seq<char>) -> Option<Seq<IpAddress>>,
    device: spec_fn(IpAddress) -> bool,
)
    requires
        url.host == Some(HostView::Address(address)),
    ensures
        begun(url) !is Resolve,
        verdict(begun(url), lookup1, device) == verdict(begun(url), lookup2, device),
{
    if web_scheme(url.scheme) {
        literal_target_is_refused_iff_blocked(url, address, lookup1, device);
        literal_target_is_refused_iff_blocked(url, address, lookup2, device);
    }
}

/// What the resolver ends with on a device that answers on the addresses in
/// `device`.
pub open spec fn resolution(
    state: ResolutionView,
    device: spec_fn(IpAddress) -> bool,
) -> ResolutionView
    decreases
            (match state {
                ResolutionView::Probe { addresses, next, address } => addresses.len() - next,
                _ => 0int,
            }),
{
    match state {
        ResolutionView::Probe { addresses, next, address } => if next < addresses.len() {
            resolution(resolving_after_probe(addresses, next, device(address)), device)
        } else {
            state
        },
        _ => state,
    }
}

/// True when some address from `from` on must not be reached.
pub open spec fn any_socket_blocked(
    addresses: Seq<SocketAddress>,
    from: int,
    device: spec_fn(IpAddress) -> bool,
) -> bool {
    exists|i: int| from <= i < addresses.len() && blocked(#[trigger] addresses[i].ip, device)
}

proof fn resolving_resolution(
    addresses: Seq<SocketAddress>,
    next: int,
    device: spec_fn(IpAddress) -> bool,
)
    requires
        0 <= next <= addresses.len(),
    ensures
        resolution(resolving(addresses, next), device) == (if any_socket_blocked(
            addresses,
            next,
            device,
        ) {
            ResolutionView::Refused(DeviceAddress)
        } else {
            ResolutionView::Connect(addresses)
        }),
    decreases addresses.len() - next,
{
    reveal_with_fuel(resolution, 2);
    if next < addresses.len() {
        if blocked(addresses[next].ip, device) {
            assert(any_socket_blocked(addresses, next, device));
        } else {
            resolving_resolution(addresses, next + 1, device);
            assert(any_socket_blocked(addresses, next, device) == any_socket_blocked(
                addresses,
                next + 1,
                device,
            ));
        }
    }
}

/// The resolver refuses a name exactly when one of its addresses is out of
/// bounds; otherwise it hands back the addresses it vetted, all of them and in
/// their order, each with the port it came with.
pub proof fn vetted_addresses_are_the_ones_connected_to(
    addresses: Seq<SocketAddress>,
    device: spec_fn(IpAddress) -> bool,
)
    ensures
        resolution(resolving(addresses, 0), device) == (if any_socket_blocked(
            addresses,
            0,
            device,
        ) {
            ResolutionView::Refused(DeviceAddress)
        } else {
            ResolutionView::Connect(addresses)
        }),
        resolution(resolving(addresses, 0), device) matches ResolutionView::Connect(handed) ==> (
        forall|i: int| 0 <= i < handed.len() ==> !blocked(#[trigger] handed[i].ip, device)),
{
    resolving_resolution(addresses, 0, device);
}

/// The resolver and the check of a URL agree: on the addresses of a name that
/// resolves, one refuses exactly when the other does.
pub proof fn resolver_agrees_with_the_url_check(
    url: TargetView,
    domain: Seq<char>,
    addresses: Seq<SocketAddress>,
    lookup: spec_fn(Seq<char>) -> Option<Seq<IpAddress>>,
    device: spec_fn(IpAddress) -> bool,
)
    requires
        web_scheme(url.scheme),
        url.host == Some(HostView::Domain(domain)),
        addresses.len() > 0,
        lookup(domain) == Some(addresses.map_values(|address: SocketAddress| address.ip)),
    ensures
        resolution(resolving(addresses, 0), device) is Refused <==> verdict(
            begun(url),
            lookup,
            device,
        ) == Some(device_reason(url.text)),
        resolution(resolving(addresses, 0), device) is Connect <==> verdict(
            begun(url),
            lookup,
            device,
        ) is None,
{
    let ips = addresses.map_values(|address: SocketAddress| address.ip);
    vetted_addresses_are_the_ones_connected_to(addresses, device);
    named_target_is_refused_iff_unresolved_or_blocked(url, domain, lookup, device);
    if any_socket_blocked(addresses, 0, device) {
        let i = choose|i: int|
            0 <= i < addresses.len() && blocked(#[trigger] addresses[i].ip, device);
        assert(blocked(ips[i], device));
    }
    if any_blocked(ips, 0, device) {
        let i = choose|i: int| 0 <= i < ips.len() && blocked(#[trigger] ips[i], device);
        assert(blocked(addresses[i].ip, device));
    }
}

/// No redirect leads to the device: a hop that names one of its addresses is
/// refused by the check, and the name of one by the resolver.
pub proof fn redirect_never_reaches_the_device(
    url: TargetView,
    addresses: Seq<SocketAddress>,
    lookup: spec_fn(Seq<char>) -> Option<Seq<IpAddress>>,
    device: spec_fn(IpAddress) -> bool,
)
    requires
        web_scheme(url.scheme),
        match url.host {
            Some(HostView::Address(address)) => blocked(address, device),
            Some(HostView::Domain(_)) => any_socket_blocked(addresses, 0, device),
            None => false,
        },
    ensures
        url.host matches Some(HostView::Address(_)) ==> verdict(redirected(url), lookup, device)
            == Some(device_reason(url.text)),
        url.host matches Some(HostView::Domain(_)) ==> resolution(
            resolving(addresses, 0),
            device,
        ) is Refused,
{
    match url.host {
        Some(HostView::Address(address)) => {
            literal_target_is_refused_iff_blocked(url, address, lookup, device);
        },
        _ => {
            vetted_addresses_are_the_ones_connected_to(addresses, device);
        },
    }
}

/// Addresses that were looked up with [`ANY_PORT`] still carry it when they are
/// handed back.
pub proof fn handed_back_port_stays_open(
    addresses: Seq<SocketAddress>,
    device: spec_fn(IpAddress) -> bool,
)
    requires
        forall|i: int| 0 <= i < addresses.len() ==> (#[trigger] addresses[i]).port == ANY_PORT,
    ensures
        resolution(resolving(addresses, 0), device) matches ResolutionView::Connect(handed) ==> (
        forall|i: int|
            0 <= i < handed.len() ==> (#[trigger] handed[i]).port == ANY_PORT && handed[i].port
                == 0),
{
    vetted_addresses_are_the_ones_connected_to(addresses, device);
}

/// A web target with a host is never let through unseen: its check begins with
/// a lookup, a question to the device, or a refusal.
pub proof fn web_target_is_never_let_through_unseen(url: TargetView)
    requires
        web_scheme(url.scheme),
        url.host is Some,
    ensures
        begun(url) != VettingView::Done(None),
{
}

/// The device is asked about the very address that is named: a v4 address by its
/// octets, in either spelling, and any other v6 address whole. It is asked about
/// all of them but `127.0.0.0/8`, `0.0.0.0/8`, `::1` and `::`.
pub proof fn device_is_asked_about_the_address_that_is_named(
    address: IpAddress,
    probe: Option<IpAddress>,
)
    requires
        call_ensures(probe_for, (address,), probe),
    ensures
        address matches IpAddress::V4(a, b, c, d) ==> probe == (if a == 127 || a == 0 {
            None
        } else {
            Some(address)
        }),
        address matches IpAddress::V6(s0, s1, s2, s3, s4, s5, s6, s7) ==> if s0 == 0 && s1 == 0
            && s2 == 0 && s3 == 0 && s4 == 0 && s5 == 0xffff {
            match probe {
                Some(plain) => plain matches IpAddress::V4(a, b, c, d) && a * 256 + b == s6 && c
                    * 256 + d == s7 && a != 127 && a != 0,
                None => 0x7f00 <= s6 <= 0x7fff || s6 <= 0xff,
            }
        } else if s0 == 0 && s1 == 0 && s2 == 0 && s3 == 0 && s4 == 0 && s5 == 0 && s6 == 0 && s7
            <= 1 {
            probe is None
        } else {
            probe == Some(address)
        },
{
}

/// An address is blocked when the device is not even asked about it, and otherwise
/// exactly when the device answers.
pub proof fn device_decides_where_it_is_asked(
    address: IpAddress,
    probe: Option<IpAddress>,
    device_answers: bool,
    yes: bool,
)
    requires
        call_ensures(probe_for, (address,), probe),
        call_ensures(is_blocked_address, (address, device_answers), yes),
    ensures
        probe is None ==> yes,
        probe is Some ==> yes == device_answers,
{
}

/// What is out of bounds, in numbers: of the v4 addresses `127.0.0.0/8`,
/// `0.0.0.0/8` and those the device answers on; of the others `::1`, `::` and
/// those the device answers on; and a v4 address in its v6 spelling like the v4
/// address.
pub proof fn out_of_bounds_in_numbers(address: IpAddress, device: spec_fn(IpAddress) -> bool)
    ensures
        address matches IpAddress::V4(a, b, c, d) ==> (blocked(address, device) <==> a == 127 || a
            == 0 || device(address)),
        address matches IpAddress::V6(s0, s1, s2, s3, s4, s5, s6, s7) ==> if s0 == 0 && s1 == 0
            && s2 == 0 && s3 == 0 && s4 == 0 && s5 == 0xffff {
            forall|a: u8, b: u8, c: u8, d: u8|
                s6 == a * 256 + b && s7 == c * 256 + d ==> (blocked(address, device) <==> a == 127
                    || a == 0 || #[trigger] device(IpAddress::V4(a, b, c, d)))
        } else {
            blocked(address, device) <==> device(address) || (s0 == 0 && s1 == 0 && s2 == 0 && s3
                == 0 && s4 == 0 && s5 == 0 && s6 == 0 && s7 <= 1)
        },
{
    if let IpAddress::V6(s0, s1, s2, s3, s4, s5, s6, s7) = address {
        if s0 == 0 && s1 == 0 && s2 == 0 && s3 == 0 && s4 == 0 && s5 == 0xffff {
            assert forall|a: u8, b: u8, c: u8, d: u8|
                s6 == a * 256 + b && s7 == c * 256 + d implies (blocked(address, device) <==> a
                == 127 || a == 0 || #[trigger] device(IpAddress::V4(a, b, c, d))) by {
                mapped_address_is_the_plain_one(a, b, c, d);
                assert(address == mapped(a, b, c, d));
            }
        }
    }
}

/// Every address the device answers on is out of bounds, and the question that is
/// asked about it is about that very address, unless it is a v6 spelling of a v4
/// one.
pub proof fn every_device_address_is_out_of_bounds(
    address: IpAddress,
    device: spec_fn(IpAddress) -> bool,
    probe: Option<IpAddress>,
)
    requires
        device(address),
        address matches IpAddress::V6(s0, s1, s2, s3, s4, s5, _, _) ==> s0 != 0 || s1 != 0 || s2
            != 0 || s3 != 0 || s4 != 0 || s5 != 0xffff,
        call_ensures(probe_for, (address,), probe),
    ensures
        blocked(address, device),
        probe is None || probe == Some(address),
{
    out_of_bounds_in_numbers(address, device);
    device_is_asked_about_the_address_that_is_named(address, probe);
}

/// A check begins by the scheme and the host of the URL: another scheme than
/// `http` and `https` is refused, a name is looked up as it stands, and a URL
/// without a host is let through.
pub proof fn check_begins_by_the_scheme_and_the_host(url: Target, state: Vetting)
    requires
        call_ensures(blocked_url_reason, (&url,), state),
    ensures
        url.scheme@ != "http"@ && url.scheme@ != "https"@ ==> (state matches Vetting::Done(
            Some(reason),
        ) && reason@ == "Target scheme is not allowed: "@ + url.text@),
        url.scheme@ == "http"@ || url.scheme@ == "https"@ ==> match url.host {
            None => state matches Vetting::Done(None),
            Some(Host::Domain(name)) => state matches Vetting::Resolve { url: text, domain }
                && text@ == url.text@ && domain@ == name@,
            Some(Host::Address(_)) => state !is Resolve && !(state matches Vetting::Done(None)),
        },
{
}

/// The check of a URL that names an address stops at once to ask the device about
/// it, or refuses it where there is nothing to ask.
pub proof fn literal_is_asked_about_or_refused(
    url: Target,
    address: IpAddress,
    probe: Option<IpAddress>,
    state: Vetting,
)
    requires
        call_ensures(blocked_url_reason, (&url,), state),
        call_ensures(probe_for, (address,), probe),
        url.scheme@ == "http"@ || url.scheme@ == "https"@,
        url.host == Some(Host::Address(address)),
    ensures
        probe is None ==> (state matches Vetting::Done(Some(reason)) && reason@
            == "Target is an address of this device: "@ + url.text@),
        probe matches Some(asked) ==> (state matches Vetting::Probe {
            url: text,
            addresses,
            next,
            address: about,
        } && text@ == url.text@ && addresses@ == seq![address] && next == 0 && about == asked),
{
}

/// A lookup that fails or finds nothing ends the check with a refusal; otherwise
/// the check goes on with the first address, and keeps all of them.
pub proof fn check_goes_on_with_the_first_address(
    state: Vetting,
    found: Option<Vec<IpAddress>>,
    after: Vetting,
    probe: Option<IpAddress>,
)
    requires
        state is Resolve,
        call_ensures(Vetting::resolved, (state, found), after),
        found matches Some(addresses) ==> (addresses@.len() > 0 ==> call_ensures(
            probe_for,
            (addresses@[0],),
            probe,
        )),
    ensures
        found is None || (found matches Some(addresses) && addresses@.len() == 0) ==> (
        after matches Vetting::Done(Some(reason)) && reason@ == "Target host does not resolve: "@
            + state->Resolve_url@),
        found matches Some(addresses) ==> (addresses@.len() > 0 ==> match probe {
            None => after matches Vetting::Done(Some(reason)) && reason@
                == "Target is an address of this device: "@ + state->Resolve_url@,
            Some(asked) => after matches Vetting::Probe {
                url: text,
                addresses: kept,
                next,
                address: about,
            } && text@ == state->Resolve_url@ && kept@ == addresses@ && next == 0 && about == asked,
        }),
{
}

/// An address the device answers on ends the check with a refusal. Otherwise the
/// check goes on with the next address, and lets the URL through behind the last.
pub proof fn check_goes_on_with_the_next_address(
    state: Vetting,
    device_answers: bool,
    after: Vetting,
    probe: Option<IpAddress>,
)
    requires
        state is Probe,
        state->next < state->addresses@.len(),
        call_ensures(Vetting::probed, (state, device_answers), after),
        state->next + 1 < state->addresses@.len() ==> call_ensures(
            probe_for,
            (state->addresses@[state->next + 1],),
            probe,
        ),
    ensures
        device_answers ==> (after matches Vetting::Done(Some(reason)) && reason@
            == "Target is an address of this device: "@ + state->Probe_url@),
        !device_answers && state->next + 1 == state->addresses@.len() ==> (
        after matches Vetting::Done(None)),
        !device_answers && state->next + 1 < state->addresses@.len() ==> match probe {
            None => after matches Vetting::Done(Some(reason)) && reason@
                == "Target is an address of this device: "@ + state->Probe_url@,
            Some(asked) => after matches Vetting::Probe {
                url: text,
                addresses: kept,
                next,
                address: about,
            } && text@ == state->Probe_url@ && kept@ == state->addresses@ && next == state->next + 1
                && about == asked,
        },
{
}

/// True when a check that stands at `before` stands at `after` once it has been
/// told what it asked for, where names resolve as `lookup` says and the device
/// answers on the addresses in `device`.
pub open spec fn goes_on(
    before: Vetting,
    after: Vetting,
    lookup: spec_fn(Seq<char>) -> Option<Seq<IpAddress>>,
    device: spec_fn(IpAddress) -> bool,
) -> bool {
    match before {
        Vetting::Resolve { url, domain } => exists|found: Option<Vec<IpAddress>>|
            {
                &&& #[trigger] call_ensures(Vetting::resolved, (before, found), after)
                &&& match found {
                    Some(addresses) => lookup(domain@) == Some(addresses@),
                    None => lookup(domain@) is None,
                }
            },
        Vetting::Probe { url, addresses, next, address } => next < addresses@.len() && call_ensures(
            Vetting::probed,
            (before, device(address)),
            after,
        ),
        Vetting::Done(_) => false,
    }
}

proof fn run_keeps_the_verdict(
    run: Seq<Vetting>,
    lookup: spec_fn(Seq<char>) -> Option<Seq<IpAddress>>,
    device: spec_fn(IpAddress) -> bool,
    reason: Option<String>,
)
    requires
        run.len() > 0,
        forall|i: int| 0 <= i < run.len() - 1 ==> goes_on(#[trigger] run[i], run[i + 1], lookup, device),
        run.last() == Vetting::Done(reason),
    ensures
        verdict(run[0]@, lookup, device) == (match reason {
            Some(text) => Some(text@),
            None => None,
        }),
    decreases run.len(),
{
    reveal_with_fuel(verdict, 2);
    if run.len() > 1 {
        let rest = run.drop_first();
        assert(goes_on(run[0], run[1], lookup, device));
        assert forall|i: int| 0 <= i < rest.len() - 1 implies goes_on(
            #[trigger] rest[i],
            rest[i + 1],
            lookup,
            device,
        ) by {
            assert(goes_on(run[i + 1], run[i + 2], lookup, device));
        }
        run_keeps_the_verdict(rest, lookup, device, reason);
        assert(rest[0] == run[1]);
        if let Vetting::Resolve { url, domain } = run[0] {
            let found = choose|found: Option<Vec<IpAddress>>|
                {
                    &&& #[trigger] call_ensures(Vetting::resolved, (run[0], found), run[1])
                    &&& match found {
                        Some(addresses) => lookup(domain@) == Some(addresses@),
                        None => lookup(domain@) is None,
                    }
                };
            assert(run[1]@ == after_lookup(url@, lookup(domain@)));
        }
    }
}

/// However a check runs, it ends with a refusal exactly where it should. Another
/// scheme is refused. An address is refused when it is out of bounds, and let
/// through when it is not. A name is refused when it does not resolve or one of
/// its addresses is out of bounds, whichever it is, and let through when none is.
pub proof fn finished_check_tells_whether_the_device_is_named(
    url: Target,
    run: Seq<Vetting>,
    lookup: spec_fn(Seq<char>) -> Option<Seq<IpAddress>>,
    device: spec_fn(IpAddress) -> bool,
    reason: Option<String>,
)
    requires
        run.len() > 0,
        call_ensures(blocked_url_reason, (&url,), run[0]),
        forall|i: int| 0 <= i < run.len() - 1 ==> goes_on(#[trigger] run[i], run[i + 1], lookup, device),
        run.last() == Vetting::Done(reason),
    ensures
        url.scheme@ != "http"@ && url.scheme@ != "https"@ ==> (reason matches Some(text) && text@
            == "Target scheme is not allowed: "@ + url.text@),
        url.scheme@ == "http"@ || url.scheme@ == "https"@ ==> match url.host {
            None => reason is None,
            Some(Host::Address(address)) => if blocked(address, device) {
                reason matches Some(text) && text@ == "Target is an address of this device: "@
                    + url.text@
            } else {
                reason is None
            },
            Some(Host::Domain(name)) => match lookup(name@) {
                None => reason matches Some(text) && text@ == "Target host does not resolve: "@
                    + url.text@,
                Some(addresses) => if addresses.len() == 0 {
                    reason matches Some(text) && text@ == "Target host does not resolve: "@
                        + url.text@
                } else if exists|i: int|
                    0 <= i < addresses.len() && blocked(#[trigger] addresses[i], device) {
                    reason matches Some(text) && text@ == "Target is an address of this device: "@
                        + url.text@
                } else {
                    reason is None
                },
            },
        },
{
    run_keeps_the_verdict(run, lookup, device, reason);
    if web_scheme(url.scheme@) {
        match url.host {
            Some(Host::Address(address)) => {
                literal_target_is_refused_iff_blocked(url@, address, lookup, device);
            },
            Some(Host::Domain(name)) => {
                named_target_is_refused_iff_unresolved_or_blocked(url@, name@, lookup, device);
            },
            None => {},
        }
    }
}

/// A redirect to a web address that names a host is followed without a check, as
/// the resolver vets what is connected to. One that names an address is refused
/// when the address is out of bounds and followed when it is not, and one of
/// another scheme is refused.
pub proof fn finished_redirect_check_tells_whether_the_device_is_named(
    url: Target,
    run: Seq<Vetting>,
    lookup: spec_fn(Seq<char>) -> Option<Seq<IpAddress>>,
    device: spec_fn(IpAddress) -> bool,
    reason: Option<String>,
)
    requires
        run.len() > 0,
        call_ensures(redirect_reason, (&url,), run[0]),
        forall|i: int| 0 <= i < run.len() - 1 ==> goes_on(#[trigger] run[i], run[i + 1], lookup, device),
        run.last() == Vetting::Done(reason),
    ensures
        url.scheme@ != "http"@ && url.scheme@ != "https"@ ==> (reason matches Some(text) && text@
            == "Target scheme is not allowed: "@ + url.text@),
        url.scheme@ == "http"@ || url.scheme@ == "https"@ ==> match url.host {
            None => reason is None,
            Some(Host::Address(address)) => if blocked(address, device) {
                reason matches Some(text) && text@ == "Target is an address of this device: "@
                    + url.text@
            } else {
                reason is None
            },
            Some(Host::Domain(_)) => reason is None && run.len() == 1,
        },
{
    run_keeps_the_verdict(run, lookup, device, reason);
    if run.len() > 1 {
        assert(goes_on(run[0], run[1], lookup, device));
    }
    if web_scheme(url.scheme@) {
        if let Some(Host::Address(address)) = url.host {
            literal_target_is_refused_iff_blocked(url@, address, lookup, device);
        }
    }
}

/// The check of a redirect is the check of the URL it leads to, but for names: a
/// name is followed at once and never looked up.
pub proof fn redirect_to_a_name_is_followed(url: Target, state: Vetting, begun_state: Vetting)
    requires
        call_ensures(redirect_reason, (&url,), state),
        call_ensures(blocked_url_reason, (&url,), begun_state),
    ensures
        state !is Resolve,
        begun_state is Resolve ==> (state matches Vetting::Done(None)),
        begun_state !is Resolve ==> state@ == begun_state@,
        (url.scheme@ == "http"@ || url.scheme@ == "https"@) && (url.host matches Some(
            Host::Domain(_),
        )) ==> (state matches Vetting::Done(None)),
{
}

/// A check that ran to its end elsewhere is taken at its word, whatever it came to;
/// one that broke down is a refusal.
pub proof fn broken_check_is_a_refusal(outcome: Option<Option<String>>, reason: Option<String>)
    requires
        call_ensures(settled_reason, (outcome,), reason),
    ensures
        outcome is None ==> (reason matches Some(text) && text@ == "Target could not be checked"@),
        outcome matches Some(None) ==> reason is None,
        outcome matches Some(Some(why)) ==> (reason matches Some(text) && text@ == why@),
{
}

/// The refusal of the resolver is one fixed sentence.
pub proof fn refusal_of_the_resolver_names_no_address(refusal: DeviceAddress, text: String)
    requires
        call_ensures(DeviceAddress::message, (&refusal,), text),
    ensures
        text@ == "Target is an address of this device"@,
{
}

/// The resolver begins with the first address it was given, and with none hands
/// back none.
pub proof fn resolver_begins_with_the_first_address(
    resolver: PublicAddressResolver,
    addresses: Vec<SocketAddress>,
    state: Resolution,
    probe: Option<IpAddress>,
)
    requires
        call_ensures(PublicAddressResolver::resolve, (&resolver, addresses), state),
        addresses@.len() > 0 ==> call_ensures(probe_for, (addresses@[0].ip,), probe),
    ensures
        addresses@.len() == 0 ==> (state matches Resolution::Connect(handed) && handed@
            == addresses@),
        addresses@.len() > 0 ==> match probe {
            None => state is Refused,
            Some(asked) => state matches Resolution::Probe { addresses: kept, next, address: about }
                && kept@ == addresses@ && next == 0 && about == asked,
        },
{
}

/// The resolver refuses at the first address the device answers on, goes on with
/// the next one otherwise, and behind the last hands back what it was given.
pub proof fn resolver_goes_on_with_the_next_address(
    state: Resolution,
    device_answers: bool,
    after: Resolution,
    probe: Option<IpAddress>,
)
    requires
        state is Probe,
        state->next < state->addresses@.len(),
        call_ensures(Resolution::probed, (state, device_answers), after),
        state->next + 1 < state->addresses@.len() ==> call_ensures(
            probe_for,
            (state->addresses@[state->next + 1].ip,),
            probe,
        ),
    ensures
        device_answers ==> after is Refused,
        !device_answers && state->next + 1 == state->addresses@.len() ==> (
        after matches Resolution::Connect(handed) && handed@ == state->addresses@),
        !device_answers && state->next + 1 < state->addresses@.len() ==> match probe {
            None => after is Refused,
            Some(asked) => after matches Resolution::Probe { addresses: kept, next, address: about }
                && kept@ == state->addresses@ && next == state->next + 1 && about == asked,
        },
{
}

proof fn run_keeps_the_resolution(run: Seq<Resolution>, device: spec_fn(IpAddress) -> bool)
    requires
        run.len() > 0,
        run.last() !is Probe,
        forall|i: int|
            0 <= i < run.len() - 1 ==> (#[trigger] run[i] matches Resolution::Probe {
                addresses,
                next,
                address,
            } && next < addresses@.len() && call_ensures(
                Resolution::probed,
                (run[i], device(address)),
                run[i + 1],
            )),
    ensures
        resolution(run[0]@, device) == run.last()@,
    decreases run.len(),
{
    reveal_with_fuel(resolution, 2);
    if run.len() > 1 {
        let rest = run.drop_first();
        let first = run[0];
        assert(first is Probe);
        assert forall|i: int| 0 <= i < rest.len() - 1 implies (
        #[trigger] rest[i] matches Resolution::Probe { addresses, next, address } && next
            < addresses@.len() && call_ensures(
            Resolution::probed,
            (rest[i], device(address)),
            rest[i + 1],
        )) by {
            assert(run[i + 1] is Probe);
        }
        run_keeps_the_resolution(rest, device);
        assert(rest[0] == run[1]);
    }
}

/// However the resolver runs, it ends with a refusal exactly when one of the
/// addresses is out of bounds, and otherwise with all of them as they came.
pub proof fn finished_resolver_hands_back_what_it_vetted(
    resolver: PublicAddressResolver,
    addresses: Vec<SocketAddress>,
    run: Seq<Resolution>,
    device: spec_fn(IpAddress) -> bool,
)
    requires
        run.len() > 0,
        call_ensures(PublicAddressResolver::resolve, (&resolver, addresses), run[0]),
        run.last() !is Probe,
        forall|i: int|
            0 <= i < run.len() - 1 ==> (#[trigger] run[i] matches Resolution::Probe {
                addresses,
                next,
                address,
            } && next < addresses@.len() && call_ensures(
                Resolution::probed,
                (run[i], device(address)),
                run[i + 1],
            )),
    ensures
        (exists|i: int| 0 <= i < addresses@.len() && blocked(#[trigger] addresses@[i].ip, device))
            ==> run.last() is Refused,
        (forall|i: int| 0 <= i < addresses@.len() ==> !blocked(#[trigger] addresses@[i].ip, device))
            ==> (run.last() matches Resolution::Connect(handed) && handed@ == addresses@),
{
    run_keeps_the_resolution(run, device);
    vetted_addresses_are_the_ones_connected_to(addresses@, device);
}

} // verus!
