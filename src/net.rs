//! IP addresses, CIDR prefixes and routes as plain values, with the parsing and
//! text rendering that smoltcp provides for them.

use smoltcp::iface::Route as WireRoute;
use smoltcp::time::Instant;
use smoltcp::wire::{EthernetAddress, IpAddress, IpCidr, Ipv4Address, Ipv6Address};
use crate::numerals::{decimal_text, hex_pair, trunc_div, trunc_rem};
use vstd::prelude::*;

verus! {

/// An internetworking address: IPv4 and IPv6 addresses are held as their
/// big-endian integer value.
#[derive(Clone, Copy, Debug, PartialEq, Eq, Structural)]
pub enum IpAddr {
    /// The placeholder for an address that is not assigned yet.
    Unspecified,
    V4(u32),
    V6(u128),
}

/// An address together with a prefix length.
#[derive(Clone, Copy, Debug, PartialEq, Eq, Structural)]
pub struct Cidr {
    pub addr: IpAddr,
    pub prefix_len: u8,
}

/// A route: the gateway it forwards through and the instants (in milliseconds)
/// until which it is preferred and after which it expires.
#[derive(Clone, Copy, Debug, PartialEq, Eq, Structural)]
pub struct Route {
    pub via_router: IpAddr,
    pub preferred_until: Option<i64>,
    pub expires_at: Option<i64>,
}

impl Cidr {
    /// A prefix of a single family whose length fits that family's width.
    pub open spec fn wf(self) -> bool {
        match self.addr {
            IpAddr::V4(_) => self.prefix_len <= 32,
            IpAddr::V6(_) => self.prefix_len <= 128,
            IpAddr::Unspecified => false,
        }
    }
}

/// The IPv4 default-route key, `0.0.0.0/0`.
pub open spec fn default_v4() -> Cidr {
    Cidr { addr: IpAddr::V4(0), prefix_len: 0 }
}

/// The IPv6 default-route key, `::/0`.
pub open spec fn default_v6() -> Cidr {
    Cidr { addr: IpAddr::V6(0), prefix_len: 0 }
}

pub open spec fn is_default_key(c: Cidr) -> bool {
    c == default_v4() || c == default_v6()
}

/// The all-zeros network of the gateway's family; none for an unspecified one.
pub open spec fn default_key_for(gateway: IpAddr) -> Option<Cidr> {
    match gateway {
        IpAddr::V4(_) => Some(default_v4()),
        IpAddr::V6(_) => Some(default_v6()),
        IpAddr::Unspecified => None,
    }
}

/// The default-route key of the family of `gateway`.
pub fn default_cidr_for(gateway: IpAddr) -> (r: Option<Cidr>)
    ensures
        r == default_key_for(gateway),
        r matches Some(c) ==> c.wf() && is_default_key(c),
{
    match gateway {
        IpAddr::V4(_) => Some(Cidr { addr: IpAddr::V4(0), prefix_len: 0 }),
        IpAddr::V6(_) => Some(Cidr { addr: IpAddr::V6(0), prefix_len: 0 }),
        IpAddr::Unspecified => None,
    }
}

/// Whether `c` is one of the two default-route keys.
pub fn is_default_cidr(c: Cidr) -> (r: bool)
    ensures
        r == is_default_key(c),
{
    c == Cidr { addr: IpAddr::V4(0), prefix_len: 0 } || c == Cidr { addr: IpAddr::V6(0), prefix_len: 0 }
}

/// What smoltcp's `IpAddress` parser makes of a text.
pub uninterp spec fn parsed_ip(s: Seq<char>) -> Option<IpAddr>;

/// What smoltcp's `IpCidr` parser makes of a text.
pub uninterp spec fn parsed_cidr(s: Seq<char>) -> Option<Cidr>;

/// How smoltcp renders an address.
pub uninterp spec fn ip_text(a: IpAddr) -> Seq<char>;

/// A CIDR prefix as its address, a slash and its length in decimal.
pub open spec fn cidr_text(c: Cidr) -> Seq<char> {
    ip_text(c.addr) + seq!['/'] + decimal_text(c.prefix_len as int)
}

/// An Ethernet address as six two-digit hex bytes joined by `-`.
pub open spec fn ether_text(e: Seq<u8>) -> Seq<char> {
    hex_pair(e[0]) + seq!['-'] + hex_pair(e[1]) + seq!['-'] + hex_pair(e[2]) + seq!['-']
        + hex_pair(e[3]) + seq!['-'] + hex_pair(e[4]) + seq!['-'] + hex_pair(e[5])
}

/// An instant given in milliseconds: whole seconds, a dot, the remaining
/// milliseconds without padding, and `s`.
pub open spec fn instant_text(millis: i64) -> Seq<char> {
    decimal_text(trunc_div(millis as int, 1000)) + seq!['.'] + decimal_text(trunc_rem(millis as int, 1000))
        + seq!['s']
}

/// Relies on `<smoltcp::wire::IpAddress as FromStr>::from_str`: the outcome
/// depends on the text alone, and an accepted text is an IPv4 or an IPv6 address.
#[verifier::external_body]
pub(crate) fn parse_ip(s: &str) -> (r: Option<IpAddr>)
    ensures
        r == parsed_ip(s@),
        r matches Some(a) ==> !(a is Unspecified),
{
    s.parse::<IpAddress>().ok().map(from_wire_addr)
}

/// Relies on `<smoltcp::wire::IpCidr as FromStr>::from_str`: the outcome depends
/// on the text alone, and an accepted text has a prefix length within its
/// family's width.
#[verifier::external_body]
pub(crate) fn parse_cidr(s: &str) -> (r: Option<Cidr>)
    ensures
        r == parsed_cidr(s@),
        r matches Some(c) ==> c.wf(),
{
    s.parse::<IpCidr>().ok().map(from_wire_cidr)
}

/// Relies on `<smoltcp::wire::IpAddress as Display>::fmt`.
#[verifier::external_body]
pub(crate) fn ip_string(a: IpAddr) -> (r: String)
    ensures
        r@ == ip_text(a),
{
    format!("{}", to_wire_addr(a))
}

/// Relies on `<smoltcp::wire::IpCidr as Display>::fmt`, which writes the
/// address as `IpAddress` does, a slash and the prefix length (`"{}/{}"`).
#[verifier::external_body]
pub(crate) fn cidr_string(c: Cidr) -> (r: String)
    requires
        c.wf(),
    ensures
        r@ == cidr_text(c),
{
    format!("{}", to_wire_cidr(c))
}

/// Relies on `<smoltcp::wire::EthernetAddress as Display>::fmt`, which writes
/// each byte with `{:02x}`, separated by `-`.
#[verifier::external_body]
pub(crate) fn ether_string(e: [u8; 6]) -> (r: String)
    ensures
        r@ == ether_text(e@),
{
    format!("{}", EthernetAddress(e))
}

/// Relies on `<smoltcp::time::Instant as Display>::fmt`, which writes
/// `secs()` (`millis / 1000`), a dot, `millis()` (`millis % 1000`) and `s`.
#[verifier::external_body]
pub(crate) fn instant_string(millis: i64) -> (r: String)
    ensures
        r@ == instant_text(millis),
{
    format!("{}", Instant::from_millis(millis))
}

#[verifier::external_type_specification]
#[verifier::external_body]
pub struct ExIpAddress(IpAddress);

#[verifier::external_type_specification]
#[verifier::external_body]
pub struct ExIpCidr(IpCidr);

#[verifier::external_type_specification]
#[verifier::external_body]
pub struct ExWireRoute(WireRoute);

/// Converts an address to smoltcp's form.
#[verifier::external_body]
pub(crate) fn to_wire_addr(a: IpAddr) -> IpAddress {
    match a {
        IpAddr::Unspecified => IpAddress::Unspecified,
        IpAddr::V4(v) => IpAddress::Ipv4(Ipv4Address(v.to_be_bytes())),
        IpAddr::V6(v) => IpAddress::Ipv6(Ipv6Address(v.to_be_bytes())),
    }
}

/// Converts an address from smoltcp's form.
#[verifier::external_body]
pub(crate) fn from_wire_addr(a: IpAddress) -> IpAddr {
    match a {
        IpAddress::Ipv4(v) => IpAddr::V4(u32::from_be_bytes(v.0)),
        IpAddress::Ipv6(v) => IpAddr::V6(u128::from_be_bytes(v.0)),
        _ => IpAddr::Unspecified,
    }
}

/// Converts a well-formed prefix to smoltcp's form.
#[verifier::external_body]
pub(crate) fn to_wire_cidr(c: Cidr) -> IpCidr
    requires
        c.wf(),
{
    IpCidr::new(to_wire_addr(c.addr), c.prefix_len)
}

/// Converts a prefix from smoltcp's form.
#[verifier::external_body]
pub(crate) fn from_wire_cidr(c: IpCidr) -> Cidr {
    Cidr { addr: from_wire_addr(c.address()), prefix_len: c.prefix_len() }
}

/// Converts a route to smoltcp's form.
#[verifier::external_body]
pub(crate) fn to_wire_route(r: Route) -> WireRoute {
    WireRoute {
        via_router: to_wire_addr(r.via_router),
        preferred_until: r.preferred_until.map(Instant::from_millis),
        expires_at: r.expires_at.map(Instant::from_millis),
    }
}

/// Converts a route from smoltcp's form.
#[verifier::external_body]
pub(crate) fn from_wire_route(r: WireRoute) -> Route {
    Route {
        via_router: from_wire_addr(r.via_router),
        preferred_until: r.preferred_until.map(|t| t.total_millis()),
        expires_at: r.expires_at.map(|t| t.total_millis()),
    }
}

} // verus!
