//! The link, address and route listings, one block of lines per interface,
//! numbered from 1.

use crate::mutate::{interfaces_wf, others_unchanged, Interface};
use crate::net::{
    cidr_string, cidr_text, ether_string, ether_text, instant_string, instant_text, ip_string,
    ip_text, is_default_cidr, is_default_key, Cidr, IpAddr, Route,
};
use crate::table::{route_entries, entries_wf};
use crate::numerals::decimal_text;
use vstd::prelude::*;
use vstd::string::*;

verus! {

/// Relies on `<i128 as ToString>::to_string`: the decimal digits, with a minus
/// sign for a negative number.
#[verifier::external_body]
pub(crate) fn decimal_string(n: i128) -> (r: String)
    ensures
        r@ == decimal_text(n as int),
{
    n.to_string()
}

/// The text `a`, then `b`, then `c`.
pub fn join3(a: &str, b: &str, c: &str) -> (r: String)
    ensures
        r@ == a@ + b@ + c@,
{
    String::from_str(a).concat(b).concat(c)
}

/// The text `a`, then `b`.
pub fn join2(a: &str, b: &str) -> (r: String)
    ensures
        r@ == a@ + b@,
{
    String::from_str(a).concat(b)
}

/// The views of a sequence of strings.
pub open spec fn texts(v: Seq<String>) -> Seq<Seq<char>> {
    v.map_values(|s: String| s@)
}

/// The first line of the block of the interface numbered `k`.
pub open spec fn header_line(k: int) -> Seq<char> {
    "interface "@ + decimal_text(k) + ":"@
}

fn header(k: usize) -> (r: String)
    ensures
        r@ == header_line(k as int),
{
    let n = decimal_string(k as i128);
    join3("interface ", n.as_str(), ":")
}

/// The block of the link listing for the interface numbered `k`.
pub open spec fn link_block(k: int, f: Interface) -> Seq<Seq<char>> {
    seq![header_line(k), "  link/ether "@ + ether_text(f.ether_addr@)]
}

/// The link listing of a collection.
pub open spec fn link_listing(ifs: Seq<Interface>) -> Seq<Seq<char>>
    decreases ifs.len(),
{
    if ifs.len() == 0 {
        Seq::empty()
    } else {
        link_listing(ifs.drop_last()) + link_block(ifs.len() as int, ifs.last())
    }
}

/// Lists each interface's link-layer address.
pub fn print_link(ifs: &Vec<Interface>) -> (r: Vec<String>)
    ensures
        texts(r@) == link_listing(ifs@),
{
    let mut out: Vec<String> = Vec::new();
    let mut i: usize = 0;
    while i < ifs.len()
        invariant
            0 <= i <= ifs@.len(),
            texts(out@) == link_listing(ifs@.subrange(0, i as int)),
        decreases ifs@.len() - i,
    {
        let h = header(i + 1);
        let e = ether_string(ifs[i].ether_addr);
        let l = join2("  link/ether ", e.as_str());
        proof {
            assert(ifs@.subrange(0, i + 1).drop_last() =~= ifs@.subrange(0, i as int));
        }
        let ghost prev = out@;
        out.push(h);
        out.push(l);
        assert(texts(out@) =~= texts(prev).push(h@).push(l@));
        assert(texts(out@) =~= link_listing(ifs@.subrange(0, i + 1)));
        i = i + 1;
    }
    assert(ifs@.subrange(0, ifs@.len() as int) =~= ifs@);
    out
}

/// The line of the address listing for one assigned prefix.
pub open spec fn address_line(c: Cidr) -> Seq<char> {
    if c.addr is V4 {
        "  inet4 "@ + cidr_text(c)
    } else {
        "  inet6 "@ + cidr_text(c)
    }
}

/// The block of the address listing for the interface numbered `k`.
pub open spec fn address_block(k: int, addrs: Seq<Cidr>) -> Seq<Seq<char>> {
    seq![header_line(k)] + addrs.map_values(|c: Cidr| address_line(c))
        + if addrs.len() == 0 { seq!["  no IP address assigned"@] } else { Seq::empty() }
}

/// The address listing of a collection.
pub open spec fn address_listing(ifs: Seq<Interface>) -> Seq<Seq<char>>
    decreases ifs.len(),
{
    if ifs.len() == 0 {
        Seq::empty()
    } else {
        address_listing(ifs.drop_last()) + address_block(ifs.len() as int, ifs.last().ip_addrs@)
    }
}

fn address_lines(k: usize, addrs: &Vec<Cidr>) -> (r: Vec<String>)
    requires
        forall|i: int| 0 <= i < addrs@.len() ==> (#[trigger] addrs@[i]).wf(),
    ensures
        texts(r@) == address_block(k as int, addrs@),
{
    let mut out: Vec<String> = Vec::new();
    out.push(header(k));
    let mut i: usize = 0;
    while i < addrs.len()
        invariant
            0 <= i <= addrs@.len(),
            forall|j: int| 0 <= j < addrs@.len() ==> (#[trigger] addrs@[j]).wf(),
            texts(out@) == seq![header_line(k as int)]
                + addrs@.subrange(0, i as int).map_values(|c: Cidr| address_line(c)),
        decreases addrs@.len() - i,
    {
        let c = addrs[i];
        let t = cidr_string(c);
        let l = match c.addr {
            IpAddr::V4(_) => join2("  inet4 ", t.as_str()),
            _ => join2("  inet6 ", t.as_str()),
        };
        let ghost prev = out@;
        out.push(l);
        assert(texts(out@) =~= texts(prev).push(l@));
        assert(addrs@.subrange(0, i + 1).map_values(|c: Cidr| address_line(c))
            =~= addrs@.subrange(0, i as int).map_values(|c: Cidr| address_line(c)).push(address_line(c)));
        assert(texts(out@) =~= seq![header_line(k as int)]
            + addrs@.subrange(0, i + 1).map_values(|c: Cidr| address_line(c)));
        i = i + 1;
    }
    assert(addrs@.subrange(0, addrs@.len() as int) =~= addrs@);
    if addrs.len() == 0 {
        out.push(String::from_str("  no IP address assigned"));
    }
    assert(texts(out@) =~= address_block(k as int, addrs@));
    out
}

/// Lists each interface's assigned prefixes, or says that it has none.
pub fn print_address(ifs: &Vec<Interface>) -> (r: Vec<String>)
    requires
        interfaces_wf(ifs@),
    ensures
        texts(r@) == address_listing(ifs@),
{
    let mut out: Vec<String> = Vec::new();
    let mut i: usize = 0;
    while i < ifs.len()
        invariant
            0 <= i <= ifs@.len(),
            interfaces_wf(ifs@),
            texts(out@) == address_listing(ifs@.subrange(0, i as int)),
        decreases ifs@.len() - i,
    {
        let adds = ifs[i].ip_addrs.clone();
        assert(ifs@[i as int].wf());
        let mut block = address_lines(i + 1, &adds);
        proof {
            assert(ifs@.subrange(0, i + 1).drop_last() =~= ifs@.subrange(0, i as int));
        }
        let ghost prev = out@;
        out.append(&mut block);
        assert(texts(out@) =~= texts(prev) + address_block(i + 1, ifs@[i as int].ip_addrs@));
        i = i + 1;
    }
    assert(ifs@.subrange(0, ifs@.len() as int) =~= ifs@);
    out
}

/// How a route is shown: its gateway, and its expiry when it has one.
pub open spec fn route_text(r: Route) -> Seq<char> {
    match r.expires_at {
        Some(t) => ip_text(r.via_router) + " (expires at "@ + instant_text(t) + ")"@,
        None => ip_text(r.via_router),
    }
}

/// The line of the route listing for a default route.
pub open spec fn default_line(r: Route) -> Seq<char> {
    "  default via "@ + route_text(r)
}

/// The line of the route listing for any other route.
pub open spec fn other_line(c: Cidr, r: Route) -> Seq<char> {
    "  "@ + cidr_text(c) + " -> "@ + route_text(r)
}

/// The lines for the default routes among `s`, in the order of `s`.
pub open spec fn default_lines(s: Seq<(Cidr, Route)>) -> Seq<Seq<char>>
    decreases s.len(),
{
    if s.len() == 0 {
        Seq::empty()
    } else if is_default_key(s.last().0) {
        default_lines(s.drop_last()).push(default_line(s.last().1))
    } else {
        default_lines(s.drop_last())
    }
}

/// The lines for the other routes among `s`, in the order of `s`.
pub open spec fn other_lines(s: Seq<(Cidr, Route)>) -> Seq<Seq<char>>
    decreases s.len(),
{
    if s.len() == 0 {
        Seq::empty()
    } else if is_default_key(s.last().0) {
        other_lines(s.drop_last())
    } else {
        other_lines(s.drop_last()).push(other_line(s.last().0, s.last().1))
    }
}

/// The block of the route listing for the interface numbered `k` whose table
/// holds `s`: the default routes first, then the others.
pub open spec fn route_block(k: int, s: Seq<(Cidr, Route)>) -> Seq<Seq<char>> {
    seq![header_line(k)] + default_lines(s) + other_lines(s)
}

/// The route listing of a collection.
pub open spec fn route_listing(ifs: Seq<Interface>) -> Seq<Seq<char>>
    decreases ifs.len(),
{
    if ifs.len() == 0 {
        Seq::empty()
    } else {
        route_listing(ifs.drop_last()) + route_block(ifs.len() as int, route_entries(ifs.last().routes))
    }
}

fn route_string(r: Route) -> (t: String)
    ensures
        t@ == route_text(r),
{
    let via = ip_string(r.via_router);
    match r.expires_at {
        Some(ms) => {
            let at = instant_string(ms);
            join3(via.as_str(), " (expires at ", at.as_str()).concat(")")
        },
        None => via,
    }
}

fn route_lines(k: usize, entries: &Vec<(Cidr, Route)>) -> (r: Vec<String>)
    requires
        forall|i: int| 0 <= i < entries@.len() ==> (#[trigger] entries@[i]).0.wf(),
    ensures
        texts(r@) == route_block(k as int, entries@),
{
    let mut out: Vec<String> = Vec::new();
    out.push(header(k));
    let mut i: usize = 0;
    while i < entries.len()
        invariant
            0 <= i <= entries@.len(),
            texts(out@) == seq![header_line(k as int)] + default_lines(entries@.subrange(0, i as int)),
        decreases entries@.len() - i,
    {
        let (c, r) = entries[i];
        assert(entries@.subrange(0, i + 1).drop_last() =~= entries@.subrange(0, i as int));
        if is_default_cidr(c) {
            let t = route_string(r);
            let l = join2("  default via ", t.as_str());
            let ghost prev = out@;
            out.push(l);
            assert(texts(out@) =~= texts(prev).push(l@));
        }
        i = i + 1;
    }
    assert(entries@.subrange(0, entries@.len() as int) =~= entries@);
    let mut i: usize = 0;
    while i < entries.len()
        invariant
            0 <= i <= entries@.len(),
            forall|j: int| 0 <= j < entries@.len() ==> (#[trigger] entries@[j]).0.wf(),
            texts(out@) == seq![header_line(k as int)] + default_lines(entries@)
                + other_lines(entries@.subrange(0, i as int)),
        decreases entries@.len() - i,
    {
        let (c, r) = entries[i];
        assert(entries@.subrange(0, i + 1).drop_last() =~= entries@.subrange(0, i as int));
        assert(entries@[i as int].0.wf());
        if !is_default_cidr(c) {
            let ct = cidr_string(c);
            let t = route_string(r);
            let l = join3("  ", ct.as_str(), " -> ").concat(t.as_str());
            let ghost prev = out@;
            out.push(l);
            assert(texts(out@) =~= texts(prev).push(l@));
        }
        i = i + 1;
    }
    assert(entries@.subrange(0, entries@.len() as int) =~= entries@);
    out
}

/// Lists each interface's routes: its default routes first, then the others,
/// each group in the order in which the table is walked. The tables are left
/// as they were.
pub fn print_route(ifs: &mut Vec<Interface>) -> (r: Vec<String>)
    requires
        interfaces_wf(old(ifs)@),
    ensures
        texts(r@) == route_listing(old(ifs)@),
        interfaces_wf(final(ifs)@),
        others_unchanged(old(ifs)@, final(ifs)@, -1),
{
    let mut out: Vec<String> = Vec::new();
    let mut i: usize = 0;
    while i < ifs.len()
        invariant
            0 <= i <= ifs@.len(),
            interfaces_wf(ifs@),
            others_unchanged(old(ifs)@, ifs@, -1),
            texts(out@) == route_listing(old(ifs)@.subrange(0, i as int)),
        decreases ifs@.len() - i,
    {
        assert(ifs@[i as int].wf());
        let ghost before = ifs@;
        let snapshot = ifs[i].routes.entries();
        assert(others_unchanged(before, ifs@, -1));
        assert(interfaces_wf(ifs@)) by {
            assert forall|j: int| 0 <= j < ifs@.len() implies (#[trigger] ifs@[j]).wf() by {
                assert(before[j].wf());
            }
        }
        assert(entries_wf(snapshot@, crate::table::route_capacity(ifs@[i as int].routes)));
        let mut block = route_lines(i + 1, &snapshot);
        proof {
            assert(old(ifs)@.subrange(0, i + 1).drop_last() =~= old(ifs)@.subrange(0, i as int));
        }
        let ghost prev = out@;
        out.append(&mut block);
        assert(texts(out@) =~= texts(prev) + route_block(i + 1, route_entries(old(ifs)@[i as int].routes)));
        i = i + 1;
    }
    assert(old(ifs)@.subrange(0, old(ifs)@.len() as int) =~= old(ifs)@);
    out
}

} // verus!
