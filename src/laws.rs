//! Facts that relate the mutations, the argument pipeline and the listings.

use crate::args::{error_text, gateway_known, route_args, route_effect, route_reply};
use crate::inspect::{
    address_listing, default_line, default_lines, link_listing, other_line, other_lines, route_block, route_listing,
};
use crate::mutate::{
    add_effect, add_outcome, del_effect, del_outcome, gateway_route, interfaces_wf, others_unchanged, selects,
    Interface, RouteError,
};
use crate::net::{default_v4, default_v6, is_default_key, Cidr, IpAddr, Route};
use crate::net::parsed_ip;
use crate::table::{entry_map, has_key, insert_fails, keys_unique, lemma_entry_map, route_capacity, route_entries};
use vstd::prelude::*;

verus! {

/// How many entries of `s` carry the key `k`.
pub open spec fn key_count(s: Seq<(Cidr, Route)>, k: Cidr) -> nat
    decreases s.len(),
{
    if s.len() == 0 {
        0
    } else {
        key_count(s.drop_last(), k) + if s.last().0 == k { 1nat } else { 0nat }
    }
}

proof fn lemma_key_count_one(s: Seq<(Cidr, Route)>, i: int)
    requires
        keys_unique(s),
        0 <= i < s.len(),
    ensures
        key_count(s, s[i].0) == 1,
    decreases s.len(),
{
    let p = s.drop_last();
    if i == s.len() - 1 {
        lemma_key_count_zero(p, s[i].0);
    } else {
        assert(p[i] == s[i]);
        lemma_key_count_one(p, i);
    }
}

proof fn lemma_key_count_zero(s: Seq<(Cidr, Route)>, k: Cidr)
    requires
        keys_unique(s.push(k_entry(s, k))),
    ensures
        key_count(s, k) == 0,
    decreases s.len(),
{
    if s.len() > 0 {
        let p = s.drop_last();
        let t = s.push(k_entry(s, k));
        assert(t[s.len() - 1] == s.last());
        assert(t[s.len() as int].0 == k);
        assert(p.push(k_entry(p, k)) =~= p.push((k, k_entry(s, k).1)));
        assert(keys_unique(p.push(k_entry(p, k)))) by {
            assert forall|a: int, b: int| 0 <= a < b < p.len() + 1 implies
                p.push(k_entry(p, k))[a].0 != p.push(k_entry(p, k))[b].0 by {
                if b == p.len() {
                    assert(t[a].0 != t[s.len() as int].0);
                } else {
                    assert(t[a].0 != t[b].0);
                }
            }
        }
        lemma_key_count_zero(p, k);
    }
}

/// An entry with key `k`, used to say that `k` is distinct from every key of `s`.
spec fn k_entry(s: Seq<(Cidr, Route)>, k: Cidr) -> (Cidr, Route) {
    (k, Route { via_router: IpAddr::Unspecified, preferred_until: None, expires_at: None })
}

proof fn lemma_lines_hold_entry(s: Seq<(Cidr, Route)>, i: int)
    requires
        0 <= i < s.len(),
    ensures
        is_default_key(s[i].0) ==> default_lines(s).contains(default_line(s[i].1)),
        !is_default_key(s[i].0) ==> other_lines(s).contains(other_line(s[i].0, s[i].1)),
    decreases s.len(),
{
    let p = s.drop_last();
    if i == s.len() - 1 {
        if is_default_key(s[i].0) {
            assert(default_lines(s).last() == default_line(s[i].1));
        } else {
            assert(other_lines(s).last() == other_line(s[i].0, s[i].1));
        }
    } else {
        assert(p[i] == s[i]);
        lemma_lines_hold_entry(p, i);
        if is_default_key(s[i].0) {
            let j = choose|j: int| 0 <= j < default_lines(p).len() && default_lines(p)[j] == default_line(s[i].1);
            if is_default_key(s.last().0) {
                assert(default_lines(s)[j] == default_lines(p)[j]);
            }
        } else {
            let j = choose|j: int| 0 <= j < other_lines(p).len() && other_lines(p)[j] == other_line(s[i].0, s[i].1);
            if !is_default_key(s.last().0) {
                assert(other_lines(s)[j] == other_lines(p)[j]);
            }
        }
    }
}

/// The listing of the first `n` interfaces is where the listing of all of them
/// begins.
pub proof fn lemma_listing_prefix(ifs: Seq<Interface>, n: int)
    requires
        0 <= n <= ifs.len(),
    ensures
        route_listing(ifs.subrange(0, n)).len() <= route_listing(ifs).len(),
        route_listing(ifs).subrange(0, route_listing(ifs.subrange(0, n)).len() as int)
            == route_listing(ifs.subrange(0, n)),
    decreases ifs.len(),
{
    if n == ifs.len() {
        assert(ifs.subrange(0, n) =~= ifs);
        assert(route_listing(ifs).subrange(0, route_listing(ifs).len() as int) =~= route_listing(ifs));
    } else {
        let p = ifs.drop_last();
        assert(p.subrange(0, n) =~= ifs.subrange(0, n));
        lemma_listing_prefix(p, n);
        let whole = route_listing(ifs);
        let head = route_listing(p);
        let l = route_listing(ifs.subrange(0, n)).len() as int;
        assert(whole =~= head + route_block(ifs.len() as int, route_entries(ifs.last().routes)));
        assert(whole.subrange(0, l) =~= head.subrange(0, l));
    }
}

/// In the route listing, the block of the interface at position `k` (numbered
/// `k + 1`) starts right after the blocks of the interfaces before it.
pub proof fn lemma_listing_block(ifs: Seq<Interface>, k: int)
    requires
        0 <= k < ifs.len(),
    ensures
        ({
            let start = route_listing(ifs.subrange(0, k)).len() as int;
            let block = route_block(k + 1, route_entries(ifs[k].routes));
            &&& start + block.len() <= route_listing(ifs).len()
            &&& route_listing(ifs).subrange(start, start + block.len()) == block
        }),
{
    let pre = ifs.subrange(0, k + 1);
    assert(pre.drop_last() =~= ifs.subrange(0, k));
    assert(pre.last() == ifs[k]);
    lemma_listing_prefix(ifs, k + 1);
    let start = route_listing(ifs.subrange(0, k)).len() as int;
    let block = route_block(k + 1, route_entries(ifs[k].routes));
    assert(route_listing(pre) == route_listing(ifs.subrange(0, k)) + block);
    assert(route_listing(ifs).subrange(start, start + block.len())
        =~= route_listing(pre).subrange(start, start + block.len()));
}

/// After a successful add, the chosen table holds the new route under its key
/// exactly once, and the route listing shows it among the default routes when
/// the key is a default-route key and among the others when it is not.
pub proof fn added_route_is_listed_once(
    before: Seq<Interface>,
    after: Seq<Interface>,
    cidr: Cidr,
    gateway: IpAddr,
    iter: i32,
)
    requires
        interfaces_wf(before),
        cidr.wf(),
        add_effect(before, after, cidr, gateway, iter),
        add_outcome(before, cidr, gateway, iter) is Ok,
    ensures
        key_count(route_entries(after[iter as int].routes), cidr) == 1,
        route_entries(after[iter as int].routes).contains((cidr, gateway_route(gateway))),
        is_default_key(cidr) ==> default_lines(route_entries(after[iter as int].routes)).contains(
            default_line(gateway_route(gateway)),
        ),
        !is_default_key(cidr) ==> other_lines(route_entries(after[iter as int].routes)).contains(
            other_line(cidr, gateway_route(gateway)),
        ),
        ({
            let start = route_listing(after.subrange(0, iter as int)).len() as int;
            let block = route_block(iter + 1, route_entries(after[iter as int].routes));
            &&& start + block.len() <= route_listing(after).len()
            &&& route_listing(after).subrange(start, start + block.len()) == block
        }),
{
    lemma_listing_block(after, iter as int);
    let s = route_entries(after[iter as int].routes);
    assert(after[iter as int].wf());
    lemma_entry_map(s);
    assert(entry_map(s).contains_key(cidr));
    let i = choose|i: int| 0 <= i < s.len() && s[i].0 == cidr;
    assert(s[i].1 == entry_map(s)[cidr]);
    assert(s[i] == (cidr, gateway_route(gateway)));
    lemma_key_count_one(s, i);
    lemma_lines_hold_entry(s, i);
}

/// Deleting a key that the chosen table does not hold succeeds and changes
/// nothing, whichever interface is chosen.
pub proof fn deleting_absent_key_is_noop(before: Seq<Interface>, after: Seq<Interface>, cidr: Cidr, iter: i32)
    requires
        interfaces_wf(before),
        selects(before.len(), iter),
        !has_key(route_entries(before[iter as int].routes), cidr),
        del_effect(before, after, cidr, iter),
    ensures
        del_outcome(before, iter) == Ok::<(), RouteError>(()),
        others_unchanged(before, after, -1),
{
}

/// With no interface, adding and deleting report that none is configured and
/// change nothing, and every listing is empty.
pub proof fn empty_collection(before: Seq<Interface>, after: Seq<Interface>, cidr: Cidr, gateway: IpAddr, iter: i32)
    requires
        before.len() == 0,
        !(gateway is Unspecified),
    ensures
        add_outcome(before, cidr, gateway, iter) == Err::<(), RouteError>(RouteError::NoInterface),
        del_outcome(before, iter) == Err::<(), RouteError>(RouteError::NoInterface),
        add_effect(before, after, cidr, gateway, iter) ==> after.len() == 0,
        del_effect(before, after, cidr, iter) ==> after.len() == 0,
        link_listing(before) == Seq::<Seq<char>>::empty(),
        address_listing(before) == Seq::<Seq<char>>::empty(),
        route_listing(before) == Seq::<Seq<char>>::empty(),
{
}

/// A position past the end of a non-empty collection is reported as not found,
/// with that position, and no interface changes.
pub proof fn position_past_end_not_found(
    before: Seq<Interface>,
    after: Seq<Interface>,
    cidr: Cidr,
    gateway: IpAddr,
    iter: i32,
)
    requires
        before.len() > 0,
        iter >= before.len(),
        !(gateway is Unspecified),
    ensures
        add_outcome(before, cidr, gateway, iter) == Err::<(), RouteError>(RouteError::InterfaceNotFound(iter)),
        del_outcome(before, iter) == Err::<(), RouteError>(RouteError::InterfaceNotFound(iter)),
        add_effect(before, after, cidr, gateway, iter) ==> others_unchanged(before, after, -1),
        del_effect(before, after, cidr, iter) ==> others_unchanged(before, after, -1),
{
}

/// `default` names the all-zeros prefix of the gateway's family when adding,
/// and the IPv4 one when deleting.
pub proof fn default_takes_gateway_family(free: Seq<Seq<char>>)
    requires
        free.len() >= 3,
        free[2] == "default"@,
    ensures
        route_args(free, true) matches Ok(a) ==> {
            &&& a.gateway is V4 ==> a.cidr == default_v4()
            &&& a.gateway is V6 ==> a.cidr == default_v6()
            &&& !(a.gateway is Unspecified)
        },
        route_args(free, false) matches Ok(a) ==> a.cidr == default_v4(),
{
}

/// A new key offered to a bounded table that is full is refused as exhausted,
/// and no table changes.
pub proof fn full_table_refuses(before: Seq<Interface>, after: Seq<Interface>, cidr: Cidr, gateway: IpAddr, iter: i32)
    requires
        selects(before.len(), iter),
        !(gateway is Unspecified),
        !has_key(route_entries(before[iter as int].routes), cidr),
        route_capacity(before[iter as int].routes) == Some(route_entries(before[iter as int].routes).len()),
        add_effect(before, after, cidr, gateway, iter),
    ensures
        add_outcome(before, cidr, gateway, iter) == Err::<(), RouteError>(RouteError::Exhausted),
        others_unchanged(before, after, -1),
{
}

/// `route add default via <g>` with no `iter` pair adds the IPv4 default route
/// through an IPv4 gateway to the first interface, reports nothing, and leaves
/// the other interfaces as they were.
pub proof fn default_route_goes_to_first_interface(
    before: Seq<Interface>,
    after: Seq<Interface>,
    g: Seq<char>,
    x: u32,
)
    requires
        interfaces_wf(before),
        before.len() >= 1,
        parsed_ip(g) == Some(IpAddr::V4(x)),
        !insert_fails(route_entries(before[0].routes), route_capacity(before[0].routes), default_v4()),
        route_effect(before, after, seq!["route"@, "add"@, "default"@, "via"@, g], true),
    ensures
        route_reply(before, seq!["route"@, "add"@, "default"@, "via"@, g], true) == (0int, Seq::<Seq<char>>::empty()),
        entry_map(route_entries(after[0].routes))
            == entry_map(route_entries(before[0].routes)).insert(default_v4(), gateway_route(IpAddr::V4(x))),
        others_unchanged(before, after, 0),
{
    let free = seq!["route"@, "add"@, "default"@, "via"@, g];
    assert(free[2] == "default"@);
    assert(free[3] == "via"@);
    assert(free[4] == g);
}

/// A well-formed `route del` of a key that the chosen interface's table does not
/// hold succeeds, prints nothing and changes nothing.
pub proof fn route_del_of_absent_key_is_silent(before: Seq<Interface>, after: Seq<Interface>, free: Seq<Seq<char>>)
    requires
        interfaces_wf(before),
        route_args(free, false) matches Ok(a) && selects(before.len(), a.iter)
            && !has_key(route_entries(before[a.iter as int].routes), a.cidr),
        route_effect(before, after, free, false),
    ensures
        route_reply(before, free, false) == (0int, Seq::<Seq<char>>::empty()),
        others_unchanged(before, after, -1),
{
}

/// With no interface, a well-formed `route add` (through an address of some
/// family) or `route del` reports only that no interface is configured, and
/// changes nothing.
pub proof fn route_command_without_interfaces(
    before: Seq<Interface>,
    after: Seq<Interface>,
    free: Seq<Seq<char>>,
    add: bool,
)
    requires
        before.len() == 0,
        route_args(free, add) is Ok,
        gateway_known(free, add),
        route_effect(before, after, free, add),
    ensures
        route_reply(before, free, add) == (-1int, seq![error_text(RouteError::NoInterface)]),
        after.len() == 0,
{
}

} // verus!
