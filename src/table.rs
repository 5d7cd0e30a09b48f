//! A route table: smoltcp's `Routes`, keyed by CIDR prefix, seen through the
//! sequence of its entries in iteration order.

use crate::net::{from_wire_cidr, from_wire_route, to_wire_cidr, to_wire_route, Cidr, Route};
use smoltcp::iface::Routes;
use std::collections::BTreeMap;
use vstd::prelude::*;

verus! {

/// The route table of one interface.
#[verifier::external_body]
pub struct RouteTable {
    inner: Routes<'static>,
}

/// The entries of a table, in the order in which the table is walked.
pub uninterp spec fn route_entries(t: RouteTable) -> Seq<(Cidr, Route)>;

/// The number of entries a table can hold; none for a table that grows.
pub uninterp spec fn route_capacity(t: RouteTable) -> Option<nat>;

/// No key occurs twice.
pub open spec fn keys_unique(s: Seq<(Cidr, Route)>) -> bool {
    forall|i: int, j: int| 0 <= i < j < s.len() ==> s[i].0 != s[j].0
}

/// `k` is the key of some entry.
pub open spec fn has_key(s: Seq<(Cidr, Route)>, k: Cidr) -> bool {
    exists|i: int| 0 <= i < s.len() && s[i].0 == k
}

/// The entries whose key is not `k`, in their order.
pub open spec fn without_key(s: Seq<(Cidr, Route)>, k: Cidr) -> Seq<(Cidr, Route)> {
    s.filter(|e: (Cidr, Route)| e.0 != k)
}

/// The entries read as a map from key to route.
pub open spec fn entry_map(s: Seq<(Cidr, Route)>) -> Map<Cidr, Route>
    decreases s.len(),
{
    if s.len() == 0 {
        Map::empty()
    } else {
        entry_map(s.drop_last()).insert(s.last().0, s.last().1)
    }
}

/// A table whose entries have distinct, well-formed keys and fit its capacity.
pub open spec fn entries_wf(s: Seq<(Cidr, Route)>, cap: Option<nat>) -> bool {
    &&& keys_unique(s)
    &&& forall|i: int| 0 <= i < s.len() ==> (#[trigger] s[i]).0.wf()
    &&& cap matches Some(c) ==> s.len() <= c
}

/// Inserting `k` fails exactly when the key is new and a bounded table is full.
pub open spec fn insert_fails(s: Seq<(Cidr, Route)>, cap: Option<nat>, k: Cidr) -> bool {
    !has_key(s, k) && (cap matches Some(c) && s.len() == c)
}

/// A key is present in the map exactly when some entry carries it, and then
/// the map gives that entry's route.
pub proof fn lemma_entry_map(s: Seq<(Cidr, Route)>)
    requires
        keys_unique(s),
    ensures
        forall|k: Cidr| #[trigger] entry_map(s).contains_key(k) <==> has_key(s, k),
        forall|i: int| 0 <= i < s.len() ==> entry_map(s)[#[trigger] s[i].0] == s[i].1,
    decreases s.len(),
{
    if s.len() > 0 {
        let p = s.drop_last();
        assert(keys_unique(p));
        lemma_entry_map(p);
        assert forall|k: Cidr| #[trigger] entry_map(s).contains_key(k) <==> has_key(s, k) by {
            if has_key(s, k) {
                let i = choose|i: int| 0 <= i < s.len() && s[i].0 == k;
                if i < s.len() - 1 {
                    assert(p[i].0 == k);
                    assert(has_key(p, k));
                }
            }
            if entry_map(s).contains_key(k) {
                if k == s.last().0 {
                    assert(s[s.len() - 1].0 == k);
                } else {
                    assert(entry_map(p).contains_key(k));
                    let i = choose|i: int| 0 <= i < p.len() && p[i].0 == k;
                    assert(s[i].0 == k);
                }
            }
        }
        assert forall|i: int| 0 <= i < s.len() implies entry_map(s)[#[trigger] s[i].0] == s[i].1 by {
            if i < s.len() - 1 {
                assert(p[i] == s[i]);
                assert(s[i].0 != s.last().0);
            }
        }
    }
}

impl RouteTable {
    pub open spec fn wf(&self) -> bool {
        entries_wf(route_entries(*self), route_capacity(*self))
    }

    /// An empty table that grows as routes are added.
    ///
    /// Relies on `smoltcp::iface::Routes::new` over a `BTreeMap`: it starts empty.
    #[verifier::external_body]
    pub fn new() -> (r: RouteTable)
        ensures
            route_entries(r) == Seq::<(Cidr, Route)>::empty(),
            route_capacity(r) == None::<nat>,
    {
        RouteTable { inner: Routes::new(BTreeMap::new()) }
    }

    /// An empty table with room for `capacity` routes; its storage lives as long
    /// as the program.
    ///
    /// Relies on `smoltcp::iface::Routes::new` over a slice of free slots: it
    /// starts empty and holds at most as many entries as there are slots.
    #[verifier::external_body]
    pub fn with_capacity(capacity: usize) -> (r: RouteTable)
        ensures
            route_entries(r) == Seq::<(Cidr, Route)>::empty(),
            route_capacity(r) == Some(capacity as nat),
    {
        RouteTable { inner: Routes::new(Box::leak(vec![None; capacity].into_boxed_slice())) }
    }

    /// A copy of the entries.
    ///
    /// Relies on `smoltcp::iface::Routes::update` and `managed::ManagedMap::iter`:
    /// walking the map leaves it as it was.
    #[verifier::external_body]
    pub fn entries(&mut self) -> (r: Vec<(Cidr, Route)>)
        ensures
            r@ == route_entries(*old(self)),
            route_entries(*final(self)) == route_entries(*old(self)),
            route_capacity(*final(self)) == route_capacity(*old(self)),
    {
        let mut out = Vec::new();
        self.inner.update(|m| out = m.iter().map(|(k, r)| (from_wire_cidr(*k), from_wire_route(*r))).collect());
        out
    }

    /// Adds or replaces the route for `key`; false when the table is full.
    ///
    /// Relies on `smoltcp::iface::Routes::update` and `managed::ManagedMap::insert`:
    /// a new key is refused only by a bounded map whose slots are all taken, a
    /// refused insertion changes nothing, and keys stay unique and in order.
    #[verifier::external_body]
    pub fn insert(&mut self, key: Cidr, route: Route) -> (r: bool)
        requires
            old(self).wf(),
            key.wf(),
        ensures
            final(self).wf(),
            route_capacity(*final(self)) == route_capacity(*old(self)),
            r == !insert_fails(route_entries(*old(self)), route_capacity(*old(self)), key),
            r ==> entry_map(route_entries(*final(self))) == entry_map(route_entries(*old(self))).insert(key, route),
            !r ==> route_entries(*final(self)) == route_entries(*old(self)),
    {
        let mut ok = false;
        self.inner.update(|m| ok = m.insert(to_wire_cidr(key), to_wire_route(route)).is_ok());
        ok
    }

    /// Removes the route for `key`, if there is one.
    ///
    /// Relies on `smoltcp::iface::Routes::update` and `managed::ManagedMap::remove`:
    /// the other entries stay, in their order, and an absent key leaves the map
    /// as it was.
    #[verifier::external_body]
    pub fn remove(&mut self, key: Cidr)
        requires
            old(self).wf(),
            key.wf(),
        ensures
            final(self).wf(),
            route_capacity(*final(self)) == route_capacity(*old(self)),
            entry_map(route_entries(*final(self))) == entry_map(route_entries(*old(self))).remove(key),
            route_entries(*final(self)) == without_key(route_entries(*old(self)), key),
            !has_key(route_entries(*old(self)), key) ==> route_entries(*final(self)) == route_entries(*old(self)),
    {
        self.inner.update(|m| {
            m.remove(&to_wire_cidr(key));
        });
    }
}

} // verus!
