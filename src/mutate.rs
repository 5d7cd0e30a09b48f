//! Adding and deleting routes on an interface chosen by its position.

use crate::net::{Cidr, IpAddr, Route};
use crate::table::{entry_map, has_key, insert_fails, without_key, route_capacity, route_entries, RouteTable};
use vstd::prelude::*;

verus! {

/// A network interface: its link-layer address, the prefixes assigned to it and
/// its route table.
pub struct Interface {
    pub ether_addr: [u8; 6],
    pub ip_addrs: Vec<Cidr>,
    pub routes: RouteTable,
}

impl Interface {
    pub open spec fn wf(&self) -> bool {
        &&& self.routes.wf()
        &&& forall|i: int| 0 <= i < self.ip_addrs@.len() ==> (#[trigger] self.ip_addrs@[i]).wf()
    }
}

/// Every interface of the collection is well formed.
pub open spec fn interfaces_wf(ifs: Seq<Interface>) -> bool {
    forall|i: int| 0 <= i < ifs.len() ==> (#[trigger] ifs[i]).wf()
}

/// Two interface values that hold the same addresses and the same table.
pub open spec fn same_interface(a: Interface, b: Interface) -> bool {
    &&& a.ether_addr == b.ether_addr
    &&& a.ip_addrs@ == b.ip_addrs@
    &&& route_entries(a.routes) == route_entries(b.routes)
    &&& route_capacity(a.routes) == route_capacity(b.routes)
}

/// The interfaces other than the one at `k` are as they were.
pub open spec fn others_unchanged(before: Seq<Interface>, after: Seq<Interface>, k: int) -> bool {
    &&& after.len() == before.len()
    &&& forall|j: int| 0 <= j < before.len() && j != k ==> same_interface(#[trigger] after[j], before[j])
}

/// Why a route could not be added or deleted.
#[derive(Clone, Copy, Debug, PartialEq, Eq, Structural)]
pub enum RouteError {
    /// The route table is full.
    Exhausted,
    /// The gateway is of no address family.
    InvalidGateway,
    /// No interface stands at this position.
    InterfaceNotFound(i32),
    /// The collection holds no interface.
    NoInterface,
}

/// The route that forwards through `gateway`, preferred and kept indefinitely.
pub open spec fn gateway_route(gateway: IpAddr) -> Route {
    Route { via_router: gateway, preferred_until: None, expires_at: None }
}

/// The position `iter` names an interface of a collection of `n`.
pub open spec fn selects(n: nat, iter: i32) -> bool {
    0 <= iter < n
}

/// How an interface selector fails on a collection of `n` that it does not fit.
pub open spec fn selector_error(n: nat, iter: i32) -> RouteError {
    if n == 0 {
        RouteError::NoInterface
    } else {
        RouteError::InterfaceNotFound(iter)
    }
}

/// The outcome of adding a route for `cidr` through `gateway` on interface `iter`.
pub open spec fn add_outcome(ifs: Seq<Interface>, cidr: Cidr, gateway: IpAddr, iter: i32) -> Result<(), RouteError> {
    if gateway is Unspecified {
        Err(RouteError::InvalidGateway)
    } else if !selects(ifs.len(), iter) {
        Err(selector_error(ifs.len(), iter))
    } else if insert_fails(route_entries(ifs[iter as int].routes), route_capacity(ifs[iter as int].routes), cidr) {
        Err(RouteError::Exhausted)
    } else {
        Ok(())
    }
}

/// The outcome of deleting the route for `cidr` on interface `iter`.
pub open spec fn del_outcome(ifs: Seq<Interface>, iter: i32) -> Result<(), RouteError> {
    if selects(ifs.len(), iter) {
        Ok(())
    } else {
        Err(selector_error(ifs.len(), iter))
    }
}

/// What adding leaves behind: only the selected table changes, and only when
/// the insertion succeeds.
pub open spec fn add_effect(before: Seq<Interface>, after: Seq<Interface>, cidr: Cidr, gateway: IpAddr, iter: i32) -> bool {
    &&& interfaces_wf(after)
    &&& others_unchanged(before, after, iter as int)
    &&& add_outcome(before, cidr, gateway, iter) is Ok ==> {
        &&& entry_map(route_entries(after[iter as int].routes))
            == entry_map(route_entries(before[iter as int].routes)).insert(cidr, gateway_route(gateway))
        &&& route_capacity(after[iter as int].routes) == route_capacity(before[iter as int].routes)
    }
    &&& add_outcome(before, cidr, gateway, iter) is Err ==> others_unchanged(before, after, -1)
}

/// What deleting leaves behind: only the selected table changes, losing the
/// entry for the key and keeping the others in order; an absent key changes
/// nothing.
pub open spec fn del_effect(before: Seq<Interface>, after: Seq<Interface>, cidr: Cidr, iter: i32) -> bool {
    &&& interfaces_wf(after)
    &&& others_unchanged(before, after, iter as int)
    &&& del_outcome(before, iter) is Ok ==> {
        &&& entry_map(route_entries(after[iter as int].routes))
            == entry_map(route_entries(before[iter as int].routes)).remove(cidr)
        &&& route_entries(after[iter as int].routes)
            == without_key(route_entries(before[iter as int].routes), cidr)
        &&& route_capacity(after[iter as int].routes) == route_capacity(before[iter as int].routes)
        &&& !has_key(route_entries(before[iter as int].routes), cidr) ==> others_unchanged(before, after, -1)
    }
    &&& del_outcome(before, iter) is Err ==> others_unchanged(before, after, -1)
}

/// Adds a route for `cidr` through `gateway` to the table of the interface at
/// position `iter`. Only that interface's table changes, and only on success.
pub fn add_route(ifs: &mut Vec<Interface>, cidr: Cidr, gateway: IpAddr, iter: i32) -> (r: Result<(), RouteError>)
    requires
        interfaces_wf(old(ifs)@),
        cidr.wf(),
    ensures
        r == add_outcome(old(ifs)@, cidr, gateway, iter),
        add_effect(old(ifs)@, final(ifs)@, cidr, gateway, iter),
{
    if let IpAddr::Unspecified = gateway {
        return Err(RouteError::InvalidGateway);
    }
    let route = Route { via_router: gateway, preferred_until: None, expires_at: None };
    let mut counter: usize = 0;
    while counter < ifs.len()
        invariant
            ifs@ == old(ifs)@,
            interfaces_wf(ifs@),
            0 <= counter <= ifs@.len(),
            !(0 <= iter < counter),
            cidr.wf(),
            !(gateway is Unspecified),
            route == gateway_route(gateway),
        decreases ifs@.len() - counter,
    {
        if iter >= 0 && counter == iter as usize {
            let ghost before = ifs@;
            let ok = ifs[counter].routes.insert(cidr, route);
            assert(others_unchanged(before, ifs@, counter as int));
            if ok {
                return Ok(());
            } else {
                return Err(RouteError::Exhausted);
            }
        }
        counter = counter + 1;
    }
    if ifs.len() == 0 {
        Err(RouteError::NoInterface)
    } else {
        Err(RouteError::InterfaceNotFound(iter))
    }
}

/// Deletes the route for `cidr` from the table of the interface at position
/// `iter`; a key that is not there leaves the table as it was.
pub fn del_route(ifs: &mut Vec<Interface>, cidr: Cidr, iter: i32) -> (r: Result<(), RouteError>)
    requires
        interfaces_wf(old(ifs)@),
        cidr.wf(),
    ensures
        r == del_outcome(old(ifs)@, iter),
        del_effect(old(ifs)@, final(ifs)@, cidr, iter),
{
    let mut counter: usize = 0;
    while counter < ifs.len()
        invariant
            ifs@ == old(ifs)@,
            interfaces_wf(ifs@),
            0 <= counter <= ifs@.len(),
            !(0 <= iter < counter),
            cidr.wf(),
        decreases ifs@.len() - counter,
    {
        if iter >= 0 && counter == iter as usize {
            let ghost before = ifs@;
            ifs[counter].routes.remove(cidr);
            assert(others_unchanged(before, ifs@, counter as int));
            return Ok(());
        }
        counter = counter + 1;
    }
    if counter == 0 {
        Err(RouteError::NoInterface)
    } else {
        Err(RouteError::InterfaceNotFound(iter))
    }
}

} // verus!
