use ip_route::args::{error_message, parse_route_args, text_eq};
use ip_route::command::{execute, Objet, USAGE};
use ip_route::inspect::{print_address, print_link, print_route};
use ip_route::mutate::{add_route, del_route, Interface, RouteError};
use ip_route::net::{default_cidr_for, is_default_cidr, Cidr, IpAddr, Route};
use ip_route::table::RouteTable;

fn words(v: &[&str]) -> Vec<String> {
    v.iter().map(|s| s.to_string()).collect()
}

fn iface(last: u8) -> Interface {
    Interface { ether_addr: [0x02, 0, 0, 0, 0, last], ip_addrs: Vec::new(), routes: RouteTable::new() }
}

fn v4(a: u8, b: u8, c: u8, d: u8) -> IpAddr {
    IpAddr::V4(u32::from_be_bytes([a, b, c, d]))
}

fn cidr4(a: u8, b: u8, c: u8, d: u8, len: u8) -> Cidr {
    Cidr { addr: v4(a, b, c, d), prefix_len: len }
}

fn gateway(ip: IpAddr) -> Route {
    Route { via_router: ip, preferred_until: None, expires_at: None }
}

fn run(ifs: &mut Vec<Interface>, v: &[&str]) -> (isize, Vec<String>) {
    execute(ifs, &words(v))
}

#[test]
fn add_then_show_lists_network_route() {
    let mut ifs = vec![iface(1)];
    let r = run(&mut ifs, &["route", "add", "192.168.1.0/24", "via", "192.168.1.42", "iter", "0"]);
    assert_eq!(r, (0, Vec::new()));
    let r = run(&mut ifs, &["route", "show"]);
    assert_eq!(r, (0, words(&["interface 1:", "  192.168.1.0/24 -> 192.168.1.42"])));
}

#[test]
fn add_default_without_iter_targets_first_interface() {
    let mut ifs = vec![iface(1), iface(2)];
    assert_eq!(run(&mut ifs, &["route", "add", "default", "via", "10.4.2.8"]).0, 0);
    let r = run(&mut ifs, &["route", "show"]);
    assert_eq!(r, (0, words(&["interface 1:", "  default via 10.4.2.8", "interface 2:"])));
}

#[test]
fn link_show_on_empty_collection_prints_nothing() {
    let mut ifs: Vec<Interface> = Vec::new();
    assert_eq!(run(&mut ifs, &["link", "show"]), (0, Vec::new()));
    assert_eq!(run(&mut ifs, &["address"]), (0, Vec::new()));
    assert_eq!(run(&mut ifs, &["route", "list"]), (0, Vec::new()));
}

#[test]
fn unknown_object_is_reported() {
    let mut ifs = vec![iface(1)];
    let r = run(&mut ifs, &["frobnicate"]);
    assert_eq!(r, (-1, words(&["Object \"frobnicate\" is unknown, try \"ip help\""])));
}

#[test]
fn empty_command_line_prints_usage() {
    let mut ifs = vec![iface(1)];
    assert_eq!(run(&mut ifs, &[]), (0, vec![USAGE.to_string()]));
}

#[test]
fn empty_route_command_lists_routes() {
    let mut ifs = vec![iface(1)];
    assert_eq!(run(&mut ifs, &["route", "add", "default", "via", "10.4.2.8"]).0, 0);
    let r = run(&mut ifs, &["route", ""]);
    assert_eq!(r, (0, words(&["interface 1:", "  default via 10.4.2.8"])));
    let mut none: Vec<Interface> = Vec::new();
    assert_eq!(run(&mut none, &["route", ""]), (0, Vec::new()));
}

#[test]
fn delete_keeps_other_routes_in_order() {
    let mut ifs = vec![iface(1)];
    let a = cidr4(10, 0, 0, 0, 8);
    let b = cidr4(172, 16, 0, 0, 12);
    let c = cidr4(192, 168, 0, 0, 16);
    for k in [c, a, b] {
        assert_eq!(add_route(&mut ifs, k, v4(10, 0, 0, 1), 0), Ok(()));
    }
    assert_eq!(del_route(&mut ifs, b, 0), Ok(()));
    let keys: Vec<Cidr> = ifs[0].routes.entries().into_iter().map(|e| e.0).collect();
    assert_eq!(keys, vec![a, c]);
}

#[test]
fn unknown_object_name_error_message() {
    assert_eq!(Objet::from_str("x"), Err("'x' is not a valid value for WSType".to_string()));
}

#[test]
fn unknown_route_command_is_reported() {
    let mut ifs = vec![iface(1)];
    let r = run(&mut ifs, &["r", "flush"]);
    assert_eq!(r, (-1, words(&["Command \"flush\" is unknown, try \"ip route help\"."])));
}

#[test]
fn route_help_prints_help_only() {
    let mut ifs = vec![iface(1)];
    let r = run(&mut ifs, &["route", "help"]);
    assert_eq!(r, (0, vec![Objet::Route.get_help().to_string()]));
}

#[test]
fn link_help_prints_help_then_listing() {
    let mut ifs = vec![iface(1)];
    let r = run(&mut ifs, &["l", "help"]);
    assert_eq!(r, (0, words(&["Usage: link [ show ]", "interface 1:", "  link/ether 02-00-00-00-00-01"])));
}

#[test]
fn address_listing_tags_families_and_empty_interfaces() {
    let mut a = iface(1);
    a.ip_addrs.push(cidr4(10, 0, 0, 2, 24));
    a.ip_addrs.push(Cidr { addr: IpAddr::V6(1), prefix_len: 64 });
    let ifs = vec![a, iface(2)];
    let r = print_address(&ifs);
    assert_eq!(
        r,
        words(&["interface 1:", "  inet4 10.0.0.2/24", "  inet6 ::1/64", "interface 2:", "  no IP address assigned"])
    );
    let mut ifs = ifs;
    assert_eq!(run(&mut ifs, &["add"]).1, r);
}

#[test]
fn link_listing_numbers_from_one() {
    let ifs = vec![iface(1), iface(0xab)];
    let r = print_link(&ifs);
    assert_eq!(
        r,
        words(&["interface 1:", "  link/ether 02-00-00-00-00-01", "interface 2:", "  link/ether 02-00-00-00-00-ab"])
    );
}

#[test]
fn default_key_follows_gateway_family() {
    let a = parse_route_args(&words(&["route", "add", "default", "via", "10.4.2.8"]), true).unwrap();
    assert_eq!(a.cidr, Cidr { addr: IpAddr::V4(0), prefix_len: 0 });
    assert_eq!(a.gateway, v4(10, 4, 2, 8));
    let b = parse_route_args(&words(&["route", "add", "default", "via", "::1"]), true).unwrap();
    assert_eq!(b.cidr, Cidr { addr: IpAddr::V6(0), prefix_len: 0 });
    assert_eq!(b.gateway, IpAddr::V6(1));
    let d = parse_route_args(&words(&["route", "del", "default"]), false).unwrap();
    assert_eq!(d.cidr, Cidr { addr: IpAddr::V4(0), prefix_len: 0 });
    assert_eq!(default_cidr_for(IpAddr::Unspecified), None);
}

#[test]
fn ipv6_default_route_is_listed_first() {
    let mut ifs = vec![iface(1)];
    assert_eq!(run(&mut ifs, &["route", "add", "10.0.0.0/8", "via", "10.0.0.1"]).0, 0);
    assert_eq!(run(&mut ifs, &["route", "add", "default", "via", "fe80::1"]).0, 0);
    let r = run(&mut ifs, &["route"]);
    assert_eq!(r, (0, words(&["interface 1:", "  default via fe80::1", "  10.0.0.0/8 -> 10.0.0.1"])));
    assert!(is_default_cidr(Cidr { addr: IpAddr::V6(0), prefix_len: 0 }));
    assert!(!is_default_cidr(cidr4(0, 0, 0, 0, 8)));
}

#[test]
fn added_route_appears_once_after_repeated_add() {
    let mut ifs = vec![iface(1)];
    let key = cidr4(192, 168, 1, 0, 24);
    assert_eq!(add_route(&mut ifs, key, v4(192, 168, 1, 1), 0), Ok(()));
    assert_eq!(add_route(&mut ifs, key, v4(192, 168, 1, 42), 0), Ok(()));
    let entries = ifs[0].routes.entries();
    assert_eq!(entries, vec![(key, gateway(v4(192, 168, 1, 42)))]);
}

#[test]
fn delete_of_absent_key_succeeds_and_changes_nothing() {
    let mut ifs = vec![iface(1), iface(2)];
    let kept = cidr4(10, 0, 0, 0, 8);
    assert_eq!(add_route(&mut ifs, kept, v4(10, 0, 0, 1), 1), Ok(()));
    for i in 0..2 {
        assert_eq!(del_route(&mut ifs, cidr4(172, 16, 0, 0, 12), i), Ok(()));
    }
    assert_eq!(ifs[0].routes.entries(), Vec::new());
    assert_eq!(ifs[1].routes.entries(), vec![(kept, gateway(v4(10, 0, 0, 1)))]);
    assert_eq!(run(&mut ifs, &["route", "del", "10.0.0.0/8", "iter", "1"]).0, 0);
    assert_eq!(ifs[1].routes.entries(), Vec::new());
}

#[test]
fn empty_collection_reports_no_interface() {
    let mut ifs: Vec<Interface> = Vec::new();
    assert_eq!(add_route(&mut ifs, cidr4(10, 0, 0, 0, 8), v4(10, 0, 0, 1), 0), Err(RouteError::NoInterface));
    assert_eq!(del_route(&mut ifs, cidr4(10, 0, 0, 0, 8), 0), Err(RouteError::NoInterface));
    let r = run(&mut ifs, &["route", "add", "default", "via", "10.4.2.8"]);
    assert_eq!(r, (-1, words(&["Error: no interface is configured."])));
    assert_eq!(print_route(&mut ifs), Vec::<String>::new());
}

#[test]
fn position_past_end_is_not_found() {
    let mut ifs = vec![iface(1), iface(2)];
    let key = cidr4(10, 0, 0, 0, 8);
    assert_eq!(add_route(&mut ifs, key, v4(10, 0, 0, 1), 2), Err(RouteError::InterfaceNotFound(2)));
    assert_eq!(add_route(&mut ifs, key, v4(10, 0, 0, 1), -1), Err(RouteError::InterfaceNotFound(-1)));
    assert_eq!(del_route(&mut ifs, key, 7), Err(RouteError::InterfaceNotFound(7)));
    assert_eq!(ifs[0].routes.entries(), Vec::new());
    assert_eq!(ifs[1].routes.entries(), Vec::new());
    let r = run(&mut ifs, &["route", "add", "10.0.0.0/8", "via", "10.0.0.1", "iter", "5"]);
    assert_eq!(r, (-1, words(&["Error: interface #5 was not found."])));
}

#[test]
fn full_table_is_exhausted_and_unchanged() {
    let mut a = iface(1);
    a.routes = RouteTable::with_capacity(1);
    let mut ifs = vec![a];
    let first = cidr4(10, 0, 0, 0, 8);
    assert_eq!(add_route(&mut ifs, first, v4(10, 0, 0, 1), 0), Ok(()));
    let r = add_route(&mut ifs, cidr4(172, 16, 0, 0, 12), v4(172, 16, 0, 1), 0);
    assert_eq!(r, Err(RouteError::Exhausted));
    assert_eq!(ifs[0].routes.entries(), vec![(first, gateway(v4(10, 0, 0, 1)))]);
    let r = run(&mut ifs, &["route", "add", "default", "via", "10.4.2.8"]);
    assert_eq!(r, (-1, words(&["Error: route table capacity exhausted."])));
    assert_eq!(add_route(&mut ifs, first, v4(10, 0, 0, 9), 0), Ok(()));
}

#[test]
fn unspecified_gateway_is_invalid() {
    let mut ifs = vec![iface(1)];
    let r = add_route(&mut ifs, cidr4(10, 0, 0, 0, 8), IpAddr::Unspecified, 0);
    assert_eq!(r, Err(RouteError::InvalidGateway));
    assert_eq!(error_message(RouteError::InvalidGateway), "Error: gateway is invalid.");
    assert_eq!(error_message(RouteError::InterfaceNotFound(-3)), "Error: interface #-3 was not found.");
}

#[test]
fn usage_errors_are_reported_before_any_change() {
    let mut ifs = vec![iface(1)];
    let cases: [(&[&str], &str); 7] = [
        (&["route", "add", "default", "to", "10.4.2.8"], "Error: invalid arguments for route add, try \"ip route help\"."),
        (&["route", "del"], "Error: invalid arguments for route delete, try \"ip route help\"."),
        (&["route", "add", "default", "via", "10.4.2"], "Error: \"10.4.2\" is not a valide ip gateway."),
        (&["route", "add", "10.0.0.0/33", "via", "10.0.0.1"], "Error: \"10.0.0.0/33\" is not a valide network/mask."),
        (&["route", "del", "nowhere"], "Error: \"nowhere\" is not a valide network/mask."),
        (&["route", "del", "default", "dev", "0"], "Error: when parsing iterface to change, try \"ip route help\"."),
        (&["route", "del", "default", "iter", "x"], "Error: when parsing iterface: unknown \"x\", try \"ip route help\"."),
    ];
    for (line, msg) in cases.iter() {
        assert_eq!(run(&mut ifs, line), (-1, vec![msg.to_string()]));
    }
    assert_eq!(ifs[0].routes.entries(), Vec::new());
}

#[test]
fn expiry_is_shown_when_set() {
    let mut ifs = vec![iface(1)];
    let key = cidr4(10, 0, 0, 0, 8);
    let route = Route { via_router: v4(10, 0, 0, 1), preferred_until: None, expires_at: Some(2500) };
    assert!(ifs[0].routes.insert(key, route));
    let r = print_route(&mut ifs);
    assert_eq!(r, words(&["interface 1:", "  10.0.0.0/8 -> 10.0.0.1 (expires at 2.500s)"]));
}

#[test]
fn object_aliases_resolve() {
    assert_eq!(Objet::from_str("add"), Ok(Objet::Address));
    assert_eq!(Objet::from_str("a"), Ok(Objet::Address));
    assert_eq!(Objet::from_str("l"), Ok(Objet::Link));
    assert_eq!(Objet::from_str("r"), Ok(Objet::Route));
    assert!(Objet::from_str("Route").is_err());
    assert_eq!(Objet::Address.name(), "address");
    assert!(Objet::Route.is_alias("route"));
    assert!(!Objet::Link.is_alias("a"));
    assert!(text_eq("via", "via"));
    assert!(!text_eq("via", "vi"));
}
