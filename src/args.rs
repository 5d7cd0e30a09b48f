//! The operands of `route add` and `route del`, checked before any table is
//! touched, and the reply to either command.

use crate::inspect::{decimal_string, join2, join3, texts};
use crate::numerals::{decimal_text, i32_of_text};
use crate::mutate::{
    add_effect, add_outcome, add_route, del_effect, del_outcome, del_route, interfaces_wf,
    Interface, RouteError,
};
use crate::net::{default_cidr_for, default_key_for, parse_cidr, parse_ip, parsed_cidr, parsed_ip, Cidr, IpAddr};
use vstd::prelude::*;
use vstd::string::*;

verus! {

/// Relies on `<i32 as FromStr>::from_str`: an optional sign, then decimal
/// digits whose value fits the type.
#[verifier::external_body]
pub(crate) fn parse_i32(s: &str) -> (r: Option<i32>)
    ensures
        r == i32_of_text(s@),
{
    s.parse::<i32>().ok()
}

/// Whether two texts are equal.
pub fn text_eq(a: &str, b: &str) -> (r: bool)
    ensures
        r == (a@ == b@),
{
    String::from_str(a) == String::from_str(b)
}

/// The operands of a route command: the prefix, the gateway (for a deletion,
/// the IPv4 zero address) and the position of the interface.
#[derive(Clone, Copy, Debug, PartialEq, Eq, Structural)]
pub struct RouteArgs {
    pub cidr: Cidr,
    pub gateway: IpAddr,
    pub iter: i32,
}

/// The position of the optional `iter <n>` pair.
pub open spec fn iter_pos(add: bool) -> int {
    if add { 5 } else { 3 }
}

/// The gateway of a route command, or the message that rejects it.
pub open spec fn gateway_arg(free: Seq<Seq<char>>, add: bool) -> Result<IpAddr, Seq<char>> {
    if add {
        match parsed_ip(free[4]) {
            Some(g) => Ok(g),
            None => Err("Error: \""@ + free[4] + "\" is not a valide ip gateway."@),
        }
    } else {
        Ok(IpAddr::V4(0))
    }
}

/// The prefix of a route command, or the message that rejects it.
pub open spec fn cidr_arg(token: Seq<char>, gateway: IpAddr) -> Result<Cidr, Seq<char>> {
    let parsed = if token == "default"@ { default_key_for(gateway) } else { parsed_cidr(token) };
    match parsed {
        Some(c) => Ok(c),
        None => Err("Error: \""@ + token + "\" is not a valide network/mask."@),
    }
}

/// The interface position of a route command, or the message that rejects it.
pub open spec fn iter_arg(free: Seq<Seq<char>>, add: bool) -> Result<i32, Seq<char>> {
    let p = iter_pos(add);
    if free.len() >= p + 2 {
        if free[p] != "iter"@ {
            Err("Error: when parsing iterface to change, try \"ip route help\"."@)
        } else {
            match i32_of_text(free[p + 1]) {
                Some(n) => Ok(n),
                None => Err("Error: when parsing iterface: unknown \""@ + free[p + 1]
                    + "\", try \"ip route help\"."@),
            }
        }
    } else {
        Ok(0)
    }
}

/// The operands of `route add` (when `add`) or `route del`, or the usage
/// message that rejects them.
pub open spec fn route_args(free: Seq<Seq<char>>, add: bool) -> Result<RouteArgs, Seq<char>> {
    if add && (free.len() < 5 || free[3] != "via"@) {
        Err("Error: invalid arguments for route add, try \"ip route help\"."@)
    } else if !add && free.len() < 3 {
        Err("Error: invalid arguments for route delete, try \"ip route help\"."@)
    } else {
        match gateway_arg(free, add) {
            Err(m) => Err(m),
            Ok(g) => match cidr_arg(free[2], g) {
                Err(m) => Err(m),
                Ok(c) => match iter_arg(free, add) {
                    Err(m) => Err(m),
                    Ok(n) => Ok(RouteArgs { cidr: c, gateway: g, iter: n }),
                },
            },
        }
    }
}

/// The gateway that the operands give is an address of some family: the
/// address parser yields no other.
pub open spec fn gateway_known(free: Seq<Seq<char>>, add: bool) -> bool {
    route_args(free, add) matches Ok(a) ==> !(a.gateway is Unspecified)
}

/// Reads the operands of `route add` (when `add`) or `route del`.
pub fn parse_route_args(free: &Vec<String>, add: bool) -> (r: Result<RouteArgs, String>)
    ensures
        r matches Ok(a) ==> route_args(texts(free@), add) == Ok::<RouteArgs, Seq<char>>(a) && a.cidr.wf(),
        gateway_known(texts(free@), add),
        r matches Err(m) ==> route_args(texts(free@), add) == Err::<RouteArgs, Seq<char>>(m@),
{
    let ghost t = texts(free@);
    if add && (free.len() < 5 || !text_eq(free[3].as_str(), "via")) {
        return Err(String::from_str("Error: invalid arguments for route add, try \"ip route help\"."));
    }
    if !add && free.len() < 3 {
        return Err(String::from_str("Error: invalid arguments for route delete, try \"ip route help\"."));
    }
    assert(t[2] == free@[2]@);
    let gateway = if add {
        assert(t[4] == free@[4]@);
        match parse_ip(free[4].as_str()) {
            Some(g) => g,
            None => {
                return Err(join3("Error: \"", free[4].as_str(), "\" is not a valide ip gateway."));
            },
        }
    } else {
        IpAddr::V4(0)
    };
    let token = free[2].as_str();
    let parsed = if text_eq(token, "default") {
        default_cidr_for(gateway)
    } else {
        parse_cidr(token)
    };
    let cidr = match parsed {
        Some(c) => c,
        None => {
            return Err(join3("Error: \"", token, "\" is not a valide network/mask."));
        },
    };
    let p: usize = if add { 5 } else { 3 };
    let mut iter: i32 = 0;
    if free.len() >= p + 2 {
        assert(t[p as int] == free@[p as int]@);
        assert(t[p + 1] == free@[p + 1]@);
        if !text_eq(free[p].as_str(), "iter") {
            return Err(String::from_str("Error: when parsing iterface to change, try \"ip route help\"."));
        }
        match parse_i32(free[p + 1].as_str()) {
            Some(n) => {
                iter = n;
            },
            None => {
                return Err(join3("Error: when parsing iterface: unknown \"", free[p + 1].as_str(),
                    "\", try \"ip route help\"."));
            },
        }
    }
    Ok(RouteArgs { cidr, gateway, iter })
}

/// The message for a failed mutation.
pub open spec fn error_text(e: RouteError) -> Seq<char> {
    match e {
        RouteError::Exhausted => "Error: route table capacity exhausted."@,
        RouteError::InvalidGateway => "Error: gateway is invalid."@,
        RouteError::InterfaceNotFound(n) => "Error: interface #"@ + decimal_text(n as int) + " was not found."@,
        RouteError::NoInterface => "Error: no interface is configured."@,
    }
}

/// The message for a failed mutation.
pub fn error_message(e: RouteError) -> (r: String)
    ensures
        r@ == error_text(e),
{
    match e {
        RouteError::Exhausted => String::from_str("Error: route table capacity exhausted."),
        RouteError::InvalidGateway => String::from_str("Error: gateway is invalid."),
        RouteError::InterfaceNotFound(n) => {
            let d = decimal_string(n as i128);
            join3("Error: interface #", d.as_str(), " was not found.")
        },
        RouteError::NoInterface => String::from_str("Error: no interface is configured."),
    }
}

/// The status and the lines that report the outcome of a mutation.
pub open spec fn outcome_reply(r: Result<(), RouteError>) -> (int, Seq<Seq<char>>) {
    match r {
        Ok(()) => (0, Seq::empty()),
        Err(e) => (-1, seq![error_text(e)]),
    }
}

/// The status and the lines that `route add` (when `add`) or `route del` gives.
pub open spec fn route_reply(ifs: Seq<Interface>, free: Seq<Seq<char>>, add: bool) -> (int, Seq<Seq<char>>) {
    match route_args(free, add) {
        Err(m) => (-1, seq![m]),
        Ok(a) => outcome_reply(
            if add { add_outcome(ifs, a.cidr, a.gateway, a.iter) } else { del_outcome(ifs, a.iter) },
        ),
    }
}

/// What `route add` (when `add`) or `route del` does to the interfaces.
pub open spec fn route_effect(before: Seq<Interface>, after: Seq<Interface>, free: Seq<Seq<char>>, add: bool) -> bool {
    match route_args(free, add) {
        Err(_) => interfaces_wf(after) && crate::mutate::others_unchanged(before, after, -1),
        Ok(a) => if add {
            add_effect(before, after, a.cidr, a.gateway, a.iter)
        } else {
            del_effect(before, after, a.cidr, a.iter)
        },
    }
}

/// Runs `route add` (when `add`) or `route del` with the positional tokens
/// `free`: checks the operands, then applies at most one mutation.
pub fn add_del_route(ifs: &mut Vec<Interface>, free: &Vec<String>, add: bool) -> (r: (isize, Vec<String>))
    requires
        interfaces_wf(old(ifs)@),
    ensures
        r.0 as int == route_reply(old(ifs)@, texts(free@), add).0,
        texts(r.1@) == route_reply(old(ifs)@, texts(free@), add).1,
        route_effect(old(ifs)@, final(ifs)@, texts(free@), add),
        gateway_known(texts(free@), add),
{
    let args = match parse_route_args(free, add) {
        Ok(a) => a,
        Err(m) => {
            let mut out: Vec<String> = Vec::new();
            out.push(m);
            assert(texts(out@) =~= seq![m@]);
            return (-1, out);
        },
    };
    let res = if add {
        add_route(ifs, args.cidr, args.gateway, args.iter)
    } else {
        del_route(ifs, args.cidr, args.iter)
    };
    let mut out: Vec<String> = Vec::new();
    match res {
        Ok(()) => {
            assert(texts(out@) =~= Seq::<Seq<char>>::empty());
            (0, out)
        },
        Err(e) => {
            let m = error_message(e);
            out.push(m);
            assert(texts(out@) =~= seq![m@]);
            (-1, out)
        },
    }
}

} // verus!
