//! The command objects (`link`, `address`, `route`), their aliases and help
//! texts, and the dispatch of a command line to a listing or a mutation.

use crate::args::{add_del_route, gateway_known, route_effect, route_reply, text_eq};
use crate::inspect::{
    address_listing, join3, link_listing, print_address, print_link, print_route, route_listing,
    texts,
};
use crate::mutate::{interfaces_wf, others_unchanged, Interface};
use vstd::prelude::*;
use vstd::string::*;

verus! {

/// The short usage of the command.
pub const USAGE: &'static str = "Usage: ip [ OPTIONS ] OBJECT { COMMAND | help }
where OBJECT := { link | address | route }
      OPTIONS := { -h[elp] }";

/// The object a command acts on.
#[derive(Clone, Copy, Debug, PartialEq, Eq, Structural)]
pub enum Objet {
    Link,
    Address,
    Route,
}

/// The full name of an object.
pub open spec fn object_name(o: Objet) -> Seq<char> {
    match o {
        Objet::Link => "link"@,
        Objet::Address => "address"@,
        Objet::Route => "route"@,
    }
}

/// `s` names the object `o`: its full name or one of its short forms.
pub open spec fn names_object(o: Objet, s: Seq<char>) -> bool {
    match o {
        Objet::Link => s == "link"@ || s == "l"@,
        Objet::Address => s == "address"@ || s == "add"@ || s == "a"@,
        Objet::Route => s == "route"@ || s == "r"@,
    }
}

/// The help text of an object.
pub open spec fn help_text(o: Objet) -> Seq<char> {
    match o {
        Objet::Link => "Usage: link [ show ]"@,
        Objet::Address => "Usage: address [ show ]"@,
        Objet::Route => "Usage: route [ show | list ]
       route { add | del } ROUTE [iter <iter_num>]
ROUTE := { default | <network/mask> } via <gateway_ip>
exemple: route add default via 10.4.2.8
         route add 192.168.1.0/24 via 192.168.1.42 iter 2
         route del 192.168.1.0/24"@,
    }
}

/// The object a token names, trying link, address and route in turn.
pub open spec fn object_of(s: Seq<char>) -> Option<Objet> {
    if names_object(Objet::Link, s) {
        Some(Objet::Link)
    } else if names_object(Objet::Address, s) {
        Some(Objet::Address)
    } else if names_object(Objet::Route, s) {
        Some(Objet::Route)
    } else {
        None
    }
}

/// The sub-command: the second token, if there is one.
pub open spec fn sub_command(free: Seq<Seq<char>>) -> Option<Seq<char>> {
    if free.len() >= 2 {
        Some(free[1])
    } else {
        None
    }
}

/// The status and the lines that a command on object `o` gives.
pub open spec fn action_reply(o: Objet, ifs: Seq<Interface>, free: Seq<Seq<char>>) -> (int, Seq<Seq<char>>) {
    let cmd = sub_command(free);
    let help = cmd == Some("help"@);
    match o {
        Objet::Link => (0, if help { seq![help_text(o)] } else { Seq::empty() } + link_listing(ifs)),
        Objet::Address => (0, if help { seq![help_text(o)] } else { Seq::empty() } + address_listing(ifs)),
        Objet::Route => if help {
            (0, seq![help_text(o)])
        } else {
            match cmd {
                Some(c) => if c == "add"@ {
                    route_reply(ifs, free, true)
                } else if c == "del"@ {
                    route_reply(ifs, free, false)
                } else if c == ""@ || c == "show"@ || c == "list"@ {
                    (0, route_listing(ifs))
                } else {
                    (-1, seq!["Command \""@ + c + "\" is unknown, try \"ip route help\"."@])
                },
                None => (0, route_listing(ifs)),
            }
        },
    }
}

/// What a command on object `o` does to the interfaces: only `route add` and
/// `route del` change anything.
pub open spec fn action_effect(o: Objet, before: Seq<Interface>, after: Seq<Interface>, free: Seq<Seq<char>>) -> bool {
    if o == Objet::Route && sub_command(free) == Some("add"@) {
        route_effect(before, after, free, true)
    } else if o == Objet::Route && sub_command(free) == Some("del"@) {
        route_effect(before, after, free, false)
    } else {
        interfaces_wf(after) && others_unchanged(before, after, -1)
    }
}

/// The status and the lines that a whole command line gives.
pub open spec fn command_reply(ifs: Seq<Interface>, free: Seq<Seq<char>>) -> (int, Seq<Seq<char>>) {
    if free.len() == 0 {
        (0, seq![USAGE@])
    } else {
        match object_of(free[0]) {
            Some(o) => action_reply(o, ifs, free),
            None => (-1, seq!["Object \""@ + free[0] + "\" is unknown, try \"ip help\""@]),
        }
    }
}

/// What a whole command line does to the interfaces.
pub open spec fn command_effect(before: Seq<Interface>, after: Seq<Interface>, free: Seq<Seq<char>>) -> bool {
    if free.len() > 0 && object_of(free[0]) is Some {
        action_effect(object_of(free[0])->0, before, after, free)
    } else {
        interfaces_wf(after) && others_unchanged(before, after, -1)
    }
}

impl Objet {
    /// The full name of the object.
    pub fn name(&self) -> (r: &'static str)
        ensures
            r@ == object_name(*self),
    {
        match *self {
            Objet::Link => "link",
            Objet::Address => "address",
            Objet::Route => "route",
        }
    }

    /// Whether `name` names this object.
    pub fn is_alias(&self, name: &str) -> (r: bool)
        ensures
            r == names_object(*self, name@),
    {
        match *self {
            Objet::Link => text_eq(name, self.name()) || text_eq(name, "l"),
            Objet::Address => text_eq(name, self.name()) || text_eq(name, "add") || text_eq(name, "a"),
            Objet::Route => text_eq(name, self.name()) || text_eq(name, "r"),
        }
    }

    /// The usage text of the object.
    pub fn get_help(&self) -> (r: &'static str)
        ensures
            r@ == help_text(*self),
    {
        match *self {
            Objet::Link => "Usage: link [ show ]",
            Objet::Address => "Usage: address [ show ]",
            Objet::Route => "Usage: route [ show | list ]
       route { add | del } ROUTE [iter <iter_num>]
ROUTE := { default | <network/mask> } via <gateway_ip>
exemple: route add default via 10.4.2.8
         route add 192.168.1.0/24 via 192.168.1.42 iter 2
         route del 192.168.1.0/24",
        }
    }

    /// The object that `s` names.
    pub fn from_str(s: &str) -> (r: Result<Objet, String>)
        ensures
            r matches Ok(o) ==> object_of(s@) == Some(o),
            r matches Err(m) ==> object_of(s@) is None
                && m@ == "'"@ + s@ + "' is not a valid value for WSType"@,
    {
        if Objet::Link.is_alias(s) {
            return Ok(Objet::Link);
        }
        if Objet::Address.is_alias(s) {
            return Ok(Objet::Address);
        }
        if Objet::Route.is_alias(s) {
            return Ok(Objet::Route);
        }
        Err(join3("'", s, "' is not a valid value for WSType"))
    }

    /// Runs the command whose positional tokens are `free` on this object.
    pub fn do_action(&self, ifs: &mut Vec<Interface>, free: &Vec<String>) -> (r: (isize, Vec<String>))
        requires
            interfaces_wf(old(ifs)@),
        ensures
            r.0 as int == action_reply(*self, old(ifs)@, texts(free@)).0,
            texts(r.1@) == action_reply(*self, old(ifs)@, texts(free@)).1,
            action_effect(*self, old(ifs)@, final(ifs)@, texts(free@)),
            *self == Objet::Route && sub_command(texts(free@)) == Some("add"@) ==> gateway_known(texts(free@), true),
    {
        let ghost t = texts(free@);
        let has_cmd = free.len() >= 2;
        if has_cmd {
            assert(t[1] == free@[1]@);
        }
        let cmd: &str = if has_cmd { free[1].as_str() } else { "" };
        let help = has_cmd && text_eq(cmd, "help");
        let mut out: Vec<String> = Vec::new();
        if help {
            out.push(String::from_str(self.get_help()));
            if let Objet::Route = *self {
                assert(texts(out@) =~= seq![help_text(*self)]);
                assert(others_unchanged(old(ifs)@, ifs@, -1));
                proof {
                    reveal_strlit("help");
                    reveal_strlit("add");
                    reveal_strlit("del");
                }
                return (0, out);
            }
        }
        let ghost head = texts(out@);
        assert(head =~= if help { seq![help_text(*self)] } else { Seq::<Seq<char>>::empty() });
        match *self {
            Objet::Link => {
                let mut lines = print_link(ifs);
                out.append(&mut lines);
                assert(texts(out@) =~= head + link_listing(old(ifs)@));
                (0, out)
            },
            Objet::Address => {
                let mut lines = print_address(ifs);
                out.append(&mut lines);
                assert(texts(out@) =~= head + address_listing(old(ifs)@));
                (0, out)
            },
            Objet::Route => {
                if has_cmd && text_eq(cmd, "add") {
                    add_del_route(ifs, free, true)
                } else if has_cmd && text_eq(cmd, "del") {
                    add_del_route(ifs, free, false)
                } else if !has_cmd || text_eq(cmd, "") || text_eq(cmd, "show") || text_eq(cmd, "list") {
                    let lines = print_route(ifs);
                    (0, lines)
                } else {
                    let mut out: Vec<String> = Vec::new();
                    let m = join3("Command \"", cmd, "\" is unknown, try \"ip route help\".");
                    out.push(m);
                    assert(texts(out@) =~= seq![m@]);
                    (-1, out)
                }
            },
        }
    }
}

/// Runs a command line, given as its positional tokens: with none, the short
/// usage; otherwise the first token names the object and the rest go to it.
pub fn execute(ifs: &mut Vec<Interface>, free: &Vec<String>) -> (r: (isize, Vec<String>))
    requires
        interfaces_wf(old(ifs)@),
    ensures
        r.0 as int == command_reply(old(ifs)@, texts(free@)).0,
        texts(r.1@) == command_reply(old(ifs)@, texts(free@)).1,
        command_effect(old(ifs)@, final(ifs)@, texts(free@)),
        texts(free@).len() > 0 && object_of(texts(free@)[0]) == Some(Objet::Route)
            && sub_command(texts(free@)) == Some("add"@) ==> gateway_known(texts(free@), true),
{
    let mut out: Vec<String> = Vec::new();
    if free.len() == 0 {
        out.push(String::from_str(USAGE));
        assert(texts(out@) =~= seq![USAGE@]);
        return (0, out);
    }
    let ghost t = texts(free@);
    assert(t[0] == free@[0]@);
    let token = free[0].as_str();
    match Objet::from_str(token) {
        Ok(o) => o.do_action(ifs, free),
        Err(_) => {
            let m = join3("Object \"", token, "\" is unknown, try \"ip help\"");
            out.push(m);
            assert(texts(out@) =~= seq![m@]);
            (-1, out)
        },
    }
}

} // verus!
