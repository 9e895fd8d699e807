//! Settings given from outside the game, as texts that may be missing.

use vstd::prelude::*;
use crate::text::{
    chars_of, decimal, find_last, last_place, law_decimals, law_numbers, law_places,
    lemma_not_white, lemma_nothing_to_cut, number_of, parse_number, push_text, same, text_of, trim, trimmed, Cut,
};

verus! {

/// The port of the game's server.
pub const GAME_PORT: i32 = 7821;

/// The port for accounts.
pub const ACCOUNT_PORT: u16 = 80;

/// The server where none is set.
pub open spec fn default_server() -> Seq<char> {
    "login.moleworld.net:7821"@
}

/// The account to log in with: a number, where the network may be used.
pub open spec fn mimi_of(network: bool, var: Option<Seq<char>>) -> Option<int> {
    if network && var is Some {
        number_of(trimmed(var->0, Cut::White), 0, u32::MAX as int)
    } else {
        None
    }
}

/// A text that may be missing, as characters.
pub open spec fn opt_view(var: Option<&str>) -> Option<Seq<char>> {
    match var {
        Some(s) => Some(s@),
        None => None,
    }
}

/// The account to log in with.
pub fn online_login_mimi(network: bool, var: Option<&str>) -> (r: Option<u32>)
    ensures
        match r {
            Some(m) => mimi_of(network, opt_view(var)) == Some(m as int),
            None => mimi_of(network, opt_view(var)) is None,
        },
{
    if !network {
        return None;
    }
    match var {
        None => None,
        Some(v) => {
            let s = chars_of(v);
            let n: usize = s.len();
            assert(s@.subrange(0, n as int) =~= v@);
            let (a, b) = trim(&s, 0, n, Cut::White);
            match parse_number(&s, a, b, 0, 0xffff_ffff) {
                Some(m) => Some(m as u32),
                None => None,
            }
        },
    }
}

/// Whether a switch is on that is set from outside: anything but "0" turns it
/// on; `default` where it is not set.
pub open spec fn switch_of(var: Option<Seq<char>>, default: bool) -> bool {
    match var {
        Some(v) => v != "0"@,
        None => default,
    }
}

/// Whether a switch is on that is set from outside.
pub fn switch_on(var: Option<&str>, default: bool) -> (r: bool)
    ensures
        r == switch_of(opt_view(var), default),
{
    match var {
        Some(v) => !same(v, "0"),
        None => default,
    }
}

/// Whether the visible part of the village is corrected; on phones, where
/// nothing can be set from outside, it is.
pub fn fix_mapextend_on(var: Option<&str>, ios: bool) -> (r: bool)
    ensures
        r == corrects_view(opt_view(var), ios),
{
    switch_on(var, ios)
}

/// Whether the display of the connection is shown; off unless it is turned on.
pub fn hud_enabled(var: Option<&str>) -> (r: bool)
    ensures
        r == shows_hud(opt_view(var)),
{
    switch_on(var, false)
}

/// Whether panels are laid out for a smaller screen; on phones, where the
/// screen is wide, they are.
pub fn ui43_mode(var: Option<&str>, ios: bool, widescreen: bool) -> (r: bool)
    ensures
        r == lays_out_panels(opt_view(var), ios, widescreen),
{
    switch_on(var, ios && widescreen)
}

/// Where accounts are managed: the address with its port, if it names one;
/// otherwise the address as it is, or the game server's, at the usual port.
pub open spec fn endpoint_of(passport: Option<Seq<char>>, server: Option<Seq<char>>) -> (
    Seq<char>,
    int,
) {
    match passport {
        Some(p) => match last_place(p, ':') {
            Some(i) => match number_of(p.skip(i + 1), 0, 0xffff) {
                Some(port) => (p.take(i), port),
                None => (p, ACCOUNT_PORT as int),
            },
            None => (p, ACCOUNT_PORT as int),
        },
        None => {
            let s = if server is Some {
                server->0
            } else {
                default_server()
            };
            match last_place(s, ':') {
                Some(i) => (s.take(i), ACCOUNT_PORT as int),
                None => (s, ACCOUNT_PORT as int),
            }
        },
    }
}

/// Where accounts are managed.
pub fn passport_endpoint(passport: Option<&str>, server: Option<&str>) -> (r: (String, u16))
    ensures
        (r.0@, r.1 as int) == endpoint_of(opt_view(passport), opt_view(server)),
{
    if let Some(p) = passport {
        let s = chars_of(p);
        let n: usize = s.len();
        assert(s@.subrange(0, n as int) =~= p@);
        if let Some(i) = find_last(&s, 0, n, ':') {
            assert(p@.skip(i + 1) =~= s@.subrange(i + 1, n as int));
            if let Some(port) = parse_number(&s, i + 1, n, 0, 0xffff) {
                assert(p@.take(i as int) =~= s@.subrange(0, i as int));
                return (text_of(&s, 0, i), port as u16);
            }
        }
        return (text_of(&s, 0, n), ACCOUNT_PORT);
    }
    let server: &str = match server {
        Some(s) => s,
        None => "login.moleworld.net:7821",
    };
    let s = chars_of(server);
    let n: usize = s.len();
    assert(s@.subrange(0, n as int) =~= server@);
    match find_last(&s, 0, n, ':') {
        Some(i) => {
            assert(server@.take(i as int) =~= s@.subrange(0, i as int));
            (text_of(&s, 0, i), ACCOUNT_PORT)
        },
        None => (text_of(&s, 0, n), ACCOUNT_PORT),
    }
}

/// The game's server: address and port, the usual port where none can be read.
pub open spec fn server_of(server: Seq<char>) -> (Seq<char>, int) {
    let s = trimmed(server, Cut::White);
    match last_place(s, ':') {
        Some(i) => (
            s.take(i),
            match number_of(trimmed(s.skip(i + 1), Cut::White), i32::MIN as int, i32::MAX as int) {
                Some(port) => port,
                None => GAME_PORT as int,
            },
        ),
        None => (s, GAME_PORT as int),
    }
}

/// The game's server: address and port.
pub fn server_address(server: &str) -> (r: (String, i32))
    ensures
        (r.0@, r.1 as int) == server_of(server@),
{
    let s = chars_of(server);
    let n: usize = s.len();
    assert(s@.subrange(0, n as int) =~= server@);
    let (a, b) = trim(&s, 0, n, Cut::White);
    let ghost t = s@.subrange(a as int, b as int);
    match find_last(&s, a, b, ':') {
        Some(i) => {
            assert(t.take(i - a) =~= s@.subrange(a as int, i as int));
            assert(t.skip(i - a + 1) =~= s@.subrange(i + 1, b as int));
            let host = text_of(&s, a, i);
            let (c, d) = trim(&s, i + 1, b, Cut::White);
            match parse_number(&s, c, d, -0x8000_0000, 0x7fff_ffff) {
                Some(port) => (host, port as i32),
                None => (host, GAME_PORT),
            }
        },
        None => (text_of(&s, a, b), GAME_PORT),
    }
}

/// The list of servers as the game reads it, with one server.
pub open spec fn server_list_of(server: Seq<char>) -> Seq<char> {
    let s = trimmed(server, Cut::White);
    let (ip, port) = match last_place(s, ':') {
        Some(i) => (s.take(i), s.skip(i + 1)),
        None => (s, "7821"@),
    };
    "[{\"ip\":\""@ + ip + "\",\"port\":\""@ + port + "\"}]"@
}

/// The list of servers as the game reads it, with one server.
pub fn serverlist_json(server: &str) -> (r: String)
    ensures
        r@ == server_list_of(server@),
{
    let s = chars_of(server);
    let n: usize = s.len();
    assert(s@.subrange(0, n as int) =~= server@);
    let (a, b) = trim(&s, 0, n, Cut::White);
    let ghost t = s@.subrange(a as int, b as int);
    let mut r: String = String::new();
    push_text(&mut r, "[{\"ip\":\"");
    assert(r@ =~= "[{\"ip\":\""@);
    match find_last(&s, a, b, ':') {
        Some(i) => {
            assert(t.take(i - a) =~= s@.subrange(a as int, i as int));
            assert(t.skip(i - a + 1) =~= s@.subrange(i + 1, b as int));
            push_text(&mut r, text_of(&s, a, i).as_str());
            push_text(&mut r, "\",\"port\":\"");
            push_text(&mut r, text_of(&s, i + 1, b).as_str());
        },
        None => {
            push_text(&mut r, text_of(&s, a, b).as_str());
            push_text(&mut r, "\",\"port\":\"");
            push_text(&mut r, "7821");
        },
    }
    push_text(&mut r, "\"}]");
    r
}

/// The last colon of a text that has one, and none behind it.
proof fn lemma_last_colon(host: Seq<char>, rest: Seq<char>)
    requires
        forall|i: int| 0 <= i < rest.len() ==> #[trigger] rest[i] != ':',
    ensures
        ({
            let s = host + seq![':'] + rest;
            last_place(s, ':') == Some(host.len() as int) && s.take(host.len() as int) == host
                && s.skip(host.len() as int + 1) == rest
        }),
{
    let s = host + seq![':'] + rest;
    law_places(s, ':');
    assert(s[host.len() as int] == ':');
    assert forall|j: int| host.len() < j < s.len() implies #[trigger] s[j] != ':' by {
        assert(s[j] == rest[j - host.len() - 1]);
    }
    assert(s.take(host.len() as int) =~= host);
    assert(s.skip(host.len() as int + 1) =~= rest);
}

proof fn lemma_digits_stay(n: nat)
    ensures
        trimmed(decimal(n), Cut::White) == decimal(n),
        decimal(n).len() > 0,
        !Cut::White.takes(decimal(n).last()),
        forall|i: int| 0 <= i < decimal(n).len() ==> #[trigger] decimal(n)[i] != ':',
{
    law_decimals(n, 0);
    let d = decimal(n);
    assert(d.len() > 0) by {
        reveal_with_fuel(decimal, 2);
    }
    assert('0' <= d[0] && d[0] <= '9');
    assert('0' <= d[d.len() - 1] && d[d.len() - 1] <= '9');
    lemma_not_white(d[0]);
    lemma_not_white(d.last());
    lemma_nothing_to_cut(d, Cut::White);
    assert forall|i: int| 0 <= i < d.len() implies #[trigger] d[i] != ':' by {
        assert('0' <= d[i] && d[i] <= '9');
    }
}

/// The account is the number that was set, where the network may be used:
/// without the network, or with no text, or one that is no number, there is
/// none.
pub proof fn law_account_is_the_one_set(n: nat, var: Option<Seq<char>>)
    ensures
        mimi_of(false, var) is None,
        mimi_of(true, None) is None,
        n <= u32::MAX ==> mimi_of(true, Some(decimal(n))) == Some(n as int),
        n > u32::MAX ==> mimi_of(true, Some(decimal(n))) is None,
{
    lemma_digits_stay(n);
    law_numbers(n, 0, u32::MAX as int, decimal(n), 0);
}

/// A switch is off where it is set to 0, on where it is set to anything else,
/// and as it is by default where it is not set.
pub proof fn law_switches_from_outside(v: Seq<char>, default: bool)
    ensures
        !switch_of(Some("0"@), default),
        v != "0"@ ==> switch_of(Some(v), default),
        switch_of(None, default) == default,
{
}

/// An address with a port, as host, colon and number, is taken apart into just
/// these: for accounts, for the game's server, and in the list of servers. Where
/// nothing is set for accounts, they are at the game server's host at port 80.
pub proof fn law_addresses_with_a_port(host: Seq<char>, port: nat)
    requires
        host.len() > 0,
        !Cut::White.takes(host[0]),
    ensures
        ({
            let s = host + seq![':'] + decimal(port);
            &&& port <= 0xffff ==> endpoint_of(Some(s), None) == (host, port as int)
            &&& port > 0xffff ==> endpoint_of(Some(s), None) == (s, 80int)
            &&& endpoint_of(None, Some(s)) == (host, 80int)
            &&& port <= i32::MAX ==> server_of(s) == (host, port as int)
            &&& port > i32::MAX ==> server_of(s) == (host, 7821int)
            &&& server_list_of(s) == "[{\"ip\":\""@ + host + "\",\"port\":\""@ + decimal(port)
                + "\"}]"@
        }),
{
    let d = decimal(port);
    let s = host + seq![':'] + d;
    lemma_digits_stay(port);
    lemma_last_colon(host, d);
    law_numbers(port, 0, 0xffff, d, 0);
    law_numbers(port, i32::MIN as int, i32::MAX as int, d, 0);
    assert(s[0] == host[0] && s.last() == d.last());
    lemma_nothing_to_cut(s, Cut::White);
}

/// Without a colon the whole is the host, at port 80 for accounts and 7821 for
/// the game; where nothing is set at all, the usual server is taken.
pub proof fn law_addresses_without_a_port(host: Seq<char>)
    requires
        host.len() > 0,
        !Cut::White.takes(host[0]) && !Cut::White.takes(host.last()),
        forall|i: int| 0 <= i < host.len() ==> #[trigger] host[i] != ':',
    ensures
        endpoint_of(Some(host), None) == (host, 80int),
        endpoint_of(None, Some(host)) == (host, 80int),
        server_of(host) == (host, 7821int),
        server_list_of(host) == "[{\"ip\":\""@ + host + "\",\"port\":\""@ + "7821"@ + "\"}]"@,
        default_server() == "login.moleworld.net:7821"@,
        endpoint_of(None, None) == endpoint_of(None, Some("login.moleworld.net:7821"@)),
{
    law_places(host, ':');
    lemma_nothing_to_cut(host, Cut::White);
}

/// Whether the visible part of the village is corrected.
pub open spec fn corrects_view(var: Option<Seq<char>>, ios: bool) -> bool {
    switch_of(var, ios)
}

/// Whether the display of the connection is shown.
pub open spec fn shows_hud(var: Option<Seq<char>>) -> bool {
    switch_of(var, false)
}

/// Whether panels are laid out for a smaller screen.
pub open spec fn lays_out_panels(var: Option<Seq<char>>, ios: bool, widescreen: bool) -> bool {
    switch_of(var, ios && widescreen)
}

/// Without a setting, the view is corrected on phones only, the display is off,
/// and panels are laid out on phones with a wide screen only. A setting decides
/// alone: 0 is off, and anything else on.
pub proof fn law_defaults(v: Seq<char>, ios: bool, widescreen: bool)
    ensures
        corrects_view(None, ios) == ios,
        !shows_hud(None),
        lays_out_panels(None, ios, widescreen) == (ios && widescreen),
        corrects_view(Some(v), ios) == (v != "0"@),
        shows_hud(Some(v)) == (v != "0"@),
        lays_out_panels(Some(v), ios, widescreen) == (v != "0"@),
{
}

} // verus!
