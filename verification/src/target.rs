//! Finding the network to scan: the default route's interface, its IPv4
//! address and prefix, and the report of how the target was chosen.
use vstd::prelude::*;
use crate::text::{
    chars_of, copy_range, lines, lines_chars, lower, split_once, split_once_chars, split_ws,
    starts_with, starts_with_chars, string_of, strip_suffixes, strip_suffixes_chars, text_is,
    to_lower, trim_chars, trim_ws, views, words_chars, contains, has_text, CharClass,
};
use crate::numbers::{ipv4_string, ipv4_text, parse_ipv4, parse_ipv4_chars, parse_u8, parse_u8_chars};
use crate::network::{
    cidr_hosts, cidr_label, cidr_text, dotted_netmask_to_prefix, hex_mask_value,
    hex_netmask_to_prefix, hosts_from_cidr, is_loopback, is_unspecified, loopback,
    network_ip_for, network_of, prefix_of_mask, unspecified,
};
use crate::probe::{arg_views, command, command_view, opt_view, text_of, CommandSpec, OutputMode, Platform};

verus! {

// ---------------------------------------------------------------------------
// The default route's interface
// ---------------------------------------------------------------------------

/// `char::is_ascii_alphabetic`.
pub open spec fn is_ascii_letter(c: char) -> bool {
    ('a' <= c && c <= 'z') || ('A' <= c && c <= 'Z')
}

pub open spec fn has_letter(s: Seq<char>) -> bool {
    exists|i: int| 0 <= i < s.len() && is_ascii_letter(#[trigger] s[i])
}

/// The interface of a `default` line of `netstat -rn`: its last column, when
/// that contains a letter.
pub open spec fn netstat_line_interface(line: Seq<char>) -> Option<Seq<char>> {
    let t = split_ws(line);
    if t.len() > 0 && t[0] == "default"@ && has_letter(t.last()) {
        Some(t.last())
    } else {
        None
    }
}

/// The interface of the first `default` line that names one.
pub open spec fn netstat_interface(ls: Seq<Seq<char>>) -> Option<Seq<char>>
    decreases ls.len(),
{
    if ls.len() == 0 {
        None
    } else {
        match netstat_line_interface(ls[0]) {
            Some(i) => Some(i),
            None => netstat_interface(ls.drop_first()),
        }
    }
}

fn has_letter_exec(v: &Vec<char>) -> (r: bool)
    ensures
        r == has_letter(v@),
{
    let mut i: usize = 0;
    while i < v.len()
        invariant
            i <= v.len(),
            forall|j: int| 0 <= j < i ==> !is_ascii_letter(#[trigger] v@[j]),
        decreases v.len() - i,
    {
        let c = v[i];
        if ('a' <= c && c <= 'z') || ('A' <= c && c <= 'Z') {
            return true;
        }
        i += 1;
    }
    false
}

/// The default route's interface in the output of `netstat -rn -f inet`.
pub fn interface_from_netstat(output: &str) -> (r: Option<String>)
    ensures
        opt_view(r) == netstat_interface(lines(output@)),
{
    let ls = lines_chars(&chars_of(output));
    let ghost all = views(ls@);
    assert(all.skip(0) =~= all);
    for i in 0..ls.len()
        invariant
            all == views(ls@),
            all == lines(output@),
            netstat_interface(all) == netstat_interface(all.skip(i as int)),
    {
        assert(all.skip(i as int).drop_first() =~= all.skip(i + 1));
        assert(all.skip(i as int)[0] == ls@[i as int]@);
        let tokens = words_chars(&ls[i], CharClass::Whitespace);
        if tokens.len() > 0 && text_is(&tokens[0], "default") {
            let last = &tokens[tokens.len() - 1];
            assert(views(tokens@).last() == last@);
            if has_letter_exec(last) {
                assert(split_ws(all.skip(i as int)[0]) == views(tokens@));
                assert(views(tokens@)[0] == "default"@);
                assert(netstat_line_interface(all.skip(i as int)[0]) == Some(last@));
                assert(netstat_interface(all.skip(i as int)) == Some(last@));
                return Some(string_of(last));
            }
        }
    }
    assert(all.skip(ls.len() as int) =~= Seq::<Seq<char>>::empty());
    None
}

/// The interface of an `interface:` line of `route -n get default`.
pub open spec fn route_line_interface(line: Seq<char>) -> Option<Seq<char>> {
    let t = trim_ws(line);
    if starts_with(t, "interface:"@) {
        Some(trim_ws(t.skip(10)))
    } else {
        None
    }
}

pub open spec fn route_interface(ls: Seq<Seq<char>>) -> Option<Seq<char>>
    decreases ls.len(),
{
    if ls.len() == 0 {
        None
    } else {
        match route_line_interface(ls[0]) {
            Some(i) => Some(i),
            None => route_interface(ls.drop_first()),
        }
    }
}

/// The default route's interface in the output of `route -n get default`.
pub fn interface_from_route_get(output: &str) -> (r: Option<String>)
    ensures
        opt_view(r) == route_interface(lines(output@)),
{
    let ls = lines_chars(&chars_of(output));
    let ghost all = views(ls@);
    assert(all.skip(0) =~= all);
    let marker = chars_of("interface:");
    for i in 0..ls.len()
        invariant
            all == views(ls@),
            all == lines(output@),
            marker@ == "interface:"@,
            route_interface(all) == route_interface(all.skip(i as int)),
    {
        assert(all.skip(i as int).drop_first() =~= all.skip(i + 1));
        assert(all.skip(i as int)[0] == ls@[i as int]@);
        let trimmed = trim_chars(&ls[i], CharClass::Whitespace);
        if starts_with_chars(&trimmed, &marker) {
            proof {
                reveal_strlit("interface:");
            }
            let rest = copy_range(&trimmed, 10, trimmed.len());
            assert(rest@ =~= trimmed@.skip(10));
            assert(route_line_interface(all.skip(i as int)[0]) == Some(trim_ws(rest@)));
            assert(route_interface(all.skip(i as int)) == Some(trim_ws(rest@)));
            return Some(string_of(&trim_chars(&rest, CharClass::Whitespace)));
        }
    }
    assert(all.skip(ls.len() as int) =~= Seq::<Seq<char>>::empty());
    None
}

/// The token after the first `dev` token (none when `dev` comes last).
pub open spec fn dev_interface(tokens: Seq<Seq<char>>) -> Option<Seq<char>>
    decreases tokens.len(),
{
    if tokens.len() == 0 {
        None
    } else if tokens[0] == "dev"@ {
        if tokens.len() > 1 {
            Some(tokens[1])
        } else {
            None
        }
    } else {
        dev_interface(tokens.drop_first())
    }
}

/// The default route's interface in the output of `ip route show default`.
pub fn interface_from_ip_route(output: &str) -> (r: Option<String>)
    ensures
        opt_view(r) == dev_interface(split_ws(output@)),
{
    let tokens = words_chars(&chars_of(output), CharClass::Whitespace);
    let ghost all = views(tokens@);
    assert(all.skip(0) =~= all);
    for i in 0..tokens.len()
        invariant
            all == views(tokens@),
            all == split_ws(output@),
            dev_interface(all) == dev_interface(all.skip(i as int)),
    {
        assert(all.skip(i as int).drop_first() =~= all.skip(i + 1));
        assert(all.skip(i as int)[0] == tokens@[i as int]@);
        if text_is(&tokens[i], "dev") {
            assert(all.skip(i as int)[0] == "dev"@);
            if i + 1 < tokens.len() {
                assert(all.skip(i as int)[1] == tokens@[i + 1]@);
                assert(dev_interface(all.skip(i as int)) == Some(tokens@[i + 1]@));
                return Some(string_of(&tokens[i + 1]));
            } else {
                assert(dev_interface(all.skip(i as int)) is None);
                return None;
            }
        }
    }
    assert(all.skip(tokens.len() as int) =~= Seq::<Seq<char>>::empty());
    None
}

fn args_of(a: &str, b: &str, c: &str) -> (v: Vec<String>)
    ensures
        arg_views(v@) == seq![a@, b@, c@],
{
    let mut v: Vec<String> = Vec::new();
    v.push(text_of(a));
    v.push(text_of(b));
    v.push(text_of(c));
    assert(arg_views(v@) =~= seq![a@, b@, c@]);
    v
}

/// `netstat -rn -f inet`: the IPv4 routing table (macOS).
pub fn netstat_command() -> (c: CommandSpec)
    ensures
        command_view(c) == ("netstat"@, seq!["-rn"@, "-f"@, "inet"@], OutputMode::SuccessfulStdout),
{
    command("netstat", args_of("-rn", "-f", "inet"), OutputMode::SuccessfulStdout)
}

/// `route -n get default`: the default route (macOS).
pub fn route_get_command() -> (c: CommandSpec)
    ensures
        command_view(c) == ("route"@, seq!["-n"@, "get"@, "default"@], OutputMode::SuccessfulStdout),
{
    command("route", args_of("-n", "get", "default"), OutputMode::SuccessfulStdout)
}

/// `ip route show default`: the default route (Linux).
pub fn ip_route_command() -> (c: CommandSpec)
    ensures
        command_view(c) == ("ip"@, seq!["route"@, "show"@, "default"@], OutputMode::SuccessfulStdout),
{
    command("ip", args_of("route", "show", "default"), OutputMode::SuccessfulStdout)
}

/// The command that shows an interface's IPv4 configuration: `ifconfig
/// <interface>` on macOS, `ip -o -4 addr show dev <interface>` on Linux.
pub open spec fn interface_address_command_spec(platform: Platform, interface: Seq<char>) -> Option<(Seq<char>, Seq<Seq<char>>, OutputMode)> {
    match platform {
        Platform::MacOs => Some(("ifconfig"@, seq![interface], OutputMode::SuccessfulStdout)),
        Platform::Linux => Some(
            (
                "ip"@,
                seq!["-o"@, "-4"@, "addr"@, "show"@, "dev"@, interface],
                OutputMode::SuccessfulStdout,
            ),
        ),
        _ => None,
    }
}

/// The command that shows `interface`'s IPv4 configuration, if the platform has one.
pub fn interface_address_command(platform: Platform, interface: &str) -> (r: Option<CommandSpec>)
    ensures
        match r {
            Some(c) => interface_address_command_spec(platform, interface@) == Some(command_view(c)),
            None => interface_address_command_spec(platform, interface@) is None,
        },
{
    match platform {
        Platform::MacOs => {
            let mut args: Vec<String> = Vec::new();
            args.push(text_of(interface));
            assert(arg_views(args@) =~= seq![interface@]);
            Some(command("ifconfig", args, OutputMode::SuccessfulStdout))
        },
        Platform::Linux => {
            let mut args: Vec<String> = Vec::new();
            args.push(text_of("-o"));
            args.push(text_of("-4"));
            args.push(text_of("addr"));
            args.push(text_of("show"));
            args.push(text_of("dev"));
            args.push(text_of(interface));
            assert(arg_views(args@) =~= seq!["-o"@, "-4"@, "addr"@, "show"@, "dev"@, interface@]);
            Some(command("ip", args, OutputMode::SuccessfulStdout))
        },
        _ => None,
    }
}

/// `ipconfig`, whose whole output is read (Windows).
pub fn ipconfig_command() -> (c: CommandSpec)
    ensures
        command_view(c) == ("ipconfig"@, Seq::<Seq<char>>::empty(), OutputMode::Combined),
{
    let c = command("ipconfig", Vec::new(), OutputMode::Combined);
    assert(arg_views(c.args@) =~= Seq::<Seq<char>>::empty());
    c
}

/// The default route's interface: on macOS from `netstat -rn -f inet`, else
/// from `route -n get default`; on Linux from `ip route show default`.
pub open spec fn route_interface_of(
    platform: Platform,
    netstat: Option<Seq<char>>,
    route: Option<Seq<char>>,
    ip_route: Option<Seq<char>>,
) -> Option<Seq<char>> {
    match platform {
        Platform::MacOs => {
            let first = match netstat {
                Some(t) => netstat_interface(lines(t)),
                None => None,
            };
            if first is Some {
                first
            } else {
                match route {
                    Some(t) => route_interface(lines(t)),
                    None => None,
                }
            }
        },
        Platform::Linux => match ip_route {
            Some(t) => dev_interface(split_ws(t)),
            None => None,
        },
        _ => None,
    }
}

/// The interface of the default route, from the outputs of the commands
/// that show it (none where a command did not run).
pub fn default_route_interface(
    platform: Platform,
    netstat_output: Option<String>,
    route_output: Option<String>,
    ip_route_output: Option<String>,
) -> (r: Option<String>)
    ensures
        opt_view(r) == route_interface_of(
            platform,
            opt_view(netstat_output),
            opt_view(route_output),
            opt_view(ip_route_output),
        ),
{
    match platform {
        Platform::MacOs => {
            let first = match &netstat_output {
                Some(t) => interface_from_netstat(t.as_str()),
                None => None,
            };
            if first.is_some() {
                first
            } else {
                match &route_output {
                    Some(t) => interface_from_route_get(t.as_str()),
                    None => None,
                }
            }
        },
        Platform::Linux => match &ip_route_output {
            Some(t) => interface_from_ip_route(t.as_str()),
            None => None,
        },
        _ => None,
    }
}

// ---------------------------------------------------------------------------
// The interface's IPv4 address and prefix
// ---------------------------------------------------------------------------

/// An address the scanner can use: neither loopback nor unspecified.
pub open spec fn usable_address(ip: u32) -> bool {
    !is_loopback(ip) && !is_unspecified(ip)
}

/// The token after the first `netmask` token that has one after it.
pub open spec fn netmask_after(tokens: Seq<Seq<char>>) -> Option<Seq<char>>
    decreases tokens.len(),
{
    if tokens.len() < 2 {
        None
    } else if tokens[0] == "netmask"@ {
        Some(tokens[1])
    } else {
        netmask_after(tokens.drop_first())
    }
}

/// What one line of `ifconfig` output decides: nothing (`None`: read on), a
/// failure (`Some(None)`), or the address and prefix (`Some(Some(..))`).
/// An `inet` line must carry an address and a hexadecimal netmask; one with a
/// loopback or unspecified address is passed over.
pub open spec fn ifconfig_line(line: Seq<char>) -> Option<Option<(u32, nat)>> {
    let t = trim_ws(line);
    if !starts_with(t, "inet "@) {
        None
    } else {
        let tokens = split_ws(t);
        if tokens.len() < 2 {
            Some(None)
        } else {
            match parse_ipv4(tokens[1]) {
                None => Some(None),
                Some(ip) => match netmask_after(tokens) {
                    None => Some(None),
                    Some(m) => match hex_mask_value(m) {
                        None => Some(None),
                        Some(v) => match prefix_of_mask(v) {
                            None => Some(None),
                            Some(p) => if usable_address(ip) {
                                Some(Some((ip, p)))
                            } else {
                                None
                            },
                        },
                    },
                },
            }
        }
    }
}

/// The first decision among the lines, none if no line decides.
pub open spec fn ifconfig_answer(ls: Seq<Seq<char>>) -> Option<(u32, nat)>
    decreases ls.len(),
{
    if ls.len() == 0 {
        None
    } else {
        match ifconfig_line(ls[0]) {
            Some(r) => r,
            None => ifconfig_answer(ls.drop_first()),
        }
    }
}

fn netmask_token(tokens: &Vec<Vec<char>>) -> (r: Option<usize>)
    ensures
        match r {
            Some(k) => k < tokens@.len() && netmask_after(views(tokens@)) == Some(tokens@[k as int]@),
            None => netmask_after(views(tokens@)) is None,
        },
{
    let ghost all = views(tokens@);
    assert(all.skip(0) =~= all);
    let mut i: usize = 0;
    while i < tokens.len()
        invariant
            all == views(tokens@),
            i <= tokens.len(),
            netmask_after(all) == netmask_after(all.skip(i as int)),
        decreases tokens.len() - i,
    {
        assert(all.skip(i as int).drop_first() =~= all.skip(i + 1));
        assert(all.skip(i as int)[0] == tokens@[i as int]@);
        if i + 1 < tokens.len() && text_is(&tokens[i], "netmask") {
            assert(all.skip(i as int)[1] == tokens@[i + 1]@);
            return Some(i + 1);
        }
        i += 1;
    }
    assert(all.skip(i as int) =~= Seq::<Seq<char>>::empty());
    None
}

fn ifconfig_line_exec(line: &Vec<char>) -> (r: Option<Option<(u32, u8)>>)
    ensures
        match r {
            None => ifconfig_line(line@) is None,
            Some(None) => ifconfig_line(line@) == Some(None::<(u32, nat)>),
            Some(Some((ip, p))) => ifconfig_line(line@) == Some(Some((ip, p as nat))) && p <= 32,
        },
{
    let t = trim_chars(line, CharClass::Whitespace);
    let marker = chars_of("inet ");
    if !starts_with_chars(&t, &marker) {
        return None;
    }
    let tokens = words_chars(&t, CharClass::Whitespace);
    if tokens.len() < 2 {
        return Some(None);
    }
    assert(views(tokens@)[1] == tokens@[1]@);
    let ip = match parse_ipv4_chars(&tokens[1]) {
        Some(ip) => ip,
        None => return Some(None),
    };
    let k = match netmask_token(&tokens) {
        Some(k) => k,
        None => return Some(None),
    };
    let mask = string_of(&tokens[k]);
    let prefix = match hex_netmask_to_prefix(mask.as_str()) {
        Some(p) => p,
        None => return Some(None),
    };
    if loopback(ip) || unspecified(ip) {
        None
    } else {
        Some(Some((ip, prefix)))
    }
}

/// The IPv4 address and prefix in the output of `ifconfig <interface>` (macOS).
pub fn parse_macos_ifconfig_ipv4(output: &str) -> (r: Option<(u32, u8)>)
    ensures
        match r {
            Some((ip, p)) => ifconfig_answer(lines(output@)) == Some((ip, p as nat)) && p <= 32,
            None => ifconfig_answer(lines(output@)) is None,
        },
{
    let ls = lines_chars(&chars_of(output));
    let ghost all = views(ls@);
    assert(all.skip(0) =~= all);
    for i in 0..ls.len()
        invariant
            all == views(ls@),
            all == lines(output@),
            ifconfig_answer(all) == ifconfig_answer(all.skip(i as int)),
    {
        assert(all.skip(i as int).drop_first() =~= all.skip(i + 1));
        assert(all.skip(i as int)[0] == ls@[i as int]@);
        match ifconfig_line_exec(&ls[i]) {
            Some(r) => return r,
            None => {},
        }
    }
    assert(all.skip(ls.len() as int) =~= Seq::<Seq<char>>::empty());
    None
}

/// What one token of `ip -o -4 addr show` output decides: tokens without a
/// `/` are passed over; an `address/prefix` token whose address or prefix
/// does not parse is a failure; a usable address with a prefix of at most 32
/// is the answer.
pub open spec fn ip_addr_token(token: Seq<char>) -> Option<Option<(u32, nat)>> {
    match split_once(token, '/') {
        None => None,
        Some((a, b)) => match parse_ipv4(a) {
            None => Some(None),
            Some(ip) => match parse_u8(b) {
                None => Some(None),
                Some(p) => if p <= 32 && usable_address(ip) {
                    Some(Some((ip, p)))
                } else {
                    None
                },
            },
        },
    }
}

/// The first decision among the tokens, if any.
pub open spec fn ip_addr_tokens(tokens: Seq<Seq<char>>) -> Option<Option<(u32, nat)>>
    decreases tokens.len(),
{
    if tokens.len() == 0 {
        None
    } else {
        match ip_addr_token(tokens[0]) {
            Some(r) => Some(r),
            None => ip_addr_tokens(tokens.drop_first()),
        }
    }
}

/// The first decision among the lines' tokens, none if no token decides.
pub open spec fn ip_addr_answer(ls: Seq<Seq<char>>) -> Option<(u32, nat)>
    decreases ls.len(),
{
    if ls.len() == 0 {
        None
    } else {
        match ip_addr_tokens(split_ws(ls[0])) {
            Some(r) => r,
            None => ip_addr_answer(ls.drop_first()),
        }
    }
}

fn ip_addr_token_exec(token: &Vec<char>) -> (r: Option<Option<(u32, u8)>>)
    ensures
        match r {
            None => ip_addr_token(token@) is None,
            Some(None) => ip_addr_token(token@) == Some(None::<(u32, nat)>),
            Some(Some((ip, p))) => ip_addr_token(token@) == Some(Some((ip, p as nat))) && p <= 32,
        },
{
    match split_once_chars(token, '/') {
        None => None,
        Some((a, b)) => {
            let ip = match parse_ipv4_chars(&a) {
                Some(ip) => ip,
                None => return Some(None),
            };
            let p = match parse_u8_chars(&b) {
                Some(p) => p,
                None => return Some(None),
            };
            if p <= 32 && !loopback(ip) && !unspecified(ip) {
                Some(Some((ip, p)))
            } else {
                None
            }
        },
    }
}

fn ip_addr_line_exec(line: &Vec<char>) -> (r: Option<Option<(u32, u8)>>)
    ensures
        match r {
            None => ip_addr_tokens(split_ws(line@)) is None,
            Some(None) => ip_addr_tokens(split_ws(line@)) == Some(None::<(u32, nat)>),
            Some(Some((ip, p))) => ip_addr_tokens(split_ws(line@)) == Some(Some((ip, p as nat))) && p <= 32,
        },
{
    let tokens = words_chars(line, CharClass::Whitespace);
    let ghost all = views(tokens@);
    assert(all.skip(0) =~= all);
    for i in 0..tokens.len()
        invariant
            all == views(tokens@),
            all == split_ws(line@),
            ip_addr_tokens(all) == ip_addr_tokens(all.skip(i as int)),
    {
        assert(all.skip(i as int).drop_first() =~= all.skip(i + 1));
        assert(all.skip(i as int)[0] == tokens@[i as int]@);
        match ip_addr_token_exec(&tokens[i]) {
            Some(r) => return Some(r),
            None => {},
        }
    }
    assert(all.skip(tokens.len() as int) =~= Seq::<Seq<char>>::empty());
    None
}

/// The IPv4 address and prefix in the output of `ip -o -4 addr show dev <interface>` (Linux).
pub fn parse_linux_ip_addr_ipv4(output: &str) -> (r: Option<(u32, u8)>)
    ensures
        match r {
            Some((ip, p)) => ip_addr_answer(lines(output@)) == Some((ip, p as nat)) && p <= 32,
            None => ip_addr_answer(lines(output@)) is None,
        },
{
    let ls = lines_chars(&chars_of(output));
    let ghost all = views(ls@);
    assert(all.skip(0) =~= all);
    for i in 0..ls.len()
        invariant
            all == views(ls@),
            all == lines(output@),
            ip_addr_answer(all) == ip_addr_answer(all.skip(i as int)),
    {
        assert(all.skip(i as int).drop_first() =~= all.skip(i + 1));
        assert(all.skip(i as int)[0] == ls@[i as int]@);
        match ip_addr_line_exec(&ls[i]) {
            Some(r) => return r,
            None => {},
        }
    }
    assert(all.skip(ls.len() as int) =~= Seq::<Seq<char>>::empty());
    None
}

/// The address after the `:` of an `IPv4 Address` line of `ipconfig`, with
/// the `(Preferred)` marker removed; `None` when the line has no `:`.
pub open spec fn ipconfig_address(line: Seq<char>) -> Option<Option<u32>> {
    match split_once(line, ':') {
        Some((_, v)) => Some(parse_ipv4(trim_ws(strip_suffixes(trim_ws(v), "(Preferred)"@)))),
        None => None,
    }
}

/// The prefix in `ipconfig` output of the adapter whose IPv4 address is
/// `expected`: `saw` records whether the last IPv4 line named it; the first
/// subnet-mask line after such a line decides.
pub open spec fn ipconfig_answer(ls: Seq<Seq<char>>, expected: u32, saw: bool) -> Option<(u32, nat)>
    decreases ls.len(),
{
    if ls.len() == 0 {
        None
    } else {
        let line = ls[0];
        let lw = lower(line);
        if contains(lw, "ipv4"@) {
            let next = match ipconfig_address(line) {
                Some(a) => a == Some(expected),
                None => saw,
            };
            ipconfig_answer(ls.drop_first(), expected, next)
        } else if saw && contains(lw, "subnet mask"@) {
            match split_once(line, ':') {
                None => None,
                Some((_, v)) => match parse_ipv4(trim_ws(v)) {
                    None => None,
                    Some(m) => match prefix_of_mask(m as nat) {
                        None => None,
                        Some(p) => Some((expected, p)),
                    },
                },
            }
        } else {
            ipconfig_answer(ls.drop_first(), expected, saw)
        }
    }
}

/// The address and prefix in `ipconfig` output of the adapter with the
/// scanner's outbound address `expected_ip` (Windows).
pub fn parse_windows_ipconfig_ipv4(output: &str, expected_ip: u32) -> (r: Option<(u32, u8)>)
    ensures
        match r {
            Some((ip, p)) => ipconfig_answer(lines(output@), expected_ip, false) == Some((ip, p as nat)) && p <= 32,
            None => ipconfig_answer(lines(output@), expected_ip, false) is None,
        },
{
    let ls = lines_chars(&chars_of(output));
    let ghost all = views(ls@);
    assert(all.skip(0) =~= all);
    let preferred = chars_of("(Preferred)");
    let mut saw = false;
    for i in 0..ls.len()
        invariant
            all == views(ls@),
            all == lines(output@),
            preferred@ == "(Preferred)"@,
            ipconfig_answer(all, expected_ip, false) == ipconfig_answer(all.skip(i as int), expected_ip, saw),
    {
        assert(all.skip(i as int).drop_first() =~= all.skip(i + 1));
        assert(all.skip(i as int)[0] == ls@[i as int]@);
        let line = &ls[i];
        let lw = to_lower(line);
        if has_text(&lw, "ipv4") {
            match split_once_chars(line, ':') {
                Some((_, value)) => {
                    let candidate = trim_chars(
                        &strip_suffixes_chars(&trim_chars(&value, CharClass::Whitespace), &preferred),
                        CharClass::Whitespace,
                    );
                    saw = match parse_ipv4_chars(&candidate) {
                        Some(ip) => ip == expected_ip,
                        None => false,
                    };
                },
                None => {},
            }
        } else if saw && has_text(&lw, "subnet mask") {
            let value = match split_once_chars(line, ':') {
                Some((_, value)) => value,
                None => return None,
            };
            let mask = match parse_ipv4_chars(&trim_chars(&value, CharClass::Whitespace)) {
                Some(m) => m,
                None => return None,
            };
            return match dotted_netmask_to_prefix(mask) {
                Some(p) => Some((expected_ip, p)),
                None => None,
            };
        }
    }
    assert(all.skip(ls.len() as int) =~= Seq::<Seq<char>>::empty());
    None
}

// ---------------------------------------------------------------------------
// How the target was chosen
// ---------------------------------------------------------------------------

/// Where the target came from.
#[derive(Clone, Copy, PartialEq, Eq, Structural, Debug)]
pub enum DetectionSource {
    DefaultRouteInterface,
    IpconfigMatchingLocalIp,
    LocalIp24Fallback,
    ExplicitTarget,
}

impl DetectionSource {
    pub open spec fn text(self) -> Seq<char> {
        match self {
            DetectionSource::DefaultRouteInterface => "default_route_interface"@,
            DetectionSource::IpconfigMatchingLocalIp => "ipconfig_matching_local_ip"@,
            DetectionSource::LocalIp24Fallback => "local_ip_24_fallback"@,
            DetectionSource::ExplicitTarget => "explicit_target"@,
        }
    }

    /// The label used in reports.
    pub fn as_str(&self) -> (s: &'static str)
        ensures
            s@ == self.text(),
    {
        match self {
            DetectionSource::DefaultRouteInterface => "default_route_interface",
            DetectionSource::IpconfigMatchingLocalIp => "ipconfig_matching_local_ip",
            DetectionSource::LocalIp24Fallback => "local_ip_24_fallback",
            DetectionSource::ExplicitTarget => "explicit_target",
        }
    }
}

/// How much the chosen target can be trusted to be the local network.
#[derive(Clone, Copy, PartialEq, Eq, Structural, Debug)]
pub enum DetectionConfidence {
    High,
    Medium,
    Low,
    UserSupplied,
}

impl DetectionConfidence {
    pub open spec fn text(self) -> Seq<char> {
        match self {
            DetectionConfidence::High => "high"@,
            DetectionConfidence::Medium => "medium"@,
            DetectionConfidence::Low => "low"@,
            DetectionConfidence::UserSupplied => "user_supplied"@,
        }
    }

    /// The label used in reports.
    pub fn as_str(&self) -> (s: &'static str)
        ensures
            s@ == self.text(),
    {
        match self {
            DetectionConfidence::High => "high",
            DetectionConfidence::Medium => "medium",
            DetectionConfidence::Low => "low",
            DetectionConfidence::UserSupplied => "user_supplied",
        }
    }
}

/// How the scan target was chosen.
pub struct TargetDetectionReport {
    pub source: DetectionSource,
    pub interface: Option<String>,
    pub local_ip: Option<String>,
    pub prefix: Option<u8>,
    pub confidence: DetectionConfidence,
    pub note: &'static str,
}

/// A detected local network: an address on it, its prefix, and how it was found.
pub struct Detection {
    pub ip: u32,
    pub prefix: u8,
    pub report: TargetDetectionReport,
}

/// The local network as detected: the source, an address and the prefix.
/// On macOS and Linux the default route's interface and its configured
/// address; on Windows the `ipconfig` adapter with the outbound address
/// (no outbound address: nothing); otherwise, and when those fail, the
/// outbound address with `/24`.
pub open spec fn detected_scope(
    platform: Platform,
    interface: Option<Seq<char>>,
    interface_output: Option<Seq<char>>,
    ipconfig_output: Option<Seq<char>>,
    local_ip: Option<u32>,
) -> Option<(DetectionSource, u32, nat)> {
    let fallback = match local_ip {
        Some(l) => Some((DetectionSource::LocalIp24Fallback, l, 24nat)),
        None => None,
    };
    match platform {
        Platform::MacOs => match (interface, interface_output) {
            (Some(_), Some(t)) => match ifconfig_answer(lines(t)) {
                Some((ip, p)) => Some((DetectionSource::DefaultRouteInterface, ip, p)),
                None => fallback,
            },
            _ => fallback,
        },
        Platform::Linux => match (interface, interface_output) {
            (Some(_), Some(t)) => match ip_addr_answer(lines(t)) {
                Some((ip, p)) => Some((DetectionSource::DefaultRouteInterface, ip, p)),
                None => fallback,
            },
            _ => fallback,
        },
        Platform::Windows => match (ipconfig_output, local_ip) {
            (Some(_), None) => None,
            (Some(t), Some(l)) => match ipconfig_answer(lines(t), l, false) {
                Some((ip, p)) => Some((DetectionSource::IpconfigMatchingLocalIp, l, p)),
                None => fallback,
            },
            _ => fallback,
        },
        _ => fallback,
    }
}

pub open spec fn detection_confidence(source: DetectionSource) -> DetectionConfidence {
    match source {
        DetectionSource::DefaultRouteInterface => DetectionConfidence::High,
        DetectionSource::IpconfigMatchingLocalIp => DetectionConfidence::Medium,
        DetectionSource::LocalIp24Fallback => DetectionConfidence::Low,
        DetectionSource::ExplicitTarget => DetectionConfidence::UserSupplied,
    }
}

/// The note of a detection from `source` on `platform`.
pub open spec fn detection_note(source: DetectionSource, platform: Platform) -> Seq<char> {
    match source {
        DetectionSource::DefaultRouteInterface => if platform == Platform::MacOs {
            "Default target derived from the OS default route interface and its configured IPv4 netmask."@
        } else {
            "Default target derived from the OS default route interface and its configured IPv4 prefix."@
        },
        DetectionSource::IpconfigMatchingLocalIp => "Default target derived from the ipconfig adapter containing the local outbound IPv4 address."@,
        DetectionSource::LocalIp24Fallback => "Could not read an OS interface netmask; fell back to the local IPv4 address with /24. Use --target to override."@,
        DetectionSource::ExplicitTarget => "Target was supplied explicitly with --target."@,
    }
}

fn detection_of(
    source: DetectionSource,
    platform: Platform,
    ip: u32,
    prefix: u8,
    interface: Option<String>,
) -> (d: Detection)
    requires
        source != DetectionSource::ExplicitTarget,
    ensures
        d.ip == ip,
        d.prefix == prefix,
        d.report.source == source,
        d.report.interface == interface,
        opt_view(d.report.local_ip) == Some(ipv4_text(ip)),
        d.report.prefix == Some(prefix),
        d.report.confidence == detection_confidence(source),
        d.report.note@ == detection_note(source, platform),
{
    let (confidence, note) = match source {
        DetectionSource::DefaultRouteInterface => if platform == Platform::MacOs {
            (DetectionConfidence::High, "Default target derived from the OS default route interface and its configured IPv4 netmask.")
        } else {
            (DetectionConfidence::High, "Default target derived from the OS default route interface and its configured IPv4 prefix.")
        },
        DetectionSource::IpconfigMatchingLocalIp => (
            DetectionConfidence::Medium,
            "Default target derived from the ipconfig adapter containing the local outbound IPv4 address.",
        ),
        _ => (
            DetectionConfidence::Low,
            "Could not read an OS interface netmask; fell back to the local IPv4 address with /24. Use --target to override.",
        ),
    };
    Detection {
        ip,
        prefix,
        report: TargetDetectionReport {
            source,
            interface,
            local_ip: Some(ipv4_string(ip)),
            prefix: Some(prefix),
            confidence,
            note,
        },
    }
}

/// The local network to scan by default, from what the platform's commands
/// printed: `interface` is the default route's interface, `interface_output`
/// what `ifconfig` (macOS) or `ip -o -4 addr show dev` (Linux) printed for
/// it, `ipconfig_output` what `ipconfig` printed (Windows), and `local_ip`
/// the scanner's outbound address.
pub fn detect_local_subnet(
    platform: Platform,
    interface: Option<String>,
    interface_output: Option<String>,
    ipconfig_output: Option<String>,
    local_ip: Option<u32>,
) -> (d: Option<Detection>)
    ensures
        match detected_scope(
            platform,
            opt_view(interface),
            opt_view(interface_output),
            opt_view(ipconfig_output),
            local_ip,
        ) {
            Some((source, ip, p)) => d matches Some(det) && {
                &&& det.ip == ip
                &&& det.prefix == p
                &&& det.report.source == source
                &&& det.report.interface == (if source == DetectionSource::DefaultRouteInterface {
                    interface
                } else {
                    None
                })
                &&& opt_view(det.report.local_ip) == Some(ipv4_text(ip))
                &&& det.report.prefix == Some(det.prefix)
                &&& det.report.confidence == detection_confidence(source)
                &&& det.report.note@ == detection_note(source, platform)
            },
            None => d is None,
        },
        d matches Some(det) ==> det.prefix <= 32,
{
    match platform {
        Platform::MacOs => {
            if interface.is_some() {
                if let Some(text) = &interface_output {
                    if let Some((ip, prefix)) = parse_macos_ifconfig_ipv4(text.as_str()) {
                        return Some(detection_of(DetectionSource::DefaultRouteInterface, platform, ip, prefix, interface));
                    }
                }
            }
        },
        Platform::Linux => {
            if interface.is_some() {
                if let Some(text) = &interface_output {
                    if let Some((ip, prefix)) = parse_linux_ip_addr_ipv4(text.as_str()) {
                        return Some(detection_of(DetectionSource::DefaultRouteInterface, platform, ip, prefix, interface));
                    }
                }
            }
        },
        Platform::Windows => {
            if let Some(text) = &ipconfig_output {
                let l = match local_ip {
                    Some(l) => l,
                    None => return None,
                };
                if let Some((_, prefix)) = parse_windows_ipconfig_ipv4(text.as_str(), l) {
                    return Some(detection_of(DetectionSource::IpconfigMatchingLocalIp, platform, l, prefix, None));
                }
            }
        },
        _ => {},
    }
    match local_ip {
        Some(l) => Some(detection_of(DetectionSource::LocalIp24Fallback, platform, l, 24, None)),
        None => None,
    }
}

/// The `/24` network of the scanner's address: its label and hosts.
pub fn default_local_24(local_ip: u32) -> (r: (String, Vec<u32>))
    ensures
        r.0@ == cidr_text(local_ip, 24),
        r.1@ == cidr_hosts(network_of(local_ip, 24) as u32, 24),
{
    let network = network_ip_for(local_ip, 24);
    (cidr_label(local_ip, 24), hosts_from_cidr(network, 24))
}

} // verus!
