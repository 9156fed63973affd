//! The commands the scanner runs, and what it reads from their output and
//! from what services send back.
use vstd::prelude::*;
use crate::text::{
    chars_of, contains, contains_chars, copy_range, find, find_chars, join, join_chars,
    lines, lines_chars, lower, split_once, split_once_chars, split_ws, starts_with,
    starts_with_chars, string_of, to_lower, to_upper, trim_chars, trim_end, trim_end_chars,
    trim_ws, upper, views, words_chars, append_chars, CharClass, lemma_find_from_bounds,
};
use crate::numbers::{decimal, decimal_chars, ipv4_chars, ipv4_text, parse_u8, parse_unsigned, parse_u8_chars, parse_u16_chars};

verus! {

// ---------------------------------------------------------------------------
// Platforms and commands
// ---------------------------------------------------------------------------

/// The operating system the scanner runs on.
#[derive(Clone, Copy, PartialEq, Eq, Structural, Debug)]
pub enum Platform {
    Windows,
    MacOs,
    Linux,
    Other,
}

/// Which part of a command's output is used.
#[derive(Clone, Copy, PartialEq, Eq, Structural, Debug)]
pub enum OutputMode {
    /// Standard output, and only when the command succeeded.
    SuccessfulStdout,
    /// Standard output followed by standard error, whatever the exit status.
    Combined,
}

/// A command to run: the program, its arguments, and which output is read.
pub struct CommandSpec {
    pub program: String,
    pub args: Vec<String>,
    pub mode: OutputMode,
}

/// The argument texts of a command.
pub open spec fn arg_views(args: Seq<String>) -> Seq<Seq<char>> {
    args.map_values(|a: String| a@)
}

/// What a finished command produced (its output bytes already decoded).
pub struct CommandOutput {
    pub success: bool,
    pub stdout: String,
    pub stderr: String,
}

/// The text a command yields: the chosen output, trimmed, if not empty.
pub open spec fn command_text(mode: OutputMode, success: bool, stdout: Seq<char>, stderr: Seq<char>) -> Option<Seq<char>> {
    let raw = match mode {
        OutputMode::SuccessfulStdout => stdout,
        OutputMode::Combined => stdout + stderr,
    };
    if mode == OutputMode::SuccessfulStdout && !success {
        None
    } else if trim_ws(raw).len() == 0 {
        None
    } else {
        Some(trim_ws(raw))
    }
}

/// The text a run yields: none when the command could not be started.
pub open spec fn run_text(mode: OutputMode, output: Option<CommandOutput>) -> Option<Seq<char>> {
    match output {
        Some(o) => command_text(mode, o.success, o.stdout@, o.stderr@),
        None => None,
    }
}

/// The trimmed text, if it is not empty.
pub fn nonempty_trimmed(text: &Vec<char>) -> (r: Option<String>)
    ensures
        match r {
            Some(s) => trim_ws(text@).len() > 0 && s@ == trim_ws(text@),
            None => trim_ws(text@).len() == 0,
        },
{
    let t = trim_chars(text, CharClass::Whitespace);
    if t.len() == 0 {
        None
    } else {
        Some(string_of(&t))
    }
}

/// The text that a command's output yields in the given mode.
pub fn command_result(mode: OutputMode, output: Option<CommandOutput>) -> (r: Option<String>)
    ensures
        match r {
            Some(s) => run_text(mode, output) == Some(s@),
            None => run_text(mode, output) is None,
        },
{
    match output {
        None => None,
        Some(o) => {
            match mode {
                OutputMode::SuccessfulStdout => {
                    if !o.success {
                        return None;
                    }
                    nonempty_trimmed(&chars_of(o.stdout.as_str()))
                },
                OutputMode::Combined => {
                    let mut all = chars_of(o.stdout.as_str());
                    let err = chars_of(o.stderr.as_str());
                    append_chars(&mut all, &err);
                    nonempty_trimmed(&all)
                },
            }
        },
    }
}

/// The trimmed banner a service sent, if it is not empty.
pub fn banner_text(raw: &str) -> (r: Option<String>)
    ensures
        match r {
            Some(s) => trim_ws(raw@).len() > 0 && s@ == trim_ws(raw@),
            None => trim_ws(raw@).len() == 0,
        },
{
    nonempty_trimmed(&chars_of(raw))
}

pub(crate) fn text_of(s: &str) -> (r: String)
    ensures
        r@ == s@,
{
    String::from_str(s)
}

pub(crate) fn command(program: &str, args: Vec<String>, mode: OutputMode) -> (c: CommandSpec)
    ensures
        c.program@ == program@,
        c.args@ == args@,
        c.mode == mode,
{
    CommandSpec { program: text_of(program), args, mode }
}

/// The command that reads the local time, and how its output is read.
pub open spec fn local_timestamp_command_spec(platform: Platform) -> Option<(Seq<char>, Seq<Seq<char>>, OutputMode)> {
    match platform {
        Platform::Windows => Some(
            (
                "powershell"@,
                seq!["-NoProfile"@, "-Command"@, "Get-Date -Format o"@],
                OutputMode::Combined,
            ),
        ),
        Platform::MacOs | Platform::Linux => Some(
            ("date"@, seq!["+%Y-%m-%dT%H:%M:%S%z"@], OutputMode::SuccessfulStdout),
        ),
        Platform::Other => None,
    }
}

/// The view of a command spec.
pub open spec fn command_view(c: CommandSpec) -> (Seq<char>, Seq<Seq<char>>, OutputMode) {
    (c.program@, arg_views(c.args@), c.mode)
}

/// The command that reads the local time on `platform`.
pub fn local_timestamp_command(platform: Platform) -> (r: Option<CommandSpec>)
    ensures
        match r {
            Some(c) => local_timestamp_command_spec(platform) == Some(command_view(c)),
            None => local_timestamp_command_spec(platform) is None,
        },
{
    match platform {
        Platform::Windows => {
            let mut args: Vec<String> = Vec::new();
            args.push(text_of("-NoProfile"));
            args.push(text_of("-Command"));
            args.push(text_of("Get-Date -Format o"));
            let c = command("powershell", args, OutputMode::Combined);
            assert(arg_views(c.args@) =~= seq!["-NoProfile"@, "-Command"@, "Get-Date -Format o"@]);
            Some(c)
        },
        Platform::MacOs | Platform::Linux => {
            let mut args: Vec<String> = Vec::new();
            args.push(text_of("+%Y-%m-%dT%H:%M:%S%z"));
            let c = command("date", args, OutputMode::SuccessfulStdout);
            assert(arg_views(c.args@) =~= seq!["+%Y-%m-%dT%H:%M:%S%z"@]);
            Some(c)
        },
        Platform::Other => None,
    }
}

/// The local time as the platform's clock command prints it, from that
/// command's output (none on a platform without one).
pub fn local_timestamp(platform: Platform, output: Option<CommandOutput>) -> (r: Option<String>)
    ensures
        match local_timestamp_command_spec(platform) {
            Some((_, _, mode)) => match r {
                Some(s) => run_text(mode, output) == Some(s@),
                None => run_text(mode, output) is None,
            },
            None => r is None,
        },
{
    match platform {
        Platform::Windows => command_result(OutputMode::Combined, output),
        Platform::MacOs | Platform::Linux => command_result(OutputMode::SuccessfulStdout, output),
        Platform::Other => None,
    }
}

/// The command that prints the machine's host name.
pub fn hostname_command() -> (c: CommandSpec)
    ensures
        command_view(c) == ("hostname"@, Seq::<Seq<char>>::empty(), OutputMode::SuccessfulStdout),
{
    let c = command("hostname", Vec::new(), OutputMode::SuccessfulStdout);
    assert(arg_views(c.args@) =~= Seq::<Seq<char>>::empty());
    c
}

/// A `HOSTNAME` value that is not blank.
pub fn usable_hostname(value: Option<String>) -> (r: Option<String>)
    ensures
        match value {
            Some(v) => if trim_ws(v@).len() > 0 {
                r == Some(v)
            } else {
                r is None
            },
            None => r is None,
        },
{
    match value {
        Some(v) => {
            let t = trim_chars(&chars_of(v.as_str()), CharClass::Whitespace);
            if t.len() > 0 {
                Some(v)
            } else {
                None
            }
        },
        None => None,
    }
}

// ---------------------------------------------------------------------------
// Ping
// ---------------------------------------------------------------------------

/// The operating-system family that a TTL or other evidence suggests.
#[derive(Clone, Copy, PartialEq, Eq, Structural, Debug)]
pub enum OsGuess {
    UnixLikeOrMobileProbable,
    WindowsProbable,
    NetworkDeviceProbable,
    AppleDevicePossible,
    MobileOrPrivacyRandomizedMacPossible,
    IosOrIpadosPossible,
    AndroidPossible,
    RokuOsPossible,
    AndroidTvOrChromecastPossible,
    FireTvAndroidPossible,
    TvosPossible,
    SmartTvOrSamsungDevicePossible,
    AndroidTvOrSonyTvPossible,
    LgWebosTvPossible,
    WindowsPossible,
    MacosPossible,
    AppleAirplayDevicePossible,
    ChromecastAndroidTvOrEmbeddedWebServicePossible,
    MacosOrAppleFileSharingPossible,
    PrinterOrMultifunctionDevicePossible,
    Unknown,
}

impl OsGuess {
    pub open spec fn text(self) -> Seq<char> {
        match self {
            OsGuess::UnixLikeOrMobileProbable => "unix_like_or_mobile_probable"@,
            OsGuess::WindowsProbable => "windows_probable"@,
            OsGuess::NetworkDeviceProbable => "network_device_probable"@,
            OsGuess::AppleDevicePossible => "apple_device_possible"@,
            OsGuess::MobileOrPrivacyRandomizedMacPossible => "mobile_or_privacy_randomized_mac_possible"@,
            OsGuess::IosOrIpadosPossible => "ios_or_ipados_possible"@,
            OsGuess::AndroidPossible => "android_possible"@,
            OsGuess::RokuOsPossible => "roku_os_possible"@,
            OsGuess::AndroidTvOrChromecastPossible => "android_tv_or_chromecast_possible"@,
            OsGuess::FireTvAndroidPossible => "fire_tv_android_possible"@,
            OsGuess::TvosPossible => "tvos_possible"@,
            OsGuess::SmartTvOrSamsungDevicePossible => "smart_tv_or_samsung_device_possible"@,
            OsGuess::AndroidTvOrSonyTvPossible => "android_tv_or_sony_tv_possible"@,
            OsGuess::LgWebosTvPossible => "lg_webos_tv_possible"@,
            OsGuess::WindowsPossible => "windows_possible"@,
            OsGuess::MacosPossible => "macos_possible"@,
            OsGuess::AppleAirplayDevicePossible => "apple_airplay_device_possible"@,
            OsGuess::ChromecastAndroidTvOrEmbeddedWebServicePossible => "chromecast_android_tv_or_embedded_web_service_possible"@,
            OsGuess::MacosOrAppleFileSharingPossible => "macos_or_apple_file_sharing_possible"@,
            OsGuess::PrinterOrMultifunctionDevicePossible => "printer_or_multifunction_device_possible"@,
            OsGuess::Unknown => "unknown"@,
        }
    }

    /// The guess's label.
    pub fn as_str(&self) -> (s: &'static str)
        ensures
            s@ == self.text(),
    {
        match self {
            OsGuess::UnixLikeOrMobileProbable => "unix_like_or_mobile_probable",
            OsGuess::WindowsProbable => "windows_probable",
            OsGuess::NetworkDeviceProbable => "network_device_probable",
            OsGuess::AppleDevicePossible => "apple_device_possible",
            OsGuess::MobileOrPrivacyRandomizedMacPossible => "mobile_or_privacy_randomized_mac_possible",
            OsGuess::IosOrIpadosPossible => "ios_or_ipados_possible",
            OsGuess::AndroidPossible => "android_possible",
            OsGuess::RokuOsPossible => "roku_os_possible",
            OsGuess::AndroidTvOrChromecastPossible => "android_tv_or_chromecast_possible",
            OsGuess::FireTvAndroidPossible => "fire_tv_android_possible",
            OsGuess::TvosPossible => "tvos_possible",
            OsGuess::SmartTvOrSamsungDevicePossible => "smart_tv_or_samsung_device_possible",
            OsGuess::AndroidTvOrSonyTvPossible => "android_tv_or_sony_tv_possible",
            OsGuess::LgWebosTvPossible => "lg_webos_tv_possible",
            OsGuess::WindowsPossible => "windows_possible",
            OsGuess::MacosPossible => "macos_possible",
            OsGuess::AppleAirplayDevicePossible => "apple_airplay_device_possible",
            OsGuess::ChromecastAndroidTvOrEmbeddedWebServicePossible => "chromecast_android_tv_or_embedded_web_service_possible",
            OsGuess::MacosOrAppleFileSharingPossible => "macos_or_apple_file_sharing_possible",
            OsGuess::PrinterOrMultifunctionDevicePossible => "printer_or_multifunction_device_possible",
            OsGuess::Unknown => "unknown",
        }
    }
}

/// The operating-system family a ping TTL suggests.
pub open spec fn ttl_guess(ttl: Option<u8>) -> OsGuess {
    match ttl {
        Some(v) => if v <= 64 {
            OsGuess::UnixLikeOrMobileProbable
        } else if v <= 128 {
            OsGuess::WindowsProbable
        } else {
            OsGuess::NetworkDeviceProbable
        },
        None => OsGuess::Unknown,
    }
}

/// The operating-system family a ping TTL suggests.
pub fn os_guess_from_ttl(ttl: Option<u8>) -> (g: OsGuess)
    ensures
        g == ttl_guess(ttl),
{
    match ttl {
        Some(value) => if value <= 64 {
            OsGuess::UnixLikeOrMobileProbable
        } else if value <= 128 {
            OsGuess::WindowsProbable
        } else {
            OsGuess::NetworkDeviceProbable
        },
        None => OsGuess::Unknown,
    }
}

/// The longest run of ASCII digits at the start of `s`.
pub open spec fn leading_digits(s: Seq<char>) -> Seq<char>
    decreases s.len(),
{
    if s.len() > 0 && '0' <= s[0] && s[0] <= '9' {
        seq![s[0]] + leading_digits(s.drop_first())
    } else {
        Seq::empty()
    }
}

/// The TTL that ping output reports: the digits after the first `ttl=`
/// (case ignored), read as a `u8`.
pub open spec fn ttl_in(text: Seq<char>) -> Option<u8> {
    let l = lower(text);
    match find(l, "ttl="@) {
        Some(i) => match parse_u8(leading_digits(l.skip(i + 4))) {
            Some(v) => Some(v as u8),
            None => None,
        },
        None => None,
    }
}

fn leading_digits_chars(v: &Vec<char>, from: usize) -> (r: Vec<char>)
    requires
        from <= v.len(),
    ensures
        r@ == leading_digits(v@.skip(from as int)),
{
    let mut e = from;
    while e < v.len() && '0' <= v[e] && v[e] <= '9'
        invariant
            from <= e <= v.len(),
            leading_digits(v@.skip(from as int)) == v@.subrange(from as int, e as int)
                + leading_digits(v@.skip(e as int)),
        decreases v.len() - e,
    {
        assert(v@.skip(e as int).drop_first() =~= v@.skip(e + 1));
        assert(v@.subrange(from as int, e + 1) =~= v@.subrange(from as int, e as int) + seq![v@[e as int]]);
        e += 1;
    }
    copy_range(v, from, e)
}

/// The TTL in ping output.
pub fn extract_ttl(text: &str) -> (r: Option<u8>)
    ensures
        r == ttl_in(text@),
{
    let l = to_lower(&chars_of(text));
    let marker = chars_of("ttl=");
    proof {
        reveal_strlit("ttl=");
    }
    let n = l.len();
    match find_chars(&l, &marker) {
        Some(pos) => {
            proof {
                lemma_find_from_bounds(l@, marker@, 0);
                assert(crate::text::find_from(l@, marker@, 0) == Some(pos as int));
                assert(marker@.len() == 4);
                assert(pos + 4 <= n);
            }
            let digits = leading_digits_chars(&l, pos + 4);
            match parse_u8_chars(&digits) {
                Some(v) => Some(v),
                None => None,
            }
        },
        None => None,
    }
}

/// What a ping said about a host.
pub struct PingResult {
    pub reachable: bool,
    pub ttl: Option<u8>,
    pub os_guess: OsGuess,
}

/// Reachable when ping reported a TTL or a `bytes from` / `reply from` line.
pub open spec fn ping_reachable(text: Seq<char>) -> bool {
    ttl_in(text) is Some || contains(lower(text), "bytes from"@) || contains(lower(text), "reply from"@)
}

/// What a ping's output (none if ping could not run or printed nothing) says.
pub fn ping_result(output: Option<String>) -> (r: PingResult)
    ensures
        match output {
            Some(t) => r.reachable == ping_reachable(t@) && r.ttl == ttl_in(t@) && r.os_guess
                == ttl_guess(ttl_in(t@)),
            None => !r.reachable && r.ttl is None && r.os_guess == OsGuess::Unknown,
        },
{
    match output {
        Some(text) => {
            let ttl = extract_ttl(text.as_str());
            let l = to_lower(&chars_of(text.as_str()));
            let bytes_from = chars_of("bytes from");
            let reply_from = chars_of("reply from");
            let reachable = ttl.is_some() || contains_chars(&l, &bytes_from) || contains_chars(
                &l,
                &reply_from,
            );
            PingResult { reachable, ttl, os_guess: os_guess_from_ttl(ttl) }
        },
        None => PingResult { reachable: false, ttl: None, os_guess: OsGuess::Unknown },
    }
}

/// Whole seconds, rounded up, but at least one.
pub open spec fn ping_wait_secs(timeout_ms: u64) -> nat {
    let s = (timeout_ms as nat + 999) / 1000;
    if s < 1 {
        1
    } else {
        s
    }
}

/// The single-echo ping command for `ip` with the platform's timeout option.
pub open spec fn ping_command_spec(platform: Platform, ip: u32, timeout_ms: u64) -> Option<(Seq<char>, Seq<Seq<char>>, OutputMode)> {
    match platform {
        Platform::Windows => Some(
            (
                "ping"@,
                seq!["-n"@, "1"@, "-w"@, decimal(timeout_ms as nat), ipv4_text(ip)],
                OutputMode::Combined,
            ),
        ),
        Platform::MacOs => Some(
            (
                "ping"@,
                seq!["-c"@, "1"@, "-W"@, decimal(timeout_ms as nat), ipv4_text(ip)],
                OutputMode::Combined,
            ),
        ),
        Platform::Linux => Some(
            (
                "ping"@,
                seq!["-c"@, "1"@, "-W"@, decimal(ping_wait_secs(timeout_ms)), ipv4_text(ip)],
                OutputMode::Combined,
            ),
        ),
        Platform::Other => None,
    }
}

/// The ping command to run for `ip`.
pub fn ping_command(platform: Platform, ip: u32, timeout_ms: u64) -> (r: Option<CommandSpec>)
    ensures
        match r {
            Some(c) => ping_command_spec(platform, ip, timeout_ms) == Some(command_view(c)),
            None => ping_command_spec(platform, ip, timeout_ms) is None,
        },
{
    let (count_flag, wait_flag, wait) = match platform {
        Platform::Windows => ("-n", "-w", timeout_ms),
        Platform::MacOs => ("-c", "-W", timeout_ms),
        Platform::Linux => {
            let secs = timeout_ms / 1000 + if timeout_ms % 1000 == 0 {
                0
            } else {
                1
            };
            ("-c", "-W", if secs < 1 {
                1
            } else {
                secs
            })
        },
        Platform::Other => {
            return None;
        },
    };
    proof {
        if platform == Platform::Linux {
            assert((timeout_ms as nat + 999) / 1000 == timeout_ms / 1000 + if timeout_ms % 1000
                == 0 {
                0nat
            } else {
                1nat
            });
        }
    }
    let mut args: Vec<String> = Vec::new();
    args.push(text_of(count_flag));
    args.push(text_of("1"));
    args.push(text_of(wait_flag));
    args.push(string_of(&decimal_chars(wait)));
    args.push(string_of(&ipv4_chars(ip)));
    let c = command("ping", args, OutputMode::Combined);
    assert(arg_views(c.args@) =~= seq![
        count_flag@,
        "1"@,
        wait_flag@,
        decimal(wait as nat),
        ipv4_text(ip),
    ]);
    Some(c)
}

// ---------------------------------------------------------------------------
// Names
// ---------------------------------------------------------------------------

/// The text between the first and the second occurrence of `pat` (or the end):
/// what `s.split(pat).nth(1)` gives.
pub open spec fn second_piece(s: Seq<char>, pat: Seq<char>) -> Option<Seq<char>> {
    match find(s, pat) {
        Some(i) => {
            let rest = s.skip(i + pat.len());
            match find(rest, pat) {
                Some(j) => Some(rest.take(j)),
                None => Some(rest),
            }
        },
        None => None,
    }
}

fn second_piece_chars(s: &Vec<char>, pat: &Vec<char>) -> (r: Option<Vec<char>>)
    ensures
        match r {
            Some(p) => second_piece(s@, pat@) == Some(p@),
            None => second_piece(s@, pat@) is None,
        },
{
    let n = s.len();
    match find_chars(s, pat) {
        Some(i) => {
            proof {
                lemma_find_from_bounds(s@, pat@, 0);
                assert(crate::text::find_from(s@, pat@, 0) == Some(i as int));
                assert(i + pat@.len() <= n);
            }
            let rest = copy_range(s, i + pat.len(), n);
            assert(rest@ =~= s@.skip(i + pat@.len()));
            match find_chars(&rest, pat) {
                Some(j) => {
                    proof {
                        lemma_find_from_bounds(rest@, pat@, 0);
                        assert(crate::text::find_from(rest@, pat@, 0) == Some(j as int));
                    }
                    let p = copy_range(&rest, 0, j);
                    assert(p@ =~= rest@.take(j as int));
                    Some(p)
                },
                None => Some(rest),
            }
        },
        None => None,
    }
}

/// A name cleaned up: surrounding whitespace and trailing dots removed.
pub open spec fn clean_name(s: Seq<char>) -> Seq<char> {
    trim_end(trim_ws(s), CharClass::Only('.'))
}

fn clean_name_chars(s: &Vec<char>) -> (r: Vec<char>)
    ensures
        r@ == clean_name(s@),
{
    trim_end_chars(&trim_chars(s, CharClass::Whitespace), CharClass::Only('.'))
}

/// The name that a resolver's output line gives, if the line gives one:
/// `... name = <name>`, `Name: <name>`, or `... domain name pointer <name>`.
pub open spec fn dns_line(line: Seq<char>) -> Option<Option<Seq<char>>> {
    let l = lower(line);
    if contains(l, "name ="@) {
        Some(
            match second_piece(line, "name ="@) {
                Some(p) => Some(clean_name(p)),
                None => None,
            },
        )
    } else if starts_with(l, "name:"@) {
        Some(
            match second_piece(line, seq![':']) {
                Some(p) => Some(clean_name(p)),
                None => None,
            },
        )
    } else if contains(l, "domain name pointer"@) {
        Some(
            match second_piece(line, "domain name pointer"@) {
                Some(p) => Some(clean_name(p)),
                None => None,
            },
        )
    } else {
        None
    }
}

/// The answer of the first line that gives one.
pub open spec fn dns_answer(ls: Seq<Seq<char>>) -> Option<Seq<char>>
    decreases ls.len(),
{
    if ls.len() == 0 {
        None
    } else {
        match dns_line(ls[0]) {
            Some(answer) => answer,
            None => dns_answer(ls.drop_first()),
        }
    }
}

fn dns_line_chars(line: &Vec<char>) -> (r: Option<Option<Vec<char>>>)
    ensures
        match r {
            Some(Some(n)) => dns_line(line@) == Some(Some(n@)),
            Some(None) => dns_line(line@) == Some(None::<Seq<char>>),
            None => dns_line(line@) is None,
        },
{
    let l = to_lower(line);
    let name_eq = chars_of("name =");
    let name_colon = chars_of("name:");
    let pointer = chars_of("domain name pointer");
    let mut colon: Vec<char> = Vec::new();
    colon.push(':');
    assert(colon@ =~= seq![':']);
    let pat = if contains_chars(&l, &name_eq) {
        name_eq
    } else if starts_with_chars(&l, &name_colon) {
        colon
    } else if contains_chars(&l, &pointer) {
        pointer
    } else {
        return None;
    };
    match second_piece_chars(line, &pat) {
        Some(p) => Some(Some(clean_name_chars(&p))),
        None => Some(None),
    }
}

fn dns_answer_chars(text: &Vec<char>) -> (r: Option<Vec<char>>)
    ensures
        match r {
            Some(n) => dns_answer(lines(text@)) == Some(n@),
            None => dns_answer(lines(text@)) is None,
        },
{
    let all = lines_chars(text);
    let ghost ls = views(all@);
    assert(ls.skip(0) =~= ls);
    let mut i: usize = 0;
    while i < all.len()
        invariant
            i <= all.len(),
            ls == views(all@),
            ls == lines(text@),
            dns_answer(ls) == dns_answer(ls.skip(i as int)),
        decreases all.len() - i,
    {
        assert(ls.skip(i as int)[0] == all@[i as int]@);
        assert(ls.skip(i as int).drop_first() =~= ls.skip(i + 1));
        match dns_line_chars(&all[i]) {
            Some(answer) => {
                return answer;
            },
            None => {},
        }
        i += 1;
    }
    assert(ls.skip(i as int) =~= Seq::<Seq<char>>::empty());
    None
}

/// The host name a reverse lookup's output gives (none if there was no output).
pub fn reverse_dns_name(output: Option<String>) -> (r: Option<String>)
    ensures
        match output {
            Some(t) => match r {
                Some(n) => dns_answer(lines(t@)) == Some(n@),
                None => dns_answer(lines(t@)) is None,
            },
            None => r is None,
        },
{
    match output {
        Some(t) => match dns_answer_chars(&chars_of(t.as_str())) {
            Some(n) => Some(string_of(&n)),
            None => None,
        },
        None => None,
    }
}

/// The reverse-lookup commands to try for `ip`, in order.
pub open spec fn reverse_dns_commands_spec(platform: Platform, ip: u32) -> Seq<(Seq<char>, Seq<Seq<char>>, OutputMode)> {
    match platform {
        Platform::Windows => seq![("nslookup"@, seq![ipv4_text(ip)], OutputMode::Combined)],
        Platform::MacOs | Platform::Linux => seq![
            ("nslookup"@, seq![ipv4_text(ip)], OutputMode::Combined),
            ("host"@, seq![ipv4_text(ip)], OutputMode::Combined),
        ],
        Platform::Other => Seq::empty(),
    }
}

fn single_arg(arg: String) -> (v: Vec<String>)
    ensures
        arg_views(v@) == seq![arg@],
{
    let mut v: Vec<String> = Vec::new();
    v.push(arg);
    assert(arg_views(v@) =~= seq![arg@]);
    v
}

/// The reverse-lookup commands for `ip`; the first one that yields text is used.
pub fn reverse_dns_commands(platform: Platform, ip: u32) -> (r: Vec<CommandSpec>)
    ensures
        r@.map_values(|c: CommandSpec| command_view(c)) == reverse_dns_commands_spec(platform, ip),
{
    let mut r: Vec<CommandSpec> = Vec::new();
    match platform {
        Platform::Windows => {
            r.push(command("nslookup", single_arg(string_of(&ipv4_chars(ip))), OutputMode::Combined));
        },
        Platform::MacOs | Platform::Linux => {
            r.push(command("nslookup", single_arg(string_of(&ipv4_chars(ip))), OutputMode::Combined));
            r.push(command("host", single_arg(string_of(&ipv4_chars(ip))), OutputMode::Combined));
        },
        Platform::Other => {},
    }
    assert(r@.map_values(|c: CommandSpec| command_view(c)) =~= reverse_dns_commands_spec(platform, ip));
    r
}

/// The NetBIOS name lookup command for `ip`.
pub open spec fn netbios_command_spec(platform: Platform, ip: u32) -> Option<(Seq<char>, Seq<Seq<char>>, OutputMode)> {
    match platform {
        Platform::Windows => Some(("nbtstat"@, seq!["-A"@, ipv4_text(ip)], OutputMode::Combined)),
        Platform::MacOs | Platform::Linux => Some(
            ("nmblookup"@, seq!["-A"@, ipv4_text(ip)], OutputMode::Combined),
        ),
        Platform::Other => None,
    }
}

/// The NetBIOS name lookup command for `ip`.
pub fn netbios_command(platform: Platform, ip: u32) -> (r: Option<CommandSpec>)
    ensures
        match r {
            Some(c) => netbios_command_spec(platform, ip) == Some(command_view(c)),
            None => netbios_command_spec(platform, ip) is None,
        },
{
    let program = match platform {
        Platform::Windows => "nbtstat",
        Platform::MacOs | Platform::Linux => "nmblookup",
        Platform::Other => {
            return None;
        },
    };
    let mut args: Vec<String> = Vec::new();
    args.push(text_of("-A"));
    args.push(string_of(&ipv4_chars(ip)));
    let c = command(program, args, OutputMode::Combined);
    assert(arg_views(c.args@) =~= seq!["-A"@, ipv4_text(ip)]);
    Some(c)
}

/// A NetBIOS table line for the workstation name: `<00>` and `UNIQUE`.
pub open spec fn netbios_line(line: Seq<char>) -> bool {
    contains(line, "<00>"@) && contains(upper(line), "UNIQUE"@)
}

/// The first token of the first workstation-name line.
pub open spec fn netbios_answer(ls: Seq<Seq<char>>) -> Option<Seq<char>>
    decreases ls.len(),
{
    if ls.len() == 0 {
        None
    } else if netbios_line(ls[0]) {
        if split_ws(ls[0]).len() > 0 {
            Some(split_ws(ls[0])[0])
        } else {
            None
        }
    } else {
        netbios_answer(ls.drop_first())
    }
}

/// The NetBIOS name a lookup's output gives (none if there was no output).
pub fn netbios_name(output: Option<String>) -> (r: Option<String>)
    ensures
        match output {
            Some(t) => match r {
                Some(n) => netbios_answer(lines(t@)) == Some(n@),
                None => netbios_answer(lines(t@)) is None,
            },
            None => r is None,
        },
{
    if output.is_none() {
        return None;
    }
    let text = output.unwrap();
    let all = lines_chars(&chars_of(text.as_str()));
    let ghost ls = views(all@);
    assert(ls.skip(0) =~= ls);
    let tag = chars_of("<00>");
    let unique = chars_of("UNIQUE");
    let mut i: usize = 0;
    while i < all.len()
        invariant
            i <= all.len(),
            ls == views(all@),
            ls == lines(text@),
            output == Some(text),
            tag@ == "<00>"@,
            unique@ == "UNIQUE"@,
            netbios_answer(ls) == netbios_answer(ls.skip(i as int)),
        decreases all.len() - i,
    {
        let line = &all[i];
        assert(ls.skip(i as int)[0] == line@);
        assert(ls.skip(i as int).drop_first() =~= ls.skip(i + 1));
        if contains_chars(line, &tag) && contains_chars(&to_upper(line), &unique) {
            let tokens = words_chars(line, CharClass::Whitespace);
            if tokens.len() > 0 {
                assert(views(tokens@)[0] == tokens@[0]@);
                return Some(string_of(&tokens[0]));
            } else {
                return None;
            }
        }
        i += 1;
    }
    assert(ls.skip(i as int) =~= Seq::<Seq<char>>::empty());
    None
}

// ---------------------------------------------------------------------------
// HTTP
// ---------------------------------------------------------------------------

/// The `HEAD` request sent to a web service on `ip`.
pub open spec fn http_request_text(ip: u32) -> Seq<char> {
    "HEAD / HTTP/1.0\r\nHost: "@ + ipv4_text(ip) + "\r\nUser-Agent: safesniff/0.1\r\nConnection: close\r\n\r\n"@
}

/// The `HEAD` request sent to a web service on `ip`.
pub fn http_request(ip: u32) -> (r: String)
    ensures
        r@ == http_request_text(ip),
{
    let mut v = chars_of("HEAD / HTTP/1.0\r\nHost: ");
    append_chars(&mut v, &ipv4_chars(ip));
    append_chars(&mut v, &chars_of("\r\nUser-Agent: safesniff/0.1\r\nConnection: close\r\n\r\n"));
    string_of(&v)
}

/// What a web service's response headers say.
pub struct HttpDetails {
    pub status_line: Option<String>,
    pub status_code: Option<u16>,
    pub server: Option<String>,
    pub auth_required: bool,
    pub redirect: Option<String>,
    pub raw_summary: Option<String>,
}

/// The contents of [`HttpDetails`] as plain values.
pub struct HttpDetailsView {
    pub status_line: Option<Seq<char>>,
    pub status_code: Option<u16>,
    pub server: Option<Seq<char>>,
    pub auth_required: bool,
    pub redirect: Option<Seq<char>>,
    pub raw_summary: Option<Seq<char>>,
}

impl View for HttpDetails {
    type V = HttpDetailsView;

    open spec fn view(&self) -> HttpDetailsView {
        HttpDetailsView {
            status_line: opt_view(self.status_line),
            status_code: self.status_code,
            server: opt_view(self.server),
            auth_required: self.auth_required,
            redirect: opt_view(self.redirect),
            raw_summary: opt_view(self.raw_summary),
        }
    }
}

/// A copy of an optional text.
pub fn copy_opt_string(o: &Option<String>) -> (r: Option<String>)
    ensures
        opt_view(r) == opt_view(*o),
{
    match o {
        Some(s) => Some(s.clone()),
        None => None,
    }
}

impl HttpDetails {
    /// A copy of these details.
    pub fn duplicate(&self) -> (r: HttpDetails)
        ensures
            r@ == self@,
    {
        HttpDetails {
            status_line: copy_opt_string(&self.status_line),
            status_code: self.status_code,
            server: copy_opt_string(&self.server),
            auth_required: self.auth_required,
            redirect: copy_opt_string(&self.redirect),
            raw_summary: copy_opt_string(&self.raw_summary),
        }
    }
}

/// The spec-level form of [`HttpDetails`] while lines are read: the
/// interesting lines are kept separately from their joined summary.
pub struct HttpState {
    pub status_line: Option<Seq<char>>,
    pub status_code: Option<u16>,
    pub server: Option<Seq<char>>,
    pub auth_required: bool,
    pub redirect: Option<Seq<char>>,
    pub interesting: Seq<Seq<char>>,
}

pub open spec fn opt_view(o: Option<String>) -> Option<Seq<char>> {
    match o {
        Some(s) => Some(s@),
        None => None,
    }
}

/// The value after the first `:` of a header line, trimmed.
pub open spec fn header_value(line: Seq<char>) -> Option<Seq<char>> {
    match split_once(line, ':') {
        Some((_, v)) => Some(trim_ws(v)),
        None => None,
    }
}

/// The status code: the second whitespace-separated token read as a `u16`.
pub open spec fn status_code_of(line: Seq<char>) -> Option<u16> {
    if split_ws(line).len() > 1 {
        match parse_unsigned(split_ws(line)[1], 10, 65535) {
            Some(v) => Some(v as u16),
            None => None,
        }
    } else {
        None
    }
}

/// The effect of one response line.
pub open spec fn http_step(st: HttpState, raw_line: Seq<char>) -> HttpState {
    let t = trim_ws(raw_line);
    let l = lower(t);
    if starts_with(t, "HTTP/"@) {
        HttpState {
            status_line: Some(t),
            status_code: status_code_of(t),
            interesting: st.interesting.push(t),
            ..st
        }
    } else if starts_with(l, "server:"@) {
        HttpState { server: header_value(t), interesting: st.interesting.push(t), ..st }
    } else if starts_with(l, "www-authenticate:"@) {
        HttpState { auth_required: true, interesting: st.interesting.push(t), ..st }
    } else if starts_with(l, "location:"@) {
        HttpState { redirect: header_value(t), interesting: st.interesting.push(t), ..st }
    } else {
        st
    }
}

/// The state after reading the given lines in order.
pub open spec fn http_fold(ls: Seq<Seq<char>>) -> HttpState
    decreases ls.len(),
{
    if ls.len() == 0 {
        HttpState {
            status_line: None,
            status_code: None,
            server: None,
            auth_required: false,
            redirect: None,
            interesting: Seq::empty(),
        }
    } else {
        http_step(http_fold(ls.drop_last()), ls.last())
    }
}

/// What a response says: the last status line and its code, the last
/// `Server` and `Location` values, whether authentication was demanded, and
/// the interesting lines joined with ` | `.
pub open spec fn http_details_match(d: HttpDetails, response: Seq<char>) -> bool {
    let st = http_fold(lines(response));
    &&& opt_view(d.status_line) == st.status_line
    &&& d.status_code == st.status_code
    &&& opt_view(d.server) == st.server
    &&& d.auth_required == st.auth_required
    &&& opt_view(d.redirect) == st.redirect
    &&& opt_view(d.raw_summary) == if st.interesting.len() == 0 {
        None
    } else {
        Some(join(st.interesting, " | "@))
    }
}

fn opt_string(v: Option<Vec<char>>) -> (r: Option<String>)
    ensures
        match v {
            Some(x) => opt_view(r) == Some(x@),
            None => r is None,
        },
{
    match v {
        Some(x) => Some(string_of(&x)),
        None => None,
    }
}

fn header_value_chars(line: &Vec<char>) -> (r: Option<Vec<char>>)
    ensures
        match r {
            Some(v) => header_value(line@) == Some(v@),
            None => header_value(line@) is None,
        },
{
    match split_once_chars(line, ':') {
        Some((_, v)) => Some(trim_chars(&v, CharClass::Whitespace)),
        None => None,
    }
}

fn status_code_chars(line: &Vec<char>) -> (r: Option<u16>)
    ensures
        r == status_code_of(line@),
{
    let tokens = words_chars(line, CharClass::Whitespace);
    if tokens.len() > 1 {
        assert(views(tokens@)[1] == tokens@[1]@);
        parse_u16_chars(&tokens[1])
    } else {
        None
    }
}

/// Reads the headers of a response to the `HEAD` request.
pub fn parse_http_response(response: &str) -> (d: HttpDetails)
    ensures
        http_details_match(d, response@),
{
    let all = lines_chars(&chars_of(response));
    let ghost ls = views(all@);
    let http = chars_of("HTTP/");
    let server_p = chars_of("server:");
    let auth_p = chars_of("www-authenticate:");
    let location_p = chars_of("location:");
    let mut status_line: Option<Vec<char>> = None;
    let mut status_code: Option<u16> = None;
    let mut server: Option<Vec<char>> = None;
    let mut auth_required = false;
    let mut redirect: Option<Vec<char>> = None;
    let mut interesting: Vec<Vec<char>> = Vec::new();
    for i in 0..all.len()
        invariant
            ls == views(all@),
            http@ == "HTTP/"@,
            server_p@ == "server:"@,
            auth_p@ == "www-authenticate:"@,
            location_p@ == "location:"@,
            ({
                let st = http_fold(ls.take(i as int));
                &&& (match status_line {
                    Some(x) => st.status_line == Some(x@),
                    None => st.status_line is None,
                })
                &&& status_code == st.status_code
                &&& (match server {
                    Some(x) => st.server == Some(x@),
                    None => st.server is None,
                })
                &&& auth_required == st.auth_required
                &&& (match redirect {
                    Some(x) => st.redirect == Some(x@),
                    None => st.redirect is None,
                })
                &&& views(interesting@) == st.interesting
            }),
    {
        assert(ls.take(i + 1).drop_last() =~= ls.take(i as int));
        assert(ls.take(i + 1).last() == all@[i as int]@);
        let t = trim_chars(&all[i], CharClass::Whitespace);
        let l = to_lower(&t);
        let ghost before = views(interesting@);
        if starts_with_chars(&t, &http) {
            status_line = Some(crate::text::copy_chars(&t));
            status_code = status_code_chars(&t);
            interesting.push(t);
            assert(views(interesting@) =~= before.push(t@));
        } else if starts_with_chars(&l, &server_p) {
            server = header_value_chars(&t);
            interesting.push(t);
            assert(views(interesting@) =~= before.push(t@));
        } else if starts_with_chars(&l, &auth_p) {
            auth_required = true;
            interesting.push(t);
            assert(views(interesting@) =~= before.push(t@));
        } else if starts_with_chars(&l, &location_p) {
            redirect = header_value_chars(&t);
            interesting.push(t);
            assert(views(interesting@) =~= before.push(t@));
        }
    }
    assert(ls.take(all.len() as int) =~= ls);
    let raw_summary = if interesting.len() == 0 {
        None
    } else {
        let sep = chars_of(" | ");
        Some(string_of(&join_chars(&interesting, &sep)))
    };
    HttpDetails {
        status_line: opt_string(status_line),
        status_code,
        server: opt_string(server),
        auth_required,
        redirect: opt_string(redirect),
        raw_summary,
    }
}

} // verus!
