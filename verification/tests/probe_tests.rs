use safesniff::probe::{
    banner_text, command_result, extract_ttl, hostname_command, http_request, local_timestamp,
    local_timestamp_command, netbios_command, netbios_name, os_guess_from_ttl, parse_http_response,
    ping_command, ping_result, reverse_dns_commands, reverse_dns_name, usable_hostname,
    CommandOutput, OsGuess, OutputMode, Platform,
};

fn ip(a: u32, b: u32, c: u32, d: u32) -> u32 {
    (a << 24) | (b << 16) | (c << 8) | d
}

fn output(success: bool, stdout: &str, stderr: &str) -> CommandOutput {
    CommandOutput { success, stdout: stdout.to_string(), stderr: stderr.to_string() }
}

#[test]
fn command_output_modes() {
    assert_eq!(
        command_result(OutputMode::SuccessfulStdout, Some(output(true, "  hello \n", "warn"))),
        Some("hello".to_string())
    );
    assert_eq!(command_result(OutputMode::SuccessfulStdout, Some(output(false, "hello", ""))), None);
    assert_eq!(command_result(OutputMode::SuccessfulStdout, Some(output(true, " \n ", ""))), None);
    assert_eq!(
        command_result(OutputMode::Combined, Some(output(false, "out ", "err\n"))),
        Some("out err".to_string())
    );
    assert_eq!(command_result(OutputMode::Combined, None), None);
}

#[test]
fn clock_commands() {
    let c = local_timestamp_command(Platform::Linux).unwrap();
    assert_eq!(c.program, "date");
    assert_eq!(c.args, vec!["+%Y-%m-%dT%H:%M:%S%z".to_string()]);
    let w = local_timestamp_command(Platform::Windows).unwrap();
    assert_eq!(w.program, "powershell");
    assert_eq!(w.args.len(), 3);
    assert_eq!(w.mode, OutputMode::Combined);
    assert!(local_timestamp_command(Platform::Other).is_none());
    assert_eq!(
        local_timestamp(Platform::MacOs, Some(output(true, "2024-05-01T10:00:00+0200\n", ""))),
        Some("2024-05-01T10:00:00+0200".to_string())
    );
    assert_eq!(local_timestamp(Platform::Linux, Some(output(false, "x", ""))), None);
    assert_eq!(local_timestamp(Platform::Other, Some(output(true, "x", ""))), None);
}

#[test]
fn host_names_from_environment() {
    assert_eq!(usable_hostname(Some("box".to_string())), Some("box".to_string()));
    assert_eq!(usable_hostname(Some("   ".to_string())), None);
    assert_eq!(usable_hostname(None), None);
}

#[test]
fn ttl_values() {
    assert_eq!(extract_ttl("64 bytes from 10.0.0.1: icmp_seq=0 ttl=64 time=1.2 ms"), Some(64));
    assert_eq!(extract_ttl("Reply from 10.0.0.1: bytes=32 time<1ms TTL=128"), Some(128));
    assert_eq!(extract_ttl("ttl=300"), None);
    assert_eq!(extract_ttl("ttl="), None);
    assert_eq!(extract_ttl("no answer"), None);
}

#[test]
fn ttl_guesses() {
    assert_eq!(os_guess_from_ttl(Some(64)), OsGuess::UnixLikeOrMobileProbable);
    assert_eq!(os_guess_from_ttl(Some(65)), OsGuess::WindowsProbable);
    assert_eq!(os_guess_from_ttl(Some(128)).as_str(), "windows_probable");
    assert_eq!(os_guess_from_ttl(Some(129)), OsGuess::NetworkDeviceProbable);
    assert_eq!(os_guess_from_ttl(None).as_str(), "unknown");
}

#[test]
fn ping_outputs() {
    let r = ping_result(Some("Reply from 10.0.0.1: bytes=32 time<1ms TTL=128".to_string()));
    assert!(r.reachable);
    assert_eq!(r.ttl, Some(128));
    assert_eq!(r.os_guess, OsGuess::WindowsProbable);
    let s = ping_result(Some("64 bytes from 10.0.0.2: icmp_seq=0".to_string()));
    assert!(s.reachable);
    assert_eq!(s.ttl, None);
    assert_eq!(s.os_guess, OsGuess::Unknown);
    let t = ping_result(Some("Request timeout for icmp_seq 0".to_string()));
    assert!(!t.reachable);
    let n = ping_result(None);
    assert!(!n.reachable && n.ttl.is_none());
}

#[test]
fn ping_commands() {
    let l = ping_command(Platform::Linux, ip(192, 168, 1, 10), 450).unwrap();
    assert_eq!(l.program, "ping");
    assert_eq!(l.args, vec!["-c", "1", "-W", "1", "192.168.1.10"]);
    let l2 = ping_command(Platform::Linux, ip(192, 168, 1, 10), 2001).unwrap();
    assert_eq!(l2.args[3], "3");
    let l0 = ping_command(Platform::Linux, ip(192, 168, 1, 10), 0).unwrap();
    assert_eq!(l0.args[3], "1");
    let m = ping_command(Platform::MacOs, ip(192, 168, 1, 10), 450).unwrap();
    assert_eq!(m.args, vec!["-c", "1", "-W", "450", "192.168.1.10"]);
    let w = ping_command(Platform::Windows, ip(10, 0, 0, 1), 700).unwrap();
    assert_eq!(w.args, vec!["-n", "1", "-w", "700", "10.0.0.1"]);
    assert!(ping_command(Platform::Other, 1, 1).is_none());
}

#[test]
fn reverse_dns_answers() {
    assert_eq!(
        reverse_dns_name(Some("1.1.168.192.in-addr.arpa\tname = router.lan.\n".to_string())),
        Some("router.lan".to_string())
    );
    assert_eq!(
        reverse_dns_name(Some("Server: x\nName:    printer.local\nAddress: 1.2.3.4".to_string())),
        Some("printer.local".to_string())
    );
    assert_eq!(
        reverse_dns_name(Some("10.1.168.192.in-addr.arpa domain name pointer tv.home.".to_string())),
        Some("tv.home".to_string())
    );
    assert_eq!(reverse_dns_name(Some("** server can't find".to_string())), None);
    assert_eq!(reverse_dns_name(None), None);
}

#[test]
fn reverse_dns_command_lists() {
    let unix = reverse_dns_commands(Platform::Linux, ip(192, 168, 1, 1));
    assert_eq!(unix.len(), 2);
    assert_eq!(unix[0].program, "nslookup");
    assert_eq!(unix[1].program, "host");
    assert_eq!(unix[1].args, vec!["192.168.1.1".to_string()]);
    assert_eq!(reverse_dns_commands(Platform::Windows, 1).len(), 1);
    assert!(reverse_dns_commands(Platform::Other, 1).is_empty());
}

#[test]
fn netbios_answers() {
    let table = "    Name               Type         Status\n    ---------------------------------------------\n    MYPC           <00>  UNIQUE      Registered\n    WORKGROUP      <00>  GROUP       Registered";
    assert_eq!(netbios_name(Some(table.to_string())), Some("MYPC".to_string()));
    assert_eq!(netbios_name(Some("WORKGROUP <00> - <GROUP> B".to_string())), None);
    assert_eq!(netbios_name(None), None);
    let c = netbios_command(Platform::MacOs, ip(10, 0, 0, 3)).unwrap();
    assert_eq!(c.program, "nmblookup");
    assert_eq!(c.args, vec!["-A", "10.0.0.3"]);
    assert_eq!(netbios_command(Platform::Windows, 1).unwrap().program, "nbtstat");
}

#[test]
fn http_requests_and_responses() {
    assert_eq!(
        http_request(ip(192, 168, 1, 10)),
        "HEAD / HTTP/1.0\r\nHost: 192.168.1.10\r\nUser-Agent: safesniff/0.1\r\nConnection: close\r\n\r\n"
    );
    let d = parse_http_response(
        "HTTP/1.1 401 Unauthorized\r\nServer: nginx\r\nWWW-Authenticate: Basic realm=x\r\nContent-Length: 0\r\n\r\n",
    );
    assert_eq!(d.status_line, Some("HTTP/1.1 401 Unauthorized".to_string()));
    assert_eq!(d.status_code, Some(401));
    assert_eq!(d.server, Some("nginx".to_string()));
    assert!(d.auth_required);
    assert_eq!(d.redirect, None);
    assert_eq!(
        d.raw_summary,
        Some("HTTP/1.1 401 Unauthorized | Server: nginx | WWW-Authenticate: Basic realm=x".to_string())
    );
    let r = parse_http_response("HTTP/1.0 302 Found\nLocation: https://x/login\n");
    assert_eq!(r.status_code, Some(302));
    assert_eq!(r.redirect, Some("https://x/login".to_string()));
    assert!(!r.auth_required);
    let e = parse_http_response("garbage");
    assert_eq!(e.status_line, None);
    assert_eq!(e.raw_summary, None);
}

#[test]
fn banners() {
    assert_eq!(banner_text("  SSH-2.0-OpenSSH_9.6\r\n"), Some("SSH-2.0-OpenSSH_9.6".to_string()));
    assert_eq!(banner_text(" \r\n "), None);
}

#[test]
fn host_name_command() {
    let c = hostname_command();
    assert_eq!(c.program, "hostname");
    assert!(c.args.is_empty());
    assert_eq!(c.mode, OutputMode::SuccessfulStdout);
}
