//! Network reconnaissance for the desktop core.
//!
//! Security invariants enforced here:
//!   1. IP-only targets: no hostname resolution (prevents SSRF via DNS)
//!   2. Loopback, multicast and private ranges are blocked
//!   3. The port count is hard-capped to prevent resource exhaustion
//!   4. External binaries are named by absolute path only (no PATH lookup)
//!
//! The network probes and the process runs themselves are done by the
//! application shell; this module decides what may run and what the
//! outcome means.

use vstd::prelude::*;
use crate::error::{
    is_execution_failed, is_invalid_target, is_parse_error, is_permission_denied, AegisError,
    AegisResult,
};
use crate::ip::{is_private, spec_is_loopback, spec_is_multicast, spec_is_private, IpAddress};
use crate::text::{
    decimal, decode_utf8, decode_utf8_lossy, exit_code_debug, lossy_utf8, prefix_chars, push_decimal,
    push_exit_code_debug, take_chars,
};

verus! {

// ── Public types exposed to the frontend ─────────────────────────────────────

/// A scan request from the frontend.
pub struct ScanRequest {
    /// Must be a bare IPv4/IPv6 address string: no hostnames are accepted.
    pub target: String,
    /// TCP ports to probe; 1 to 1024 of them per request.
    pub ports: Vec<u16>,
    /// Per-port connection timeout in ms, clamped to [100, 5000].
    pub timeout_ms: Option<u64>,
}

/// The outcome of probing one port.
#[derive(Debug, Clone, Copy)]
pub struct PortResult {
    pub port: u16,
    pub open: bool,
    pub service_hint: Option<&'static str>,
}

/// The answer to a scan request.
pub struct ScanResponse {
    pub target: String,
    pub results: Vec<PortResult>,
    pub elapsed_ms: u64,
    pub total_open: usize,
}

/// What a validated scan request probes: the parsed address and the
/// per-port timeout.
#[derive(Debug, Clone, Copy)]
pub struct ScanPlan {
    pub addr: IpAddress,
    pub timeout_ms: u64,
}

// ── Input validation ─────────────────────────────────────────────────────────

/// The message for a target that is not an IP address.
pub open spec fn bad_target_message(raw: Seq<char>) -> Seq<char> {
    "target must be a bare IP address, got: "@ + prefix_chars(raw, 64)
}

/// The outcome of parsing the (trimmed) target `raw` as an IP address, given
/// what the address parser made of it: the address, or an invalid-target
/// error that quotes at most the first 64 characters of `raw`.
pub fn parse_ip(raw: &str, parsed: Option<IpAddress>) -> (r: AegisResult<IpAddress>)
    ensures
        r is Ok <==> parsed is Some,
        r matches Ok(a) ==> parsed == Some(a),
        r matches Err(e) ==> is_invalid_target(e, bad_target_message(raw@)),
{
    match parsed {
        Some(a) => Ok(a),
        None => {
            let mut msg = String::from_str("target must be a bare IP address, got: ");
            let quoted = take_chars(raw, 64);
            msg.append(quoted.as_str());
            Err(AegisError::InvalidTarget(msg))
        },
    }
}

/// The permission-denied message for `ip`, when the policy refuses it.
pub open spec fn address_policy_message(ip: IpAddress) -> Option<Seq<char>> {
    if spec_is_loopback(ip) {
        Some("loopback addresses are not permitted"@)
    } else if spec_is_multicast(ip) {
        Some("multicast addresses are not permitted"@)
    } else if spec_is_private(ip) {
        Some("private RFC-1918/4193 addresses blocked by default policy"@)
    } else {
        None
    }
}

/// Refuses loopback, multicast and private (RFC 1918 / RFC 4193 and
/// link-local) targets, in that order of checking.
pub fn check_address_policy(ip: IpAddress) -> (r: AegisResult<()>)
    ensures
        r is Ok <==> address_policy_message(ip) is None,
        r matches Err(e) ==> is_permission_denied(e, address_policy_message(ip)->0),
{
    if ip.is_loopback() {
        return Err(AegisError::PermissionDenied(String::from_str("loopback addresses are not permitted")));
    }
    if ip.is_multicast() {
        return Err(AegisError::PermissionDenied(String::from_str("multicast addresses are not permitted")));
    }
    if is_private(ip) {
        return Err(AegisError::PermissionDenied(
            String::from_str("private RFC-1918/4193 addresses blocked by default policy"),
        ));
    }
    Ok(())
}

/// The most ports one desktop scan may probe.
pub const MAX_PORTS: usize = 1024;

/// The invalid-target message for a port list of `n` entries, when refused.
pub open spec fn port_count_message(n: nat) -> Option<Seq<char>> {
    if n == 0 {
        Some("port list must not be empty"@)
    } else if n > 1024 {
        Some("port count "@ + decimal(n) + " exceeds maximum of 1024"@)
    } else {
        None
    }
}

/// Accepts 1 to 1024 ports.
pub fn validate_ports(ports: &[u16]) -> (r: AegisResult<()>)
    ensures
        r is Ok <==> port_count_message(ports@.len()) is None,
        r matches Err(e) ==> is_invalid_target(e, port_count_message(ports@.len())->0),
{
    let n: usize = ports.len();
    if n == 0 {
        return Err(AegisError::InvalidTarget(String::from_str("port list must not be empty")));
    }
    if n > MAX_PORTS {
        let mut msg = String::from_str("port count ");
        push_decimal(&mut msg, n as u64);
        msg.append(" exceeds maximum of 1024");
        return Err(AegisError::InvalidTarget(msg));
    }
    Ok(())
}

/// The per-port timeout: 1000 ms when none is given, clamped to
/// [100, 5000].
pub open spec fn clamped_timeout(timeout_ms: Option<u64>) -> u64 {
    let t = match timeout_ms {
        Some(t) => t,
        None => 1000u64,
    };
    if t < 100 { 100 } else if t > 5000 { 5000 } else { t }
}

/// Computes the per-port timeout of a request.
pub fn clamp_timeout(timeout_ms: Option<u64>) -> (t: u64)
    ensures
        t == clamped_timeout(timeout_ms),
        100 <= t <= 5000,
{
    let t: u64 = match timeout_ms {
        Some(t) => t,
        None => 1000,
    };
    if t < 100 { 100 } else if t > 5000 { 5000 } else { t }
}

// ── Port results ─────────────────────────────────────────────────────────────

/// An optional string by its characters.
pub open spec fn opt_chars(o: Option<&str>) -> Option<Seq<char>> {
    match o {
        Some(s) => Some(s@),
        None => None,
    }
}

/// The service that commonly listens on `port`, if it is a well-known one.
pub open spec fn service_name(port: u16) -> Option<Seq<char>> {
    if port == 21 { Some("ftp"@) }
    else if port == 22 { Some("ssh"@) }
    else if port == 23 { Some("telnet"@) }
    else if port == 25 { Some("smtp"@) }
    else if port == 53 { Some("dns"@) }
    else if port == 80 { Some("http"@) }
    else if port == 110 { Some("pop3"@) }
    else if port == 143 { Some("imap"@) }
    else if port == 443 { Some("https"@) }
    else if port == 445 { Some("smb"@) }
    else if port == 3306 { Some("mysql"@) }
    else if port == 3389 { Some("rdp"@) }
    else if port == 5432 { Some("postgres"@) }
    else if port == 6379 { Some("redis"@) }
    else if port == 8080 { Some("http-alt"@) }
    else if port == 8443 { Some("https-alt"@) }
    else { None }
}

/// The service hint for `port`.
pub fn well_known_service(port: u16) -> (r: Option<&'static str>)
    ensures
        opt_chars(r) == service_name(port),
{
    match port {
        21 => Some("ftp"),
        22 => Some("ssh"),
        23 => Some("telnet"),
        25 => Some("smtp"),
        53 => Some("dns"),
        80 => Some("http"),
        110 => Some("pop3"),
        143 => Some("imap"),
        443 => Some("https"),
        445 => Some("smb"),
        3306 => Some("mysql"),
        3389 => Some("rdp"),
        5432 => Some("postgres"),
        6379 => Some("redis"),
        8080 => Some("http-alt"),
        8443 => Some("https-alt"),
        _ => None,
    }
}

/// The result for `port` after a probe that found it `open` or closed: a
/// service hint is given for open well-known ports only.
pub fn port_result(port: u16, open: bool) -> (r: PortResult)
    ensures
        r.port == port,
        r.open == open,
        opt_chars(r.service_hint) == (if open { service_name(port) } else { None }),
{
    PortResult { port, open, service_hint: if open { well_known_service(port) } else { None } }
}

/// The number of open ports among `results`.
pub open spec fn count_open(results: Seq<PortResult>) -> nat
    decreases results.len(),
{
    if results.len() == 0 {
        0
    } else {
        count_open(results.drop_last()) + if results.last().open { 1nat } else { 0nat }
    }
}

proof fn lemma_count_open_bounded(results: Seq<PortResult>)
    ensures
        count_open(results) <= results.len(),
    decreases results.len(),
{
    if results.len() > 0 {
        lemma_count_open_bounded(results.drop_last());
    }
}

// ── Commands ─────────────────────────────────────────────────────────────────

/// The error text for `request`, given what the address parser made of its
/// target, when the request is refused: a bad address first, then the
/// address policy, then the port count.
pub open spec fn scan_rejection(request: ScanRequest, parsed: Option<IpAddress>) -> Option<Seq<char>> {
    match parsed {
        None => Some("invalid target: "@ + bad_target_message(request.target@)),
        Some(a) => match address_policy_message(a) {
            Some(m) => Some("permission denied: "@ + m),
            None => match port_count_message(request.ports@.len()) {
                Some(m) => Some("invalid target: "@ + m),
                None => None,
            },
        },
    }
}

/// Validates a scan request strictly before anything touches the network.
///
/// `parsed` is what the address parser made of the trimmed target. On
/// success the plan holds that address and the clamped timeout; on refusal
/// the error is the display text that the frontend receives.
pub fn plan_scan(request: &ScanRequest, parsed: Option<IpAddress>) -> (r: Result<ScanPlan, String>)
    ensures
        r is Ok <==> scan_rejection(*request, parsed) is None,
        r matches Ok(p) ==> parsed == Some(p.addr) && p.timeout_ms == clamped_timeout(request.timeout_ms),
        r matches Err(m) ==> Some(m@) == scan_rejection(*request, parsed),
{
    let addr = match parse_ip(request.target.as_str(), parsed) {
        Ok(a) => a,
        Err(e) => return Err(e.to_string()),
    };
    match check_address_policy(addr) {
        Ok(()) => {},
        Err(e) => return Err(e.to_string()),
    }
    match validate_ports(request.ports.as_slice()) {
        Ok(()) => {},
        Err(e) => return Err(e.to_string()),
    }
    Ok(ScanPlan { addr, timeout_ms: clamp_timeout(request.timeout_ms) })
}

/// The answer to a completed scan: the target, the results in probe order,
/// the elapsed time, and the number of open ports.
pub fn scan_response(target: String, results: Vec<PortResult>, elapsed_ms: u64) -> (r: ScanResponse)
    ensures
        r.target@ == target@,
        r.results@ == results@,
        r.elapsed_ms == elapsed_ms,
        r.total_open == count_open(results@),
        r.total_open == results@.filter(|p: PortResult| p.open).len(),
{
    let mut total_open: usize = 0;
    let mut i: usize = 0;
    while i < results.len()
        invariant
            i <= results@.len(),
            total_open == count_open(results@.take(i as int)),
        decreases results@.len() - i,
    {
        assert(results@.take(i + 1).drop_last() =~= results@.take(i as int));
        proof {
            lemma_count_open_bounded(results@.take(i as int));
        }
        if results[i].open {
            total_open += 1;
        }
        i += 1;
    }
    assert(results@.take(results@.len() as int) =~= results@);
    proof {
        lemma_count_open_counts_open_flags(results@);
    }
    ScanResponse { target, results, elapsed_ms, total_open }
}

// ── Safe binary executor ─────────────────────────────────────────────────────

/// `path` holds a root or prefix character: `/`, `\` or `:`.
pub open spec fn has_path_anchor(path: Seq<char>) -> bool {
    exists|i: int| 0 <= i < path.len() && (path[i] == '/' || path[i] == '\\' || path[i] == ':')
}

/// Whether `path` is absolute on the platform the program was built for
/// (std's `Path::is_absolute`).
///
/// Trusted: what counts as absolute depends on the target platform, so the
/// result gets no name. What std documents for every platform is stated: an
/// absolute path starts with the root `/` (Unix and the like) or has a
/// prefix and a root (Windows: a drive `C:`, or a `\\server` or `\\?\` form), so it holds
/// one of `/`, `\` or `:`.
#[verifier::external_body]
fn path_is_absolute(path: &str) -> (b: bool)
    ensures
        b ==> has_path_anchor(path@),
{
    std::path::Path::new(path).is_absolute()
}

/// The message for a path that is not absolute.
pub open spec fn not_absolute_message(path: Seq<char>) -> Seq<char> {
    "binary path must be absolute: "@ + path
}

/// The message for a path that names no file.
pub open spec fn not_found_message(path: Seq<char>) -> Seq<char> {
    "binary not found: "@ + path
}

/// Decides whether a local utility at `binary_path` may be run, given
/// whether the path is absolute on this platform and whether it exists:
/// it must be absolute (no PATH lookup hijacking), then it must exist.
pub fn binary_path_verdict(binary_path: &str, is_absolute: bool, exists: bool) -> (r: AegisResult<()>)
    ensures
        r is Ok <==> is_absolute && exists,
        !is_absolute ==> (r matches Err(e) && is_permission_denied(e, not_absolute_message(binary_path@))),
        is_absolute && !exists ==> (r matches Err(e) && is_invalid_target(e, not_found_message(binary_path@))),
{
    if !is_absolute {
        let mut msg = String::from_str("binary path must be absolute: ");
        msg.append(binary_path);
        return Err(AegisError::PermissionDenied(msg));
    }
    if !exists {
        let mut msg = String::from_str("binary not found: ");
        msg.append(binary_path);
        return Err(AegisError::InvalidTarget(msg));
    }
    Ok(())
}

/// Decides whether a local utility at `binary_path`, which `exists` or not,
/// may be run: the path must be absolute on this platform, then the file
/// must exist. A path without `/`, `\` or `:` is never absolute, on any
/// platform.
pub fn check_binary_path(binary_path: &str, exists: bool) -> (r: AegisResult<()>)
    ensures
        r is Ok ==> exists && has_path_anchor(binary_path@),
        !has_path_anchor(binary_path@) ==> (r matches Err(e)
            && is_permission_denied(e, not_absolute_message(binary_path@))),
        r matches Err(e) ==> is_permission_denied(e, not_absolute_message(binary_path@))
            || (!exists && is_invalid_target(e, not_found_message(binary_path@))),
{
    let absolute = path_is_absolute(binary_path);
    binary_path_verdict(binary_path, absolute, exists)
}

/// The failure text for a run that exited unsuccessfully: the exit code in
/// `{:?}` form and at most the first 256 characters of its error output.
pub open spec fn exit_failure_text(code: Option<i32>, stderr: Seq<char>) -> Seq<char> {
    exit_code_debug(code) + ": "@ + prefix_chars(stderr, 256)
}

/// Builds `prefix` followed by the exit failure text of the error output
/// `stderr`, decoded as UTF-8 with invalid sequences replaced.
pub(crate) fn exit_failure_message(prefix: &str, code: Option<i32>, stderr: &[u8]) -> (m: String)
    ensures
        m@ == prefix@ + exit_failure_text(code, lossy_utf8(stderr@)),
{
    let text = decode_utf8_lossy(stderr);
    let mut msg = String::from_str(prefix);
    push_exit_code_debug(&mut msg, code);
    msg.append(": ");
    let head = take_chars(text.as_str(), 256);
    msg.append(head.as_str());
    assert(msg@ =~= prefix@ + exit_failure_text(code, lossy_utf8(stderr@)));
    msg
}

/// The outcome of a finished run of a local utility: its standard output
/// as text when it succeeded and the output is valid UTF-8; otherwise an
/// execution failure (exit code and the head of the error output, decoded
/// leniently) or a parse error.
pub fn binary_output(success: bool, exit_code: Option<i32>, stderr: &[u8], stdout: Vec<u8>) -> (r: AegisResult<String>)
    ensures
        !success ==> (r matches Err(e)
            && is_execution_failed(e, "exit "@ + exit_failure_text(exit_code, lossy_utf8(stderr@)))),
        success && vstd::utf8::valid_utf8(stdout@) ==> (r matches Ok(s) && s@ == vstd::utf8::decode_utf8(stdout@)),
        success && !vstd::utf8::valid_utf8(stdout@) ==> (r matches Err(e)
            && is_parse_error(e, crate::text::utf8_error_text(stdout@))),
{
    if !success {
        return Err(AegisError::ExecutionFailed(exit_failure_message("exit ", exit_code, stderr)));
    }
    match decode_utf8(stdout) {
        Ok(s) => Ok(s),
        Err(m) => Err(AegisError::Parse(m)),
    }
}

} // verus!

verus! {

/// A desktop scan is only ever planned for an address that parsed and that
/// is neither loopback, multicast nor private, with 1 to 1024 ports, and a
/// per-port timeout within [100, 5000] ms.
pub proof fn lemma_planned_scan_is_permitted(request: ScanRequest, parsed: Option<IpAddress>)
    ensures
        scan_rejection(request, parsed) is None ==> (parsed matches Some(a)
            && !spec_is_loopback(a) && !spec_is_multicast(a) && !spec_is_private(a)
            && 1 <= request.ports@.len() <= 1024),
        100 <= clamped_timeout(request.timeout_ms) <= 5000,
{
}

} // verus!

verus! {

/// The desktop policy refuses an IPv4 address a.b.c.d exactly when a == 127
/// (loopback), 224 <= a <= 239 (multicast), or it is private: a == 10, a ==
/// 172 with 16 <= b <= 31, a == 192 with b == 168, or a == 169 with b == 254.
/// Every other address, 169.x with x != 254 and 172.x outside 16..=31
/// included, passes.
pub proof fn lemma_ipv4_policy(o: [u8; 4])
    ensures
        address_policy_message(IpAddress::V4(o)) is None <==> !(o[0] == 127 || (224 <= o[0] && o[0] <= 239)
            || o[0] == 10 || (o[0] == 172 && 16 <= o[1] && o[1] <= 31) || (o[0] == 192 && o[1] == 168)
            || (o[0] == 169 && o[1] == 254)),
{
    crate::ip::lemma_ipv4_classes(o);
}

/// A request whose target parsed to an address that the policy allows, and
/// that names 1 to 1024 ports, is planned: nothing else refuses it.
pub proof fn lemma_permitted_scan_is_planned(request: ScanRequest, a: IpAddress)
    ensures
        (address_policy_message(a) is None && 1 <= request.ports@.len() && request.ports@.len() <= 1024)
            ==> scan_rejection(request, Some(a)) is None,
{
}

/// The open count is the number of results whose open flag is set, whatever
/// their port or service hint.
pub proof fn lemma_count_open_counts_open_flags(results: Seq<PortResult>)
    ensures
        count_open(results) == results.filter(|r: PortResult| r.open).len(),
    decreases results.len(),
{
    reveal(Seq::filter);
    if results.len() > 0 {
        lemma_count_open_counts_open_flags(results.drop_last());
    }
}

} // verus!
