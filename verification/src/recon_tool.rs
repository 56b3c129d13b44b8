//! The MCP tool for network reconnaissance.
//!
//! Every input is validated and sanitized before any network activity, and
//! every output is wrapped by the sanitizer before it reaches the model.
//! The probes themselves, and the JSON rendering of their results, are done
//! by the server shell around this module.

use vstd::prelude::*;
use crate::ip::{spec_is_loopback, spec_is_multicast, IpAddress};
use crate::recon::{clamp_timeout, clamped_timeout, opt_chars, ScanPlan};
use crate::sanitizer::{sanitize_spec, wrap_spec, DataSanitizer, DEFAULT_MAX_LEN};
use crate::tool_error::ToolError;

verus! {

/// The input of the `scan_ports` tool.
pub struct ScanPortsInput {
    /// Target IPv4 or IPv6 address. Hostnames are not accepted (SSRF
    /// prevention).
    pub target_ip: String,
    /// TCP ports to probe: at most 100 per request to bound resource usage.
    pub ports: Vec<u16>,
    /// Connection timeout per port in milliseconds. Range [100, 5000];
    /// 1000 when absent.
    pub timeout_ms: Option<u64>,
}

/// The outcome of probing one port, as the tool reports it.
#[derive(Debug, Clone, Copy)]
pub struct PortResult {
    pub port: u16,
    pub open: bool,
    pub service_hint: Option<&'static str>,
}

/// The most ports one tool call may probe.
pub const MAX_TOOL_PORTS: usize = 100;

/// The service that commonly listens on `port`, among those the tool knows.
pub open spec fn tool_service_name(port: u16) -> Option<Seq<char>> {
    if port == 21 { Some("ftp"@) }
    else if port == 22 { Some("ssh"@) }
    else if port == 25 { Some("smtp"@) }
    else if port == 53 { Some("dns"@) }
    else if port == 80 { Some("http"@) }
    else if port == 443 { Some("https"@) }
    else if port == 445 { Some("smb"@) }
    else if port == 3306 { Some("mysql"@) }
    else if port == 3389 { Some("rdp"@) }
    else if port == 5432 { Some("postgres"@) }
    else if port == 6379 { Some("redis"@) }
    else if port == 8080 { Some("http-alt"@) }
    else { None }
}

/// The service hint for `port`.
pub fn well_known_service(port: u16) -> (r: Option<&'static str>)
    ensures
        opt_chars(r) == tool_service_name(port),
{
    match port {
        21 => Some("ftp"),
        22 => Some("ssh"),
        25 => Some("smtp"),
        53 => Some("dns"),
        80 => Some("http"),
        443 => Some("https"),
        445 => Some("smb"),
        3306 => Some("mysql"),
        3389 => Some("rdp"),
        5432 => Some("postgres"),
        6379 => Some("redis"),
        8080 => Some("http-alt"),
        _ => None,
    }
}

/// The result for `port` after a probe that found it `open` or closed: a
/// service hint is given for open well-known ports only.
pub fn port_result(port: u16, open: bool) -> (r: PortResult)
    ensures
        r.port == port,
        r.open == open,
        opt_chars(r.service_hint) == (if open { tool_service_name(port) } else { None }),
{
    PortResult { port, open, service_hint: if open { well_known_service(port) } else { None } }
}

/// The invalid-parameters message for a scan whose sanitized target is
/// `clean_ip`, given what the address parser made of it, when the scan is
/// refused: a bad address first, then loopback or multicast, then the port
/// count.
pub open spec fn tool_scan_rejection(clean_ip: Seq<char>, parsed: Option<IpAddress>, n_ports: nat) -> Option<Seq<char>> {
    match parsed {
        None => Some("invalid IP address: "@ + clean_ip),
        Some(a) => if spec_is_loopback(a) || spec_is_multicast(a) {
            Some("loopback and multicast addresses are not permitted"@)
        } else if n_ports == 0 || n_ports > 100 {
            Some("ports list must contain 1 to 100 entries"@)
        } else {
            None
        },
    }
}

/// The MCP tool service.
pub struct AegisToolService {
    sanitizer: DataSanitizer,
}

impl Clone for AegisToolService {
    /// Every service has a default-limit sanitizer, so a copy is a fresh one.
    fn clone(&self) -> (s: Self)
        ensures
            s.limit() == self.limit(),
    {
        proof {
            use_type_invariant(self);
        }
        Self::new()
    }
}

impl AegisToolService {
    #[verifier::type_invariant]
    spec fn uses_default_limit(&self) -> bool {
        self.sanitizer.limit() == DEFAULT_MAX_LEN
    }

    /// The input limit of the service's sanitizer, in bytes.
    pub closed spec fn limit(&self) -> usize {
        self.sanitizer.limit()
    }

    /// A service whose sanitizer has the default limit.
    pub fn new() -> (s: Self)
        ensures
            s.limit() == DEFAULT_MAX_LEN,
    {
        Self { sanitizer: DataSanitizer::new() }
    }

    /// The first step of `scan_ports`: the sanitized target text, or the
    /// sanitizer's rejection of it.
    pub fn scan_target(&self, input: &ScanPortsInput) -> (r: Result<String, ToolError>)
        ensures
            match r {
                Ok(s) => sanitize_spec(DEFAULT_MAX_LEN, input.target_ip@) == Ok::<Seq<char>, Seq<char>>(s@),
                Err(e) => e matches ToolError::InvalidParams(m)
                    && sanitize_spec(DEFAULT_MAX_LEN, input.target_ip@) == Err::<Seq<char>, Seq<char>>(m@),
            },
    {
        proof {
            use_type_invariant(self);
        }
        self.sanitizer.sanitize_string(input.target_ip.as_str())
    }

    /// The second step of `scan_ports`, before any network activity:
    /// `clean_ip` is the sanitized target and `parsed` what the address
    /// parser made of it once trimmed. Loopback and multicast targets are
    /// refused, as are port lists outside 1 to 100 entries; the timeout is
    /// clamped.
    pub fn plan_scan(&self, input: &ScanPortsInput, clean_ip: &str, parsed: Option<IpAddress>) -> (r: Result<ScanPlan, ToolError>)
        ensures
            r is Ok <==> tool_scan_rejection(clean_ip@, parsed, input.ports@.len()) is None,
            r matches Ok(p) ==> parsed == Some(p.addr) && p.timeout_ms == clamped_timeout(input.timeout_ms),
            r matches Err(e) ==> (e matches ToolError::InvalidParams(m)
                && Some(m@) == tool_scan_rejection(clean_ip@, parsed, input.ports@.len())),
    {
        let addr = match parsed {
            Some(a) => a,
            None => {
                let mut msg = String::from_str("invalid IP address: ");
                msg.append(clean_ip);
                return Err(ToolError::InvalidParams(msg));
            },
        };
        if addr.is_loopback() || addr.is_multicast() {
            return Err(ToolError::InvalidParams(
                String::from_str("loopback and multicast addresses are not permitted"),
            ));
        }
        if input.ports.len() == 0 || input.ports.len() > MAX_TOOL_PORTS {
            return Err(ToolError::InvalidParams(String::from_str("ports list must contain 1 to 100 entries")));
        }
        Ok(ScanPlan { addr, timeout_ms: clamp_timeout(input.timeout_ms) })
    }

    /// The last step of `scan_ports`: the rendered results wrapped in the
    /// sanitizer's envelope before they are returned to the model.
    pub fn scan_output(&self, raw_output: &str) -> (r: String)
        ensures
            r@ == wrap_spec(DEFAULT_MAX_LEN, raw_output@),
    {
        proof {
            use_type_invariant(self);
        }
        self.sanitizer.wrap_output(raw_output)
    }
}

} // verus!

verus! {

/// A tool scan is only ever planned for an address that parsed and that is
/// neither loopback nor multicast, with 1 to 100 ports.
pub proof fn lemma_planned_tool_scan_is_permitted(clean_ip: Seq<char>, parsed: Option<IpAddress>, n_ports: nat)
    ensures
        tool_scan_rejection(clean_ip, parsed, n_ports) is None ==> (parsed matches Some(a)
            && !spec_is_loopback(a) && !spec_is_multicast(a) && 1 <= n_ports <= 100),
{
}

} // verus!

verus! {

/// A tool request whose target parsed to an address that is neither
/// loopback nor multicast, and that names 1 to 100 ports, is planned.
pub proof fn lemma_permitted_tool_scan_is_planned(clean_ip: Seq<char>, a: IpAddress, n_ports: nat)
    ensures
        (!spec_is_loopback(a) && !spec_is_multicast(a) && 1 <= n_ports && n_ports <= 100)
            ==> tool_scan_rejection(clean_ip, Some(a), n_ports) is None,
{
}

} // verus!
