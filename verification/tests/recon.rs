use aegisforge::error::AegisError;
use aegisforge::ip::{is_private, IpAddress};
use aegisforge::recon::{
    binary_output, binary_path_verdict, check_address_policy, check_binary_path, clamp_timeout, parse_ip, plan_scan,
    port_result, scan_response, validate_ports, well_known_service, ScanRequest,
};

fn v4(a: u8, b: u8, c: u8, d: u8) -> IpAddress {
    IpAddress::V4([a, b, c, d])
}

fn v6(s: [u16; 8]) -> IpAddress {
    IpAddress::V6(s)
}

fn denied(r: Result<(), AegisError>) -> String {
    match r {
        Err(AegisError::PermissionDenied(m)) => m,
        other => panic!("expected permission denied, got {:?}", other),
    }
}

#[test]
fn public_addresses_pass_the_policy() {
    assert!(check_address_policy(v4(8, 8, 8, 8)).is_ok());
    assert!(check_address_policy(v4(172, 32, 0, 1)).is_ok());
    assert!(check_address_policy(v4(172, 15, 255, 255)).is_ok());
    assert!(check_address_policy(v4(223, 255, 255, 255)).is_ok());
    assert!(check_address_policy(v4(240, 0, 0, 1)).is_ok());
    assert!(check_address_policy(v6([0x2001, 0x4860, 0x4860, 0, 0, 0, 0, 0x8888])).is_ok());
}

#[test]
fn loopback_is_refused() {
    assert_eq!(denied(check_address_policy(v4(127, 0, 0, 1))), "loopback addresses are not permitted");
    assert_eq!(denied(check_address_policy(v4(127, 255, 0, 9))), "loopback addresses are not permitted");
    assert_eq!(denied(check_address_policy(v6([0, 0, 0, 0, 0, 0, 0, 1]))), "loopback addresses are not permitted");
}

#[test]
fn multicast_is_refused() {
    assert_eq!(denied(check_address_policy(v4(224, 0, 0, 1))), "multicast addresses are not permitted");
    assert_eq!(denied(check_address_policy(v4(239, 1, 2, 3))), "multicast addresses are not permitted");
    assert_eq!(denied(check_address_policy(v6([0xff02, 0, 0, 0, 0, 0, 0, 1]))), "multicast addresses are not permitted");
}

#[test]
fn private_ranges_are_refused() {
    let msg = "private RFC-1918/4193 addresses blocked by default policy";
    assert_eq!(denied(check_address_policy(v4(10, 1, 2, 3))), msg);
    assert_eq!(denied(check_address_policy(v4(172, 16, 0, 1))), msg);
    assert_eq!(denied(check_address_policy(v4(172, 31, 255, 254))), msg);
    assert_eq!(denied(check_address_policy(v4(192, 168, 1, 1))), msg);
    assert_eq!(denied(check_address_policy(v4(169, 254, 0, 1))), msg);
    assert_eq!(denied(check_address_policy(v6([0xfc00, 0, 0, 0, 0, 0, 0, 1]))), msg);
    assert_eq!(denied(check_address_policy(v6([0xfdff, 1, 0, 0, 0, 0, 0, 1]))), msg);
    assert_eq!(denied(check_address_policy(v6([0xfe80, 0, 0, 0, 0, 0, 0, 1]))), msg);
    assert_eq!(denied(check_address_policy(v6([0xfebf, 0, 0, 0, 0, 0, 0, 1]))), msg);
}

#[test]
fn private_range_edges() {
    assert!(!is_private(v6([0xfbff, 0, 0, 0, 0, 0, 0, 1])));
    assert!(!is_private(v6([0xfec0, 0, 0, 0, 0, 0, 0, 1])));
    assert!(!is_private(v4(192, 169, 0, 1)));
    assert!(!is_private(v4(11, 0, 0, 1)));
    assert!(is_private(v4(10, 0, 0, 0)));
}

#[test]
fn port_list_limits() {
    let one = vec![80u16];
    assert!(validate_ports(&one).is_ok());
    let full = vec![1u16; 1024];
    assert!(validate_ports(&full).is_ok());
    match validate_ports(&[]) {
        Err(AegisError::InvalidTarget(m)) => assert_eq!(m, "port list must not be empty"),
        other => panic!("{:?}", other),
    }
    let too_many = vec![1u16; 1025];
    match validate_ports(&too_many) {
        Err(AegisError::InvalidTarget(m)) => assert_eq!(m, "port count 1025 exceeds maximum of 1024"),
        other => panic!("{:?}", other),
    }
}

#[test]
fn timeouts_are_clamped() {
    assert_eq!(clamp_timeout(None), 1000);
    assert_eq!(clamp_timeout(Some(0)), 100);
    assert_eq!(clamp_timeout(Some(99)), 100);
    assert_eq!(clamp_timeout(Some(100)), 100);
    assert_eq!(clamp_timeout(Some(2500)), 2500);
    assert_eq!(clamp_timeout(Some(5000)), 5000);
    assert_eq!(clamp_timeout(Some(u64::MAX)), 5000);
}

#[test]
fn bad_target_message_quotes_at_most_64_characters() {
    match parse_ip("example.com", None) {
        Err(AegisError::InvalidTarget(m)) => {
            assert_eq!(m, "target must be a bare IP address, got: example.com")
        }
        other => panic!("{:?}", other),
    }
    let long = "x".repeat(100);
    match parse_ip(&long, None) {
        Err(AegisError::InvalidTarget(m)) => {
            assert_eq!(m, format!("target must be a bare IP address, got: {}", "x".repeat(64)))
        }
        other => panic!("{:?}", other),
    }
    assert!(matches!(parse_ip("1.2.3.4", Some(v4(1, 2, 3, 4))), Ok(IpAddress::V4([1, 2, 3, 4]))));
}

#[test]
fn well_known_services() {
    assert_eq!(well_known_service(22), Some("ssh"));
    assert_eq!(well_known_service(23), Some("telnet"));
    assert_eq!(well_known_service(110), Some("pop3"));
    assert_eq!(well_known_service(143), Some("imap"));
    assert_eq!(well_known_service(8443), Some("https-alt"));
    assert_eq!(well_known_service(12345), None);
}

#[test]
fn port_results_hint_only_open_ports() {
    let open = port_result(443, true);
    assert_eq!((open.port, open.open, open.service_hint), (443, true, Some("https")));
    let closed = port_result(443, false);
    assert_eq!((closed.port, closed.open, closed.service_hint), (443, false, None));
    let unknown = port_result(9999, true);
    assert_eq!(unknown.service_hint, None);
}

fn request(target: &str, ports: Vec<u16>, timeout_ms: Option<u64>) -> ScanRequest {
    ScanRequest { target: target.to_string(), ports, timeout_ms }
}

#[test]
fn plan_scan_accepts_a_valid_request() {
    let r = request(" 8.8.8.8 ", vec![53, 443], Some(50));
    let plan = plan_scan(&r, Some(v4(8, 8, 8, 8))).unwrap();
    assert!(matches!(plan.addr, IpAddress::V4([8, 8, 8, 8])));
    assert_eq!(plan.timeout_ms, 100);
}

#[test]
fn plan_scan_reports_errors_as_display_text_in_order() {
    let r = request("localhost", vec![], None);
    assert_eq!(
        plan_scan(&r, None).unwrap_err(),
        "invalid target: target must be a bare IP address, got: localhost"
    );
    let r = request("127.0.0.1", vec![], None);
    assert_eq!(
        plan_scan(&r, Some(v4(127, 0, 0, 1))).unwrap_err(),
        "permission denied: loopback addresses are not permitted"
    );
    let r = request("1.1.1.1", vec![], None);
    assert_eq!(plan_scan(&r, Some(v4(1, 1, 1, 1))).unwrap_err(), "invalid target: port list must not be empty");
}

#[test]
fn scan_response_counts_open_ports() {
    let results = vec![port_result(22, true), port_result(23, false), port_result(80, true)];
    let resp = scan_response("1.1.1.1".to_string(), results, 42);
    assert_eq!(resp.total_open, 2);
    assert_eq!(resp.results.len(), 3);
    assert_eq!(resp.elapsed_ms, 42);
    assert_eq!(resp.target, "1.1.1.1");
    let empty = scan_response("1.1.1.1".to_string(), vec![], 0);
    assert_eq!(empty.total_open, 0);
}

#[test]
fn binary_paths_must_be_absolute_and_exist() {
    match binary_path_verdict("nmap", false, true) {
        Err(AegisError::PermissionDenied(m)) => assert_eq!(m, "binary path must be absolute: nmap"),
        other => panic!("{:?}", other),
    }
    match binary_path_verdict("/usr/bin/nope", true, false) {
        Err(AegisError::InvalidTarget(m)) => assert_eq!(m, "binary not found: /usr/bin/nope"),
        other => panic!("{:?}", other),
    }
    assert!(binary_path_verdict("/usr/bin/nmap", true, true).is_ok());
}

#[test]
fn binary_path_check_asks_the_platform() {
    match check_binary_path("nmap", true) {
        Err(AegisError::PermissionDenied(m)) => assert_eq!(m, "binary path must be absolute: nmap"),
        other => panic!("{:?}", other),
    }
    match check_binary_path("bin/nmap", true) {
        Err(AegisError::PermissionDenied(m)) => assert_eq!(m, "binary path must be absolute: bin/nmap"),
        other => panic!("{:?}", other),
    }
    // These run on a Unix host, where a leading `/` makes a path absolute.
    assert!(check_binary_path("/usr/bin/nmap", true).is_ok());
    match check_binary_path("/usr/bin/nope", false) {
        Err(AegisError::InvalidTarget(m)) => assert_eq!(m, "binary not found: /usr/bin/nope"),
        other => panic!("{:?}", other),
    }
}

#[test]
fn binary_output_outcomes() {
    assert_eq!(binary_output(true, Some(0), b"", b"hello\n".to_vec()).unwrap(), "hello\n");
    match binary_output(false, Some(2), b"bad flag", Vec::new()) {
        Err(AegisError::ExecutionFailed(m)) => assert_eq!(m, "exit Some(2): bad flag"),
        other => panic!("{:?}", other),
    }
    match binary_output(false, Some(-1), b"", Vec::new()) {
        Err(AegisError::ExecutionFailed(m)) => assert_eq!(m, "exit Some(-1): "),
        other => panic!("{:?}", other),
    }
    match binary_output(false, None, "e".repeat(300).as_bytes(), Vec::new()) {
        Err(AegisError::ExecutionFailed(m)) => assert_eq!(m, format!("exit None: {}", "e".repeat(256))),
        other => panic!("{:?}", other),
    }
    match binary_output(true, Some(0), b"", vec![0xff, 0x41]) {
        Err(AegisError::Parse(m)) => assert_eq!(m, "invalid utf-8 sequence of 1 bytes from index 0"),
        other => panic!("{:?}", other),
    }
}

#[test]
fn exit_code_extremes_render_in_full() {
    match binary_output(false, Some(i32::MIN), b"", Vec::new()) {
        Err(AegisError::ExecutionFailed(m)) => assert_eq!(m, "exit Some(-2147483648): "),
        other => panic!("{:?}", other),
    }
    match binary_output(false, Some(i32::MAX), b"x", Vec::new()) {
        Err(AegisError::ExecutionFailed(m)) => assert_eq!(m, "exit Some(2147483647): x"),
        other => panic!("{:?}", other),
    }
}

#[test]
fn error_output_is_decoded_leniently() {
    match binary_output(false, Some(1), &[b'o', 0xff, b'k'], Vec::new()) {
        Err(AegisError::ExecutionFailed(m)) => assert_eq!(m, "exit Some(1): o\u{fffd}k"),
        other => panic!("{:?}", other),
    }
    // The 256-character cap applies to decoded characters, not bytes.
    let accents = "\u{e9}".repeat(300);
    match binary_output(false, Some(1), accents.as_bytes(), Vec::new()) {
        Err(AegisError::ExecutionFailed(m)) => assert_eq!(m, format!("exit Some(1): {}", "\u{e9}".repeat(256))),
        other => panic!("{:?}", other),
    }
}

#[test]
fn ipv4_mapped_addresses_are_judged_as_ipv4() {
    let mapped = |a: u8, b: u8, c: u8, d: u8| {
        v6([0, 0, 0, 0, 0, 0xffff, ((a as u16) << 8) | b as u16, ((c as u16) << 8) | d as u16])
    };
    assert_eq!(denied(check_address_policy(mapped(127, 0, 0, 1))), "loopback addresses are not permitted");
    assert_eq!(denied(check_address_policy(mapped(224, 0, 0, 251))), "multicast addresses are not permitted");
    assert_eq!(
        denied(check_address_policy(mapped(10, 0, 0, 1))),
        "private RFC-1918/4193 addresses blocked by default policy"
    );
    assert_eq!(
        denied(check_address_policy(mapped(192, 168, 1, 1))),
        "private RFC-1918/4193 addresses blocked by default policy"
    );
    assert!(check_address_policy(mapped(8, 8, 8, 8)).is_ok());
    // Only the ::ffff: form is unwrapped; ::7f00:1 is a plain IPv6 address.
    assert!(check_address_policy(v6([0, 0, 0, 0, 0, 0, 0x7f00, 1])).is_ok());
    let r = request("::ffff:127.0.0.1", vec![80], None);
    assert_eq!(
        plan_scan(&r, Some(mapped(127, 0, 0, 1))).unwrap_err(),
        "permission denied: loopback addresses are not permitted"
    );
    let r = request("::ffff:10.0.0.1", vec![80], None);
    assert!(plan_scan(&r, Some(mapped(10, 0, 0, 1))).is_err());
}
