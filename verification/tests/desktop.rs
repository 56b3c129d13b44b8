use aegisforge::error::AegisError;
use aegisforge::plugins::PluginInfo;
use aegisforge::sandbox::{container_output, locate_runtime, runtime_candidates, NetworkMode, SandboxConfig};
use aegisforge::state::{AppState, ScanStatus};
use aegisforge::text::{take_chars, trim_whitespace};

#[test]
fn fresh_state_has_no_scans() {
    let s = AppState::new();
    assert_eq!(s.get_status(), ScanStatus { active_scans: 0, total_completed: 0 });
}

#[test]
fn begin_then_end_completes_one_scan() {
    let mut s = AppState::new();
    s.begin_scan();
    s.begin_scan();
    assert_eq!(s.get_status(), ScanStatus { active_scans: 2, total_completed: 0 });
    s.end_scan();
    assert_eq!(s.get_status(), ScanStatus { active_scans: 1, total_completed: 1 });
    s.end_scan();
    assert_eq!(s.get_status(), ScanStatus { active_scans: 0, total_completed: 2 });
}

#[test]
fn end_without_begin_does_not_go_negative() {
    let mut s = AppState::new();
    s.end_scan();
    assert_eq!(s.get_status(), ScanStatus { active_scans: 0, total_completed: 1 });
}

#[test]
fn error_display_texts() {
    let cases = vec![
        (AegisError::InvalidTarget("a".to_string()), "invalid target: a"),
        (AegisError::ExecutionFailed("b".to_string()), "execution failed: b"),
        (AegisError::SandboxError("c".to_string()), "sandbox error: c"),
        (AegisError::Io("d".to_string()), "io error: d"),
        (AegisError::Parse("e".to_string()), "parse error: e"),
        (AegisError::PermissionDenied("f".to_string()), "permission denied: f"),
        (AegisError::SanitizationFailed("g".to_string()), "sanitization failed: g"),
    ];
    for (e, text) in cases {
        assert_eq!(e.to_string(), text);
    }
}

#[test]
fn default_sandbox_config() {
    let c = SandboxConfig::default();
    assert_eq!(c.image, "aegisforge-sandbox:latest");
    assert_eq!(c.memory_limit_mb, 512);
    assert_eq!(c.cpu_shares, 512);
    assert_eq!(c.network_mode.as_flag(), "--network=aegisforge-net");
}

#[test]
fn network_flags() {
    assert_eq!(NetworkMode::NoNetwork.as_flag(), "--network=none");
    assert_eq!(NetworkMode::Bridge("lab".to_string()).as_flag(), "--network=lab");
}

#[test]
fn run_args_are_hardened_tokens() {
    let c = SandboxConfig::default();
    let args = vec!["-sV".to_string(), "8.8.8.8; rm -rf /".to_string()];
    let r = c.run_args("nmap", &args);
    assert_eq!(
        r,
        vec![
            "run",
            "--rm",
            "--read-only",
            "--cap-drop=ALL",
            "--security-opt=no-new-privileges",
            "--no-new-privileges",
            "--memory=512m",
            "--cpu-shares=512",
            "--network=aegisforge-net",
            "aegisforge-sandbox:latest",
            "nmap",
            "-sV",
            "8.8.8.8; rm -rf /",
        ]
    );
    let isolated = SandboxConfig {
        image: "img".to_string(),
        network_mode: NetworkMode::NoNetwork,
        memory_limit_mb: 0,
        cpu_shares: 1234567,
    };
    let r = isolated.run_args("true", &Vec::new());
    assert_eq!(r[6], "--memory=0m");
    assert_eq!(r[7], "--cpu-shares=1234567");
    assert_eq!(r[8], "--network=none");
    assert_eq!(r.len(), 11);
}

#[test]
fn runtime_is_the_first_candidate_found() {
    assert_eq!(runtime_candidates()[0], "/usr/bin/podman");
    assert_eq!(locate_runtime(&[false, false, false, true, true]).unwrap(), "/usr/bin/docker");
    assert_eq!(locate_runtime(&[true, true, true, true, true]).unwrap(), "/usr/bin/podman");
    assert_eq!(locate_runtime(&[false, true]).unwrap(), "/usr/local/bin/podman");
    match locate_runtime(&[false, false, false, false, false, true]) {
        Err(AegisError::SandboxError(m)) => {
            assert_eq!(m, "no container runtime found — install Podman (preferred) or Docker")
        }
        other => panic!("{:?}", other),
    }
    assert!(locate_runtime(&[]).is_err());
}

#[test]
fn container_output_outcomes() {
    assert_eq!(container_output(true, Some(0), b"", b"ok".to_vec()).unwrap(), "ok");
    match container_output(false, Some(125), b"no such image", Vec::new()) {
        Err(AegisError::SandboxError(m)) => assert_eq!(m, "container exited Some(125): no such image"),
        other => panic!("{:?}", other),
    }
    match container_output(true, Some(0), b"", vec![0xc3]) {
        Err(AegisError::Parse(m)) => assert_eq!(m, "incomplete utf-8 byte sequence from index 0"),
        other => panic!("{:?}", other),
    }
}

#[test]
fn trimming_removes_unicode_whitespace() {
    assert_eq!(trim_whitespace("  \t1.2.3.4\r\n"), "1.2.3.4");
    assert_eq!(trim_whitespace("\u{a0}\u{3000}::1\u{2029}"), "::1");
    assert_eq!(trim_whitespace("   "), "");
    assert_eq!(trim_whitespace("a b"), "a b");
    assert_eq!(trim_whitespace("\u{200b}x"), "\u{200b}x");
}

#[test]
fn taking_characters() {
    assert_eq!(take_chars("h\u{e9}llo", 2), "h\u{e9}");
    assert_eq!(take_chars("hi", 10), "hi");
}

#[test]
fn plugin_info_holds_its_fields() {
    let p = PluginInfo { name: "recon", version: "0.2.0", description: "port scanning" };
    assert_eq!(p.name, "recon");
    assert_eq!(p.version, "0.2.0");
}
