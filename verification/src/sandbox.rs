//! Ephemeral container orchestration for sandboxed tool execution.
//!
//! Tools run inside short-lived Podman/Docker containers rather than
//! directly on the host, with a separate network namespace, a read-only
//! root filesystem, all Linux capabilities dropped, hard memory and CPU
//! limits, and automatic removal on exit. This module decides the runtime
//! and the exact argument vector; the application shell runs it.

use vstd::prelude::*;
use crate::error::{is_parse_error, is_sandbox_error, AegisError, AegisResult};
use crate::recon::{exit_failure_message, exit_failure_text};
use crate::text::{decimal, decode_utf8, lossy_utf8, push_decimal};

verus! {

/// How the container reaches the network.
#[derive(Debug, Clone)]
pub enum NetworkMode {
    /// No network at all.
    NoNetwork,
    /// The named bridge network only.
    Bridge(String),
}

/// The container the tools run in.
#[derive(Debug, Clone)]
pub struct SandboxConfig {
    pub image: String,
    pub network_mode: NetworkMode,
    pub memory_limit_mb: u64,
    pub cpu_shares: u64,
}

impl Default for SandboxConfig {
    /// The `aegisforge-sandbox:latest` image on the `aegisforge-net` bridge,
    /// with 512 MB of memory and 512 CPU shares.
    fn default() -> (c: Self)
        ensures
            c.image@ == "aegisforge-sandbox:latest"@,
            c.network_mode matches NetworkMode::Bridge(n) && n@ == "aegisforge-net"@,
            c.memory_limit_mb == 512,
            c.cpu_shares == 512,
    {
        SandboxConfig {
            image: String::from_str("aegisforge-sandbox:latest"),
            network_mode: NetworkMode::Bridge(String::from_str("aegisforge-net")),
            memory_limit_mb: 512,
            cpu_shares: 512,
        }
    }
}

/// The runtime flag for a network mode.
pub open spec fn network_flag(m: NetworkMode) -> Seq<char> {
    match m {
        NetworkMode::NoNetwork => "--network=none"@,
        NetworkMode::Bridge(name) => "--network="@ + name@,
    }
}

impl NetworkMode {
    /// The runtime flag for this network mode.
    pub fn as_flag(&self) -> (f: String)
        ensures
            f@ == network_flag(*self),
    {
        match self {
            NetworkMode::NoNetwork => String::from_str("--network=none"),
            NetworkMode::Bridge(name) => {
                let mut f = String::from_str("--network=");
                f.append(name.as_str());
                f
            },
        }
    }
}

/// The characters of each string.
pub open spec fn strings_view(v: Seq<String>) -> Seq<Seq<char>> {
    v.map_values(|s: String| s@)
}

/// The hardening flags and resource limits that every container run gets,
/// followed by the image and the command to run in it.
pub open spec fn run_prefix(c: SandboxConfig, command: Seq<char>) -> Seq<Seq<char>> {
    seq![
        "run"@,
        "--rm"@,
        "--read-only"@,
        "--cap-drop=ALL"@,
        "--security-opt=no-new-privileges"@,
        "--no-new-privileges"@,
        "--memory="@ + decimal(c.memory_limit_mb as nat) + "m"@,
        "--cpu-shares="@ + decimal(c.cpu_shares as nat),
        network_flag(c.network_mode),
        c.image@,
        command,
    ]
}

/// The runtime's full argument vector: the fixed prefix, then each tool
/// argument as a token of its own.
pub open spec fn run_args_spec(c: SandboxConfig, command: Seq<char>, args: Seq<Seq<char>>) -> Seq<Seq<char>> {
    run_prefix(c, command) + args
}

impl SandboxConfig {
    /// The argument vector for running `command args` in this container:
    /// discrete tokens, no shell, no quoting, no string concatenation of
    /// caller-supplied values.
    pub fn run_args(&self, command: &str, args: &Vec<String>) -> (r: Vec<String>)
        ensures
            strings_view(r@) == run_args_spec(*self, command@, strings_view(args@)),
    {
        let mut r: Vec<String> = Vec::new();
        r.push(String::from_str("run"));
        r.push(String::from_str("--rm"));
        r.push(String::from_str("--read-only"));
        r.push(String::from_str("--cap-drop=ALL"));
        r.push(String::from_str("--security-opt=no-new-privileges"));
        r.push(String::from_str("--no-new-privileges"));
        let mut memory = String::from_str("--memory=");
        push_decimal(&mut memory, self.memory_limit_mb);
        memory.append("m");
        r.push(memory);
        let mut cpu = String::from_str("--cpu-shares=");
        push_decimal(&mut cpu, self.cpu_shares);
        r.push(cpu);
        r.push(self.network_mode.as_flag());
        r.push(self.image.clone());
        r.push(String::from_str(command));
        assert(strings_view(r@) =~= run_prefix(*self, command@));
        let ghost prefix = r@;
        let mut i: usize = 0;
        while i < args.len()
            invariant
                i <= args@.len(),
                r@.len() == prefix.len() + i,
                strings_view(r@) == run_prefix(*self, command@) + strings_view(args@.take(i as int)),
            decreases args@.len() - i,
        {
            let ghost before = r@;
            let a = args[i].clone();
            r.push(a);
            assert(strings_view(r@) =~= strings_view(before).push(args@[i as int]@));
            assert(strings_view(args@.take(i + 1)) =~= strings_view(args@.take(i as int)).push(args@[i as int]@));
            assert(strings_view(r@) =~= run_prefix(*self, command@) + strings_view(args@.take(i + 1)));
            i += 1;
        }
        assert(args@.take(args@.len() as int) =~= args@);
        r
    }
}

/// The hardening prefix does not depend on the tool arguments, and the
/// tool arguments come only after the image and the command, each as one
/// token: a caller-supplied argument can never become a runtime option.
pub proof fn lemma_args_cannot_reach_runtime(c: SandboxConfig, command: Seq<char>, args: Seq<Seq<char>>)
    ensures
        run_args_spec(c, command, args).len() == 11 + args.len(),
        run_args_spec(c, command, args).subrange(0, 11) == run_prefix(c, command),
        run_args_spec(c, command, args).subrange(11, 11 + args.len() as int) == args,
        run_args_spec(c, command, args)[3] == "--cap-drop=ALL"@,
        run_args_spec(c, command, args)[9] == c.image@,
        run_args_spec(c, command, args)[10] == command,
{
    let a = run_args_spec(c, command, args);
    assert(a.subrange(0, 11) =~= run_prefix(c, command));
    assert(a.subrange(11, 11 + args.len() as int) =~= args);
}

/// The outcome of a finished container run: its standard output as text
/// when it succeeded and the output is valid UTF-8; otherwise a sandbox
/// error (exit code and the head of the error output, decoded leniently)
/// or a parse error.
pub fn container_output(success: bool, exit_code: Option<i32>, stderr: &[u8], stdout: Vec<u8>) -> (r: AegisResult<String>)
    ensures
        !success ==> (r matches Err(e)
            && is_sandbox_error(e, "container exited "@ + exit_failure_text(exit_code, lossy_utf8(stderr@)))),
        success && vstd::utf8::valid_utf8(stdout@) ==> (r matches Ok(s) && s@ == vstd::utf8::decode_utf8(stdout@)),
        success && !vstd::utf8::valid_utf8(stdout@) ==> (r matches Err(e)
            && is_parse_error(e, crate::text::utf8_error_text(stdout@))),
{
    if !success {
        return Err(AegisError::SandboxError(exit_failure_message("container exited ", exit_code, stderr)));
    }
    match decode_utf8(stdout) {
        Ok(s) => Ok(s),
        Err(m) => Err(AegisError::Parse(m)),
    }
}

/// The places where a container runtime is looked for, in order of
/// preference: Podman first (rootless, no daemon), then Docker.
pub open spec fn runtime_candidate_paths() -> Seq<Seq<char>> {
    seq![
        "/usr/bin/podman"@,
        "/usr/local/bin/podman"@,
        "/opt/homebrew/bin/podman"@,
        "/usr/bin/docker"@,
        "/usr/local/bin/docker"@,
    ]
}

/// The candidate runtime paths, in order of preference.
pub fn runtime_candidates() -> (v: Vec<&'static str>)
    ensures
        v@.len() == runtime_candidate_paths().len(),
        forall|i: int| 0 <= i < v@.len() ==> (#[trigger] v@[i])@ == runtime_candidate_paths()[i],
{
    let mut v: Vec<&'static str> = Vec::new();
    v.push("/usr/bin/podman");
    v.push("/usr/local/bin/podman");
    v.push("/opt/homebrew/bin/podman");
    v.push("/usr/bin/docker");
    v.push("/usr/local/bin/docker");
    v
}

/// Candidate `i` was found to exist.
pub open spec fn candidate_found(found: Seq<bool>, i: int) -> bool {
    0 <= i < found.len() && found[i]
}

/// The message when no runtime is installed.
pub open spec fn no_runtime_message() -> Seq<char> {
    "no container runtime found — install Podman (preferred) or Docker"@
}

/// Picks the container runtime: the first candidate, in order of
/// preference, that `found` reports as existing (`found[i]` for candidate
/// `i`; a missing entry counts as not found).
pub fn locate_runtime(found: &[bool]) -> (r: AegisResult<String>)
    ensures
        r matches Ok(p) ==> exists|i: int| 0 <= i < runtime_candidate_paths().len()
            && candidate_found(found@, i) && p@ == runtime_candidate_paths()[i]
            && forall|j: int| 0 <= j < i ==> !candidate_found(found@, j),
        r is Err <==> forall|i: int| 0 <= i < runtime_candidate_paths().len() ==> !candidate_found(found@, i),
        r matches Err(e) ==> is_sandbox_error(e, no_runtime_message()),
{
    let candidates = runtime_candidates();
    let mut i: usize = 0;
    while i < candidates.len()
        invariant
            candidates@.len() == runtime_candidate_paths().len(),
            forall|k: int| 0 <= k < candidates@.len() ==> (#[trigger] candidates@[k])@ == runtime_candidate_paths()[k],
            i <= candidates@.len(),
            forall|j: int| 0 <= j < i ==> !candidate_found(found@, j),
        decreases candidates@.len() - i,
    {
        if i < found.len() && found[i] {
            let p = String::from_str(candidates[i]);
            assert(candidate_found(found@, i as int));
            return Ok(p);
        }
        i += 1;
    }
    Err(AegisError::SandboxError(
        String::from_str("no container runtime found — install Podman (preferred) or Docker"),
    ))
}

} // verus!

verus! {

/// One of the known Podman locations.
pub open spec fn is_podman_path(p: Seq<char>) -> bool {
    p == "/usr/bin/podman"@ || p == "/usr/local/bin/podman"@ || p == "/opt/homebrew/bin/podman"@
}

/// One of the known Docker locations.
pub open spec fn is_docker_path(p: Seq<char>) -> bool {
    p == "/usr/bin/docker"@ || p == "/usr/local/bin/docker"@
}

/// The candidates are the three Podman locations, `/usr/bin/podman` first,
/// followed by the two Docker locations: every Podman candidate comes
/// before every Docker candidate.
pub proof fn lemma_podman_candidates_first()
    ensures
        runtime_candidate_paths().len() == 5,
        runtime_candidate_paths()[0] == "/usr/bin/podman"@,
        forall|i: int| 0 <= i < 3 ==> is_podman_path(#[trigger] runtime_candidate_paths()[i]),
        forall|i: int| 3 <= i < 5 ==> is_docker_path(#[trigger] runtime_candidate_paths()[i]),
        forall|i: int, j: int| 0 <= i < j < 5 && #[trigger] is_podman_path(runtime_candidate_paths()[j])
            ==> !#[trigger] is_docker_path(runtime_candidate_paths()[i]),
{
    reveal_strlit("/usr/bin/podman");
    reveal_strlit("/usr/local/bin/podman");
    reveal_strlit("/opt/homebrew/bin/podman");
    reveal_strlit("/usr/bin/docker");
    reveal_strlit("/usr/local/bin/docker");
    assert("/usr/bin/podman"@[9] != "/usr/bin/docker"@[9]);
    assert("/usr/local/bin/podman"@[15] != "/usr/local/bin/docker"@[15]);
    assert("/opt/homebrew/bin/podman"@.len() != "/usr/bin/docker"@.len());
    assert("/opt/homebrew/bin/podman"@.len() != "/usr/local/bin/docker"@.len());
    assert("/usr/bin/podman"@.len() != "/usr/local/bin/docker"@.len());
    assert("/usr/local/bin/podman"@.len() != "/usr/bin/docker"@.len());
}

/// Podman is preferred: when any Podman candidate is installed, the
/// runtime picked (the first installed candidate) is a Podman one, so
/// Docker is picked only when no Podman is found.
pub proof fn lemma_installed_podman_is_preferred(found: Seq<bool>, i: int, j: int)
    requires
        0 <= i < runtime_candidate_paths().len(),
        candidate_found(found, i),
        forall|k: int| 0 <= k < i ==> !candidate_found(found, k),
        0 <= j < runtime_candidate_paths().len(),
        candidate_found(found, j),
        is_podman_path(runtime_candidate_paths()[j]),
    ensures
        is_podman_path(runtime_candidate_paths()[i]),
{
    lemma_podman_candidates_first();
    assert(i <= j);
    if i < j {
        assert(!is_docker_path(runtime_candidate_paths()[i]));
        assert(i < 3 || i >= 3);
        if i >= 3 {
            assert(is_docker_path(runtime_candidate_paths()[i]));
        }
    }
}

} // verus!
