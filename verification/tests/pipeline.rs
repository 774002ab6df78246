use pathtrace::CommandCandidate;
use pathtrace::ExecutionOutcome;
use pathtrace::OsId;
use pathtrace::candidates_for;
use pathtrace::coordinate;
use pathtrace::coordinator_step;
use pathtrace::is_valid_target;
use pathtrace::normalize;
use pathtrace::plan_invocation;

const INVALID_TARGET_MSG: &str = "Invalid target: must contain only letters, digits, dots, dashes, colons, and underscores. Max 255 characters.";

#[test]
fn validator_accepts_hosts_and_addresses() {
    assert!(is_valid_target("8.8.8.8"));
    assert!(is_valid_target("example.com"));
    assert!(is_valid_target("localhost"));
    assert!(is_valid_target("::1"));
    assert!(is_valid_target("fe80::1"));
    assert!(is_valid_target("my_host-1.example.com"));
    assert!(is_valid_target("A"));
    assert!(is_valid_target("."));
    assert!(is_valid_target("-"));
    assert!(is_valid_target(":"));
    assert!(is_valid_target("_"));
}

#[test]
fn validator_length_bounds() {
    assert!(!is_valid_target(""));
    assert!(is_valid_target(&"a".repeat(255)));
    assert!(!is_valid_target(&"a".repeat(256)));
}

#[test]
fn validator_rejects_characters_outside_the_set() {
    assert!(!is_valid_target("my host"));
    assert!(!is_valid_target("a/b"));
    assert!(!is_valid_target("8.8.8.8;ls"));
    assert!(!is_valid_target("$(reboot)"));
    assert!(!is_valid_target("a|b"));
    assert!(!is_valid_target("h\u{e9}llo"));
    // neighbours of the accepted ASCII ranges
    assert!(!is_valid_target("/"));
    assert!(!is_valid_target("@"));
    assert!(!is_valid_target("["));
    assert!(!is_valid_target("`"));
    assert!(!is_valid_target("{"));
}

fn candidate_parts(c: &CommandCandidate) -> (&str, Vec<&str>) {
    (c.executable.as_str(), c.args.iter().map(|a| a.as_str()).collect())
}

#[test]
fn windows_resolves_to_tracert_alone() {
    let cs = candidates_for(OsId::Windows, "8.8.8.8");
    assert_eq!(cs.len(), 1);
    let (exe, args) = candidate_parts(&cs[0]);
    assert_eq!(exe, "tracert");
    assert_eq!(args, vec!["-d", "8.8.8.8"]);
}

#[test]
fn unix_resolves_to_traceroute_then_tracepath() {
    let cs = candidates_for(OsId::UnixLike, "example.com");
    assert_eq!(cs.len(), 2);
    let (exe0, args0) = candidate_parts(&cs[0]);
    assert_eq!(exe0, "traceroute");
    assert_eq!(args0, vec!["example.com"]);
    let (exe1, args1) = candidate_parts(&cs[1]);
    assert_eq!(exe1, "tracepath");
    assert_eq!(args1, vec!["example.com"]);
}

#[test]
fn coordinator_advances_only_on_spawn_failure() {
    let spawn_failed = ExecutionOutcome::SpawnFailed("not found".to_string());
    let failed = ExecutionOutcome::FailedNonZero("unreachable".to_string());
    let succeeded = ExecutionOutcome::Succeeded("hops".to_string());
    assert_eq!(coordinator_step(0, 2, &spawn_failed), Some(1));
    assert_eq!(coordinator_step(0, 2, &failed), None);
    assert_eq!(coordinator_step(0, 2, &succeeded), None);
    assert_eq!(coordinator_step(0, 2, &ExecutionOutcome::TimedOut), None);
    // the last candidate's spawn failure is terminal
    assert_eq!(coordinator_step(1, 2, &spawn_failed), None);
    // a single-candidate list, as on Windows, never falls back
    assert_eq!(coordinator_step(0, 1, &spawn_failed), None);
}

#[test]
fn coordination_runs_second_candidate_after_spawn_failure() {
    let outcomes = vec![
        ExecutionOutcome::SpawnFailed("traceroute missing".to_string()),
        ExecutionOutcome::Succeeded("trace text".to_string()),
    ];
    assert_eq!(coordinate(&outcomes), 1);
}

#[test]
fn coordination_stops_on_non_zero_exit() {
    let outcomes = vec![
        ExecutionOutcome::FailedNonZero("unreachable".to_string()),
        ExecutionOutcome::Succeeded("never ran".to_string()),
    ];
    assert_eq!(coordinate(&outcomes), 0);
}

#[test]
fn coordination_exhausts_spawn_failures() {
    let outcomes = vec![
        ExecutionOutcome::SpawnFailed("traceroute missing".to_string()),
        ExecutionOutcome::SpawnFailed("tracepath missing".to_string()),
    ];
    assert_eq!(coordinate(&outcomes), 1);
}

#[test]
fn normalize_success_returns_stdout_verbatim() {
    let text = " 1  gateway  0.5 ms\n 2  8.8.8.8  9.1 ms\n";
    let r = normalize(OsId::UnixLike, ExecutionOutcome::Succeeded(text.to_string()));
    assert_eq!(r, Ok(text.to_string()));
}

#[test]
fn normalize_non_zero_exit_carries_stderr() {
    let r = normalize(
        OsId::UnixLike,
        ExecutionOutcome::FailedNonZero("Name or service not known\n".to_string()),
    );
    assert_eq!(
        r,
        Err("Traceroute failed: Name or service not known\n".to_string())
    );
}

#[test]
fn normalize_spawn_failure_names_the_platform_tools() {
    let cause = "No such file or directory (os error 2)";
    let w = normalize(OsId::Windows, ExecutionOutcome::SpawnFailed(cause.to_string()));
    assert_eq!(
        w,
        Err(format!("Failed to execute tracert: {}", cause))
    );
    let u = normalize(OsId::UnixLike, ExecutionOutcome::SpawnFailed(cause.to_string()));
    assert_eq!(
        u,
        Err(format!("Failed to execute traceroute or tracepath: {}", cause))
    );
}

#[test]
fn normalize_timeout_has_fixed_message() {
    let r = normalize(OsId::Windows, ExecutionOutcome::TimedOut);
    assert_eq!(
        r,
        Err("Traceroute command timed out after 30 seconds".to_string())
    );
}

#[test]
fn plan_rejects_empty_target() {
    let r = plan_invocation(OsId::UnixLike, "");
    assert_eq!(r.err().map(|e| e.to_string()), Some(INVALID_TARGET_MSG.to_string()));
}

#[test]
fn plan_rejects_oversized_target() {
    let long = "a1".repeat(150);
    assert_eq!(long.len(), 300);
    let r = plan_invocation(OsId::UnixLike, &long);
    assert_eq!(r.err().map(|e| e.to_string()), Some(INVALID_TARGET_MSG.to_string()));
}

#[test]
fn plan_accepts_and_lists_candidates() {
    let r = plan_invocation(OsId::UnixLike, "10.0.0.1").expect("valid target");
    assert_eq!(r.len(), 2);
    let (exe, args) = candidate_parts(&r[0]);
    assert_eq!((exe, args), ("traceroute", vec!["10.0.0.1"]));
}

#[test]
fn pipeline_reports_exhausted_tools() {
    // a host lacking both Unix tools: every candidate fails to spawn
    let candidates = plan_invocation(OsId::UnixLike, "10.0.0.1").expect("valid target");
    let outcomes: Vec<ExecutionOutcome> = candidates
        .iter()
        .map(|_| ExecutionOutcome::SpawnFailed("No such file or directory (os error 2)".to_string()))
        .collect();
    let last = coordinate(&outcomes);
    assert_eq!(last, outcomes.len() - 1);
    let r = normalize(
        OsId::UnixLike,
        ExecutionOutcome::SpawnFailed("No such file or directory (os error 2)".to_string()),
    );
    assert_eq!(
        r,
        Err("Failed to execute traceroute or tracepath: No such file or directory (os error 2)"
            .to_string())
    );
}

#[test]
fn pipeline_passes_successful_output_through() {
    let candidates = plan_invocation(OsId::UnixLike, "localhost").expect("valid target");
    assert_eq!(candidates.len(), 2);
    let stdout = "traceroute to localhost (127.0.0.1), 30 hops max\n 1  localhost  0.04 ms\n";
    let outcomes = vec![ExecutionOutcome::Succeeded(stdout.to_string())];
    assert_eq!(coordinate(&outcomes), 0);
    let r = normalize(OsId::UnixLike, ExecutionOutcome::Succeeded(stdout.to_string()));
    assert_eq!(r, Ok(stdout.to_string()));
}

#[test]
fn deadline_is_thirty_seconds() {
    assert_eq!(pathtrace::DEADLINE_SECS, 30);
}
