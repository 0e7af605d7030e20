use std::cell::Cell;

use starship_ffi::ffi::{
    guard_fork, ssp_init, ssp_out_stats, ssp_render, ssp_render_input, ssp_shutdown, ssp_stats,
    FfiError, PromptTarget, RenderProperties, SessionHost,
};

const PID: u32 = 4242;
const CHILD_PID: u32 = 4343;

/// A stand-in for the prompt session: it counts renders and echoes what it
/// was asked to render.
struct MockSession {
    renders: Cell<u64>,
}

fn make_session() -> Result<MockSession, String> {
    Ok(MockSession { renders: Cell::new(0) })
}

fn render_mock(
    session: &MockSession,
    props: RenderProperties,
    target: PromptTarget,
) -> Result<String, String> {
    session.renders.set(session.renders.get() + 1);
    Ok(format!(
        "{:?} status={:?} pipestatus={:?} keymap={} ❯ ",
        target, props.status_code, props.pipestatus, props.keymap
    ))
}

fn snapshot(session: &MockSession) -> ssp_out_stats {
    let mut stats = ssp_out_stats::default();
    stats.renders = session.renders.get();
    stats
}

fn create_session(host: &mut SessionHost<MockSession>) {
    if let Err(e) = ssp_init(host, PID, make_session) {
        panic!("session creation failed: {}", e.message());
    }
}

fn destroy_session(host: &mut SessionHost<MockSession>) {
    if let Err(e) = ssp_shutdown(host, PID) {
        panic!("session destruction failed: {}", e.message());
    }
}

fn main_input() -> ssp_render_input {
    ssp_render_input {
        status: None,
        pipestatus: None,
        terminal_width: 80,
        path: None,
        logical_path: None,
        cmd_duration: None,
        keymap: None,
        jobs: 0,
        shlvl: -1,
        target: 0,
    }
}

fn render_text(host: &SessionHost<MockSession>, input: &ssp_render_input) -> String {
    let mut out: Option<String> = None;
    if let Err(e) = ssp_render(host, PID, Some(input), Some(&mut out), render_mock) {
        panic!("render failed: {}", e.message());
    }
    out.expect("output should be non-null")
}

#[test]
fn test_session_lifecycle() {
    let mut host = SessionHost::new();
    create_session(&mut host);
    destroy_session(&mut host);
}

#[test]
fn test_create_twice_errors() {
    let mut host = SessionHost::new();
    create_session(&mut host);
    let err = ssp_init(&mut host, PID, make_session);
    assert!(err.is_ok(), "second create should not return an error");
    destroy_session(&mut host);
}

#[test]
fn test_render_before_create_errors() {
    let host: SessionHost<MockSession> = SessionHost::new();
    let mut out: Option<String> = Some("stale".to_string());
    let err = ssp_render(&host, PID, Some(&main_input()), Some(&mut out), render_mock);
    assert!(err.is_err(), "render without session should error");
    assert!(out.is_none(), "failed render should clear *out");
    assert_eq!(err.unwrap_err().message(), "session is not initialized");

    let mut stats = ssp_out_stats::default();
    let err = ssp_stats(&host, PID, Some(&mut stats), snapshot);
    assert!(err.is_err(), "stats without session should error");
    assert_eq!(err.unwrap_err().message(), "session is not initialized");
}

#[test]
fn test_destroy_is_idempotent() {
    let mut host: SessionHost<MockSession> = SessionHost::new();
    let err = ssp_shutdown(&mut host, PID);
    assert!(err.is_ok(), "destroy without session should be a no-op");

    create_session(&mut host);
    destroy_session(&mut host);

    let err = ssp_shutdown(&mut host, PID);
    assert!(err.is_ok(), "second destroy should be a no-op");
    assert!(err.unwrap().is_none());
}

#[test]
fn test_render_main_prompt() {
    let mut host = SessionHost::new();
    create_session(&mut host);
    let input = ssp_render_input { status: Some(b"0".to_vec()), ..main_input() };
    let output = render_text(&host, &input);
    assert!(!output.is_empty(), "output should not be empty");
    assert_eq!(output, "Main status=Some(\"0\") pipestatus=None keymap=viins ❯ ");
    destroy_session(&mut host);
}

#[test]
fn test_render_right_prompt() {
    let mut host = SessionHost::new();
    create_session(&mut host);
    let input = ssp_render_input { target: 1, ..main_input() };
    let mut out: Option<String> = None;
    if let Err(e) = ssp_render(&host, PID, Some(&input), Some(&mut out), render_mock) {
        panic!("right prompt render failed: {}", e.message());
    }
    assert!(out.unwrap().starts_with("Right "));
    destroy_session(&mut host);
}

#[test]
fn test_render_null_args() {
    let mut host = SessionHost::new();
    create_session(&mut host);
    let mut out: Option<String> = Some("stale".to_string());
    let err = ssp_render(&host, PID, None, Some(&mut out), render_mock);
    assert!(err.is_err(), "null input should return an error");
    assert!(out.is_none(), "failed render should clear *out");
    let msg = err.unwrap_err().message();
    assert!(msg.contains("null argument"), "unexpected error: {msg}");
    destroy_session(&mut host);
}

#[test]
fn test_render_null_out() {
    let mut host = SessionHost::new();
    create_session(&mut host);
    let err = ssp_render(&host, PID, Some(&main_input()), None, render_mock);
    assert!(err.is_err(), "null out should return an error");
    assert_eq!(err.unwrap_err().message(), "null argument");
    destroy_session(&mut host);
}

#[test]
fn test_stats() {
    let mut host = SessionHost::new();
    create_session(&mut host);
    let input = main_input();
    let _ = render_text(&host, &input);

    let mut stats = ssp_out_stats::default();
    if let Err(e) = ssp_stats(&host, PID, Some(&mut stats), snapshot) {
        panic!("stats failed: {}", e.message());
    }
    assert!(stats.renders > 0, "should have at least one render");
    destroy_session(&mut host);
}

#[test]
fn test_pipestatus() {
    let mut host = SessionHost::new();
    create_session(&mut host);
    let input = ssp_render_input {
        status: Some(b"0".to_vec()),
        pipestatus: Some(vec![Some(b"0".to_vec()), Some(b"1".to_vec())]),
        ..main_input()
    };
    let output = render_text(&host, &input);
    assert!(output.contains("pipestatus=Some([\"0\", \"1\"])"));
    destroy_session(&mut host);
}

#[test]
fn test_cache_hit_across_renders() {
    let mut host = SessionHost::new();
    create_session(&mut host);
    let input = main_input();
    let first_output = render_text(&host, &input);
    let second_output = render_text(&host, &input);
    assert_eq!(
        first_output, second_output,
        "consecutive renders in same directory should produce same output"
    );
    destroy_session(&mut host);
}

#[test]
fn test_recreate_resets_state() {
    let mut host = SessionHost::new();
    let input = main_input();

    create_session(&mut host);
    let _ = render_text(&host, &input);
    let mut stats = ssp_out_stats::default();
    if let Err(e) = ssp_stats(&host, PID, Some(&mut stats), snapshot) {
        panic!("stats failed: {}", e.message());
    }
    assert!(stats.renders > 0, "first session should have rendered");
    destroy_session(&mut host);

    // No session after destroy.
    let mut out: Option<String> = None;
    let err = ssp_render(&host, PID, Some(&input), Some(&mut out), render_mock);
    assert!(err.is_err(), "render after destroy should error");

    // Recreate: statistics and caches must start from zero.
    create_session(&mut host);
    let mut stats = ssp_out_stats::default();
    if let Err(e) = ssp_stats(&host, PID, Some(&mut stats), snapshot) {
        panic!("stats failed after recreate: {}", e.message());
    }
    assert_eq!(stats.renders, 0, "new session must start with zero renders");

    let _ = render_text(&host, &input);
    if let Err(e) = ssp_stats(&host, PID, Some(&mut stats), snapshot) {
        panic!("stats failed after recreate render: {}", e.message());
    }
    assert_eq!(stats.renders, 1, "new session should count new renders");
    destroy_session(&mut host);
}

// ---------------------------------------------------------------------------
// Further cases of the lifecycle
// ---------------------------------------------------------------------------

#[test]
fn forked_child_is_refused_everywhere() {
    let mut host = SessionHost::new();
    create_session(&mut host);
    assert_eq!(host.owner_pid(), PID);

    let err = ssp_init(&mut host, CHILD_PID, make_session).unwrap_err();
    assert!(matches!(err, FfiError::ForkedChild));
    assert_eq!(err.message(), "refusing call in forked child process");

    let mut out: Option<String> = Some("stale".to_string());
    let err = ssp_render(&host, CHILD_PID, Some(&main_input()), Some(&mut out), render_mock);
    assert!(matches!(err, Err(FfiError::ForkedChild)));
    assert!(out.is_none());

    let mut stats = ssp_out_stats::default();
    stats.renders = 7;
    let err = ssp_stats(&host, CHILD_PID, Some(&mut stats), snapshot);
    assert!(matches!(err, Err(FfiError::ForkedChild)));
    assert_eq!(stats.renders, 7, "a refused call leaves the slot alone");

    let err = ssp_shutdown(&mut host, CHILD_PID);
    assert!(matches!(err, Err(FfiError::ForkedChild)));
    assert!(host.is_active(), "the child must not tear the session down");
    assert_eq!(host.owner_pid(), PID);

    destroy_session(&mut host);
    assert_eq!(host.owner_pid(), 0);
    // Without a session no process is refused.
    assert!(ssp_init(&mut host, CHILD_PID, make_session).is_ok());
    assert_eq!(host.owner_pid(), CHILD_PID);
}

#[test]
fn guard_fork_cases() {
    assert!(guard_fork(0, 5).is_ok());
    assert!(guard_fork(5, 5).is_ok());
    assert!(matches!(guard_fork(5, 6), Err(FfiError::ForkedChild)));
}

#[test]
fn failed_creation_leaves_no_session() {
    let mut host: SessionHost<MockSession> = SessionHost::new();
    let err = ssp_init(&mut host, PID, || Err("config unreadable".to_string())).unwrap_err();
    assert!(matches!(err, FfiError::Failed(_)));
    assert_eq!(err.message(), "config unreadable");
    assert!(!host.is_active());
    assert_eq!(host.owner_pid(), 0);
    // A retry can succeed.
    create_session(&mut host);
    assert!(host.is_active());
}

#[test]
fn failed_render_reports_and_clears_slot() {
    let mut host = SessionHost::new();
    create_session(&mut host);
    let mut out: Option<String> = Some("stale".to_string());
    let err = ssp_render(&host, PID, Some(&main_input()), Some(&mut out), |_s: &MockSession, _p, _t| {
        Err("module timed out".to_string())
    });
    assert_eq!(err.unwrap_err().message(), "module timed out");
    assert!(out.is_none());
    destroy_session(&mut host);
}

#[test]
fn stats_without_out_slot() {
    let mut host = SessionHost::new();
    create_session(&mut host);
    let err = ssp_stats(&host, PID, None, snapshot);
    assert_eq!(err.unwrap_err().message(), "null argument");
    destroy_session(&mut host);
}

#[test]
fn shutdown_hands_back_the_session() {
    let mut host = SessionHost::new();
    create_session(&mut host);
    let _ = render_text(&host, &main_input());
    let taken = ssp_shutdown(&mut host, PID).unwrap().expect("the session comes back");
    assert_eq!(taken.renders.get(), 1);
    assert!(!host.is_active());
}

#[test]
fn default_stats_are_zero() {
    let s = ssp_out_stats::default();
    assert_eq!(
        [
            s.config_hits, s.config_misses, s.repo_status_hits, s.repo_status_misses,
            s.git_repo_hits, s.git_repo_misses, s.git_metrics_hits, s.git_metrics_misses,
            s.dir_contents_hits, s.dir_contents_misses, s.binary_path_hits,
            s.binary_path_misses, s.renders,
        ],
        [0u64; 13]
    );
}

#[test]
fn error_messages() {
    assert_eq!(FfiError::NullArgument.message(), "null argument");
    assert_eq!(FfiError::NotInitialized.message(), "session is not initialized");
    assert_eq!(FfiError::ForkedChild.message(), "refusing call in forked child process");
    assert_eq!(FfiError::Failed("x: y".to_string()).message(), "x: y");
}
