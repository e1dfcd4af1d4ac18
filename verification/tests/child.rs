use ezexec::child::capturing_drain_failure;
use ezexec::child::capturing_wait_verdict;
use ezexec::child::code_text;
use ezexec::child::stdout_to_string;
use ezexec::child::transparent_wait_verdict;
use ezexec::ChildState;
use ezexec::ExitInfo;
use ezexec::error::ErrorKind;

#[test]
fn exit_info_success_is_exactly_code_zero() {
    assert!(ExitInfo::new(Some(0)).success);
    assert!(!ExitInfo::new(Some(3)).success);
    assert!(!ExitInfo::new(None).success);
}

#[test]
fn record_poll_reports_running_until_an_exit_is_seen() {
    let mut state = ChildState::new_captured();
    assert!(state.record_poll(None));
    assert!(state.exit_status.is_none());
    assert!(!state.record_poll(Some(ExitInfo::new(Some(0)))));
    assert!(state.exit_status.is_some());
}

#[test]
fn record_poll_memoizes_the_first_observed_status() {
    let mut state = ChildState::new_captured();
    assert!(!state.record_poll(Some(ExitInfo::new(Some(7)))));
    // A later poll answer is ignored: the terminal status is kept.
    assert!(!state.record_poll(Some(ExitInfo::new(Some(0)))));
    assert_eq!(state.exit_status.unwrap().code, Some(7));
    assert!(!state.record_poll(None));
    assert_eq!(state.exit_status.unwrap().code, Some(7));
}

#[test]
fn close_stdin_is_idempotent_and_only_touches_stdin() {
    let mut state = ChildState::new_captured();
    state.close_stdin();
    assert!(!state.stdin_open);
    assert!(state.stdout_open);
    assert!(state.stderr_open);
    state.close_stdin();
    assert!(!state.stdin_open);
}

#[test]
fn closed_stdin_refuses_writes_instead_of_blocking() {
    let mut state = ChildState::new_captured();
    assert!(state.can_write());
    state.close_stdin();
    assert!(!state.can_write());
    assert!(state.can_read());
    state.close_stdout();
    assert!(!state.can_read());
}

#[test]
fn capturing_wait_succeeds_on_success() {
    let status = ExitInfo::new(Some(0));
    assert!(capturing_wait_verdict(&status, b"ignored").is_ok());
}

#[test]
fn capturing_wait_failure_mentions_stderr_and_code() {
    let status = ExitInfo::new(Some(42));
    let err = capturing_wait_verdict(&status, b"boom: kaput").unwrap_err();
    assert_eq!(err.kind, ErrorKind::ChildError);
    assert!(err.message.contains("boom: kaput"));
    assert!(err.message.contains("42"));
    assert_eq!(
        err.message.as_str(),
        "Child process failed (exit code: 42): boom: kaput"
    );
}

#[test]
fn capturing_wait_failure_without_code_says_unknown() {
    let status = ExitInfo::new(None);
    let err = capturing_wait_verdict(&status, b"signalled").unwrap_err();
    assert_eq!(err.kind, ErrorKind::ChildError);
    assert_eq!(
        err.message.as_str(),
        "Child process failed (exit code: unknown): signalled"
    );
}

#[test]
fn failed_stderr_drain_nests_the_error_beside_the_exit_code() {
    let status = ExitInfo::new(Some(13));
    let err = capturing_drain_failure(&status, "pipe vanished");
    assert_eq!(err.kind, ErrorKind::ChildError);
    assert!(err.message.contains("13"));
    assert!(err.message.contains("pipe vanished"));
    assert_eq!(
        err.message.as_str(),
        "Child process failed (exit code: 13); in addition, reading its stderr failed (pipe vanished)"
    );
}

#[test]
fn transparent_wait_failure_carries_only_the_code() {
    let status = ExitInfo::new(Some(7));
    let err = transparent_wait_verdict(&status).unwrap_err();
    assert_eq!(err.kind, ErrorKind::ExecError);
    assert_eq!(err.message.as_str(), "Child process failed (exit code: 7)");
}

#[test]
fn transparent_wait_succeeds_on_success() {
    let status = ExitInfo::new(Some(0));
    assert!(transparent_wait_verdict(&status).is_ok());
}

#[test]
fn stdout_round_trips_to_text() {
    let bytes: Vec<u8> = b"hello world\n".to_vec();
    let s = stdout_to_string(bytes).expect("valid text");
    assert_eq!(s.as_str(), "hello world\n");
}

#[test]
fn stdout_that_is_not_text_fails_with_child_error() {
    let bytes: Vec<u8> = vec![0xff, 0xfe, 0x00, 0x9f];
    let err = stdout_to_string(bytes).unwrap_err();
    assert_eq!(err.kind, ErrorKind::ChildError);
}

#[test]
fn code_text_renders_decimal_or_unknown() {
    assert_eq!(code_text(Some(0)).as_str(), "0");
    assert_eq!(code_text(Some(190)).as_str(), "190");
    assert_eq!(code_text(Some(-17)).as_str(), "-17");
    assert_eq!(code_text(Some(i32::MIN)).as_str(), "-2147483648");
    assert_eq!(code_text(None).as_str(), "unknown");
}
