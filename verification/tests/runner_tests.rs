use audio_quality::analyzer::limiter::ProcessLimiter;
use audio_quality::analyzer::runner::{
    conclude, conclude_timeout, next_action, preview, stderr_of_success, CommandError,
    CommandOutput, RunnerAction, STDERR_PREVIEW_CHARS,
};

#[test]
fn five_acquires_on_a_limit_of_two_leave_two_permits_out() {
    let mut limiter = ProcessLimiter::new(Some(2), 8);
    assert_eq!(limiter.capacity(), 2);
    let mut granted = 0;
    for _ in 0..5 {
        if limiter.try_acquire() {
            granted += 1;
        }
        assert!(limiter.outstanding() <= 2);
    }
    assert_eq!(granted, 2);
    assert_eq!(limiter.outstanding(), 2);
    assert!(limiter.release());
    assert_eq!(limiter.outstanding(), 1);
    assert!(limiter.try_acquire());
    assert!(!limiter.try_acquire());
    assert!(limiter.release());
    assert!(limiter.release());
    assert!(!limiter.release());
    assert_eq!(limiter.outstanding(), 0);
}

#[test]
fn the_limit_defaults_to_the_parallelism_and_is_at_least_one() {
    assert_eq!(ProcessLimiter::new(None, 6).capacity(), 6);
    assert_eq!(ProcessLimiter::new(Some(3), 6).capacity(), 3);
    assert_eq!(ProcessLimiter::new(Some(0), 6).capacity(), 1);
    assert_eq!(ProcessLimiter::new(None, 0).capacity(), 1);
    assert_eq!(ProcessLimiter::new(Some(usize::MAX), 1).capacity(), usize::MAX);
    let mut single = ProcessLimiter::new(None, 0);
    assert!(single.try_acquire());
    assert!(!single.try_acquire());
}

#[test]
fn the_runner_waits_kills_or_collects() {
    assert_eq!(next_action(false, 0, 1000), RunnerAction::Wait);
    assert_eq!(next_action(false, 1000, 1000), RunnerAction::Wait);
    assert_eq!(next_action(false, 1001, 1000), RunnerAction::Kill);
    assert_eq!(next_action(true, 0, 1000), RunnerAction::Collect);
    assert_eq!(next_action(true, 5000, 1000), RunnerAction::Collect);
    assert_eq!(next_action(false, 1, 0), RunnerAction::Kill);
}

#[test]
fn a_failed_reader_fails_the_run() {
    let ok = conclude(true, "exit status: 0".to_string(), Some("out".to_string()), Some("err".to_string()));
    assert_eq!(
        ok,
        Ok(CommandOutput {
            success: true,
            status: "exit status: 0".to_string(),
            stdout: "out".to_string(),
            stderr: "err".to_string(),
        })
    );
    assert_eq!(
        conclude(true, "exit status: 0".to_string(), None, Some("err".to_string())),
        Err(CommandError::Reader)
    );
    assert_eq!(
        conclude(false, "exit status: 1".to_string(), Some("out".to_string()), None),
        Err(CommandError::Reader)
    );
    assert_eq!(
        conclude_timeout(30_000, Some(String::new()), Some(String::new())),
        CommandError::Timeout { timeout_ms: 30_000 }
    );
    assert_eq!(conclude_timeout(30_000, None, Some(String::new())), CommandError::Reader);
}

#[test]
fn a_failure_status_gives_an_error_with_a_bounded_preview() {
    let long: String = "é".repeat(700);
    let failed = CommandOutput {
        success: false,
        status: "exit status: 1".to_string(),
        stdout: String::new(),
        stderr: long.clone(),
    };
    let error = stderr_of_success(failed).expect_err("failure");
    assert_eq!(
        error,
        CommandError::Exit {
            status: "exit status: 1".to_string(),
            stderr_preview: "é".repeat(500),
        }
    );
    assert_eq!(
        error.message(),
        format!("E_EXIT: command failed with status: exit status: 1. Stderr: {}", "é".repeat(500))
    );
    let succeeded = CommandOutput {
        success: true,
        status: "exit status: 0".to_string(),
        stdout: String::new(),
        stderr: long.clone(),
    };
    assert_eq!(stderr_of_success(succeeded), Ok(long));
    assert_eq!(STDERR_PREVIEW_CHARS, 500);
    assert_eq!(preview("short", 500), "short");
    assert_eq!(preview("abcdef", 3), "abc");
    assert_eq!(preview("abc", 3), "abc");
    assert_eq!(preview("abc", 0), "");
}

#[test]
fn every_runner_error_has_its_code_and_message() {
    let spawn = CommandError::Spawn { reason: "No such file".to_string() };
    assert_eq!(spawn.error_code(), "E_SPAWN");
    assert_eq!(spawn.message(), "E_SPAWN: could not start the command: No such file");
    let capture = CommandError::Capture { reason: "pipe closed".to_string() };
    assert_eq!(capture.error_code(), "E_CAPTURE");
    assert_eq!(
        capture.message(),
        "E_CAPTURE: could not capture the command's output: pipe closed"
    );
    let timeout = CommandError::Timeout { timeout_ms: 120_000 };
    assert_eq!(timeout.error_code(), "E_TIMEOUT");
    assert_eq!(timeout.message(), "E_TIMEOUT: command timed out after 120000 ms");
    assert_eq!(CommandError::Reader.error_code(), "E_READER");
    assert_eq!(
        CommandError::Reader.message(),
        "E_READER: a reader of the command's output failed"
    );
    let exit = CommandError::Exit { status: "1".to_string(), stderr_preview: "bad".to_string() };
    assert_eq!(exit.error_code(), "E_EXIT");
}
