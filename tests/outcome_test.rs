use hakoniwa::outcome::{classify, truncate_output, PARSE_ERROR_EXIT_CODE};
use hakoniwa::{ExecutorResult, ExecutorResultStatus, WaitStatus};

#[test]
fn clean_exit_after_ready_is_success() {
    let r = ExecutorResult::from_wait(WaitStatus::Exited(0), false, true, false, 5, b"hi\n".to_vec(), vec![]);
    assert_eq!(r.status, ExecutorResultStatus::Success);
    assert_eq!(r.exit_code, Some(0));
    assert_eq!(r.reason, "");
    assert_eq!(r.stdout, b"hi\n".to_vec());
    assert_eq!(r.cli_exit_code(), 0);
    let r = ExecutorResult::from_wait(WaitStatus::Exited(3), false, true, false, 5, vec![], vec![]);
    assert_eq!(r.exit_code, Some(3));
    assert_eq!(r.cli_exit_code(), 3);
}

#[test]
fn seccomp_kill_is_signaled_sigsys() {
    let r = ExecutorResult::from_wait(WaitStatus::Signaled(31), false, true, false, 1, vec![], vec![]);
    assert_eq!(r.status, ExecutorResultStatus::Signaled);
    assert_eq!(r.exit_code, None);
    assert_eq!(r.signal, Some(31));
    assert!(r.reason.contains("SIGSYS"));
    assert_eq!(r.reason, "terminated by signal SIGSYS");
    assert_eq!(r.cli_exit_code(), 128 + 31);
}

#[test]
fn deadline_gives_timeout() {
    for w in [WaitStatus::Signaled(9), WaitStatus::Exited(0), WaitStatus::Exited(104)] {
        assert_eq!(classify(w, true, true, false), ExecutorResultStatus::Timeout);
        assert_eq!(classify(w, true, false, true), ExecutorResultStatus::Timeout);
    }
    let r = ExecutorResult::from_wait(WaitStatus::Signaled(9), true, true, false, 100, vec![], vec![]);
    assert_eq!(r.status, ExecutorResultStatus::Timeout);
    assert_eq!(r.reason, "deadline exceeded");
    assert_eq!(r.cli_exit_code(), 124);
}

#[test]
fn reserved_exit_before_ready_is_setup_error() {
    let r = ExecutorResult::from_wait(WaitStatus::Exited(104), false, false, false, 1, vec![], vec![]);
    assert_eq!(r.status, ExecutorResultStatus::SandboxSetupError);
    assert_eq!(r.reason, "sandbox setup failed: pivoting root");
    assert_eq!(r.cli_exit_code(), 125);
}

#[test]
fn other_exit_before_ready_is_run_failure() {
    let r = ExecutorResult::from_wait(WaitStatus::Exited(127), false, false, false, 1, vec![], vec![]);
    assert_eq!(r.status, ExecutorResultStatus::RunProgramFailed);
    assert_eq!(r.reason, "program could not be executed");
    assert_eq!(r.cli_exit_code(), 126);
    assert_eq!(PARSE_ERROR_EXIT_CODE, 127);
}

#[test]
fn exec_failure_after_ready_is_run_failure() {
    for code in [126, 127] {
        let r = ExecutorResult::from_wait(WaitStatus::Exited(code), false, true, true, 1, vec![], vec![]);
        assert_eq!(r.status, ExecutorResultStatus::RunProgramFailed);
        assert_eq!(r.exit_code, None);
        assert_eq!(r.cli_exit_code(), 126);
    }
}

#[test]
fn seccomp_failure_after_ready_is_setup_error() {
    let r = ExecutorResult::from_wait(WaitStatus::Exited(109), false, true, true, 1, vec![], vec![]);
    assert_eq!(r.status, ExecutorResultStatus::SandboxSetupError);
    assert_eq!(r.reason, "sandbox setup failed: installing seccomp filter");
    assert_eq!(r.cli_exit_code(), 125);
}

#[test]
fn program_exit_code_in_reserved_range_after_exec_is_success() {
    let r = ExecutorResult::from_wait(WaitStatus::Exited(104), false, true, false, 1, vec![], vec![]);
    assert_eq!(r.status, ExecutorResultStatus::Success);
    assert_eq!(r.exit_code, Some(104));
    assert_eq!(classify(WaitStatus::Exited(0), false, true, false), ExecutorResultStatus::Success);
}

#[test]
fn supervisor_failure_result() {
    let r = ExecutorResult::setup_failure("clone failed".to_string());
    assert_eq!(r.status, ExecutorResultStatus::SandboxSetupError);
    assert_eq!(r.reason, "clone failed");
    assert_eq!(r.cli_exit_code(), 125);
}

#[test]
fn same_ending_same_outcome() {
    let a = ExecutorResult::from_wait(WaitStatus::Exited(0), false, true, false, 3, vec![], vec![]);
    let b = ExecutorResult::from_wait(WaitStatus::Exited(0), false, true, false, 9, vec![], vec![]);
    assert_eq!(a.status, b.status);
    assert_eq!(a.exit_code, b.exit_code);
}

#[test]
fn output_truncated_to_ceiling() {
    let mut buf = b"abcdef".to_vec();
    truncate_output(&mut buf, 4);
    assert_eq!(buf, b"abcd".to_vec());
    truncate_output(&mut buf, 10);
    assert_eq!(buf, b"abcd".to_vec());
    truncate_output(&mut buf, 0);
    assert!(buf.is_empty());
}
