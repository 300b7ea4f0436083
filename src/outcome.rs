use vstd::prelude::*;
use crate::child::{ChildStep, exec_failure_code, failure_code, reserved_code, setup_code};

verus! {

/// How the child ended, as `waitpid` reports it.
#[derive(Debug, Clone, Copy, PartialEq, Eq, Structural)]
pub enum WaitStatus {
    Exited(i32),
    Signaled(i32),
}

/// Why a run ended.
#[derive(Debug, Clone, Copy, PartialEq, Eq, Structural)]
pub enum ExecutorResultStatus {
    Success,
    SandboxSetupError,
    RunProgramFailed,
    Timeout,
    Signaled,
}

/// The classification of a finished child, given whether the deadline fired,
/// whether the ready byte was seen, and whether the child reported a failed
/// step on its status pipe. That pipe closes on a successful `execve`, so a
/// report means a step failed, also one after the ready byte (seccomp, exec).
pub open spec fn classify_spec(w: WaitStatus, deadline_fired: bool, ready_seen: bool, failure_reported: bool) -> ExecutorResultStatus {
    if deadline_fired {
        ExecutorResultStatus::Timeout
    } else {
        match w {
            WaitStatus::Signaled(_) => ExecutorResultStatus::Signaled,
            WaitStatus::Exited(code) => if ready_seen && !failure_reported {
                ExecutorResultStatus::Success
            } else if reserved_code(code as int) {
                ExecutorResultStatus::SandboxSetupError
            } else {
                ExecutorResultStatus::RunProgramFailed
            },
        }
    }
}

/// The outcome of a run: its status, exit code when `Ok`, the signal when
/// `Signaled`, the wall time, the captured output and a reason on failure.
#[derive(Debug)]
pub struct ExecutorResult {
    pub status: ExecutorResultStatus,
    pub exit_code: Option<i32>,
    pub signal: Option<i32>,
    pub reason: String,
    pub wall_time_ms: u64,
    pub stdout: Vec<u8>,
    pub stderr: Vec<u8>,
}

/// The name of signal `signo` (`"SIGSYS"`), empty when `signo` names none.
pub uninterp spec fn signal_name_of(signo: i32) -> Seq<char>;

/// Relies on nix's `Signal::try_from(i32)` and `Signal::as_str`: the name of
/// a signal number, which depends on the number alone.
#[verifier::external_body]
fn signal_name(signo: i32) -> (r: String)
    ensures
        r@ == signal_name_of(signo),
{
    match nix::sys::signal::Signal::try_from(signo) {
        Ok(s) => s.as_str().to_string(),
        Err(_) => String::new(),
    }
}

pub open spec fn step_name(s: ChildStep) -> Seq<char> {
    match s {
        ChildStep::WaitStart => "waiting for start"@,
        ChildStep::SetHostname => "setting hostname"@,
        ChildStep::MountRootfs => "mounting root filesystem"@,
        ChildStep::PivotRoot => "pivoting root"@,
        ChildStep::ApplyEnv => "setting environment"@,
        ChildStep::SetIds => "setting user and group"@,
        ChildStep::ApplyRlimits => "setting resource limits"@,
        ChildStep::SignalReady => "signalling ready"@,
        ChildStep::InstallSeccomp => "installing seccomp filter"@,
        ChildStep::Exec => "executing program"@,
    }
}

fn step_name_string(s: ChildStep) -> (r: String)
    ensures
        r@ == step_name(s),
{
    match s {
        ChildStep::WaitStart => String::from_str("waiting for start"),
        ChildStep::SetHostname => String::from_str("setting hostname"),
        ChildStep::MountRootfs => String::from_str("mounting root filesystem"),
        ChildStep::PivotRoot => String::from_str("pivoting root"),
        ChildStep::ApplyEnv => String::from_str("setting environment"),
        ChildStep::SetIds => String::from_str("setting user and group"),
        ChildStep::ApplyRlimits => String::from_str("setting resource limits"),
        ChildStep::SignalReady => String::from_str("signalling ready"),
        ChildStep::InstallSeccomp => String::from_str("installing seccomp filter"),
        ChildStep::Exec => String::from_str("executing program"),
    }
}

/// The step a reserved code reports.
pub open spec fn step_of_code(code: int) -> ChildStep
    recommends
        reserved_code(code),
{
    choose|s: ChildStep| setup_code(s) == code
}

/// The reason that goes with each classification.
pub open spec fn reason_spec(w: WaitStatus, deadline_fired: bool, ready_seen: bool, failure_reported: bool) -> Seq<char> {
    if deadline_fired {
        "deadline exceeded"@
    } else {
        match w {
            WaitStatus::Signaled(signo) => "terminated by signal "@ + signal_name_of(signo),
            WaitStatus::Exited(code) => if ready_seen && !failure_reported {
                Seq::empty()
            } else if reserved_code(code as int) {
                "sandbox setup failed: "@ + step_name(step_of_code(code as int))
            } else {
                "program could not be executed"@
            },
        }
    }
}

/// The status of a finished child. A fired deadline always yields `Timeout`.
pub fn classify(w: WaitStatus, deadline_fired: bool, ready_seen: bool, failure_reported: bool) -> (r: ExecutorResultStatus)
    ensures
        r == classify_spec(w, deadline_fired, ready_seen, failure_reported),
        deadline_fired ==> r == ExecutorResultStatus::Timeout,
        r == ExecutorResultStatus::Success ==> ready_seen && !failure_reported,
        !deadline_fired && failure_reported && (w == WaitStatus::Exited(126) || w == WaitStatus::Exited(127))
            ==> r == ExecutorResultStatus::RunProgramFailed,
        !deadline_fired && failure_reported && (w matches WaitStatus::Exited(c) && reserved_code(c as int))
            ==> r == ExecutorResultStatus::SandboxSetupError,
{
    if deadline_fired {
        return ExecutorResultStatus::Timeout;
    }
    match w {
        WaitStatus::Signaled(_) => ExecutorResultStatus::Signaled,
        WaitStatus::Exited(code) => {
            if ready_seen && !failure_reported {
                ExecutorResultStatus::Success
            } else if ChildStep::from_exit_code(code).is_some() {
                ExecutorResultStatus::SandboxSetupError
            } else {
                ExecutorResultStatus::RunProgramFailed
            }
        },
    }
}

fn reason(w: WaitStatus, deadline_fired: bool, ready_seen: bool, failure_reported: bool) -> (r: String)
    ensures
        r@ == reason_spec(w, deadline_fired, ready_seen, failure_reported),
{
    if deadline_fired {
        return String::from_str("deadline exceeded");
    }
    match w {
        WaitStatus::Signaled(signo) => {
            let name = signal_name(signo);
            let mut r = String::from_str("terminated by signal ");
            r.append(name.as_str());
            r
        },
        WaitStatus::Exited(code) => {
            if ready_seen && !failure_reported {
                String::new()
            } else {
                match ChildStep::from_exit_code(code) {
                    Some(s) => {
                        proof {
                            let c = step_of_code(code as int);
                            crate::child::lemma_exit_codes_distinct(s, c);
                        }
                        let name = step_name_string(s);
                        let mut r = String::from_str("sandbox setup failed: ");
                        r.append(name.as_str());
                        r
                    },
                    None => String::from_str("program could not be executed"),
                }
            }
        },
    }
}

impl ExecutorResult {
    /// The result of a child that ran and was reaped.
    pub fn from_wait(
        w: WaitStatus,
        deadline_fired: bool,
        ready_seen: bool,
        failure_reported: bool,
        wall_time_ms: u64,
        stdout: Vec<u8>,
        stderr: Vec<u8>,
    ) -> (r: ExecutorResult)
        ensures
            r.status == classify_spec(w, deadline_fired, ready_seen, failure_reported),
            r.exit_code == (match (r.status, w) {
                (ExecutorResultStatus::Success, WaitStatus::Exited(code)) => Some(code),
                _ => None,
            }),
            r.signal == (match (r.status, w) {
                (ExecutorResultStatus::Signaled, WaitStatus::Signaled(signo)) => Some(signo),
                _ => None,
            }),
            r.reason@ == reason_spec(w, deadline_fired, ready_seen, failure_reported),
            r.wall_time_ms == wall_time_ms,
            r.stdout == stdout,
            r.stderr == stderr,
    {
        let status = classify(w, deadline_fired, ready_seen, failure_reported);
        let exit_code = match (status, w) {
            (ExecutorResultStatus::Success, WaitStatus::Exited(code)) => Some(code),
            _ => None,
        };
        let signal = match (status, w) {
            (ExecutorResultStatus::Signaled, WaitStatus::Signaled(signo)) => Some(signo),
            _ => None,
        };
        ExecutorResult {
            status,
            exit_code,
            signal,
            reason: reason(w, deadline_fired, ready_seen, failure_reported),
            wall_time_ms,
            stdout,
            stderr,
        }
    }

    /// The result of a run that failed in the supervisor before the child
    /// could start.
    pub fn setup_failure(reason: String) -> (r: ExecutorResult)
        ensures
            r.status == ExecutorResultStatus::SandboxSetupError,
            r.exit_code is None,
            r.signal is None,
            r.reason == reason,
            r.wall_time_ms == 0,
            r.stdout@.len() == 0,
            r.stderr@.len() == 0,
    {
        ExecutorResult {
            status: ExecutorResultStatus::SandboxSetupError,
            exit_code: None,
            signal: None,
            reason,
            wall_time_ms: 0,
            stdout: Vec::new(),
            stderr: Vec::new(),
        }
    }

    /// The exit code the command-line front-end reports for this result.
    pub fn cli_exit_code(&self) -> (r: i64)
        ensures
            r == cli_exit_code_spec(self.status, self.exit_code, self.signal),
    {
        match self.status {
            ExecutorResultStatus::Success => match self.exit_code {
                Some(c) => c as i64,
                None => 0,
            },
            ExecutorResultStatus::SandboxSetupError => 125,
            ExecutorResultStatus::RunProgramFailed => 126,
            ExecutorResultStatus::Timeout => 124,
            ExecutorResultStatus::Signaled => match self.signal {
                Some(s) => 128 + s as i64,
                None => 128,
            },
        }
    }
}

/// Exit code of the front-end when the policy cannot be parsed.
pub const PARSE_ERROR_EXIT_CODE: i32 = 127;

/// The program's own code on `Ok`, 125 on a setup error, 126 when the
/// program could not run, 124 on timeout, 128 plus the signal number when
/// signalled.
pub open spec fn cli_exit_code_spec(
    status: ExecutorResultStatus,
    exit_code: Option<i32>,
    signal: Option<i32>,
) -> int {
    match status {
        ExecutorResultStatus::Success => match exit_code {
            Some(c) => c as int,
            None => 0,
        },
        ExecutorResultStatus::SandboxSetupError => 125,
        ExecutorResultStatus::RunProgramFailed => 126,
        ExecutorResultStatus::Timeout => 124,
        ExecutorResultStatus::Signaled => match signal {
            Some(s) => 128 + s,
            None => 128,
        },
    }
}

/// Cuts captured output down to at most `limit` bytes.
pub fn truncate_output(buf: &mut Vec<u8>, limit: usize)
    ensures
        final(buf)@ == old(buf)@.take(if limit < old(buf)@.len() { limit as int } else { old(buf)@.len() as int }),
{
    if limit < buf.len() {
        buf.truncate(limit);
    }
    assert(buf@ =~= old(buf)@.take(if limit < old(buf)@.len() { limit as int } else { old(buf)@.len() as int }));
}

/// A run is a function of how the child ended: the same wait status, deadline
/// and ready observation give the same status, exit code, signal and reason.
/// A deterministic command run twice under one policy ends the same way both
/// times, and so is classified the same way.
pub proof fn lemma_outcome_deterministic(
    w1: WaitStatus,
    w2: WaitStatus,
    deadline_fired: bool,
    ready_seen: bool,
    failure_reported: bool,
)
    requires
        w1 == w2,
    ensures
        classify_spec(w1, deadline_fired, ready_seen, failure_reported) == classify_spec(w2, deadline_fired, ready_seen, failure_reported),
        reason_spec(w1, deadline_fired, ready_seen, failure_reported) == reason_spec(w2, deadline_fired, ready_seen, failure_reported),
{
}

/// A deadline that fires before the command ends always classifies the run
/// as a timeout, however the child was then reaped.
pub proof fn lemma_deadline_is_timeout(w: WaitStatus, ready_seen: bool, failure_reported: bool)
    ensures
        classify_spec(w, true, ready_seen, failure_reported) == ExecutorResultStatus::Timeout,
{
}

/// A failed step is never reported as a success: when the child reports the
/// failure of `step` and exits with the code it chose for it, the run is a
/// setup error for every step before `execve`, and a failure to run the
/// program for `execve` itself, whether or not the ready byte was seen.
pub proof fn lemma_failed_step_classified(step: ChildStep, not_found: bool, ready_seen: bool)
    ensures
        classify_spec(WaitStatus::Exited(failure_code(step, not_found) as i32), false, ready_seen, true)
            == (if step == ChildStep::Exec {
            ExecutorResultStatus::RunProgramFailed
        } else {
            ExecutorResultStatus::SandboxSetupError
        }),
{
    if step != ChildStep::Exec {
        assert(reserved_code(setup_code(step)));
    } else {
        assert(!reserved_code(exec_failure_code(not_found)));
    }
}

} // verus!
