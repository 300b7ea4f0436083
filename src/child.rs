use vstd::prelude::*;

verus! {

/// The steps the sandboxed child runs, in this order. Each failing step
/// before `Exec` ends the child with its own reserved exit code.
#[derive(Debug, Clone, Copy, PartialEq, Eq, Structural)]
pub enum ChildStep {
    /// Block until the supervisor writes the start byte.
    WaitStart,
    SetHostname,
    /// Mount the new root and run the mount plan inside it.
    MountRootfs,
    /// Pivot into the new root and detach the old one.
    PivotRoot,
    /// Clear the inherited environment and set the configured one.
    ApplyEnv,
    /// Drop supplementary groups, then set the gid and the uid.
    SetIds,
    ApplyRlimits,
    /// Write the ready byte to the supervisor.
    SignalReady,
    /// Set no-new-privs, then install the system-call filter.
    InstallSeccomp,
    Exec,
}

pub open spec fn step_index(s: ChildStep) -> int {
    match s {
        ChildStep::WaitStart => 0,
        ChildStep::SetHostname => 1,
        ChildStep::MountRootfs => 2,
        ChildStep::PivotRoot => 3,
        ChildStep::ApplyEnv => 4,
        ChildStep::SetIds => 5,
        ChildStep::ApplyRlimits => 6,
        ChildStep::SignalReady => 7,
        ChildStep::InstallSeccomp => 8,
        ChildStep::Exec => 9,
    }
}

/// The whole setup sequence.
pub open spec fn step_order() -> Seq<ChildStep> {
    seq![
        ChildStep::WaitStart,
        ChildStep::SetHostname,
        ChildStep::MountRootfs,
        ChildStep::PivotRoot,
        ChildStep::ApplyEnv,
        ChildStep::SetIds,
        ChildStep::ApplyRlimits,
        ChildStep::SignalReady,
        ChildStep::InstallSeccomp,
        ChildStep::Exec,
    ]
}

/// First of the reserved exit codes; the block runs to `SETUP_CODE_BASE + 9`.
pub const SETUP_CODE_BASE: i32 = 101;

/// The exit code that reports a failure of step `s`.
pub open spec fn setup_code(s: ChildStep) -> int {
    SETUP_CODE_BASE + step_index(s)
}

pub open spec fn reserved_code(code: int) -> bool {
    SETUP_CODE_BASE <= code < SETUP_CODE_BASE + 10
}

/// Exit code of a child whose `execve` failed: 127 when the program was not
/// found, 126 otherwise. Neither is reserved.
pub open spec fn exec_failure_code(not_found: bool) -> int {
    if not_found {
        127
    } else {
        126
    }
}

impl ChildStep {
    /// The step after this one, `None` after `Exec`.
    pub fn next(self) -> (r: Option<ChildStep>)
        ensures
            step_index(self) < 9 ==> r == Some(step_order()[step_index(self) + 1]),
            step_index(self) == 9 <==> r is None,
    {
        match self {
            ChildStep::WaitStart => Some(ChildStep::SetHostname),
            ChildStep::SetHostname => Some(ChildStep::MountRootfs),
            ChildStep::MountRootfs => Some(ChildStep::PivotRoot),
            ChildStep::PivotRoot => Some(ChildStep::ApplyEnv),
            ChildStep::ApplyEnv => Some(ChildStep::SetIds),
            ChildStep::SetIds => Some(ChildStep::ApplyRlimits),
            ChildStep::ApplyRlimits => Some(ChildStep::SignalReady),
            ChildStep::SignalReady => Some(ChildStep::InstallSeccomp),
            ChildStep::InstallSeccomp => Some(ChildStep::Exec),
            ChildStep::Exec => None,
        }
    }

    /// The reserved exit code for a failure of this step.
    pub fn exit_code(self) -> (r: i32)
        ensures
            r == setup_code(self),
            reserved_code(r as int),
    {
        match self {
            ChildStep::WaitStart => 101,
            ChildStep::SetHostname => 102,
            ChildStep::MountRootfs => 103,
            ChildStep::PivotRoot => 104,
            ChildStep::ApplyEnv => 105,
            ChildStep::SetIds => 106,
            ChildStep::ApplyRlimits => 107,
            ChildStep::SignalReady => 108,
            ChildStep::InstallSeccomp => 109,
            ChildStep::Exec => 110,
        }
    }

    /// The step that a reserved exit code reports.
    pub fn from_exit_code(code: i32) -> (r: Option<ChildStep>)
        ensures
            r is Some <==> reserved_code(code as int),
            r matches Some(s) ==> setup_code(s) == code,
    {
        let order = child_steps();
        if SETUP_CODE_BASE <= code && code < SETUP_CODE_BASE + 10 {
            let s = order[(code - SETUP_CODE_BASE) as usize];
            Some(s)
        } else {
            None
        }
    }
}

/// The setup steps in the order the child runs them.
pub fn child_steps() -> (r: Vec<ChildStep>)
    ensures
        r@ == step_order(),
        forall|i: int| 0 <= i < 10 ==> step_index(#[trigger] r@[i]) == i,
{
    let r = vec![
        ChildStep::WaitStart,
        ChildStep::SetHostname,
        ChildStep::MountRootfs,
        ChildStep::PivotRoot,
        ChildStep::ApplyEnv,
        ChildStep::SetIds,
        ChildStep::ApplyRlimits,
        ChildStep::SignalReady,
        ChildStep::InstallSeccomp,
        ChildStep::Exec,
    ];
    assert(r@ =~= step_order());
    r
}

/// The exit code the child reports when `step` fails.
pub open spec fn failure_code(step: ChildStep, not_found: bool) -> int {
    if step == ChildStep::Exec {
        exec_failure_code(not_found)
    } else {
        setup_code(step)
    }
}

/// What the child does next.
#[derive(Debug, Clone, Copy, PartialEq, Eq, Structural)]
pub enum ChildAction {
    Run(ChildStep),
    /// Write the code on the close-on-exec status pipe, then exit with it.
    Exit(i32),
}

/// The child's decision once `step` has been tried: run the following step
/// when it succeeded, exit with the step's code when it failed. A failed
/// `execve` exits with the code of [`exec_failure_code`].
pub fn after_step(step: ChildStep, ok: bool, not_found: bool) -> (r: Option<ChildAction>)
    ensures
        ok && step_index(step) < 9 ==> r == Some(ChildAction::Run(step_order()[step_index(step) + 1])),
        ok && step == ChildStep::Exec ==> r is None,
        !ok ==> r == Some(ChildAction::Exit(failure_code(step, not_found) as i32)),
        !ok && step != ChildStep::Exec ==> r == Some(ChildAction::Exit(setup_code(step) as i32)),
        !ok && step == ChildStep::Exec ==> r == Some(
            ChildAction::Exit(exec_failure_code(not_found) as i32),
        ),
{
    if ok {
        match step.next() {
            Some(s) => Some(ChildAction::Run(s)),
            None => None,
        }
    } else if step == ChildStep::Exec {
        if not_found {
            Some(ChildAction::Exit(127))
        } else {
            Some(ChildAction::Exit(126))
        }
    } else {
        Some(ChildAction::Exit(step.exit_code()))
    }
}

/// Seccomp comes after every step that needs the calls it may forbid
/// (mounting, pivoting, changing identity, setting limits), the ready byte
/// comes right before it, and `execve` is last.
pub proof fn lemma_seccomp_last_before_exec()
    ensures
        forall|i: int| 0 <= i < 10 ==> step_index(#[trigger] step_order()[i]) == i,
        step_index(ChildStep::MountRootfs) < step_index(ChildStep::InstallSeccomp),
        step_index(ChildStep::PivotRoot) < step_index(ChildStep::InstallSeccomp),
        step_index(ChildStep::SetIds) < step_index(ChildStep::InstallSeccomp),
        step_index(ChildStep::ApplyRlimits) < step_index(ChildStep::InstallSeccomp),
        step_index(ChildStep::SignalReady) + 1 == step_index(ChildStep::InstallSeccomp),
        step_index(ChildStep::InstallSeccomp) + 1 == step_index(ChildStep::Exec),
{
}

/// Reserved codes tell steps apart: the code of a step leads back to it.
pub proof fn lemma_exit_codes_distinct(a: ChildStep, b: ChildStep)
    ensures
        setup_code(a) == setup_code(b) <==> a == b,
        reserved_code(setup_code(a)),
        !reserved_code(exec_failure_code(true)),
        !reserved_code(exec_failure_code(false)),
{
}

/// An `execve` argument: `s` itself, or the empty string when `s` holds a
/// NUL, which cannot be handed to the kernel.
pub fn exec_arg(s: &String) -> (r: String)
    ensures
        r@ == (if s@.contains('\0') { Seq::empty() } else { s@ }),
{
    let n = s.as_str().unicode_len();
    let mut i: usize = 0;
    while i < n
        invariant
            n == s@.len(),
            forall|j: int| 0 <= j < i ==> s@[j] != '\0',
        decreases n - i,
    {
        if s.as_str().get_char(i) == '\0' {
            assert(s@[i as int] == '\0');
            return String::new();
        }
        i = i + 1;
    }
    s.clone()
}

} // verus!
