use vstd::prelude::*;
use crate::env::{env_set_all, env_view, lemma_set_all_distinct};
use crate::executor::{DEFAULT_OUTPUT_LIMIT, Executor, fresh_executor, same_seccomp, strings_view, strs_view};
use crate::policy::{SandboxPolicy, policy_valid};

verus! {

/// Creates executors that share one policy.
#[derive(Debug)]
pub struct Sandbox {
    pub policy: Option<SandboxPolicy>,
}

/// `e` runs `prog` with `argv` under every setting of `p`.
pub open spec fn follows_policy(e: Executor, p: SandboxPolicy, prog: Seq<char>, argv: Seq<Seq<char>>) -> bool {
    &&& e.prog@ == prog
    &&& strings_view(e.argv@) == argv
    &&& e.uid == p.uid
    &&& e.gid == p.gid
    &&& e.hostname == p.hostname
    &&& e.mount_new_tmpfs == (p.mount_new_tmpfs == Some(true))
    &&& e.mount_new_devfs == (p.mount_new_devfs == Some(true))
    &&& e.mounts@ == p.mounts@
    &&& env_view(e.env@) == env_set_all(Seq::empty(), env_view(p.env@))
    &&& e.limits == p.limits
    &&& same_seccomp(e.seccomp, p.seccomp)
    &&& e.stdin is None
    &&& e.deadline_ms is None
    &&& e.output_limit == DEFAULT_OUTPUT_LIMIT
    &&& e.dir@ == "/"@
}

impl Sandbox {
    /// A sandbox without a policy.
    pub fn new() -> (r: Sandbox)
        ensures
            r.policy is None,
    {
        Sandbox { policy: None }
    }

    /// Uses `policy` for the executors that [`Sandbox::command`] creates.
    pub fn with_policy(&mut self, policy: SandboxPolicy) -> (r: &mut Sandbox)
        ensures
            *r == (Sandbox { policy: Some(policy) }),
            *final(self) == *final(r),
    {
        self.policy = Some(policy);
        self
    }

    /// An executor for `prog` with `argv`, carrying the sandbox's policy.
    pub fn command(&self, prog: &str, argv: &[&str]) -> (r: Executor)
        ensures
            self.policy is None ==> fresh_executor(r, prog@, strs_view(argv@)),
            self.policy matches Some(p) ==> follows_policy(r, p, prog@, strs_view(argv@)),
    {
        let mut executor = Executor::new(prog, argv);
        let policy = match &self.policy {
            Some(val) => val,
            None => return executor,
        };
        if let Some(id) = policy.uid {
            executor.uid(id);
        }
        if let Some(id) = policy.gid {
            executor.gid(id);
        }
        if let Some(hostname) = &policy.hostname {
            executor.hostname(hostname);
        }
        if let Some(on) = policy.mount_new_tmpfs {
            executor.mount_new_tmpfs(on);
        }
        if let Some(on) = policy.mount_new_devfs {
            executor.mount_new_devfs(on);
        }
        executor.mounts(&policy.mounts);
        let ghost entries = env_view(policy.env@);
        let mut i: usize = 0;
        while i < policy.env.len()
            invariant
                i <= policy.env@.len(),
                entries == env_view(policy.env@),
                env_view(executor.env@) == env_set_all(Seq::empty(), entries.subrange(0, i as int)),
                executor.prog@ == prog@,
                strings_view(executor.argv@) == strs_view(argv@),
                executor.uid == policy.uid,
                executor.gid == policy.gid,
                executor.hostname == policy.hostname,
                executor.mount_new_tmpfs == (policy.mount_new_tmpfs == Some(true)),
                executor.mount_new_devfs == (policy.mount_new_devfs == Some(true)),
                executor.mounts@ == policy.mounts@,
                executor.limits == crate::policy::Limits::unlimited_spec(),
                executor.seccomp is None,
                executor.stdin is None,
                executor.deadline_ms is None,
                executor.output_limit == DEFAULT_OUTPUT_LIMIT,
                executor.dir@ == "/"@,
            decreases policy.env.len() - i,
        {
            assert(entries.subrange(0, i + 1).drop_last() =~= entries.subrange(0, i as int));
            let (k, v) = &policy.env[i];
            executor.setenv(k, v);
            i = i + 1;
        }
        assert(entries.subrange(0, i as int) =~= entries);
        executor.limits(&policy.limits);
        executor.seccomp(&policy.seccomp);
        executor
    }
}

/// The environment of a command equals the policy's own for every valid
/// policy, since a valid policy names each variable once.
pub proof fn lemma_command_env_is_policy_env(e: Executor, p: SandboxPolicy, prog: Seq<char>, argv: Seq<Seq<char>>)
    requires
        follows_policy(e, p, prog, argv),
        policy_valid(p),
    ensures
        env_view(e.env@) == env_view(p.env@),
{
    lemma_set_all_distinct(env_view(p.env@));
}

} // verus!
