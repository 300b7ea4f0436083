use vstd::prelude::*;
use crate::env::{apply_default_env, env_set, env_view, env_with_defaults, setenv};
use crate::mount_plan::{MountOp, ops_view, plan_mounts, plan_of};
use crate::policy::{Limits, Mount, Seccomp, SeccompAction};

verus! {

/// The strings of `v`, as sequences of characters.
pub open spec fn strs_view(v: Seq<&str>) -> Seq<Seq<char>> {
    v.map_values(|s: &str| s@)
}

pub open spec fn strings_view(v: Seq<String>) -> Seq<Seq<char>> {
    v.map_values(|s: String| s@)
}

/// Two filters with the same default action and list.
pub open spec fn same_seccomp(a: Option<Seccomp>, b: Option<Seccomp>) -> bool {
    match (a, b) {
        (None, None) => true,
        (Some(x), Some(y)) => x.default_action == y.default_action && x.syscalls@ == y.syscalls@,
        _ => false,
    }
}

fn copy_strings(v: &Vec<String>) -> (r: Vec<String>)
    ensures
        r@ == v@,
{
    let mut r: Vec<String> = Vec::new();
    let mut i: usize = 0;
    while i < v.len()
        invariant
            i <= v@.len(),
            r@ == v@.subrange(0, i as int),
        decreases v.len() - i,
    {
        r.push(v[i].clone());
        assert(r@ =~= v@.subrange(0, i + 1));
        i = i + 1;
    }
    assert(v@.subrange(0, i as int) =~= v@);
    r
}

fn copy_mounts(v: &Vec<Mount>) -> (r: Vec<Mount>)
    ensures
        r@ == v@,
{
    let mut r: Vec<Mount> = Vec::new();
    let mut i: usize = 0;
    while i < v.len()
        invariant
            i <= v@.len(),
            r@ == v@.subrange(0, i as int),
        decreases v.len() - i,
    {
        r.push(v[i].duplicate());
        assert(r@ =~= v@.subrange(0, i + 1));
        i = i + 1;
    }
    assert(v@.subrange(0, i as int) =~= v@);
    r
}

fn copy_seccomp(s: &Option<Seccomp>) -> (r: Option<Seccomp>)
    ensures
        same_seccomp(r, *s),
{
    match s {
        Some(f) => Some(Seccomp { default_action: f.default_action, syscalls: copy_strings(&f.syscalls) }),
        None => None,
    }
}

/// Bytes of captured output kept by default from each stream.
pub const DEFAULT_OUTPUT_LIMIT: usize = 1048576;

/// One command to run in a sandbox, with everything its run needs. Built by
/// [`Executor::new`] and the setters, then handed to the supervisor.
#[derive(Debug)]
pub struct Executor {
    /// The program as given; resolved against `PATH` when it holds no `/`.
    pub prog: String,
    pub argv: Vec<String>,
    pub uid: Option<u32>,
    pub gid: Option<u32>,
    pub hostname: Option<String>,
    pub mount_new_tmpfs: bool,
    pub mount_new_devfs: bool,
    pub mounts: Vec<Mount>,
    pub env: Vec<(String, String)>,
    pub limits: Limits,
    pub seccomp: Option<Seccomp>,
    pub stdin: Option<Vec<u8>>,
    /// Wall-time limit in milliseconds.
    pub deadline_ms: Option<u64>,
    /// Bytes kept of each of stdout and stderr.
    pub output_limit: usize,
    /// Working directory inside the sandbox.
    pub dir: String,
}

/// `e` runs `prog` with `argv` and sets nothing else.
pub open spec fn fresh_executor(e: Executor, prog: Seq<char>, argv: Seq<Seq<char>>) -> bool {
    &&& e.prog@ == prog
    &&& strings_view(e.argv@) == argv
    &&& e.uid is None
    &&& e.gid is None
    &&& e.hostname is None
    &&& !e.mount_new_tmpfs
    &&& !e.mount_new_devfs
    &&& e.mounts@.len() == 0
    &&& e.env@.len() == 0
    &&& e.limits == Limits::unlimited_spec()
    &&& e.seccomp is None
    &&& e.stdin is None
    &&& e.deadline_ms is None
    &&& e.output_limit == DEFAULT_OUTPUT_LIMIT
    &&& e.dir@ == "/"@
}

impl Executor {
    /// An executor for `prog` with arguments `argv` (`argv[0]` included).
    pub fn new(prog: &str, argv: &[&str]) -> (r: Executor)
        ensures
            fresh_executor(r, prog@, strs_view(argv@)),
    {
        let mut args: Vec<String> = Vec::new();
        let mut i: usize = 0;
        while i < argv.len()
            invariant
                i <= argv@.len(),
                strings_view(args@) == strs_view(argv@.subrange(0, i as int)),
            decreases argv.len() - i,
        {
            let ghost prev = strings_view(args@);
            let a = String::from_str(argv[i]);
            assert(a@ == argv@[i as int]@);
            args.push(a);
            assert(strings_view(args@) =~= prev.push(a@));
            assert(strings_view(args@) =~= strs_view(argv@.subrange(0, i + 1)));
            i = i + 1;
        }
        assert(argv@.subrange(0, i as int) =~= argv@);
        Executor {
            prog: String::from_str(prog),
            argv: args,
            uid: None,
            gid: None,
            hostname: None,
            mount_new_tmpfs: false,
            mount_new_devfs: false,
            mounts: Vec::new(),
            env: Vec::new(),
            limits: Limits::unlimited(),
            seccomp: None,
            stdin: None,
            deadline_ms: None,
            output_limit: DEFAULT_OUTPUT_LIMIT,
            dir: String::from_str("/"),
        }
    }

    pub fn uid(&mut self, id: u32)
        ensures
            *final(self) == (Executor { uid: Some(id), ..*old(self) }),
    {
        self.uid = Some(id);
    }

    pub fn gid(&mut self, id: u32)
        ensures
            *final(self) == (Executor { gid: Some(id), ..*old(self) }),
    {
        self.gid = Some(id);
    }

    pub fn hostname(&mut self, name: &String)
        ensures
            *final(self) == (Executor { hostname: Some(*name), ..*old(self) }),
    {
        self.hostname = Some(name.clone());
    }

    pub fn mount_new_tmpfs(&mut self, on: bool)
        ensures
            *final(self) == (Executor { mount_new_tmpfs: on, ..*old(self) }),
    {
        self.mount_new_tmpfs = on;
    }

    pub fn mount_new_devfs(&mut self, on: bool)
        ensures
            *final(self) == (Executor { mount_new_devfs: on, ..*old(self) }),
    {
        self.mount_new_devfs = on;
    }

    /// Replaces the bind entries with `mounts`.
    pub fn mounts(&mut self, mounts: &Vec<Mount>)
        ensures
            final(self).mounts@ == mounts@,
            *final(self) == (Executor { mounts: final(self).mounts, ..*old(self) }),
    {
        self.mounts = copy_mounts(mounts);
    }

    /// Sets the variable `k` to `v` in the program's environment.
    pub fn setenv(&mut self, k: &String, v: &String)
        ensures
            env_view(final(self).env@) == env_set(env_view(old(self).env@), k@, v@),
            *final(self) == (Executor { env: final(self).env, ..*old(self) }),
    {
        setenv(&mut self.env, k.clone(), v.clone());
    }

    pub fn limits(&mut self, limits: &Limits)
        ensures
            *final(self) == (Executor { limits: *limits, ..*old(self) }),
    {
        self.limits = *limits;
    }

    pub fn seccomp(&mut self, seccomp: &Option<Seccomp>)
        ensures
            same_seccomp(final(self).seccomp, *seccomp),
            *final(self) == (Executor { seccomp: final(self).seccomp, ..*old(self) }),
    {
        self.seccomp = copy_seccomp(seccomp);
    }

    pub fn stdin(&mut self, data: Vec<u8>)
        ensures
            *final(self) == (Executor { stdin: Some(data), ..*old(self) }),
    {
        self.stdin = Some(data);
    }

    pub fn deadline_ms(&mut self, ms: u64)
        ensures
            *final(self) == (Executor { deadline_ms: Some(ms), ..*old(self) }),
    {
        self.deadline_ms = Some(ms);
    }

    pub fn output_limit(&mut self, bytes: usize)
        ensures
            *final(self) == (Executor { output_limit: bytes, ..*old(self) }),
    {
        self.output_limit = bytes;
    }

    /// The steps that build the child's root filesystem.
    pub fn mount_plan(&self) -> (r: Vec<MountOp>)
        ensures
            ops_view(r@) == plan_of(self.mounts@, self.mount_new_devfs, self.mount_new_tmpfs),
    {
        plan_mounts(&self.mounts, self.mount_new_devfs, self.mount_new_tmpfs)
    }

    /// The uid and gid the child runs as: the configured ones, else the
    /// unprivileged identity the user namespace maps to.
    pub fn effective_ids(&self, mapped_uid: u32, mapped_gid: u32) -> (r: (u32, u32))
        ensures
            r.0 == (match self.uid {
                Some(u) => u,
                None => mapped_uid,
            }),
            r.1 == (match self.gid {
                Some(g) => g,
                None => mapped_gid,
            }),
    {
        let u = match self.uid {
            Some(u) => u,
            None => mapped_uid,
        };
        let g = match self.gid {
            Some(g) => g,
            None => mapped_gid,
        };
        (u, g)
    }

    /// The environment the program starts with: the configured entries plus
    /// `HOME`, `PATH` and `TERM` where they are not set.
    pub fn child_env(&self) -> (r: Vec<(String, String)>)
        ensures
            env_view(r@) == env_with_defaults(env_view(self.env@)),
    {
        let mut env: Vec<(String, String)> = Vec::new();
        let mut i: usize = 0;
        while i < self.env.len()
            invariant
                i <= self.env@.len(),
                env@ == self.env@.subrange(0, i as int),
            decreases self.env.len() - i,
        {
            let (k, v) = &self.env[i];
            env.push((k.clone(), v.clone()));
            assert(env@ =~= self.env@.subrange(0, i + 1));
            i = i + 1;
        }
        assert(self.env@.subrange(0, i as int) =~= self.env@);
        apply_default_env(&mut env);
        env
    }

    /// Whether the filter, if any, kills the system call `name`.
    pub fn kills_syscall(&self, name: &String) -> (r: bool)
        ensures
            r == (match self.seccomp {
                Some(f) => crate::policy::filter_action(f, name@) == SeccompAction::Kill,
                None => false,
            }),
    {
        match &self.seccomp {
            Some(f) => f.action_for(name) == SeccompAction::Kill,
            None => false,
        }
    }
}

} // verus!
