use vstd::prelude::*;
use crate::env::{env_view, find_key, has_key, keys_unique};
use crate::error::Error;

verus! {

/// The resource kinds a policy may put a ceiling on.
#[derive(Debug, Clone, Copy, PartialEq, Eq, Structural)]
pub enum ResourceKind {
    AddressSpace,
    CpuSeconds,
    CoreSize,
    FileSize,
    OpenFiles,
}

/// Resource ceilings; `None` inherits the supervisor's limit. Soft and hard
/// limits are both set to the ceiling.
#[derive(Debug, Clone, Copy, PartialEq, Eq, Structural)]
pub struct Limits {
    pub address_space: Option<u64>,
    pub cpu: Option<u64>,
    pub core: Option<u64>,
    pub fsize: Option<u64>,
    pub nofile: Option<u64>,
}

/// The order in which the child applies the ceilings.
pub open spec fn limit_entries(l: Limits) -> Seq<(ResourceKind, Option<u64>)> {
    seq![
        (ResourceKind::AddressSpace, l.address_space),
        (ResourceKind::CpuSeconds, l.cpu),
        (ResourceKind::CoreSize, l.core),
        (ResourceKind::FileSize, l.fsize),
        (ResourceKind::OpenFiles, l.nofile),
    ]
}

impl Limits {
    pub open spec fn unlimited_spec() -> Limits {
        Limits { address_space: None, cpu: None, core: None, fsize: None, nofile: None }
    }

    /// Limits that inherit every ceiling.
    pub fn unlimited() -> (r: Limits)
        ensures
            r == Limits::unlimited_spec(),
    {
        Limits { address_space: None, cpu: None, core: None, fsize: None, nofile: None }
    }

    /// Every resource kind with its ceiling, in application order.
    pub fn entries(&self) -> (r: Vec<(ResourceKind, Option<u64>)>)
        ensures
            r@ == limit_entries(*self),
    {
        let r = vec![
            (ResourceKind::AddressSpace, self.address_space),
            (ResourceKind::CpuSeconds, self.cpu),
            (ResourceKind::CoreSize, self.core),
            (ResourceKind::FileSize, self.fsize),
            (ResourceKind::OpenFiles, self.nofile),
        ];
        assert(r@ =~= limit_entries(*self));
        r
    }
}

/// A bind of a host path into the sandbox.
#[derive(Debug)]
pub struct Mount {
    /// Host path.
    pub source: String,
    /// Path inside the sandbox.
    pub target: String,
    /// Writable bind; read-only when false.
    pub rw: bool,
    /// A missing source skips the entry instead of failing.
    pub optional: bool,
}

impl Mount {
    /// A required bind.
    pub fn new(source: String, target: String, rw: bool) -> (r: Mount)
        ensures
            r.source == source,
            r.target == target,
            r.rw == rw,
            !r.optional,
    {
        Mount { source, target, rw, optional: false }
    }

    pub fn duplicate(&self) -> (r: Mount)
        ensures
            r == *self,
    {
        Mount {
            source: self.source.clone(),
            target: self.target.clone(),
            rw: self.rw,
            optional: self.optional,
        }
    }
}

/// `..` stands as a whole path component at position `i`.
pub open spec fn dotdot_at(s: Seq<char>, i: int) -> bool {
    &&& 0 <= i
    &&& i + 1 < s.len()
    &&& s[i] == '.'
    &&& s[i + 1] == '.'
    &&& (i == 0 || s[i - 1] == '/')
    &&& (i + 2 == s.len() || s[i + 2] == '/')
}

/// A mount target is absolute and never climbs with `..`.
pub open spec fn valid_target(s: Seq<char>) -> bool {
    &&& s.len() > 0
    &&& s[0] == '/'
    &&& forall|i: int| !#[trigger] dotdot_at(s, i)
}

/// Whether `t` may serve as a mount target.
pub fn is_valid_target(t: &str) -> (r: bool)
    ensures
        r == valid_target(t@),
{
    let n = t.unicode_len();
    if n == 0 || t.get_char(0) != '/' {
        return false;
    }
    let mut i: usize = 0;
    while i + 1 < n
        invariant
            n == t@.len(),
            i < n,
            forall|j: int| 0 <= j < i ==> !#[trigger] dotdot_at(t@, j),
        decreases n - i,
    {
        if t.get_char(i) == '.' && t.get_char(i + 1) == '.' {
            let before = i == 0 || t.get_char(i - 1) == '/';
            let after = i + 2 == n || t.get_char(i + 2) == '/';
            if before && after {
                assert(dotdot_at(t@, i as int));
                return false;
            }
        }
        i = i + 1;
    }
    assert forall|j: int| !#[trigger] dotdot_at(t@, j) by {
        if 0 <= j < i {
        }
    }
    true
}

/// The action the filter takes on a system call.
#[derive(Debug, Clone, Copy, PartialEq, Eq, Structural)]
pub enum SeccompAction {
    Allow,
    Kill,
}

pub open spec fn opposite(a: SeccompAction) -> SeccompAction {
    match a {
        SeccompAction::Allow => SeccompAction::Kill,
        SeccompAction::Kill => SeccompAction::Allow,
    }
}

/// A system-call filter: a default action, and the calls that get the
/// opposite one.
#[derive(Debug)]
pub struct Seccomp {
    pub default_action: SeccompAction,
    pub syscalls: Vec<String>,
}

pub open spec fn listed(names: Seq<String>, name: Seq<char>) -> bool {
    exists|i: int| 0 <= i < names.len() && (#[trigger] names[i])@ == name
}

/// The action the filter applies to the system call `name`.
pub open spec fn filter_action(f: Seccomp, name: Seq<char>) -> SeccompAction {
    if listed(f.syscalls@, name) {
        opposite(f.default_action)
    } else {
        f.default_action
    }
}

impl Seccomp {
    /// The action taken on `name`: a call on the list under an `Allow`
    /// default is killed, and so is every call off the list under a `Kill`
    /// default.
    pub fn action_for(&self, name: &String) -> (r: SeccompAction)
        ensures
            r == filter_action(*self, name@),
            self.default_action == SeccompAction::Allow && listed(self.syscalls@, name@)
                ==> r == SeccompAction::Kill,
            self.default_action == SeccompAction::Kill && !listed(self.syscalls@, name@)
                ==> r == SeccompAction::Kill,
    {
        let mut i: usize = 0;
        while i < self.syscalls.len()
            invariant
                forall|j: int| 0 <= j < i ==> (#[trigger] self.syscalls@[j])@ != name@,
            decreases self.syscalls.len() - i,
        {
            if self.syscalls[i].eq(name) {
                return match self.default_action {
                    SeccompAction::Allow => SeccompAction::Kill,
                    SeccompAction::Kill => SeccompAction::Allow,
                };
            }
            i = i + 1;
        }
        self.default_action
    }

    /// Checks every listed name against the system calls the host knows.
    pub fn check_names(&self, known: &Vec<String>) -> (r: Result<(), Error>)
        ensures
            r is Ok <==> forall|i: int|
                0 <= i < self.syscalls@.len() ==> listed(known@, (#[trigger] self.syscalls@[i])@),
            r is Err ==> r->Err_0 is ParseConfigurationError,
    {
        let mut i: usize = 0;
        while i < self.syscalls.len()
            invariant
                forall|j: int| 0 <= j < i ==> listed(known@, (#[trigger] self.syscalls@[j])@),
            decreases self.syscalls.len() - i,
        {
            let mut found = false;
            let mut k: usize = 0;
            while k < known.len()
                invariant
                    i < self.syscalls@.len(),
                    found ==> listed(known@, self.syscalls@[i as int]@),
                    !found ==> forall|j: int| 0 <= j < k ==> (#[trigger] known@[j])@ != self.syscalls@[i as int]@,
                decreases known.len() - k,
            {
                if known[k].eq(&self.syscalls[i]) {
                    found = true;
                }
                k = k + 1;
            }
            if !found {
                let mut msg = String::from_str("unknown system call: ");
                msg.append(self.syscalls[i].as_str());
                return Err(Error::ParseConfigurationError(msg));
            }
            i = i + 1;
        }
        Ok(())
    }
}

/// Whether the host source of entry `i` was found; entries past the end of
/// `found` count as missing.
pub open spec fn present(found: Seq<bool>, i: int) -> bool {
    0 <= i < found.len() && found[i]
}

/// The entries kept once missing optional sources are skipped.
pub open spec fn kept_mounts(ms: Seq<Mount>, found: Seq<bool>) -> Seq<Mount>
    decreases ms.len(),
{
    if ms.len() == 0 {
        Seq::empty()
    } else {
        let rest = kept_mounts(ms.drop_last(), found);
        if present(found, ms.len() - 1) {
            rest.push(ms.last())
        } else {
            rest
        }
    }
}

/// Every entry whose source is missing is marked optional.
pub open spec fn missing_allowed(ms: Seq<Mount>, found: Seq<bool>) -> bool {
    forall|i: int| 0 <= i < ms.len() ==> present(found, i) || (#[trigger] ms[i]).optional
}

/// Drops the entries whose host source is missing. A missing source is an
/// error unless its entry is optional.
pub fn resolve_mounts(mounts: &Vec<Mount>, found: &Vec<bool>) -> (r: Result<Vec<Mount>, Error>)
    ensures
        r is Ok <==> missing_allowed(mounts@, found@),
        r is Ok ==> r->Ok_0@ == kept_mounts(mounts@, found@),
        r is Err ==> r->Err_0 is ParseConfigurationError,
{
    let mut out: Vec<Mount> = Vec::new();
    let mut i: usize = 0;
    while i < mounts.len()
        invariant
            i <= mounts@.len(),
            out@ == kept_mounts(mounts@.subrange(0, i as int), found@),
            forall|j: int| 0 <= j < i ==> present(found@, j) || (#[trigger] mounts@[j]).optional,
        decreases mounts.len() - i,
    {
        assert(mounts@.subrange(0, i + 1).drop_last() =~= mounts@.subrange(0, i as int));
        let here = i < found.len() && found[i];
        if here {
            out.push(mounts[i].duplicate());
        } else if !mounts[i].optional {
            let mut msg = String::from_str("mount source does not exist: ");
            msg.append(mounts[i].source.as_str());
            return Err(Error::ParseConfigurationError(msg));
        }
        i = i + 1;
    }
    assert(mounts@.subrange(0, i as int) =~= mounts@);
    Ok(out)
}

/// Sandbox policy: identity, hostname, filesystem layout, environment,
/// resource ceilings and system-call filter.
#[derive(Debug)]
pub struct SandboxPolicy {
    pub uid: Option<u32>,
    pub gid: Option<u32>,
    pub hostname: Option<String>,
    pub mount_new_tmpfs: Option<bool>,
    pub mount_new_devfs: Option<bool>,
    pub mounts: Vec<Mount>,
    pub env: Vec<(String, String)>,
    pub limits: Limits,
    pub seccomp: Option<Seccomp>,
}

/// Every mount target of the policy is absolute and free of `..`, and no
/// environment variable is named twice.
pub open spec fn policy_valid(p: SandboxPolicy) -> bool {
    &&& forall|i: int| 0 <= i < p.mounts@.len() ==> valid_target((#[trigger] p.mounts@[i]).target@)
    &&& keys_unique(env_view(p.env@))
}

impl SandboxPolicy {
    /// A policy that sets nothing: no mounts, no environment, inherited limits.
    pub fn empty() -> (r: SandboxPolicy)
        ensures
            r.uid is None,
            r.gid is None,
            r.hostname is None,
            r.mount_new_tmpfs is None,
            r.mount_new_devfs is None,
            r.mounts@.len() == 0,
            r.env@.len() == 0,
            r.limits == Limits::unlimited_spec(),
            r.seccomp is None,
    {
        SandboxPolicy {
            uid: None,
            gid: None,
            hostname: None,
            mount_new_tmpfs: None,
            mount_new_devfs: None,
            mounts: Vec::new(),
            env: Vec::new(),
            limits: Limits::unlimited(),
            seccomp: None,
        }
    }

    /// The read-only binds of the usual system directories, each optional.
    pub fn default_binds() -> (r: Vec<Mount>)
        ensures
            r@.len() == 6,
            r@[0].source@ == "/bin"@ && r@[0].target@ == "/bin"@,
            r@[1].source@ == "/lib"@ && r@[1].target@ == "/lib"@,
            r@[2].source@ == "/lib64"@ && r@[2].target@ == "/lib64"@,
            r@[3].source@ == "/usr/bin"@ && r@[3].target@ == "/usr/bin"@,
            r@[4].source@ == "/usr/lib"@ && r@[4].target@ == "/usr/lib"@,
            r@[5].source@ == "/usr/lib64"@ && r@[5].target@ == "/usr/lib64"@,
            forall|i: int| 0 <= i < 6 ==> !(#[trigger] r@[i]).rw && r@[i].optional,
    {
        let mut r: Vec<Mount> = Vec::new();
        r.push(Mount { source: String::from_str("/bin"), target: String::from_str("/bin"), rw: false, optional: true });
        r.push(Mount { source: String::from_str("/lib"), target: String::from_str("/lib"), rw: false, optional: true });
        r.push(Mount { source: String::from_str("/lib64"), target: String::from_str("/lib64"), rw: false, optional: true });
        r.push(Mount { source: String::from_str("/usr/bin"), target: String::from_str("/usr/bin"), rw: false, optional: true });
        r.push(Mount { source: String::from_str("/usr/lib"), target: String::from_str("/usr/lib"), rw: false, optional: true });
        r.push(Mount { source: String::from_str("/usr/lib64"), target: String::from_str("/usr/lib64"), rw: false, optional: true });
        r
    }

    /// Checks the mount targets, each absolute and free of `..`, and that no
    /// environment variable is named twice.
    pub fn validate(&self) -> (r: Result<(), Error>)
        ensures
            r is Ok <==> policy_valid(*self),
            r is Err ==> r->Err_0 is ParseConfigurationError,
    {
        let mut i: usize = 0;
        while i < self.mounts.len()
            invariant
                forall|j: int| 0 <= j < i ==> valid_target((#[trigger] self.mounts@[j]).target@),
            decreases self.mounts.len() - i,
        {
            if !is_valid_target(self.mounts[i].target.as_str()) {
                let mut msg = String::from_str("invalid mount target: ");
                msg.append(self.mounts[i].target.as_str());
                return Err(Error::ParseConfigurationError(msg));
            }
            i = i + 1;
        }
        self.check_env_names()
    }

    fn check_env_names(&self) -> (r: Result<(), Error>)
        requires
            forall|j: int| 0 <= j < self.mounts@.len() ==> valid_target((#[trigger] self.mounts@[j]).target@),
        ensures
            r is Ok <==> policy_valid(*self),
            r is Err ==> r->Err_0 is ParseConfigurationError,
    {
        let ghost s = env_view(self.env@);
        let mut seen: Vec<(String, String)> = Vec::new();
        let mut i: usize = 0;
        while i < self.env.len()
            invariant
                i <= self.env@.len(),
                s == env_view(self.env@),
                env_view(seen@) == s.subrange(0, i as int),
                keys_unique(s.subrange(0, i as int)),
            decreases self.env.len() - i,
        {
            let (k, v) = &self.env[i];
            if find_key(&seen, k).is_some() {
                proof {
                    let j = choose|j: int| 0 <= j < env_view(seen@).len() && (#[trigger] env_view(seen@)[j]).0 == k@;
                    assert(s[j] == env_view(seen@)[j]);
                    assert(s[i as int].0 == k@);
                }
                let mut msg = String::from_str("environment variable named twice: ");
                msg.append(k.as_str());
                return Err(Error::ParseConfigurationError(msg));
            }
            proof {
                assert(!has_key(env_view(seen@), k@));
                assert(s[i as int].0 == k@);
            }
            seen.push((k.clone(), v.clone()));
            proof {
                let t = s.subrange(0, i + 1);
                assert(env_view(seen@) =~= t);
                assert forall|a: int, b: int| 0 <= a < b < t.len() implies (#[trigger] t[a]).0 != (#[trigger] t[b]).0 by {
                    if b == i {
                        assert(t[a] == env_view(seen@)[a]);
                        assert(env_view(seen@)[a] == s.subrange(0, i as int)[a]);
                    } else {
                        assert(t[a] == s.subrange(0, i as int)[a]);
                        assert(t[b] == s.subrange(0, i as int)[b]);
                    }
                }
            }
            i = i + 1;
        }
        assert(s.subrange(0, i as int) =~= s);
        Ok(())
    }
}

} // verus!
