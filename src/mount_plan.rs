use vstd::prelude::*;
use crate::policy::Mount;

verus! {

/// Flags applied by the remount that follows each bind.
#[derive(Debug, Clone, Copy, PartialEq, Eq, Structural)]
pub struct MountFlags {
    pub read_only: bool,
    pub nosuid: bool,
    pub nodev: bool,
    pub noexec: bool,
}

/// One concrete step of building the new root.
#[derive(Debug)]
pub enum MountOp {
    /// The fresh tmpfs that becomes the new root.
    RootTmpfs,
    /// Bind a host path onto a target inside the new root.
    Bind { source: String, target: String },
    /// Remount a bound target with its final flags.
    Remount { target: String, flags: MountFlags },
    /// Provision the synthetic `/dev` nodes, those of [`dev_node_names`].
    DevNodes,
    /// A fresh tmpfs at `/tmp`.
    TmpTmpfs,
}

/// The mathematical value of a mount step.
pub enum OpView {
    RootTmpfs,
    Bind(Seq<char>, Seq<char>),
    Remount(Seq<char>, MountFlags),
    DevNodes,
    TmpTmpfs,
}

impl View for MountOp {
    type V = OpView;

    open spec fn view(&self) -> OpView {
        match self {
            MountOp::RootTmpfs => OpView::RootTmpfs,
            MountOp::Bind { source, target } => OpView::Bind(source@, target@),
            MountOp::Remount { target, flags } => OpView::Remount(target@, *flags),
            MountOp::DevNodes => OpView::DevNodes,
            MountOp::TmpTmpfs => OpView::TmpTmpfs,
        }
    }
}

pub open spec fn ops_view(s: Seq<MountOp>) -> Seq<OpView> {
    s.map_values(|o: MountOp| o@)
}

pub open spec fn proc_target(t: Seq<char>) -> bool {
    t == "/proc"@
}

/// procfs gets `rw,nosuid,nodev,noexec`; a read-only bind `ro,nosuid`; a
/// writable bind plain `rw`.
pub open spec fn remount_flags(m: Mount) -> MountFlags {
    if proc_target(m.target@) {
        MountFlags { read_only: false, nosuid: true, nodev: true, noexec: true }
    } else if m.rw {
        MountFlags { read_only: false, nosuid: false, nodev: false, noexec: false }
    } else {
        MountFlags { read_only: true, nosuid: true, nodev: false, noexec: false }
    }
}

pub open spec fn bind_ops(m: Mount) -> Seq<OpView> {
    seq![OpView::Bind(m.source@, m.target@), OpView::Remount(m.target@, remount_flags(m))]
}

/// The bind and remount steps of the entries whose target is (`proc`) or is
/// not (`!proc`) `/proc`, in declared order.
pub open spec fn binds_where(ms: Seq<Mount>, proc: bool) -> Seq<OpView>
    decreases ms.len(),
{
    if ms.len() == 0 {
        Seq::empty()
    } else {
        let rest = binds_where(ms.drop_last(), proc);
        if proc_target(ms.last().target@) == proc {
            rest + bind_ops(ms.last())
        } else {
            rest
        }
    }
}

pub open spec fn optional_op(on: bool, o: OpView) -> Seq<OpView> {
    if on {
        seq![o]
    } else {
        Seq::empty()
    }
}

/// The mount plan: the root tmpfs, then `/proc`, then the host binds in
/// declared order, then the `/dev` nodes, then `/tmp`.
pub open spec fn plan_of(ms: Seq<Mount>, devfs: bool, tmpfs: bool) -> Seq<OpView> {
    seq![OpView::RootTmpfs] + binds_where(ms, true) + binds_where(ms, false) + optional_op(
        devfs,
        OpView::DevNodes,
    ) + optional_op(tmpfs, OpView::TmpTmpfs)
}

/// The nodes provisioned under `/dev`, each bound from the host's node of
/// the same name.
pub open spec fn dev_nodes() -> Seq<Seq<char>> {
    seq!["null"@, "random"@, "urandom"@, "zero"@]
}

/// The names of the synthetic `/dev` nodes, in listing order.
pub fn dev_node_names() -> (r: Vec<&'static str>)
    ensures
        r@.map_values(|n: &str| n@) == dev_nodes(),
{
    let r = vec!["null", "random", "urandom", "zero"];
    assert(r@.map_values(|n: &str| n@) =~= dev_nodes());
    r
}

fn is_proc(target: &String) -> (r: bool)
    ensures
        r == proc_target(target@),
{
    let proc = String::from_str("/proc");
    target.eq(&proc)
}

fn flags_for(m: &Mount) -> (r: MountFlags)
    ensures
        r == remount_flags(*m),
{
    if is_proc(&m.target) {
        MountFlags { read_only: false, nosuid: true, nodev: true, noexec: true }
    } else if m.rw {
        MountFlags { read_only: false, nosuid: false, nodev: false, noexec: false }
    } else {
        MountFlags { read_only: true, nosuid: true, nodev: false, noexec: false }
    }
}

fn push_op(out: &mut Vec<MountOp>, o: MountOp)
    ensures
        ops_view(final(out)@) == ops_view(old(out)@).push(o@),
{
    out.push(o);
    assert(ops_view(out@) =~= ops_view(old(out)@).push(o@));
}

fn append_binds(out: &mut Vec<MountOp>, mounts: &Vec<Mount>, proc: bool)
    ensures
        ops_view(final(out)@) == ops_view(old(out)@) + binds_where(mounts@, proc),
{
    let ghost start = ops_view(out@);
    let mut i: usize = 0;
    while i < mounts.len()
        invariant
            i <= mounts@.len(),
            ops_view(out@) == start + binds_where(mounts@.subrange(0, i as int), proc),
        decreases mounts.len() - i,
    {
        let ghost prev = ops_view(out@);
        assert(mounts@.subrange(0, i + 1).drop_last() =~= mounts@.subrange(0, i as int));
        let m = &mounts[i];
        if is_proc(&m.target) == proc {
            push_op(out, MountOp::Bind { source: m.source.clone(), target: m.target.clone() });
            push_op(out, MountOp::Remount { target: m.target.clone(), flags: flags_for(m) });
            assert(ops_view(out@) =~= start + binds_where(mounts@.subrange(0, i + 1), proc));
        }
        i = i + 1;
    }
    assert(mounts@.subrange(0, i as int) =~= mounts@);
}

/// The ordered mount steps for `mounts`, with the `/dev` nodes when `devfs`
/// and a `/tmp` tmpfs when `tmpfs`.
pub fn plan_mounts(mounts: &Vec<Mount>, devfs: bool, tmpfs: bool) -> (r: Vec<MountOp>)
    ensures
        ops_view(r@) == plan_of(mounts@, devfs, tmpfs),
{
    let mut out: Vec<MountOp> = Vec::new();
    assert(ops_view(out@) =~= Seq::empty());
    push_op(&mut out, MountOp::RootTmpfs);
    append_binds(&mut out, mounts, true);
    append_binds(&mut out, mounts, false);
    if devfs {
        push_op(&mut out, MountOp::DevNodes);
    }
    if tmpfs {
        push_op(&mut out, MountOp::TmpTmpfs);
    }
    assert(ops_view(out@) =~= plan_of(mounts@, devfs, tmpfs));
    out
}

/// The step reads only what `ms` declares: a bind has the source and target
/// of some entry, a remount the target of some entry; the other steps are
/// the synthetic roots.
pub open spec fn declared_op(ms: Seq<Mount>, o: OpView) -> bool {
    match o {
        OpView::Bind(s, t) => exists|j: int|
            0 <= j < ms.len() && (#[trigger] ms[j]).source@ == s && ms[j].target@ == t,
        OpView::Remount(t, _) => exists|j: int| 0 <= j < ms.len() && (#[trigger] ms[j]).target@ == t,
        _ => true,
    }
}

proof fn lemma_binds_declared(ms: Seq<Mount>, proc: bool)
    ensures
        forall|k: int|
            0 <= k < binds_where(ms, proc).len() ==> declared_op(ms, #[trigger] binds_where(ms, proc)[k]),
    decreases ms.len(),
{
    if ms.len() > 0 {
        let init = ms.drop_last();
        lemma_binds_declared(init, proc);
        let rest = binds_where(init, proc);
        let b = binds_where(ms, proc);
        assert forall|k: int| 0 <= k < b.len() implies declared_op(ms, #[trigger] b[k]) by {
            if k < rest.len() {
                assert(b[k] == rest[k]);
                assert(declared_op(init, rest[k]));
                match rest[k] {
                    OpView::Bind(s, t) => {
                        let j = choose|j: int|
                            0 <= j < init.len() && (#[trigger] init[j]).source@ == s && init[j].target@ == t;
                        assert(ms[j] == init[j]);
                    },
                    OpView::Remount(t, _) => {
                        let j = choose|j: int| 0 <= j < init.len() && (#[trigger] init[j]).target@ == t;
                        assert(ms[j] == init[j]);
                    },
                    _ => {},
                }
            } else {
                let j = ms.len() - 1;
                assert(ms[j] == ms.last());
            }
        }
    }
}

/// Isolation of the filesystem view: every step of the plan mounts either a
/// synthetic root (the root tmpfs, the `/dev` nodes, the `/tmp` tmpfs) or a
/// source and target that the declared mount set names, so nothing else of
/// the host becomes reachable inside the sandbox.
pub proof fn lemma_plan_only_declared(ms: Seq<Mount>, devfs: bool, tmpfs: bool)
    ensures
        forall|k: int|
            0 <= k < plan_of(ms, devfs, tmpfs).len() ==> declared_op(ms, #[trigger] plan_of(ms, devfs, tmpfs)[k]),
{
    lemma_binds_declared(ms, true);
    lemma_binds_declared(ms, false);
    let p = plan_of(ms, devfs, tmpfs);
    let a = binds_where(ms, true);
    let b = binds_where(ms, false);
    assert forall|k: int| 0 <= k < p.len() implies declared_op(ms, #[trigger] p[k]) by {
        if 1 <= k < 1 + a.len() {
            assert(p[k] == a[k - 1]);
        } else if 1 + a.len() <= k < 1 + a.len() + b.len() {
            assert(p[k] == b[k - 1 - a.len()]);
        }
    }
}

/// `s` is made of (bind, remount) pairs, each remount on its bind's target.
pub open spec fn paired(s: Seq<OpView>) -> bool {
    &&& s.len() % 2 == 0
    &&& forall|k: int|
        0 <= k < s.len() ==> ((k % 2 == 0) == (#[trigger] s[k] is Bind)) && (k % 2 == 0 ==> s[k
            + 1] is Remount && s[k + 1]->Remount_0 == s[k]->Bind_1)
}

proof fn lemma_binds_paired(ms: Seq<Mount>, proc: bool)
    ensures
        paired(binds_where(ms, proc)),
    decreases ms.len(),
{
    if ms.len() > 0 {
        lemma_binds_paired(ms.drop_last(), proc);
        let rest = binds_where(ms.drop_last(), proc);
        let b = binds_where(ms, proc);
        if proc_target(ms.last().target@) == proc {
            assert forall|k: int| 0 <= k < b.len() implies ((k % 2 == 0) == (#[trigger] b[k] is Bind))
                && (k % 2 == 0 ==> b[k + 1] is Remount && b[k + 1]->Remount_0 == b[k]->Bind_1) by {
                if k < rest.len() {
                    assert(b[k] == rest[k]);
                    if k % 2 == 0 {
                        assert(b[k + 1] == rest[k + 1]);
                    }
                }
            }
        }
    }
}

/// Flags are applied in two steps: every bind of the plan is followed at
/// once by the remount of the same target, which sets its final flags.
pub proof fn lemma_bind_then_remount(ms: Seq<Mount>, devfs: bool, tmpfs: bool)
    ensures
        forall|k: int|
            0 <= k < plan_of(ms, devfs, tmpfs).len() && #[trigger] plan_of(ms, devfs, tmpfs)[k] is Bind
                ==> k + 1 < plan_of(ms, devfs, tmpfs).len() && plan_of(ms, devfs, tmpfs)[k + 1] is Remount
                && plan_of(ms, devfs, tmpfs)[k + 1]->Remount_0 == plan_of(ms, devfs, tmpfs)[k]->Bind_1,
{
    lemma_binds_paired(ms, true);
    lemma_binds_paired(ms, false);
    let p = plan_of(ms, devfs, tmpfs);
    let a = binds_where(ms, true);
    let b = binds_where(ms, false);
    assert forall|k: int| 0 <= k < p.len() && #[trigger] p[k] is Bind implies k + 1 < p.len()
        && p[k + 1] is Remount && p[k + 1]->Remount_0 == p[k]->Bind_1 by {
        if 1 <= k < 1 + a.len() {
            let j = k - 1;
            assert(p[k] == a[j]);
            assert(j % 2 == 0);
            assert(p[k + 1] == a[j + 1]);
        } else if 1 + a.len() <= k < 1 + a.len() + b.len() {
            let j = k - 1 - a.len();
            assert(p[k] == b[j]);
            assert(j % 2 == 0);
            assert(p[k + 1] == b[j + 1]);
        }
    }
}

} // verus!
