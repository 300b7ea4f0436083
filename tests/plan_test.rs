use hakoniwa::mount_plan::{dev_node_names, plan_mounts, MountFlags, MountOp};
use hakoniwa::Mount;

fn mount(source: &str, target: &str, rw: bool) -> Mount {
    Mount { source: source.to_string(), target: target.to_string(), rw, optional: false }
}

fn describe(op: &MountOp) -> String {
    match op {
        MountOp::RootTmpfs => "root".to_string(),
        MountOp::Bind { source, target } => format!("bind {} {}", source, target),
        MountOp::Remount { target, flags } => format!(
            "remount {} {}{}{}{}",
            target,
            if flags.read_only { "ro" } else { "rw" },
            if flags.nosuid { ",nosuid" } else { "" },
            if flags.nodev { ",nodev" } else { "" },
            if flags.noexec { ",noexec" } else { "" },
        ),
        MountOp::DevNodes => "dev".to_string(),
        MountOp::TmpTmpfs => "tmp".to_string(),
    }
}

#[test]
fn plan_orders_root_proc_binds_dev_tmp() {
    let ms = vec![mount("/bin", "/bin", false), mount("/proc", "/proc", true), mount("/data", "/data", true)];
    let plan: Vec<String> = plan_mounts(&ms, true, true).iter().map(describe).collect();
    assert_eq!(
        plan,
        vec![
            "root",
            "bind /proc /proc",
            "remount /proc rw,nosuid,nodev,noexec",
            "bind /bin /bin",
            "remount /bin ro,nosuid",
            "bind /data /data",
            "remount /data rw",
            "dev",
            "tmp",
        ]
    );
}

#[test]
fn plan_with_only_bin() {
    let ms = vec![mount("/bin", "/bin", false)];
    let plan: Vec<String> = plan_mounts(&ms, false, false).iter().map(describe).collect();
    assert_eq!(plan, vec!["root", "bind /bin /bin", "remount /bin ro,nosuid"]);
}

#[test]
fn read_only_lib_gets_ro_nosuid() {
    let ms = vec![mount("/lib", "/lib", false)];
    let plan = plan_mounts(&ms, false, false);
    match &plan[2] {
        MountOp::Remount { target, flags } => {
            assert_eq!(target, "/lib");
            assert_eq!(*flags, MountFlags { read_only: true, nosuid: true, nodev: false, noexec: false });
        }
        _ => panic!("expected a remount"),
    }
}

#[test]
fn empty_plan_is_root_only() {
    let plan: Vec<String> = plan_mounts(&vec![], false, false).iter().map(describe).collect();
    assert_eq!(plan, vec!["root"]);
    let plan: Vec<String> = plan_mounts(&vec![], true, false).iter().map(describe).collect();
    assert_eq!(plan, vec!["root", "dev"]);
}

#[test]
fn proc_is_writable_without_rw() {
    let ms = vec![mount("/proc", "/proc", false)];
    let plan: Vec<String> = plan_mounts(&ms, false, false).iter().map(describe).collect();
    assert_eq!(plan, vec!["root", "bind /proc /proc", "remount /proc rw,nosuid,nodev,noexec"]);
}

#[test]
fn dev_nodes_listed() {
    let listing: String = dev_node_names().iter().map(|n| format!("{}\n", n)).collect();
    assert_eq!(listing, "null\nrandom\nurandom\nzero\n");
}
