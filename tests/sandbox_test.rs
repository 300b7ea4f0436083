use hakoniwa::fs::{executable_candidates, is_executable, join_path};
use hakoniwa::executor::DEFAULT_OUTPUT_LIMIT;
use hakoniwa::supervisor::{deadline_step, decimal_string, id_map_line, WaitAction};
use hakoniwa::{Limits, Mount, Sandbox, SandboxPolicy, Seccomp, SeccompAction};

fn policy() -> SandboxPolicy {
    let mut p = SandboxPolicy::empty();
    p.uid = Some(0);
    p.gid = Some(0);
    p.hostname = Some("box".to_string());
    p.mount_new_devfs = Some(true);
    p.mounts.push(Mount::new("/bin".to_string(), "/bin".to_string(), false));
    p.env.push(("LANG".to_string(), "C".to_string()));
    p.env.push(("TERM".to_string(), "dumb".to_string()));
    p.limits = Limits { address_space: None, cpu: Some(1), core: Some(0), fsize: None, nofile: Some(32) };
    p.seccomp = Some(Seccomp { default_action: SeccompAction::Kill, syscalls: vec![] });
    p
}

#[test]
fn command_without_policy_is_bare() {
    let sandbox = Sandbox::new();
    let e = sandbox.command("/bin/true", &["/bin/true"]);
    assert_eq!(e.prog, "/bin/true");
    assert_eq!(e.argv, vec!["/bin/true".to_string()]);
    assert_eq!(e.uid, None);
    assert!(e.mounts.is_empty());
    assert!(e.env.is_empty());
    assert!(!e.mount_new_devfs && !e.mount_new_tmpfs);
    assert_eq!(e.dir, "/");
}

#[test]
fn command_carries_policy() {
    let mut sandbox = Sandbox::new();
    sandbox.with_policy(policy());
    let e = sandbox.command("ls", &["ls", "/dev"]);
    assert_eq!(e.argv, vec!["ls".to_string(), "/dev".to_string()]);
    assert_eq!(e.uid, Some(0));
    assert_eq!(e.hostname.as_deref(), Some("box"));
    assert!(e.mount_new_devfs);
    assert!(!e.mount_new_tmpfs);
    assert_eq!(e.mounts.len(), 1);
    assert_eq!(e.mounts[0].target, "/bin");
    assert_eq!(e.env, vec![("LANG".to_string(), "C".to_string()), ("TERM".to_string(), "dumb".to_string())]);
    assert_eq!(e.limits.cpu, Some(1));
    assert_eq!(e.limits.nofile, Some(32));
    assert!(e.kills_syscall(&"execve".to_string()));
    assert_eq!(e.effective_ids(1000, 1000), (0, 0));
    let env = e.child_env();
    let names: Vec<&str> = env.iter().map(|(k, _)| k.as_str()).collect();
    assert_eq!(names, vec!["LANG", "TERM", "HOME", "PATH"]);
}

#[test]
fn executor_setters() {
    let mut e = Sandbox::new().command("sleep", &["sleep", "10"]);
    assert_eq!(e.effective_ids(1000, 100), (1000, 100));
    e.uid(5);
    e.deadline_ms(100);
    e.setenv(&"A".to_string(), &"1".to_string());
    e.setenv(&"A".to_string(), &"2".to_string());
    e.stdin(b"in".to_vec());
    assert_eq!(e.effective_ids(1000, 100), (5, 100));
    assert_eq!(e.deadline_ms, Some(100));
    assert_eq!(e.env, vec![("A".to_string(), "2".to_string())]);
    assert_eq!(e.stdin, Some(b"in".to_vec()));
    assert!(!e.kills_syscall(&"read".to_string()));
    assert_eq!(e.output_limit, DEFAULT_OUTPUT_LIMIT);
    e.output_limit(16);
    assert_eq!(e.output_limit, 16);
    e.mount_new_tmpfs(true);
    assert_eq!(e.mount_plan().len(), 2);
}

#[test]
fn executable_bits() {
    assert!(is_executable(true, 0o755));
    assert!(is_executable(true, 0o100));
    assert!(!is_executable(true, 0o644));
    assert!(!is_executable(false, 0o755));
}

#[test]
fn candidates_follow_search_path() {
    let dirs = vec!["/usr/bin".to_string(), "/bin/".to_string(), String::new()];
    assert_eq!(
        executable_candidates(&"ls".to_string(), &dirs),
        vec!["ls".to_string(), "/usr/bin/ls".to_string(), "/bin/ls".to_string(), "ls".to_string()]
    );
    assert_eq!(executable_candidates(&"./run".to_string(), &dirs), vec!["./run".to_string()]);
    assert_eq!(join_path(&"/a".to_string(), &"b".to_string()), "/a/b");
}

#[test]
fn id_map_lines() {
    assert_eq!(id_map_line(0, 1000), "0 1000 1\n");
    assert_eq!(id_map_line(65534, 4294967295), "65534 4294967295 1\n");
    assert_eq!(decimal_string(0), "0");
    assert_eq!(decimal_string(10), "10");
}

#[test]
fn deadline_decisions() {
    assert_eq!(deadline_step(5, None), WaitAction::Poll(None));
    assert_eq!(deadline_step(30, Some(100)), WaitAction::Poll(Some(70)));
    assert_eq!(deadline_step(100, Some(100)), WaitAction::Kill);
    assert_eq!(deadline_step(250, Some(100)), WaitAction::Kill);
}
