use hakoniwa::policy::{is_valid_target, resolve_mounts};
use hakoniwa::{Error, Limits, Mount, ResourceKind, SandboxPolicy, Seccomp, SeccompAction};

fn mount(source: &str, target: &str, rw: bool, optional: bool) -> Mount {
    Mount { source: source.to_string(), target: target.to_string(), rw, optional }
}

#[test]
fn valid_targets() {
    assert!(is_valid_target("/bin"));
    assert!(is_valid_target("/usr/lib64"));
    assert!(is_valid_target("/a..b"));
    assert!(is_valid_target("/..."));
    assert!(!is_valid_target(""));
    assert!(!is_valid_target("bin"));
    assert!(!is_valid_target("/../etc"));
    assert!(!is_valid_target("/a/.."));
    assert!(!is_valid_target("/a/../b"));
}

#[test]
fn seccomp_allow_default_kills_listed() {
    let f = Seccomp { default_action: SeccompAction::Allow, syscalls: vec!["mount".to_string(), "reboot".to_string()] };
    assert_eq!(f.action_for(&"reboot".to_string()), SeccompAction::Kill);
    assert_eq!(f.action_for(&"read".to_string()), SeccompAction::Allow);
}

#[test]
fn seccomp_kill_default_kills_unlisted() {
    let f = Seccomp { default_action: SeccompAction::Kill, syscalls: vec!["read".to_string()] };
    assert_eq!(f.action_for(&"read".to_string()), SeccompAction::Allow);
    assert_eq!(f.action_for(&"execve".to_string()), SeccompAction::Kill);
    let empty = Seccomp { default_action: SeccompAction::Kill, syscalls: vec![] };
    assert_eq!(empty.action_for(&"execve".to_string()), SeccompAction::Kill);
}

#[test]
fn seccomp_unknown_names_rejected() {
    let known = vec!["read".to_string(), "write".to_string()];
    let f = Seccomp { default_action: SeccompAction::Allow, syscalls: vec!["write".to_string()] };
    assert!(f.check_names(&known).is_ok());
    let g = Seccomp { default_action: SeccompAction::Allow, syscalls: vec!["write".to_string(), "bogus".to_string()] };
    match g.check_names(&known) {
        Err(Error::ParseConfigurationError(m)) => assert_eq!(m, "unknown system call: bogus"),
        _ => panic!("expected a parse error"),
    }
}

#[test]
fn limits_entries_in_order() {
    let l = Limits { address_space: Some(1 << 20), cpu: Some(2), core: None, fsize: Some(0), nofile: Some(64) };
    assert_eq!(
        l.entries(),
        vec![
            (ResourceKind::AddressSpace, Some(1 << 20)),
            (ResourceKind::CpuSeconds, Some(2)),
            (ResourceKind::CoreSize, None),
            (ResourceKind::FileSize, Some(0)),
            (ResourceKind::OpenFiles, Some(64)),
        ]
    );
    assert!(Limits::unlimited().entries().iter().all(|(_, v)| v.is_none()));
}

#[test]
fn missing_required_source_is_an_error() {
    let ms = vec![mount("/bin", "/bin", false, false), mount("/nope", "/nope", false, false)];
    match resolve_mounts(&ms, &vec![true, false]) {
        Err(Error::ParseConfigurationError(m)) => assert_eq!(m, "mount source does not exist: /nope"),
        _ => panic!("expected a parse error"),
    }
}

#[test]
fn missing_optional_source_is_skipped() {
    let ms = vec![
        mount("/bin", "/bin", false, false),
        mount("/lib64", "/lib64", false, true),
        mount("/data", "/data", true, false),
    ];
    let kept = resolve_mounts(&ms, &vec![true, false, true]).ok().unwrap();
    assert_eq!(kept.len(), 2);
    assert_eq!(kept[0].source, "/bin");
    assert_eq!(kept[1].source, "/data");
    assert!(kept[1].rw);
    // entries past the end of `found` count as missing
    assert!(resolve_mounts(&ms, &vec![true]).is_err());
}

#[test]
fn default_binds_are_optional_read_only() {
    let b = SandboxPolicy::default_binds();
    let targets: Vec<&str> = b.iter().map(|m| m.target.as_str()).collect();
    assert_eq!(targets, vec!["/bin", "/lib", "/lib64", "/usr/bin", "/usr/lib", "/usr/lib64"]);
    assert!(b.iter().all(|m| m.optional && !m.rw && m.source == m.target));
}

#[test]
fn validate_checks_targets() {
    let mut p = SandboxPolicy::empty();
    p.mounts.push(mount("/bin", "/bin", false, false));
    assert!(p.validate().is_ok());
    p.mounts.push(mount("/lib", "lib", false, false));
    match p.validate() {
        Err(e) => assert_eq!(e.message(), "invalid mount target: lib"),
        Ok(()) => panic!("expected an error"),
    }
}

#[test]
fn validate_rejects_repeated_env_names() {
    let mut p = SandboxPolicy::empty();
    p.env.push(("A".to_string(), "1".to_string()));
    p.env.push(("B".to_string(), "2".to_string()));
    assert!(p.validate().is_ok());
    p.env.push(("A".to_string(), "3".to_string()));
    match p.validate() {
        Err(e) => assert_eq!(e.message(), "environment variable named twice: A"),
        Ok(()) => panic!("expected an error"),
    }
}
