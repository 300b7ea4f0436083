use hakoniwa::env::{apply_default_env, find_key, setenv};

fn s(x: &str) -> String {
    x.to_string()
}

#[test]
fn setenv_appends_new_names() {
    let mut env = vec![];
    setenv(&mut env, s("A"), s("1"));
    setenv(&mut env, s("B"), s("2"));
    assert_eq!(env, vec![(s("A"), s("1")), (s("B"), s("2"))]);
}

#[test]
fn setenv_replaces_existing_name_in_place() {
    let mut env = vec![(s("A"), s("1")), (s("B"), s("2"))];
    setenv(&mut env, s("A"), s("3"));
    assert_eq!(env, vec![(s("A"), s("3")), (s("B"), s("2"))]);
    assert_eq!(find_key(&env, &s("B")), Some(1));
    assert_eq!(find_key(&env, &s("C")), None);
}

#[test]
fn defaults_fill_only_missing_names() {
    let mut env = vec![(s("TERM"), s("dumb"))];
    apply_default_env(&mut env);
    assert_eq!(
        env,
        vec![
            (s("TERM"), s("dumb")),
            (s("HOME"), s("/")),
            (s("PATH"), s("/usr/local/bin:/usr/bin:/bin")),
        ]
    );
}

#[test]
fn defaults_on_empty_environment() {
    let mut env = vec![];
    apply_default_env(&mut env);
    let names: Vec<&str> = env.iter().map(|(k, _)| k.as_str()).collect();
    assert_eq!(names, vec!["HOME", "PATH", "TERM"]);
    assert_eq!(env[2].1, "xterm");
}
