use hakoniwa::child::{after_step, child_steps, exec_arg, ChildAction, ChildStep};

#[test]
fn steps_run_in_setup_order() {
    let steps = child_steps();
    assert_eq!(steps.len(), 10);
    assert_eq!(steps[0], ChildStep::WaitStart);
    assert_eq!(steps[7], ChildStep::SignalReady);
    assert_eq!(steps[8], ChildStep::InstallSeccomp);
    assert_eq!(steps[9], ChildStep::Exec);
    for i in 0..9 {
        assert_eq!(steps[i].next(), Some(steps[i + 1]));
    }
    assert_eq!(ChildStep::Exec.next(), None);
}

#[test]
fn reserved_codes_round_trip() {
    for (i, s) in child_steps().into_iter().enumerate() {
        assert_eq!(s.exit_code(), 101 + i as i32);
        assert_eq!(ChildStep::from_exit_code(s.exit_code()), Some(s));
    }
    assert_eq!(ChildStep::from_exit_code(100), None);
    assert_eq!(ChildStep::from_exit_code(111), None);
    assert_eq!(ChildStep::from_exit_code(127), None);
}

#[test]
fn child_decisions() {
    assert_eq!(after_step(ChildStep::WaitStart, true, false), Some(ChildAction::Run(ChildStep::SetHostname)));
    assert_eq!(after_step(ChildStep::PivotRoot, false, false), Some(ChildAction::Exit(104)));
    assert_eq!(after_step(ChildStep::Exec, false, true), Some(ChildAction::Exit(127)));
    assert_eq!(after_step(ChildStep::Exec, false, false), Some(ChildAction::Exit(126)));
    assert_eq!(after_step(ChildStep::Exec, true, false), None);
}

#[test]
fn exec_args_with_nul_become_empty() {
    assert_eq!(exec_arg(&"ls".to_string()), "ls");
    assert_eq!(exec_arg(&"a\0b".to_string()), "");
    assert_eq!(exec_arg(&String::new()), "");
}
