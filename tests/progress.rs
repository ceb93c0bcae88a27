use openvair_installer::progress::{InstallProgress, InstallStep};

fn model(n: usize) -> InstallProgress {
    let mut steps = Vec::new();
    for i in 0..n {
        steps.push(InstallStep::new(&format!("step {}", i), "work"));
    }
    InstallProgress::from_steps(steps)
}

fn is_pending(s: &InstallStep) -> bool {
    !s.completed && !s.in_progress && !s.failed
}

#[test]
fn install_step_transitions() {
    let mut s = InstallStep::new("Install tmux", "Check and install tmux if needed");
    assert_eq!(s.name, "Install tmux");
    assert_eq!(s.description, "Check and install tmux if needed");
    assert!(is_pending(&s));
    s.start();
    assert!(s.in_progress && !s.completed && !s.failed);
    s.complete();
    assert!(s.completed && !s.in_progress && !s.failed);
    s.start();
    assert!(s.in_progress && !s.completed && !s.failed);
    s.fail();
    assert!(s.failed && !s.in_progress && !s.completed);
    s.start();
    assert!(s.in_progress && !s.failed);
}

#[test]
fn default_model_has_thirty_nine_pending_steps() {
    let p = InstallProgress::new();
    assert_eq!(p.total_steps(), 39);
    assert_eq!(p.current_step(), 0);
    assert_eq!(p.step(0).unwrap().name, "Install tmux");
    assert_eq!(p.step(38).unwrap().name, "Final message");
    assert_eq!(p.step(38).unwrap().description, "Display installation summary");
    for i in 0..39 {
        assert!(is_pending(p.step(i).unwrap()));
    }
    assert!(p.step(39).is_none());
    assert_eq!(p.overall_percent(), 0);
}

#[test]
fn percent_counts_completed_only() {
    let mut p = model(3);
    p.start_step(0);
    p.complete_step(0);
    assert_eq!(p.overall_percent(), 33);
    assert_eq!(p.overall_tenths(), 333);
    p.start_step(1);
    assert_eq!(p.overall_percent(), 33);
    p.fail_step(1);
    assert_eq!(p.overall_percent(), 33);
    p.start_step(2);
    p.complete_step(2);
    assert_eq!(p.overall_percent(), 66);
    assert_eq!(p.overall_tenths(), 666);
    assert_eq!(p.completed_count(), 2);
}

#[test]
fn percent_of_exact_fractions() {
    let mut p = model(8);
    p.complete_step(0);
    assert_eq!(p.overall_percent(), 12);
    assert_eq!(p.overall_tenths(), 125);
    let mut q = model(4);
    q.complete_step(0);
    q.complete_step(3);
    assert_eq!(q.overall_percent(), 50);
}

#[test]
fn empty_model_is_at_zero() {
    let p = model(0);
    assert_eq!(p.total_steps(), 0);
    assert_eq!(p.overall_percent(), 0);
    assert_eq!(p.overall_tenths(), 0);
}

#[test]
fn restarting_a_completed_step_resets_it() {
    let mut p = model(2);
    p.start_step(1);
    p.complete_step(1);
    assert_eq!(p.overall_percent(), 50);
    p.start_step(1);
    let s = p.step(1).unwrap();
    assert!(s.in_progress && !s.completed && !s.failed);
    assert_eq!(p.current_step(), 1);
    assert_eq!(p.overall_percent(), 0);
}

#[test]
fn restarting_a_failed_step_resets_it() {
    let mut p = model(2);
    p.start_step(0);
    p.fail_step(0);
    p.start_step(0);
    let s = p.step(0).unwrap();
    assert!(s.in_progress && !s.failed);
}

#[test]
fn out_of_range_indices_leave_the_model_unchanged() {
    let mut p = model(3);
    p.start_step(1);
    p.complete_step(3);
    p.fail_step(3);
    p.start_step(usize::MAX);
    p.complete_step(usize::MAX);
    p.fail_step(100);
    assert_eq!(p.current_step(), 1);
    assert!(p.step(1).unwrap().in_progress);
    assert!(is_pending(p.step(0).unwrap()));
    assert!(is_pending(p.step(2).unwrap()));
    assert_eq!(p.overall_percent(), 0);
}

#[test]
fn from_steps_resets_given_records() {
    let mut done = InstallStep::new("a", "b");
    done.complete();
    let p = InstallProgress::from_steps(vec![done]);
    assert!(is_pending(p.step(0).unwrap()));
    assert_eq!(p.step(0).unwrap().name, "a");
}
