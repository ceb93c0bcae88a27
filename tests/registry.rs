use openvair_installer::failure::Failure;
use openvair_installer::observer::{TuiApp, TuiMessage};
use openvair_installer::progress::InstallProgress;
use openvair_installer::registry::{completion_status, RunAction, StepRegistry};
use openvair_installer::step::{
    InstallerStep, JwtSecretStep, StepKind, TmuxInstallStep, UserDataVerificationStep,
    WebsockifyStep,
};

struct Trace {
    result: Result<(), Failure>,
    invoked: Vec<(usize, usize, usize)>,
    messages: Vec<TuiMessage>,
}

/// Runs `registry`, the step at index `i` reporting `outcomes[i]`.
fn drive(registry: &StepRegistry, outcomes: Vec<Result<(), Failure>>) -> Trace {
    let mut run = registry.start_run();
    let mut outcomes = outcomes.into_iter();
    let mut invoked = Vec::new();
    let mut messages = Vec::new();
    loop {
        match run.next_action() {
            RunAction::Run { index, position, total } => {
                invoked.push((index, position, total));
                messages.push(TuiMessage::StartStep(index));
                let outcome = outcomes.next().expect("a step ran that should not have");
                messages.push(run.record(outcome));
            }
            RunAction::Done => break,
        }
    }
    Trace { result: run.finish(), invoked, messages }
}

fn failure() -> Failure {
    Failure::CommandFailed {
        operation: "Installing package: tmux".to_string(),
        exit_code: 100,
        stderr: "E: Unable to locate package".to_string(),
    }
}

fn three_steps() -> StepRegistry {
    StepRegistry::new()
        .add_step(TmuxInstallStep)
        .add_step(UserDataVerificationStep)
        .add_step(JwtSecretStep)
}

fn observe(registry: &StepRegistry, messages: Vec<TuiMessage>) -> TuiApp {
    let mut app = TuiApp::with_progress(registry.progress_model());
    for m in messages {
        app.handle_message(m);
    }
    app
}

#[test]
fn add_step_keeps_build_order() {
    let r = three_steps();
    assert_eq!(r.len(), 3);
    assert_eq!(r.step(0), Some(StepKind::TmuxInstall));
    assert_eq!(r.step(1), Some(StepKind::UserDataVerification));
    assert_eq!(r.step(2), Some(StepKind::JwtSecret));
    assert_eq!(r.step(3), None);
    assert_eq!(StepRegistry::new().len(), 0);
}

#[test]
fn basic_and_extended_registries() {
    let basic = StepRegistry::basic_installation();
    assert_eq!(basic.len(), 10);
    assert_eq!(basic.step(0), Some(StepKind::TmuxInstall));
    assert_eq!(basic.step(9), Some(StepKind::Websockify));
    let extended = StepRegistry::extended_installation();
    assert_eq!(extended.len(), 21);
    assert_eq!(extended.step(10), Some(StepKind::Libvirt));
    assert_eq!(extended.step(20), Some(StepKind::ArchDetection));
}

#[test]
fn step_names_and_descriptions() {
    assert_eq!(TmuxInstallStep.name(), "TmuxInstall");
    assert_eq!(TmuxInstallStep.description(), "Install and configure tmux session manager");
    assert_eq!(WebsockifyStep.name(), "Websockify");
    assert_eq!(StepKind::ArchDetection.name(), "ArchDetection");
    assert_eq!(
        StepKind::ArchDetection.description(),
        "Detect system architecture for binary downloads"
    );
}

#[test]
fn all_succeeding_run_invokes_every_step_in_order() {
    let r = three_steps();
    let t = drive(&r, vec![Ok(()), Ok(()), Ok(())]);
    assert_eq!(t.result, Ok(()));
    assert_eq!(t.invoked, vec![(0, 1, 3), (1, 2, 3), (2, 3, 3)]);
}

#[test]
fn end_to_end_three_successes_reach_full_progress() {
    let r = three_steps();
    let t = drive(&r, vec![Ok(()), Ok(()), Ok(())]);
    assert_eq!(t.result, Ok(()));
    let app = observe(&r, t.messages);
    assert_eq!(app.progress().overall_percent(), 100);
    assert_eq!(app.progress().overall_tenths(), 1000);
    assert_eq!(app.progress().completed_count(), 3);
}

#[test]
fn end_to_end_second_step_fails() {
    let r = three_steps();
    let t = drive(&r, vec![Ok(()), Err(failure())]);
    assert_eq!(t.result, Err(failure()));
    assert_eq!(t.invoked, vec![(0, 1, 3), (1, 2, 3)]);
    assert_eq!(
        t.messages,
        vec![
            TuiMessage::StartStep(0),
            TuiMessage::CompleteStep(0),
            TuiMessage::StartStep(1),
            TuiMessage::FailStep(1),
        ]
    );
    let app = observe(&r, t.messages);
    let p = app.progress();
    assert!(p.step(0).unwrap().completed);
    assert!(p.step(1).unwrap().failed);
    let third = p.step(2).unwrap();
    assert!(!third.completed && !third.failed && !third.in_progress);
    assert_eq!(p.overall_percent(), 33);
}

#[test]
fn first_step_failure_stops_everything() {
    let r = StepRegistry::basic_installation();
    let t = drive(&r, vec![Err(Failure::LoginInvalid)]);
    assert_eq!(t.result, Err(Failure::LoginInvalid));
    assert_eq!(t.invoked, vec![(0, 1, 10)]);
}

#[test]
fn last_step_failure_after_all_others() {
    let r = three_steps();
    let t = drive(&r, vec![Ok(()), Ok(()), Err(failure())]);
    assert_eq!(t.result, Err(failure()));
    assert_eq!(t.invoked.len(), 3);
}

#[test]
fn empty_registry_runs_nothing_and_succeeds() {
    let r = StepRegistry::new();
    let t = drive(&r, vec![]);
    assert_eq!(t.result, Ok(()));
    assert!(t.invoked.is_empty());
}

#[test]
fn identical_steps_get_their_own_positions() {
    let r = StepRegistry::new()
        .add_step(TmuxInstallStep)
        .add_step(TmuxInstallStep)
        .add_step(TmuxInstallStep);
    let t = drive(&r, vec![Ok(()), Ok(()), Ok(())]);
    assert_eq!(t.invoked, vec![(0, 1, 3), (1, 2, 3), (2, 3, 3)]);
}

#[test]
fn progress_model_of_registry_uses_step_labels() {
    let r = three_steps();
    let p: InstallProgress = r.progress_model();
    assert_eq!(p.total_steps(), 3);
    assert_eq!(p.step(1).unwrap().name, "UserDataVerification");
    assert_eq!(p.step(1).unwrap().description, "Verify user credentials from configuration");
    assert_eq!(p.current_step(), 0);
    assert_eq!(p.overall_percent(), 0);
}

#[test]
fn completion_status_line() {
    assert_eq!(completion_status(&Ok(())), "Installation completed successfully!");
    assert_eq!(
        completion_status(&Err(Failure::LoginInvalid)),
        "Installation failed: User login is not valid or not specified. Installation script stopped"
    );
}
