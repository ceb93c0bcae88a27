use openvair_installer::observer::{is_quit_input, TuiApp, TuiMessage, UserInput};
use openvair_installer::registry::StepRegistry;

fn basic_app() -> TuiApp {
    TuiApp::with_progress(StepRegistry::basic_installation().progress_model())
}

#[test]
fn ten_steps_started_and_completed_then_finished() {
    let mut app = basic_app();
    for i in 0..10 {
        app.handle_message(TuiMessage::StartStep(i));
        app.handle_message(TuiMessage::CompleteStep(i));
    }
    assert!(!app.should_quit());
    app.handle_message(TuiMessage::Exit);
    assert_eq!(app.progress().overall_percent(), 100);
    assert!(app.should_quit());
}

#[test]
fn observer_loop_ends_on_exit_without_quit_key() {
    let mut app = basic_app();
    let mut ticks = 0;
    let mut queue = Vec::new();
    for i in 0..10 {
        queue.push(TuiMessage::StartStep(i));
        queue.push(TuiMessage::CompleteStep(i));
    }
    queue.push(TuiMessage::Exit);
    let mut queue = queue.into_iter();
    loop {
        ticks += 1;
        if !app.tick(queue.next(), None) {
            break;
        }
        assert!(ticks < 100);
    }
    assert_eq!(ticks, 21);
    assert_eq!(app.progress().overall_percent(), 100);
}

#[test]
fn empty_tick_changes_nothing() {
    let mut app = basic_app();
    assert!(app.tick(None, None));
    assert!(app.tick(None, Some(UserInput::Char('x'))));
    assert!(app.tick(None, Some(UserInput::Other)));
    assert_eq!(app.status_message(), "Starting installation...");
    assert_eq!(app.progress().overall_percent(), 0);
}

#[test]
fn quit_keys_stop_the_loop() {
    assert!(is_quit_input(UserInput::Char('q')));
    assert!(is_quit_input(UserInput::Escape));
    assert!(!is_quit_input(UserInput::Char('Q')));
    assert!(!is_quit_input(UserInput::Other));
    let mut app = basic_app();
    assert!(!app.tick(None, Some(UserInput::Escape)));
    assert!(!app.should_quit());
    let mut app2 = basic_app();
    assert!(!app2.tick(Some(TuiMessage::StartStep(0)), Some(UserInput::Char('q'))));
    assert!(app2.progress().step(0).unwrap().in_progress);
}

#[test]
fn status_line_names_the_step() {
    let mut app = basic_app();
    app.handle_message(TuiMessage::StartStep(2));
    assert_eq!(app.status_message(), "Starting: JwtSecret");
    assert_eq!(app.progress().current_step(), 2);
    app.handle_message(TuiMessage::CompleteStep(2));
    assert_eq!(app.status_message(), "Completed: JwtSecret");
    app.handle_message(TuiMessage::FailStep(3));
    assert_eq!(app.status_message(), "Failed: OsTypeDetection");
    assert!(app.progress().step(3).unwrap().failed);
    assert_eq!(app.progress().current_step(), 2);
}

#[test]
fn out_of_range_messages_report_the_raw_index() {
    let mut app = basic_app();
    app.handle_message(TuiMessage::StartStep(42));
    assert_eq!(app.status_message(), "Starting step 42");
    app.handle_message(TuiMessage::CompleteStep(10));
    assert_eq!(app.status_message(), "Completed step 10");
    app.handle_message(TuiMessage::FailStep(1234567));
    assert_eq!(app.status_message(), "Failed step 1234567");
    assert_eq!(app.progress().overall_percent(), 0);
    assert_eq!(app.progress().current_step(), 0);
    assert!(!app.should_quit());
}

#[test]
fn status_updates_replace_the_line() {
    let mut app = basic_app();
    app.handle_message(TuiMessage::UpdateStatus("Installation completed successfully!".to_string()));
    assert_eq!(app.status_message(), "Installation completed successfully!");
}

#[test]
fn default_dashboard_lists_the_basic_run() {
    let mut app = TuiApp::new();
    assert_eq!(app.progress().total_steps(), 10);
    assert_eq!(app.status_message(), "Starting installation...");
    app.handle_message(TuiMessage::StartStep(0));
    assert_eq!(app.status_message(), "Starting: TmuxInstall");
    app.handle_message(TuiMessage::CompleteStep(0));
    assert_eq!(app.progress().overall_percent(), 10);
    assert_eq!(app.progress().overall_tenths(), 100);
}

#[test]
fn default_dashboard_reaches_full_progress_after_ten_steps() {
    let mut app = TuiApp::new();
    for i in 0..10 {
        app.handle_message(TuiMessage::StartStep(i));
        app.handle_message(TuiMessage::CompleteStep(i));
    }
    app.handle_message(TuiMessage::Exit);
    assert_eq!(app.progress().overall_percent(), 100);
    assert!(app.should_quit());
}
