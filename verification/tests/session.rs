use proxmox_tui_installer::session::{
    abort_needs_confirmation, SessionEngine, SessionState, UiAction, REBOOT_DELAY_SECS,
};

fn running_engine(autoreboot: bool) -> SessionEngine {
    let mut engine = SessionEngine::new(autoreboot);
    assert_eq!(engine.state, SessionState::NotStarted);
    engine.start();
    assert_eq!(engine.state, SessionState::Starting);
    engine.on_streams_ready();
    assert_eq!(engine.state, SessionState::Running);
    engine
}

#[test]
fn spawn_failure_is_fatal() {
    let mut engine = SessionEngine::new(false);
    engine.start();
    let act = engine.on_spawn_failure("No such file or directory".to_owned());
    assert_eq!(engine.state, SessionState::Failed);
    assert_eq!(act, UiAction::FatalError("No such file or directory".to_owned()));
}

#[test]
fn missing_streams_are_fatal() {
    let mut engine = SessionEngine::new(false);
    engine.start();
    let act = engine.on_streams_missing();
    assert_eq!(engine.state, SessionState::Failed);
    assert_eq!(act, UiAction::FatalError("low-level installer exited early".to_owned()));
}

#[test]
fn lines_become_ordered_actions() {
    let mut engine = running_engine(false);

    let acts = engine.handle_line("message: starting");
    assert_eq!(acts, vec![UiAction::ShowInfo("starting".to_owned())]);

    let acts = engine.handle_line("error: minor hiccup");
    assert_eq!(acts, vec![UiAction::ShowError("minor hiccup".to_owned())]);

    let acts = engine.handle_line("prompt: continue?");
    assert_eq!(acts, vec![UiAction::ShowPrompt("continue?".to_owned())]);

    let acts = engine.handle_line("progress: 0.25 copying");
    assert_eq!(acts, vec![UiAction::SetProgress(25, "copying".to_owned())]);
    assert_eq!(engine.progress, 25);
    assert_eq!(engine.state, SessionState::Running);
}

#[test]
fn malformed_lines_are_skipped_not_fatal() {
    let mut engine = running_engine(true);
    let before_progress = engine.progress;
    let acts = engine.handle_line("garbage without a tag");
    assert!(acts.is_empty());
    let acts = engine.handle_line("progress: NaN text");
    assert!(acts.is_empty());
    assert_eq!(engine.progress, before_progress);
    assert_eq!(engine.state, SessionState::Running);
}

#[test]
fn finished_success_sets_progress_and_state() {
    let mut engine = running_engine(false);
    let acts = engine.handle_line("finished: ok, all set");
    assert_eq!(acts, vec![UiAction::ShowFinished(true, "all set".to_owned())]);
    assert_eq!(engine.progress, 100);
    assert_eq!(engine.state, SessionState::Succeeded);
    assert!(engine.finished_seen);
}

#[test]
fn finished_failure_sets_failed_state() {
    let mut engine = running_engine(true);
    let acts = engine.handle_line("finished: fail, out of space");
    // a failed verdict never schedules the reboot, flag or not
    assert_eq!(acts, vec![UiAction::ShowFinished(false, "out of space".to_owned())]);
    assert_eq!(engine.progress, 100);
    assert_eq!(engine.state, SessionState::Failed);
}

#[test]
fn reboot_is_scheduled_only_on_success_with_flag() {
    let mut engine = running_engine(true);
    let acts = engine.handle_line("finished: ok, done");
    assert_eq!(
        acts,
        vec![
            UiAction::ShowFinished(true, "done".to_owned()),
            UiAction::ScheduleShutdown(REBOOT_DELAY_SECS),
        ]
    );

    // without the flag, success alone schedules nothing
    let mut engine = running_engine(false);
    let acts = engine.handle_line("finished: ok, done");
    assert_eq!(acts, vec![UiAction::ShowFinished(true, "done".to_owned())]);
}

#[test]
fn eof_without_verdict_reports_early_termination() {
    let mut engine = running_engine(false);
    engine.handle_line("progress: 0.9 nearly");
    let acts = engine.handle_eof();
    assert_eq!(
        acts,
        vec![UiAction::FatalError("low-level installer exited early".to_owned())]
    );
    assert_eq!(engine.state, SessionState::Failed);
}

#[test]
fn eof_after_verdict_is_silent() {
    let mut engine = running_engine(false);
    engine.handle_line("finished: ok, done");
    let acts = engine.handle_eof();
    assert!(acts.is_empty());
    assert_eq!(engine.state, SessionState::Succeeded);
}

#[test]
fn whole_stream_without_verdict_reports_exactly_once() {
    let mut engine = running_engine(false);
    let lines = vec![
        "message: starting".to_owned(),
        "progress: 0.5 halfway".to_owned(),
        "stray noise".to_owned(),
    ];
    let acts = engine.run_to_end(&lines);
    let fatal: Vec<&UiAction> =
        acts.iter().filter(|a| matches!(a, UiAction::FatalError(_))).collect();
    assert_eq!(fatal.len(), 1);
    assert_eq!(
        acts.last(),
        Some(&UiAction::FatalError("low-level installer exited early".to_owned()))
    );
    assert_eq!(engine.state, SessionState::Failed);
}

#[test]
fn whole_stream_with_verdict_reports_no_failure() {
    let mut engine = running_engine(true);
    let lines = vec![
        "progress: 0.5 halfway".to_owned(),
        "finished: ok, installed".to_owned(),
    ];
    let acts = engine.run_to_end(&lines);
    assert!(acts.iter().all(|a| !matches!(a, UiAction::FatalError(_))));
    assert_eq!(
        acts,
        vec![
            UiAction::SetProgress(50, "halfway".to_owned()),
            UiAction::ShowFinished(true, "installed".to_owned()),
            UiAction::ScheduleShutdown(REBOOT_DELAY_SECS),
        ]
    );
    assert_eq!(engine.state, SessionState::Succeeded);
    assert_eq!(engine.progress, 100);
}

#[test]
fn abort_is_immediate_only_in_test_mode() {
    assert!(!abort_needs_confirmation(true));
    assert!(abort_needs_confirmation(false));

    let mut engine = running_engine(false);
    engine.abort();
    assert_eq!(engine.state, SessionState::Aborted);
}
