use spt_modpack_updater::progress::ProgressEvent;
use spt_modpack_updater::tui::{Action, App, Key, Mode, Progress, LOG_CAPACITY};
use spt_modpack_updater::types::UpdateStatus;

fn app() -> App {
    App::new(Some("4.0.13".to_string()), "main".to_string())
}

/// An app whose startup check has finished.
fn idle_app() -> App {
    let mut a = app();
    assert!(!a.drain_events(vec![ProgressEvent::Done]));
    assert_eq!(a.mode, Mode::Idle);
    a
}

fn log(s: &str) -> ProgressEvent {
    ProgressEvent::Log(s.to_string())
}

#[test]
fn starts_with_the_background_check() {
    let a = app();
    assert_eq!(a.mode, Mode::Running { is_user_op: false });
    assert_eq!(a.phase, "Checking for updates...");
    assert_eq!(a.status, UpdateStatus::NotInitialized);
    assert_eq!(a.branch, "main");
    assert_eq!(a.menu_sel, 0);
    assert_eq!(a.progress, Progress::Start);
    assert!(a.log.is_empty());
}

#[test]
fn menu_moves_within_its_three_entries() {
    let mut a = idle_app();
    assert_eq!(a.handle_key(Key::Up), Action::Stay);
    assert_eq!(a.menu_sel, 0);
    a.handle_key(Key::Down);
    a.handle_key(Key::Down);
    a.handle_key(Key::Down);
    assert_eq!(a.menu_sel, 2);
    a.handle_key(Key::Up);
    assert_eq!(a.menu_sel, 1);
}

#[test]
fn enter_starts_the_highlighted_operation() {
    let mut a = idle_app();
    a.drain_events(vec![log("old")]);
    assert_eq!(a.handle_key(Key::Enter), Action::StartUpdate);
    assert_eq!(a.op_name, "UPDATE");
    assert_eq!(a.phase, "Starting update...");
    assert_eq!(a.mode, Mode::Running { is_user_op: true });
    assert!(a.log.is_empty());

    let mut b = idle_app();
    b.handle_key(Key::Down);
    assert_eq!(b.handle_key(Key::Enter), Action::StartRepair);
    assert_eq!(b.op_name, "REPAIR");
    assert_eq!(b.phase, "Repairing config files...");

    let mut c = idle_app();
    c.handle_key(Key::Down);
    c.handle_key(Key::Down);
    assert_eq!(c.handle_key(Key::Enter), Action::FetchBranches);
    assert_eq!(c.phase, "Fetching branch list...");
    assert_eq!(c.mode, Mode::Running { is_user_op: false });
}

#[test]
fn esc_in_the_menu_quits() {
    let mut a = idle_app();
    assert_eq!(a.handle_key(Key::Esc), Action::Quit);
}

#[test]
fn esc_during_a_user_operation_asks_first() {
    let mut a = idle_app();
    a.handle_key(Key::Enter);
    assert_eq!(a.handle_key(Key::Esc), Action::Stay);
    assert!(a.confirm_quit);
    assert_eq!(a.handle_key(Key::Char('n')), Action::Stay);
    assert!(!a.confirm_quit);
    a.handle_key(Key::Esc);
    assert_eq!(a.handle_key(Key::Char('Y')), Action::Quit);
}

#[test]
fn esc_during_a_background_check_quits() {
    let mut a = app();
    assert_eq!(a.handle_key(Key::Esc), Action::Quit);
}

#[test]
fn other_keys_while_running_change_nothing() {
    let mut a = app();
    assert_eq!(a.handle_key(Key::Enter), Action::Stay);
    assert_eq!(a.handle_key(Key::Char('q')), Action::Stay);
    assert_eq!(a.mode, Mode::Running { is_user_op: false });
}

fn picker() -> App {
    let mut a = idle_app();
    a.handle_key(Key::Down);
    a.handle_key(Key::Down);
    a.handle_key(Key::Enter);
    a.drain_events(vec![
        log("Fetching branch list..."),
        ProgressEvent::BranchList(vec!["a".to_string(), "main".to_string(), "b".to_string()]),
    ]);
    a
}

#[test]
fn picker_opens_on_the_current_branch() {
    let a = picker();
    assert_eq!(
        a.mode,
        Mode::SelectBranch { branches: vec!["a".to_string(), "main".to_string(), "b".to_string()], sel: 1 }
    );
    let mut b = idle_app();
    b.drain_events(vec![ProgressEvent::BranchList(vec!["x".to_string(), "y".to_string()])]);
    assert_eq!(b.mode, Mode::SelectBranch { branches: vec!["x".to_string(), "y".to_string()], sel: 0 });
}

#[test]
fn picker_moves_and_picks() {
    let mut a = picker();
    a.handle_key(Key::Down);
    a.handle_key(Key::Down);
    a.handle_key(Key::Up);
    a.handle_key(Key::Up);
    a.handle_key(Key::Up);
    a.handle_key(Key::Down);
    a.handle_key(Key::Down);
    assert_eq!(a.handle_key(Key::Enter), Action::SwitchBranch("b".to_string()));
    assert_eq!(a.branch, "b");
    assert_eq!(a.phase, "Checking for updates...");
    assert_eq!(a.mode, Mode::Running { is_user_op: false });
}

#[test]
fn picker_esc_returns_to_the_menu() {
    let mut a = picker();
    assert_eq!(a.handle_key(Key::Esc), Action::Stay);
    assert_eq!(a.mode, Mode::Idle);
    assert_eq!(a.branch, "main");
}

#[test]
fn empty_picker_cannot_pick() {
    let mut a = idle_app();
    a.drain_events(vec![ProgressEvent::BranchList(vec![])]);
    assert!(a.picks_from_empty(Key::Enter));
    assert!(!a.picks_from_empty(Key::Down));
    a.handle_key(Key::Down);
    assert_eq!(a.mode, Mode::SelectBranch { branches: vec![], sel: 0 });
}

#[test]
fn phase_events_set_progress_and_text() {
    let mut a = app();
    a.drain_events(vec![ProgressEvent::Phase {
        name: "Receiving objects".to_string(),
        current: 450,
        total: 1000,
    }]);
    assert_eq!(a.progress, Progress::Phase { lo: 13, hi: 68, current: 450, total: 1000 });
    assert_eq!(a.phase, "Receiving objects (450/1000)");
}

#[test]
fn log_keeps_the_newest_lines() {
    let mut a = app();
    let events: Vec<ProgressEvent> = (0..LOG_CAPACITY + 3).map(|i| log(&format!("line {}", i))).collect();
    a.drain_events(events);
    assert_eq!(a.log.len(), LOG_CAPACITY);
    assert_eq!(a.log[0], "line 3");
    assert_eq!(a.log[LOG_CAPACITY - 1], format!("line {}", LOG_CAPACITY + 2));
}

#[test]
fn user_operation_success_and_dismissal() {
    let mut a = idle_app();
    a.handle_key(Key::Enter);
    a.drain_events(vec![log("Applying files..."), ProgressEvent::Done]);
    assert_eq!(a.mode, Mode::Done(true));
    assert_eq!(a.progress, Progress::Complete);
    assert_eq!(a.handle_key(Key::Char('x')), Action::Stay);
    assert_eq!(a.handle_key(Key::Enter), Action::Stay);
    assert_eq!(a.mode, Mode::Idle);
    assert!(a.log.is_empty());
    assert_eq!(a.phase, "");
    assert_eq!(a.progress, Progress::Start);
}

#[test]
fn done_popup_esc_quits() {
    let mut a = idle_app();
    a.handle_key(Key::Enter);
    a.drain_events(vec![ProgressEvent::Done]);
    assert_eq!(a.handle_key(Key::Esc), Action::Quit);
}

#[test]
fn user_operation_failure_keeps_the_status() {
    let mut a = idle_app();
    a.drain_events(vec![ProgressEvent::StatusResult(UpdateStatus::UpToDate { hash: "h".to_string() })]);
    a.handle_key(Key::Enter);
    a.drain_events(vec![ProgressEvent::Error("boom".to_string())]);
    assert_eq!(a.mode, Mode::Done(false));
    assert_eq!(a.status, UpdateStatus::UpToDate { hash: "h".to_string() });
    assert_eq!(a.log, vec!["Error: boom".to_string()]);
}

#[test]
fn background_failure_becomes_the_status() {
    let mut a = app();
    a.drain_events(vec![ProgressEvent::Error("offline".to_string())]);
    assert_eq!(a.mode, Mode::Idle);
    assert_eq!(a.status, UpdateStatus::Error("offline".to_string()));
    assert_eq!(a.log, vec!["Error: offline".to_string()]);
}

#[test]
fn status_results_replace_the_status() {
    let mut a = app();
    let st = UpdateStatus::Available { local: "a".to_string(), remote: "b".to_string() };
    a.drain_events(vec![ProgressEvent::StatusResult(st.clone()), ProgressEvent::Done]);
    assert_eq!(a.status, st);
    assert_eq!(a.mode, Mode::Idle);
}

fn offer() -> ProgressEvent {
    ProgressEvent::SelfUpdateAvailable { version: "2.0.0".to_string(), url: "https://x/u.exe".to_string() }
}

#[test]
fn release_offer_waits_until_idle() {
    let mut a = app();
    assert!(!a.drain_events(vec![offer()]));
    assert_eq!(a.mode, Mode::Running { is_user_op: false });
    assert!(a.pending_self_update.is_some());
    assert!(!a.drain_events(vec![ProgressEvent::Done]));
    assert_eq!(
        a.mode,
        Mode::SelfUpdatePrompt { version: "2.0.0".to_string(), url: "https://x/u.exe".to_string() }
    );
    assert!(a.pending_self_update.is_none());
}

#[test]
fn release_offer_declined() {
    let mut a = app();
    a.drain_events(vec![offer(), ProgressEvent::Done]);
    assert_eq!(a.handle_key(Key::Char('x')), Action::Stay);
    assert_eq!(a.handle_key(Key::Char('N')), Action::Stay);
    assert_eq!(a.mode, Mode::Idle);
}

#[test]
fn release_offer_accepted_restarts_when_done() {
    let mut a = app();
    a.drain_events(vec![offer(), ProgressEvent::Done]);
    assert_eq!(a.handle_key(Key::Enter), Action::SelfUpdate("https://x/u.exe".to_string()));
    assert_eq!(a.op_name, "SELF-UPDATE");
    assert_eq!(a.phase, "Downloading...");
    assert!(a.self_update_in_progress);
    assert_eq!(a.mode, Mode::Running { is_user_op: true });
    assert!(a.drain_events(vec![
        ProgressEvent::Phase { name: "Downloading".to_string(), current: 5, total: 10 },
        ProgressEvent::Done,
        log("never applied"),
    ]));
    assert_eq!(a.progress, Progress::Complete);
    assert!(a.log.is_empty());
}

#[test]
fn failed_self_update_ends_in_the_failure_popup() {
    let mut a = app();
    a.drain_events(vec![offer(), ProgressEvent::Done]);
    a.handle_key(Key::Char('y'));
    assert!(!a.drain_events(vec![ProgressEvent::Error("no network".to_string())]));
    assert!(!a.self_update_in_progress);
    assert_eq!(a.mode, Mode::Done(false));
}
