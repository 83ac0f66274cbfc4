use spt_modpack_updater::jobs::{Command, Job, Outcome};
use spt_modpack_updater::progress::ProgressEvent;
use spt_modpack_updater::tui::{Action, App, Key, Mode, LOG_CAPACITY};
use spt_modpack_updater::git::{phase_percent, stream_line_events};
use spt_modpack_updater::launch::saved_branch;
use spt_modpack_updater::screen::{status_display, Tone};
use spt_modpack_updater::types::UpdateStatus;
use spt_modpack_updater::updater::{is_newer, parse_version};

fn is_final(e: &ProgressEvent) -> bool {
    matches!(e, ProgressEvent::Done | ProgressEvent::Error(_) | ProgressEvent::BranchList(_))
}

/// Runs `job`, answering each command from `answer`; returns all events and
/// the commands asked for.
fn run(mut job: Job, answer: impl Fn(&Command) -> Outcome) -> (Vec<ProgressEvent>, Vec<Command>, usize) {
    let mut events = Vec::new();
    let mut commands = Vec::new();
    let mut outcome = Outcome::Begin;
    let mut steps = 0;
    loop {
        assert!(job.accepts(&outcome));
        let step = job.step(outcome);
        steps += 1;
        events.extend(step.events);
        match step.next {
            Some(c) => {
                outcome = answer(&c);
                commands.push(c);
            }
            None => break,
        }
    }
    assert!(job.is_over());
    (events, commands, steps)
}

fn succeed(c: &Command) -> Outcome {
    match c {
        Command::ProbeRepo | Command::ProbeBackup => Outcome::Exists(false),
        Command::Git(_) => Outcome::Output(Ok("h\trefs/heads/main\n".to_string())),
        Command::GitStream(_) | Command::CreateConfigDir => Outcome::Finished(Ok(())),
        Command::BackupProtected => Outcome::Saved(2),
        Command::RestoreProtected => Outcome::Restored(vec![]),
        Command::ReadManifest => Outcome::Manifest(None),
        Command::CopyBackup => Outcome::Copied(Ok(vec![])),
    }
}

fn all_jobs() -> Vec<Job> {
    vec![
        Job::check_update("main"),
        Job::update("main", "r"),
        Job::repair(),
        Job::fetch_branches("r"),
    ]
}

#[test]
fn law_jobs_always_finish_and_end_with_one_final_event() {
    for job in all_jobs() {
        let (events, _, steps) = run(job, succeed);
        assert!(steps <= 11);
        assert!(is_final(events.last().unwrap()));
        assert_eq!(events.iter().filter(|e| is_final(e)).count(), 1);
    }
}

#[test]
fn law_failure_ends_job_with_its_message() {
    let fail = |c: &Command| match c {
        Command::Git(_) => Outcome::Output(Err("bad".to_string())),
        Command::GitStream(_) => Outcome::Finished(Err("bad".to_string())),
        Command::ProbeRepo => Outcome::Exists(true),
        other => succeed(other),
    };
    for job in [Job::check_update("main"), Job::update("main", "r"), Job::fetch_branches("r")] {
        let (events, _, _) = run(job, fail);
        assert_eq!(events.last(), Some(&ProgressEvent::Error("bad".to_string())));
    }
}

#[test]
fn law_protected_files_are_kept_around_the_reset() {
    let (_, commands, _) = run(Job::update("dev", "r"), succeed);
    let reset = commands
        .iter()
        .position(|c| *c == Command::Git(vec!["reset".to_string(), "--hard".to_string(), "origin/dev".to_string()]))
        .unwrap();
    assert_eq!(commands[reset - 1], Command::BackupProtected);
    assert_eq!(commands[reset + 1], Command::GitStream(vec!["clean".to_string(), "-fd".to_string()]));
    assert_eq!(commands[reset + 2], Command::RestoreProtected);
}

#[test]
fn law_branch_lists_are_never_empty() {
    let empty = |c: &Command| match c {
        Command::Git(_) => Outcome::Output(Ok("x\trefs/tags/v1\n".to_string())),
        other => succeed(other),
    };
    let (events, _, _) = run(Job::fetch_branches("r"), empty);
    assert_eq!(events.last(), Some(&ProgressEvent::Error("No branches found on remote".to_string())));
}

#[test]
fn law_esc_asks_before_quitting() {
    let mut a = App::new(None, "main".to_string());
    a.drain_events(vec![ProgressEvent::Done]);
    a.handle_key(Key::Down);
    a.handle_key(Key::Enter);
    assert_eq!(a.mode, Mode::Running { is_user_op: true });
    assert_eq!(a.handle_key(Key::Esc), Action::Stay);
    assert!(a.confirm_quit);
    assert_eq!(a.handle_key(Key::Up), Action::Stay);
    assert!(!a.confirm_quit);
    assert_eq!(a.mode, Mode::Running { is_user_op: true });
    a.handle_key(Key::Esc);
    assert_eq!(a.handle_key(Key::Enter), Action::Quit);
}

#[test]
fn law_picked_branch_is_followed() {
    let mut a = App::new(None, "main".to_string());
    a.drain_events(vec![ProgressEvent::BranchList(vec!["main".to_string(), "next".to_string()])]);
    assert_eq!(a.mode, Mode::SelectBranch { branches: vec!["main".to_string(), "next".to_string()], sel: 0 });
    a.handle_key(Key::Down);
    assert_eq!(a.handle_key(Key::Enter), Action::SwitchBranch("next".to_string()));
    assert_eq!(a.branch, "next");
}

#[test]
fn law_invariant_is_kept() {
    let mut a = App::new(None, "main".to_string());
    a.drain_events(vec![ProgressEvent::Done]);
    for _ in 0..5 {
        a.handle_key(Key::Down);
    }
    assert!(a.menu_sel <= 2);
    a.drain_events((0..2 * LOG_CAPACITY).map(|i| ProgressEvent::Log(i.to_string())).collect());
    assert_eq!(a.log.len(), LOG_CAPACITY);
    assert_eq!(a.log.last(), Some(&(2 * LOG_CAPACITY - 1).to_string()));
}

#[test]
fn law_offer_shown_once_idle() {
    let mut a = App::new(None, "main".to_string());
    a.drain_events(vec![
        ProgressEvent::Done,
        ProgressEvent::SelfUpdateAvailable { version: "3".to_string(), url: "u".to_string() },
    ]);
    assert!(matches!(a.mode, Mode::SelfUpdatePrompt { .. }));
    assert!(a.pending_self_update.is_none());
}

#[test]
fn law_newer_is_a_strict_order() {
    let versions = ["1", "1.0", "1.0.1", "v1.2", "1.10", "2.0-rc", "abc", ""];
    for a in versions {
        assert!(!is_newer(a, a));
        for b in versions {
            if is_newer(a, b) {
                assert!(!is_newer(b, a));
            }
            for c in versions {
                if is_newer(a, b) && is_newer(b, c) {
                    assert!(is_newer(a, c));
                }
            }
        }
    }
}

#[test]
fn law_restart_only_after_installation() {
    let mut a = App::new(None, "main".to_string());
    assert!(!a.drain_events(vec![ProgressEvent::Done]));
    a.drain_events(vec![ProgressEvent::SelfUpdateAvailable { version: "9".to_string(), url: "u".to_string() }]);
    a.handle_key(Key::Enter);
    assert!(a.self_update_in_progress);
    assert!(!a.drain_events(vec![ProgressEvent::Log("x".to_string())]));
    assert!(a.drain_events(vec![ProgressEvent::Done]));
}

#[test]
fn law_phase_shares_fit_the_bar() {
    for p in ["Enumerating objects", "Receiving objects", "Writing objects", "", "Downloading"] {
        let (lo, hi) = phase_percent(p);
        assert!(lo <= hi && hi <= 100);
    }
}

#[test]
fn law_leading_v_is_ignored() {
    for v in ["1.2", "", "v3", "0.0.1"] {
        assert_eq!(parse_version(&format!("v{}", v)), parse_version(v));
    }
}

#[test]
fn law_saved_branch_is_read_back() {
    for b in ["main", "feature/x", "release-1.2"] {
        assert_eq!(saved_branch(Some(b), "default"), b);
    }
}

#[test]
fn law_stream_events_are_never_final() {
    for line in ["fatal: x", "error: y\rReceiving objects: 1% (1/100)", "done", ""] {
        assert!(stream_line_events(line).iter().all(|e| !is_final(e)));
    }
}

#[test]
fn law_protected_files_survive_failures() {
    // the reset fails, or the clean fails: either way the files are written back
    for failing_clean in [false, true] {
        let answer = |c: &Command| match c {
            Command::ProbeRepo => Outcome::Exists(true),
            Command::Git(_) if !failing_clean => Outcome::Output(Err("bad".to_string())),
            Command::GitStream(a) if failing_clean && a[0] == "clean" => {
                Outcome::Finished(Err("bad".to_string()))
            }
            other => succeed(other),
        };
        let (events, commands, _) = run(Job::update("main", "r"), answer);
        assert_eq!(commands.last(), Some(&Command::RestoreProtected));
        assert_eq!(events.last(), Some(&ProgressEvent::Error("bad".to_string())));
    }
}

#[test]
fn law_menu_highlight() {
    let mut a = App::new(None, "main".to_string());
    a.handle_key(Key::Down);
    assert_eq!(a.menu_sel, 0);
    a.drain_events(vec![ProgressEvent::Done]);
    a.handle_key(Key::Down);
    a.handle_key(Key::Down);
    a.handle_key(Key::Down);
    assert_eq!(a.menu_sel, 2);
    a.handle_key(Key::Char('x'));
    assert_eq!(a.menu_sel, 2);
    a.handle_key(Key::Up);
    assert_eq!(a.menu_sel, 1);
}

#[test]
fn law_status_line_is_the_status_text() {
    use_status_cases();
}

fn use_status_cases() {
    let cases = vec![
        UpdateStatus::UpToDate { hash: "0123456789".to_string() },
        UpdateStatus::Available { local: "a".to_string(), remote: "bbbbbbbbbbb".to_string() },
        UpdateStatus::NotInitialized,
    ];
    for s in cases {
        assert_eq!(status_display(&s).1, format!("◆ {}", s.text()));
    }
    let e = UpdateStatus::Error("x".to_string());
    assert_eq!(status_display(&e), (Tone::Red, "◆ Error: x".to_string()));
    assert_eq!(e.text(), "Check failed: x");
}
