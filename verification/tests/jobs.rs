use spt_modpack_updater::jobs::{Command, FileResult, Job, Outcome, Stage};
use spt_modpack_updater::manifest::Manifest;
use spt_modpack_updater::progress::ProgressEvent;
use spt_modpack_updater::types::UpdateStatus;

const REMOTE: &str = "https://example.com/pack.git";

fn args(a: &[&str]) -> Vec<String> {
    a.iter().map(|s| s.to_string()).collect()
}

fn log(s: &str) -> ProgressEvent {
    ProgressEvent::Log(s.to_string())
}

/// Feeds `outcome` and checks the events and the next command.
fn expect(job: &mut Job, outcome: Outcome, events: Vec<ProgressEvent>, next: Option<Command>) {
    assert!(job.accepts(&outcome));
    let step = job.step(outcome);
    assert_eq!(step.events, events);
    assert_eq!(step.next, next);
}

fn ok(s: &str) -> Outcome {
    Outcome::Output(Ok(s.to_string()))
}

#[test]
fn check_when_nothing_is_installed() {
    let mut j = Job::check_update("main");
    expect(&mut j, Outcome::Begin, vec![], Some(Command::ProbeRepo));
    expect(
        &mut j,
        Outcome::Exists(false),
        vec![ProgressEvent::StatusResult(UpdateStatus::NotInitialized), ProgressEvent::Done],
        None,
    );
    assert!(j.is_over());
}

fn check_until_remote(head: &str) -> Job {
    let mut j = Job::check_update("main");
    expect(&mut j, Outcome::Begin, vec![], Some(Command::ProbeRepo));
    expect(
        &mut j,
        Outcome::Exists(true),
        vec![log("Fetching from remote...")],
        Some(Command::GitStream(args(&["fetch", "origin", "--progress"]))),
    );
    expect(
        &mut j,
        Outcome::Finished(Ok(())),
        vec![],
        Some(Command::Git(args(&["rev-parse", "HEAD"]))),
    );
    expect(&mut j, ok(head), vec![], Some(Command::Git(args(&["rev-parse", "origin/main"]))));
    j
}

#[test]
fn check_up_to_date() {
    let mut j = check_until_remote("abc123\n");
    expect(
        &mut j,
        ok(" abc123\n"),
        vec![
            ProgressEvent::StatusResult(UpdateStatus::UpToDate { hash: "abc123".to_string() }),
            ProgressEvent::Done,
        ],
        None,
    );
}

#[test]
fn check_update_available() {
    let mut j = check_until_remote("abc\n");
    expect(
        &mut j,
        ok("def\n"),
        vec![
            ProgressEvent::StatusResult(UpdateStatus::Available {
                local: "abc".to_string(),
                remote: "def".to_string(),
            }),
            ProgressEvent::Done,
        ],
        None,
    );
}

#[test]
fn check_fails_with_the_failing_command() {
    let mut j = Job::check_update("dev");
    expect(&mut j, Outcome::Begin, vec![], Some(Command::ProbeRepo));
    expect(
        &mut j,
        Outcome::Exists(true),
        vec![log("Fetching from remote...")],
        Some(Command::GitStream(args(&["fetch", "origin", "--progress"]))),
    );
    expect(
        &mut j,
        Outcome::Finished(Err("Git command failed".to_string())),
        vec![ProgressEvent::Error("Git command failed".to_string())],
        None,
    );
    let mut k = check_until_remote("abc");
    expect(
        &mut k,
        Outcome::Output(Err("Git error: bad ref".to_string())),
        vec![ProgressEvent::Error("Git error: bad ref".to_string())],
        None,
    );
}

#[test]
fn update_first_install() {
    let mut j = Job::update("main", REMOTE);
    expect(&mut j, Outcome::Begin, vec![], Some(Command::ProbeRepo));
    expect(
        &mut j,
        Outcome::Exists(false),
        vec![log("Initializing repository...")],
        Some(Command::Git(args(&["init"]))),
    );
    expect(&mut j, ok(""), vec![], Some(Command::Git(args(&["checkout", "-B", "main"]))));
    expect(&mut j, ok(""), vec![], Some(Command::Git(args(&["remote", "add", "origin", REMOTE]))));
    expect(
        &mut j,
        ok(""),
        vec![log("Downloading modpack...")],
        Some(Command::GitStream(args(&["fetch", "origin", "--progress"]))),
    );
    expect(&mut j, Outcome::Finished(Ok(())), vec![], Some(Command::BackupProtected));
    expect(
        &mut j,
        Outcome::Saved(2),
        vec![log("Protecting 2 config file(s)..."), log("Applying files...")],
        Some(Command::Git(args(&["reset", "--hard", "origin/main"]))),
    );
    expect(&mut j, ok(""), vec![], Some(Command::GitStream(args(&["clean", "-fd"]))));
    expect(&mut j, Outcome::Finished(Ok(())), vec![], Some(Command::RestoreProtected));
    expect(
        &mut j,
        Outcome::Restored(vec![
            FileResult { name: "BepInEx/config/BepInEx.cfg".to_string(), error: None },
            FileResult { name: "b.cfg".to_string(), error: Some("denied".to_string()) },
        ]),
        vec![
            log("Protected: BepInEx/config/BepInEx.cfg"),
            log("! Restore failed b.cfg: denied"),
        ],
        Some(Command::ReadManifest),
    );
    let m = Manifest {
        name: "Pack".to_string(),
        description: "Desc".to_string(),
        spt_version: "4.0".to_string(),
        author: None,
        website: None,
        changelog: vec!["x".to_string(), "y".to_string()],
    };
    expect(
        &mut j,
        Outcome::Manifest(Some(m)),
        vec![
            log(""),
            log("  Desc"),
            log("  Changelog:"),
            log("    • x"),
            log("    • y"),
            ProgressEvent::Done,
        ],
        None,
    );
}

#[test]
fn update_of_an_existing_checkout() {
    let mut j = Job::update("dev", REMOTE);
    expect(&mut j, Outcome::Begin, vec![], Some(Command::ProbeRepo));
    expect(
        &mut j,
        Outcome::Exists(true),
        vec![log("Fetching updates...")],
        Some(Command::GitStream(args(&["fetch", "origin", "--progress"]))),
    );
    expect(&mut j, Outcome::Finished(Ok(())), vec![], Some(Command::BackupProtected));
    expect(
        &mut j,
        Outcome::Saved(0),
        vec![log("Applying files...")],
        Some(Command::Git(args(&["reset", "--hard", "origin/dev"]))),
    );
    expect(&mut j, ok(""), vec![], Some(Command::GitStream(args(&["clean", "-fd"]))));
    expect(&mut j, Outcome::Finished(Ok(())), vec![], Some(Command::RestoreProtected));
    expect(&mut j, Outcome::Restored(vec![]), vec![], Some(Command::ReadManifest));
    expect(&mut j, Outcome::Manifest(None), vec![ProgressEvent::Done], None);
}

#[test]
fn update_manifest_without_changelog() {
    let mut j = Job::update("dev", REMOTE);
    for o in [Outcome::Begin, Outcome::Exists(true), Outcome::Finished(Ok(())), Outcome::Saved(0)] {
        j.step(o);
    }
    j.step(ok(""));
    j.step(Outcome::Finished(Ok(())));
    j.step(Outcome::Restored(vec![]));
    let m = Manifest {
        name: "P".to_string(),
        description: "D".to_string(),
        spt_version: "4".to_string(),
        author: Some("a".to_string()),
        website: None,
        changelog: vec![],
    };
    expect(&mut j, Outcome::Manifest(Some(m)), vec![log(""), log("  D"), ProgressEvent::Done], None);
}

#[test]
fn update_writes_the_files_back_when_reset_fails() {
    let mut j = Job::update("dev", REMOTE);
    for o in [Outcome::Begin, Outcome::Exists(true), Outcome::Finished(Ok(())), Outcome::Saved(1)] {
        j.step(o);
    }
    expect(
        &mut j,
        Outcome::Output(Err("Git error: reset".to_string())),
        vec![],
        Some(Command::RestoreProtected),
    );
    expect(
        &mut j,
        Outcome::Restored(vec![FileResult { name: "a.cfg".to_string(), error: None }]),
        vec![log("Protected: a.cfg"), ProgressEvent::Error("Git error: reset".to_string())],
        None,
    );
    assert_eq!(j.stage, Stage::Over);
}

#[test]
fn update_writes_the_files_back_when_clean_fails() {
    let mut j = Job::update("dev", REMOTE);
    for o in [Outcome::Begin, Outcome::Exists(true), Outcome::Finished(Ok(())), Outcome::Saved(2)] {
        j.step(o);
    }
    expect(&mut j, ok(""), vec![], Some(Command::GitStream(args(&["clean", "-fd"]))));
    expect(
        &mut j,
        Outcome::Finished(Err("Git command failed".to_string())),
        vec![],
        Some(Command::RestoreProtected),
    );
    expect(
        &mut j,
        Outcome::Restored(vec![
            FileResult { name: "a.cfg".to_string(), error: None },
            FileResult { name: "b.cfg".to_string(), error: Some("denied".to_string()) },
        ]),
        vec![
            log("Protected: a.cfg"),
            log("! Restore failed b.cfg: denied"),
            ProgressEvent::Error("Git command failed".to_string()),
        ],
        None,
    );
    assert!(j.is_over());
}

#[test]
fn update_fetch_failure_ends_without_restore() {
    let mut j = Job::update("dev", REMOTE);
    j.step(Outcome::Begin);
    j.step(Outcome::Exists(true));
    expect(
        &mut j,
        Outcome::Finished(Err("offline".to_string())),
        vec![ProgressEvent::Error("offline".to_string())],
        None,
    );
}

#[test]
fn repair_without_backup() {
    let mut j = Job::repair();
    expect(&mut j, Outcome::Begin, vec![], Some(Command::ProbeBackup));
    expect(
        &mut j,
        Outcome::Exists(false),
        vec![ProgressEvent::Error(".BACKUP/BepInEx/config not found".to_string())],
        None,
    );
}

fn repair_until_copy() -> Job {
    let mut j = Job::repair();
    expect(&mut j, Outcome::Begin, vec![], Some(Command::ProbeBackup));
    expect(&mut j, Outcome::Exists(true), vec![], Some(Command::CreateConfigDir));
    expect(&mut j, Outcome::Finished(Ok(())), vec![], Some(Command::CopyBackup));
    j
}

#[test]
fn repair_reports_each_file() {
    let mut j = repair_until_copy();
    expect(
        &mut j,
        Outcome::Copied(Ok(vec![
            FileResult { name: "a.cfg".to_string(), error: None },
            FileResult { name: "b.cfg".to_string(), error: Some("busy".to_string()) },
        ])),
        vec![log("Restored: a.cfg"), log("! b.cfg: busy"), ProgressEvent::Done],
        None,
    );
}

#[test]
fn repair_with_nothing_copied() {
    let mut j = repair_until_copy();
    expect(
        &mut j,
        Outcome::Copied(Ok(vec![])),
        vec![log("No files found in .BACKUP/BepInEx/config/"), ProgressEvent::Done],
        None,
    );
    let mut k = repair_until_copy();
    expect(
        &mut k,
        Outcome::Copied(Ok(vec![FileResult { name: "a".to_string(), error: Some("e".to_string()) }])),
        vec![log("! a: e"), log("No files found in .BACKUP/BepInEx/config/"), ProgressEvent::Done],
        None,
    );
}

#[test]
fn repair_failures() {
    let mut j = Job::repair();
    j.step(Outcome::Begin);
    j.step(Outcome::Exists(true));
    expect(
        &mut j,
        Outcome::Finished(Err("no access".to_string())),
        vec![ProgressEvent::Error("no access".to_string())],
        None,
    );
    let mut k = repair_until_copy();
    expect(
        &mut k,
        Outcome::Copied(Err("cannot list".to_string())),
        vec![ProgressEvent::Error("cannot list".to_string())],
        None,
    );
}

#[test]
fn branches_from_origin_or_the_default_remote() {
    let mut j = Job::fetch_branches(REMOTE);
    expect(&mut j, Outcome::Begin, vec![log("Fetching branch list...")], Some(Command::ProbeRepo));
    expect(
        &mut j,
        Outcome::Exists(true),
        vec![],
        Some(Command::Git(args(&["ls-remote", "--heads", "origin"]))),
    );
    expect(
        &mut j,
        ok("h1\trefs/heads/main\nh2\trefs/heads/dev\n"),
        vec![ProgressEvent::BranchList(vec!["main".to_string(), "dev".to_string()])],
        None,
    );
    let mut k = Job::fetch_branches(REMOTE);
    k.step(Outcome::Begin);
    expect(
        &mut k,
        Outcome::Exists(false),
        vec![],
        Some(Command::Git(args(&["ls-remote", "--heads", REMOTE]))),
    );
}

#[test]
fn branches_none_or_failing() {
    let mut j = Job::fetch_branches(REMOTE);
    j.step(Outcome::Begin);
    j.step(Outcome::Exists(true));
    expect(&mut j, ok(""), vec![ProgressEvent::Error("No branches found on remote".to_string())], None);
    let mut k = Job::fetch_branches(REMOTE);
    k.step(Outcome::Begin);
    k.step(Outcome::Exists(true));
    expect(
        &mut k,
        Outcome::Output(Err("offline".to_string())),
        vec![ProgressEvent::Error("offline".to_string())],
        None,
    );
}

#[test]
fn jobs_accept_only_the_awaited_outcome() {
    let mut j = Job::check_update("main");
    assert!(j.accepts(&Outcome::Begin));
    assert!(!j.accepts(&Outcome::Exists(true)));
    j.step(Outcome::Begin);
    assert!(!j.accepts(&Outcome::Begin));
    assert!(j.accepts(&Outcome::Exists(true)));
    j.step(Outcome::Exists(false));
    assert!(j.is_over());
    assert!(!j.accepts(&Outcome::Begin));
    assert!(!j.accepts(&Outcome::Exists(true)));
}
