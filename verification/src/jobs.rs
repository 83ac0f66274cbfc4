//! The background operations of the updater (check, update, repair, branch
//! list) as state machines.
//!
//! A job never touches the disk, the network or git itself: each `step`
//! takes the outcome of the command it asked for last, says which events to
//! report, and names the next command, until it names none. Whoever runs the
//! job performs the commands.
use vstd::prelude::*;

use crate::git::{parse_branch_list, remote_branches};
use crate::manifest::{manifest_events, manifest_lines, Manifest};
use crate::progress::{EventView, ProgressEvent};
use crate::text::{push_decimal, push_str, decimal, trim, trimmed};
use crate::types::{StatusView, UpdateStatus};

verus! {

broadcast use vstd::string::group_string_axioms;

/// Which operation a job carries out.
#[derive(Clone, Copy, PartialEq, Eq, Structural, Debug)]
pub enum JobKind {
    /// Compare the local `HEAD` with the remote branch.
    CheckUpdate,
    /// Install or update the modpack from the remote branch.
    Update,
    /// Copy the backed-up BepInEx configuration back into place.
    Repair,
    /// List the branches of the remote.
    FetchBranches,
}

/// Where a job stands: the command whose outcome it waits for.
#[derive(Clone, Copy, PartialEq, Eq, Structural, Debug)]
pub enum Stage {
    /// Not started; waits for `Outcome::Begin`.
    Start,
    /// Asked whether the game folder holds a git repository.
    Probe,
    /// Ran `git init`.
    Init,
    /// Ran `git checkout -B <branch>`.
    Checkout,
    /// Ran `git remote add origin <remote>`.
    AddRemote,
    /// Ran `git fetch origin --progress`.
    Fetch,
    /// Ran `git rev-parse HEAD`.
    Local,
    /// Ran `git rev-parse origin/<branch>`.
    Remote,
    /// Asked for the protected files to be read and kept.
    Backup,
    /// Ran `git reset --hard origin/<branch>`.
    Reset,
    /// Ran `git clean -fd`.
    Clean,
    /// Asked for the kept protected files to be written back.
    Restore,
    /// Asked for the modpack's manifest.
    Manifest,
    /// Asked whether the configuration backup exists.
    ProbeBackup,
    /// Asked for the configuration folder to be created.
    CreateDir,
    /// Asked for the backed-up files to be copied.
    Copy,
    /// Ran `git ls-remote --heads`.
    List,
    /// Finished; takes no more outcomes.
    Over,
}

/// Something that a job asks its runner to do.
#[derive(Debug, Clone, PartialEq)]
pub enum Command {
    /// Report whether `<game>/.git` exists (`Outcome::Exists`).
    ProbeRepo,
    /// Run git with these arguments in the game folder and report its
    /// standard output, or the error (`Outcome::Output`).
    Git(Vec<String>),
    /// Run git with these arguments, report each line that it writes to
    /// stderr through `git::stream_line_events`, then whether it succeeded
    /// (`Outcome::Finished`).
    GitStream(Vec<String>),
    /// Read and keep the protected files that exist; report how many
    /// (`Outcome::Saved`).
    BackupProtected,
    /// Write the kept protected files back; report each (`Outcome::Restored`).
    RestoreProtected,
    /// Read the modpack's manifest (`Outcome::Manifest`).
    ReadManifest,
    /// Report whether `.BACKUP/BepInEx/config` exists (`Outcome::Exists`).
    ProbeBackup,
    /// Create `BepInEx/config` (`Outcome::Finished`).
    CreateConfigDir,
    /// Copy each regular file of `.BACKUP/BepInEx/config` into
    /// `BepInEx/config` (`Outcome::Copied`).
    CopyBackup,
}

/// The result of one file operation: the file's name, and the error
/// message where it failed.
#[derive(Debug, Clone, PartialEq)]
pub struct FileResult {
    pub name: String,
    pub error: Option<String>,
}

/// What came of the last command.
#[derive(Debug, PartialEq)]
pub enum Outcome {
    /// Nothing yet: the job is starting.
    Begin,
    Exists(bool),
    Output(Result<String, String>),
    Finished(Result<(), String>),
    Saved(usize),
    Restored(Vec<FileResult>),
    Manifest(Option<Manifest>),
    /// The folder could not be listed (with this message), or the result for
    /// each regular file in it.
    Copied(Result<Vec<FileResult>, String>),
}

/// The events of one step and the command that follows it, if any.
#[derive(Debug, Clone, PartialEq)]
pub struct Step {
    pub events: Vec<ProgressEvent>,
    pub next: Option<Command>,
}

/// A running operation.
#[derive(Debug, Clone, PartialEq)]
pub struct Job {
    pub kind: JobKind,
    pub stage: Stage,
    /// The branch that the operation follows.
    pub branch: String,
    /// The remote that a new repository, or a branch listing, uses.
    pub remote: String,
    /// The local `HEAD` that a check has read.
    pub local: String,
    /// The failure of the reset or the clean of an update, reported once the
    /// protected files are written back.
    pub pending_error: Option<String>,
}

// ───────────────────────────── views ─────────────────────────────

pub enum CommandView {
    ProbeRepo,
    Git(Seq<Seq<char>>),
    GitStream(Seq<Seq<char>>),
    BackupProtected,
    RestoreProtected,
    ReadManifest,
    ProbeBackup,
    CreateConfigDir,
    CopyBackup,
}

pub struct FileResultView {
    pub name: Seq<char>,
    pub error: Option<Seq<char>>,
}

pub struct ManifestView {
    pub description: Seq<char>,
    pub changelog: Seq<Seq<char>>,
}

pub enum OutcomeView {
    Begin,
    Exists(bool),
    Output(Result<Seq<char>, Seq<char>>),
    Finished(Result<(), Seq<char>>),
    Saved(nat),
    Restored(Seq<FileResultView>),
    Manifest(Option<ManifestView>),
    Copied(Result<Seq<FileResultView>, Seq<char>>),
}

pub struct JobView {
    pub kind: JobKind,
    pub stage: Stage,
    pub branch: Seq<char>,
    pub remote: Seq<char>,
    pub local: Seq<char>,
    pub pending_error: Option<Seq<char>>,
}

pub struct StepView {
    pub job: JobView,
    pub events: Seq<EventView>,
    pub next: Option<CommandView>,
}

impl View for Command {
    type V = CommandView;

    open spec fn view(&self) -> CommandView {
        match self {
            Command::ProbeRepo => CommandView::ProbeRepo,
            Command::Git(a) => CommandView::Git(a.deep_view()),
            Command::GitStream(a) => CommandView::GitStream(a.deep_view()),
            Command::BackupProtected => CommandView::BackupProtected,
            Command::RestoreProtected => CommandView::RestoreProtected,
            Command::ReadManifest => CommandView::ReadManifest,
            Command::ProbeBackup => CommandView::ProbeBackup,
            Command::CreateConfigDir => CommandView::CreateConfigDir,
            Command::CopyBackup => CommandView::CopyBackup,
        }
    }
}

impl View for FileResult {
    type V = FileResultView;

    open spec fn view(&self) -> FileResultView {
        FileResultView {
            name: self.name@,
            error: match self.error {
                Some(e) => Some(e@),
                None => None,
            },
        }
    }
}

pub open spec fn files_view(v: Seq<FileResult>) -> Seq<FileResultView> {
    v.map_values(|f: FileResult| f@)
}

impl View for Outcome {
    type V = OutcomeView;

    open spec fn view(&self) -> OutcomeView {
        match self {
            Outcome::Begin => OutcomeView::Begin,
            Outcome::Exists(b) => OutcomeView::Exists(*b),
            Outcome::Output(r) => OutcomeView::Output(
                match r {
                    Ok(s) => Ok(s@),
                    Err(e) => Err(e@),
                },
            ),
            Outcome::Finished(r) => OutcomeView::Finished(
                match r {
                    Ok(_) => Ok(()),
                    Err(e) => Err(e@),
                },
            ),
            Outcome::Saved(n) => OutcomeView::Saved(*n as nat),
            Outcome::Restored(v) => OutcomeView::Restored(files_view(v@)),
            Outcome::Manifest(m) => OutcomeView::Manifest(
                match m {
                    Some(m) => Some(
                        ManifestView { description: m.description@, changelog: m.changelog.deep_view() },
                    ),
                    None => None,
                },
            ),
            Outcome::Copied(r) => OutcomeView::Copied(
                match r {
                    Ok(v) => Ok(files_view(v@)),
                    Err(e) => Err(e@),
                },
            ),
        }
    }
}

impl View for Job {
    type V = JobView;

    open spec fn view(&self) -> JobView {
        JobView {
            kind: self.kind,
            stage: self.stage,
            branch: self.branch@,
            remote: self.remote@,
            local: self.local@,
            pending_error: match self.pending_error {
                Some(e) => Some(e@),
                None => None,
            },
        }
    }
}

// ───────────────────────────── the transitions ─────────────────────────────

pub open spec fn fetch_args() -> Seq<Seq<char>> {
    seq!["fetch"@, "origin"@, "--progress"@]
}

pub open spec fn origin_ref(branch: Seq<char>) -> Seq<char> {
    "origin/"@ + branch
}

pub open spec fn reset_args(branch: Seq<char>) -> Seq<Seq<char>> {
    seq!["reset"@, "--hard"@, origin_ref(branch)]
}

pub open spec fn log(s: Seq<char>) -> EventView {
    EventView::Log(s)
}

/// The outcome is of the kind that answers the command the job waits for.
pub open spec fn accepts(j: JobView, o: OutcomeView) -> bool {
    match j.stage {
        Stage::Start => o is Begin,
        Stage::Probe | Stage::ProbeBackup => o is Exists,
        Stage::Init | Stage::Checkout | Stage::AddRemote | Stage::Local | Stage::Remote
        | Stage::Reset | Stage::List => o is Output,
        Stage::Fetch | Stage::Clean | Stage::CreateDir => o is Finished,
        Stage::Backup => o is Saved,
        Stage::Restore => o is Restored,
        Stage::Manifest => o is Manifest,
        Stage::Copy => o is Copied,
        Stage::Over => false,
    }
}

/// The error message of a failed command, if it failed.
pub open spec fn failure(o: OutcomeView) -> Option<Seq<char>> {
    match o {
        OutcomeView::Output(Err(e)) => Some(e),
        OutcomeView::Finished(Err(e)) => Some(e),
        OutcomeView::Copied(Err(e)) => Some(e),
        _ => None,
    }
}

pub open spec fn output_text(o: OutcomeView) -> Seq<char> {
    match o {
        OutcomeView::Output(Ok(s)) => s,
        _ => seq![],
    }
}

pub open spec fn with_stage(j: JobView, s: Stage) -> JobView {
    JobView { stage: s, ..j }
}

pub open spec fn go(j: JobView, s: Stage, events: Seq<EventView>, next: CommandView) -> StepView {
    StepView { job: with_stage(j, s), events, next: Some(next) }
}

pub open spec fn finish(j: JobView, events: Seq<EventView>) -> StepView {
    StepView { job: with_stage(j, Stage::Over), events, next: None }
}

/// The log lines for the protected files written back after an update.
pub open spec fn restore_lines(files: Seq<FileResultView>) -> Seq<EventView> {
    files.map_values(
        |f: FileResultView| match f.error {
            None => log("Protected: "@ + f.name),
            Some(e) => log("! Restore failed "@ + f.name + ": "@ + e),
        },
    )
}

/// The log lines for the files copied by a repair.
pub open spec fn copy_lines(files: Seq<FileResultView>) -> Seq<EventView> {
    files.map_values(
        |f: FileResultView| match f.error {
            None => log("Restored: "@ + f.name),
            Some(e) => log("! "@ + f.name + ": "@ + e),
        },
    )
}

/// How many of the files were copied.
pub open spec fn copied_count(files: Seq<FileResultView>) -> nat
    decreases files.len(),
{
    if files.len() == 0 {
        0
    } else {
        copied_count(files.drop_last()) + if files.last().error is None {
            1nat
        } else {
            0nat
        }
    }
}

/// A check: is there a repository? fetch; read the local and the remote
/// commit; report whether they agree.
pub open spec fn check_step(j: JobView, o: OutcomeView) -> StepView {
    match (j.stage, o) {
        (Stage::Start, _) => go(j, Stage::Probe, seq![], CommandView::ProbeRepo),
        (Stage::Probe, OutcomeView::Exists(false)) => finish(
            j,
            seq![EventView::StatusResult(StatusView::NotInitialized), EventView::Done],
        ),
        (Stage::Probe, _) => go(
            j,
            Stage::Fetch,
            seq![log("Fetching from remote..."@)],
            CommandView::GitStream(fetch_args()),
        ),
        (Stage::Fetch, _) => go(
            j,
            Stage::Local,
            seq![],
            CommandView::Git(seq!["rev-parse"@, "HEAD"@]),
        ),
        (Stage::Local, _) => go(
            JobView { local: trim(output_text(o)), ..j },
            Stage::Remote,
            seq![],
            CommandView::Git(seq!["rev-parse"@, origin_ref(j.branch)]),
        ),
        (_, _) => {
            let remote = trim(output_text(o));
            let status = if j.local == remote {
                StatusView::UpToDate { hash: j.local }
            } else {
                StatusView::Available { local: j.local, remote }
            };
            finish(j, seq![EventView::StatusResult(status), EventView::Done])
        },
    }
}

/// An update: initialize a repository where there is none, fetch, keep the
/// protected files, reset to the remote branch, clean, write the protected
/// files back, and show the manifest. Where the reset or the clean failed,
/// the files are written back all the same and the failure ends the job.
pub open spec fn update_step(j: JobView, o: OutcomeView) -> StepView {
    match (j.stage, o) {
        (Stage::Start, _) => go(j, Stage::Probe, seq![], CommandView::ProbeRepo),
        (Stage::Probe, OutcomeView::Exists(false)) => go(
            j,
            Stage::Init,
            seq![log("Initializing repository..."@)],
            CommandView::Git(seq!["init"@]),
        ),
        (Stage::Probe, _) => go(
            j,
            Stage::Fetch,
            seq![log("Fetching updates..."@)],
            CommandView::GitStream(fetch_args()),
        ),
        (Stage::Init, _) => go(
            j,
            Stage::Checkout,
            seq![],
            CommandView::Git(seq!["checkout"@, "-B"@, j.branch]),
        ),
        (Stage::Checkout, _) => go(
            j,
            Stage::AddRemote,
            seq![],
            CommandView::Git(seq!["remote"@, "add"@, "origin"@, j.remote]),
        ),
        (Stage::AddRemote, _) => go(
            j,
            Stage::Fetch,
            seq![log("Downloading modpack..."@)],
            CommandView::GitStream(fetch_args()),
        ),
        (Stage::Fetch, _) => go(j, Stage::Backup, seq![], CommandView::BackupProtected),
        (Stage::Backup, OutcomeView::Saved(n)) => go(
            j,
            Stage::Reset,
            (if n > 0 {
                seq![log("Protecting "@ + decimal(n) + " config file(s)..."@)]
            } else {
                seq![]
            }) + seq![log("Applying files..."@)],
            CommandView::Git(reset_args(j.branch)),
        ),
        (Stage::Reset, _) => go(
            j,
            Stage::Clean,
            seq![],
            CommandView::GitStream(seq!["clean"@, "-fd"@]),
        ),
        (Stage::Clean, _) => go(j, Stage::Restore, seq![], CommandView::RestoreProtected),
        (Stage::Restore, OutcomeView::Restored(files)) => match j.pending_error {
            Some(e) => finish(j, restore_lines(files) + seq![EventView::Error(e)]),
            None => go(j, Stage::Manifest, restore_lines(files), CommandView::ReadManifest),
        },
        (_, OutcomeView::Manifest(Some(m))) => finish(
            j,
            manifest_lines(m.description, m.changelog).map_values(|l: Seq<char>| log(l))
                + seq![EventView::Done],
        ),
        (_, _) => finish(j, seq![EventView::Done]),
    }
}

/// A repair: check that the backup exists, create the configuration folder,
/// copy the backed-up files and report each.
pub open spec fn repair_step(j: JobView, o: OutcomeView) -> StepView {
    match (j.stage, o) {
        (Stage::Start, _) => go(j, Stage::ProbeBackup, seq![], CommandView::ProbeBackup),
        (Stage::ProbeBackup, OutcomeView::Exists(false)) => finish(
            j,
            seq![EventView::Error(".BACKUP/BepInEx/config not found"@)],
        ),
        (Stage::ProbeBackup, _) => go(j, Stage::CreateDir, seq![], CommandView::CreateConfigDir),
        (Stage::CreateDir, _) => go(j, Stage::Copy, seq![], CommandView::CopyBackup),
        (_, OutcomeView::Copied(Ok(files))) => finish(
            j,
            copy_lines(files) + (if copied_count(files) == 0 {
                seq![log("No files found in .BACKUP/BepInEx/config/"@)]
            } else {
                seq![]
            }) + seq![EventView::Done],
        ),
        (_, _) => finish(j, seq![EventView::Done]),
    }
}

/// A branch listing: ask the remote for its heads and report them, or that
/// there are none.
pub open spec fn branches_step(j: JobView, o: OutcomeView) -> StepView {
    match (j.stage, o) {
        (Stage::Start, _) => go(
            j,
            Stage::Probe,
            seq![log("Fetching branch list..."@)],
            CommandView::ProbeRepo,
        ),
        (Stage::Probe, OutcomeView::Exists(true)) => go(
            j,
            Stage::List,
            seq![],
            CommandView::Git(seq!["ls-remote"@, "--heads"@, "origin"@]),
        ),
        (Stage::Probe, _) => go(
            j,
            Stage::List,
            seq![],
            CommandView::Git(seq!["ls-remote"@, "--heads"@, j.remote]),
        ),
        (_, _) => {
            let branches = remote_branches(output_text(o));
            if branches.len() == 0 {
                finish(j, seq![EventView::Error("No branches found on remote"@)])
            } else {
                finish(j, seq![EventView::BranchList(branches)])
            }
        },
    }
}

/// The job has kept the protected files and not yet written them back: an
/// update waiting for its reset or its clean.
pub open spec fn holds_protected_files(j: JobView) -> bool {
    j.kind == JobKind::Update && (j.stage == Stage::Reset || j.stage == Stage::Clean)
}

/// What a job does with the outcome `o` of its last command: a failed
/// command ends it with that error, except that an update holding the
/// protected files first writes them back; otherwise its operation decides.
pub open spec fn job_step(j: JobView, o: OutcomeView) -> StepView {
    match failure(o) {
        Some(e) => if holds_protected_files(j) {
            go(
                JobView { pending_error: Some(e), ..j },
                Stage::Restore,
                seq![],
                CommandView::RestoreProtected,
            )
        } else {
            finish(j, seq![EventView::Error(e)])
        },
        None => match j.kind {
            JobKind::CheckUpdate => check_step(j, o),
            JobKind::Update => update_step(j, o),
            JobKind::Repair => repair_step(j, o),
            JobKind::FetchBranches => branches_step(j, o),
        },
    }
}

pub open spec fn opt_command(c: Option<Command>) -> Option<CommandView> {
    match c {
        Some(c) => Some(c@),
        None => None,
    }
}

// ───────────────────────────── running a step ─────────────────────────────

fn args1(a: &str) -> (r: Vec<String>)
    ensures
        r.deep_view() == seq![a@],
{
    let mut r: Vec<String> = Vec::new();
    r.push(a.to_string());
    assert(r.deep_view() =~= seq![a@]);
    r
}

fn args2(a: &str, b: &str) -> (r: Vec<String>)
    ensures
        r.deep_view() == seq![a@, b@],
{
    let mut r: Vec<String> = Vec::new();
    r.push(a.to_string());
    r.push(b.to_string());
    assert(r.deep_view() =~= seq![a@, b@]);
    r
}

fn args3(a: &str, b: &str, c: &str) -> (r: Vec<String>)
    ensures
        r.deep_view() == seq![a@, b@, c@],
{
    let mut r: Vec<String> = Vec::new();
    r.push(a.to_string());
    r.push(b.to_string());
    r.push(c.to_string());
    assert(r.deep_view() =~= seq![a@, b@, c@]);
    r
}

fn args4(a: &str, b: &str, c: &str, d: &str) -> (r: Vec<String>)
    ensures
        r.deep_view() == seq![a@, b@, c@, d@],
{
    let mut r: Vec<String> = Vec::new();
    r.push(a.to_string());
    r.push(b.to_string());
    r.push(c.to_string());
    r.push(d.to_string());
    assert(r.deep_view() =~= seq![a@, b@, c@, d@]);
    r
}

fn log_event(s: &str) -> (e: ProgressEvent)
    ensures
        e@ == log(s@),
{
    ProgressEvent::Log(s.to_string())
}

fn origin_of(branch: &String) -> (r: String)
    ensures
        r@ == origin_ref(branch@),
{
    let mut r = "origin/".to_string();
    push_str(&mut r, branch.as_str());
    r
}

fn restore_events(files: &Vec<FileResult>) -> (r: Vec<ProgressEvent>)
    ensures
        r@.map_values(|e: ProgressEvent| e@) == restore_lines(files_view(files@)),
{
    let ghost fv = files_view(files@);
    let mut r: Vec<ProgressEvent> = Vec::new();
    let mut i: usize = 0;
    while i < files.len()
        invariant
            i <= files.len(),
            fv == files_view(files@),
            r@.len() == i,
            forall|k: int| 0 <= k < i ==> #[trigger] r@[k]@ == restore_lines(fv)[k],
        decreases files.len() - i,
    {
        let f = &files[i];
        assert(fv[i as int] == f@);
        let line = match &f.error {
            None => {
                let mut m = "Protected: ".to_string();
                push_str(&mut m, f.name.as_str());
                m
            },
            Some(e) => {
                let mut m = "! Restore failed ".to_string();
                push_str(&mut m, f.name.as_str());
                push_str(&mut m, ": ");
                push_str(&mut m, e.as_str());
                m
            },
        };
        r.push(ProgressEvent::Log(line));
        i += 1;
    }
    assert(r@.map_values(|e: ProgressEvent| e@) =~= restore_lines(fv));
    r
}

fn copy_events(files: &Vec<FileResult>) -> (r: (Vec<ProgressEvent>, usize))
    ensures
        r.0@.map_values(|e: ProgressEvent| e@) == copy_lines(files_view(files@)),
        r.1 == copied_count(files_view(files@)),
{
    let ghost fv = files_view(files@);
    let mut r: Vec<ProgressEvent> = Vec::new();
    let mut count: usize = 0;
    let mut i: usize = 0;
    while i < files.len()
        invariant
            i <= files.len(),
            fv == files_view(files@),
            r@.len() == i,
            forall|k: int| 0 <= k < i ==> #[trigger] r@[k]@ == copy_lines(fv)[k],
            count == copied_count(fv.take(i as int)),
            count <= i,
        decreases files.len() - i,
    {
        let f = &files[i];
        assert(fv[i as int] == f@);
        assert(fv.take(i + 1).drop_last() =~= fv.take(i as int));
        let line = match &f.error {
            None => {
                count = count + 1;
                let mut m = "Restored: ".to_string();
                push_str(&mut m, f.name.as_str());
                m
            },
            Some(e) => {
                let mut m = "! ".to_string();
                push_str(&mut m, f.name.as_str());
                push_str(&mut m, ": ");
                push_str(&mut m, e.as_str());
                m
            },
        };
        r.push(ProgressEvent::Log(line));
        i += 1;
    }
    assert(r@.map_values(|e: ProgressEvent| e@) =~= copy_lines(fv));
    assert(fv.take(files.len() as int) =~= fv);
    (r, count)
}

impl Job {
    /// A check of the local checkout against `origin/<branch>`.
    pub fn check_update(branch: &str) -> (j: Job)
        ensures
            j@ == (JobView {
                kind: JobKind::CheckUpdate,
                stage: Stage::Start,
                branch: branch@,
                remote: seq![],
                local: seq![],
                pending_error: None,
            }),
    {
        Job {
            kind: JobKind::CheckUpdate,
            stage: Stage::Start,
            branch: branch.to_string(),
            remote: String::new(),
            local: String::new(),
            pending_error: None,
        }
    }

    /// An update to `origin/<branch>`; a repository created on the way gets
    /// `remote` as its `origin`.
    pub fn update(branch: &str, remote: &str) -> (j: Job)
        ensures
            j@ == (JobView {
                kind: JobKind::Update,
                stage: Stage::Start,
                branch: branch@,
                remote: remote@,
                local: seq![],
                pending_error: None,
            }),
    {
        Job {
            kind: JobKind::Update,
            stage: Stage::Start,
            branch: branch.to_string(),
            remote: remote.to_string(),
            local: String::new(),
            pending_error: None,
        }
    }

    /// A repair of the BepInEx configuration from its backup.
    pub fn repair() -> (j: Job)
        ensures
            j@ == (JobView {
                kind: JobKind::Repair,
                stage: Stage::Start,
                branch: seq![],
                remote: seq![],
                local: seq![],
                pending_error: None,
            }),
    {
        Job {
            kind: JobKind::Repair,
            stage: Stage::Start,
            branch: String::new(),
            remote: String::new(),
            local: String::new(),
            pending_error: None,
        }
    }

    /// A listing of the remote's branches; where the game folder holds no
    /// repository, `remote` is asked directly.
    pub fn fetch_branches(remote: &str) -> (j: Job)
        ensures
            j@ == (JobView {
                kind: JobKind::FetchBranches,
                stage: Stage::Start,
                branch: seq![],
                remote: remote@,
                local: seq![],
                pending_error: None,
            }),
    {
        Job {
            kind: JobKind::FetchBranches,
            stage: Stage::Start,
            branch: String::new(),
            remote: remote.to_string(),
            local: String::new(),
            pending_error: None,
        }
    }

    /// Whether `o` answers the command that the job waits for.
    pub fn accepts(&self, o: &Outcome) -> (b: bool)
        ensures
            b == accepts(self@, o@),
    {
        match (self.stage, o) {
            (Stage::Start, Outcome::Begin) => true,
            (Stage::Probe, Outcome::Exists(_)) | (Stage::ProbeBackup, Outcome::Exists(_)) => true,
            (Stage::Init, Outcome::Output(_)) | (Stage::Checkout, Outcome::Output(_)) | (
                Stage::AddRemote,
                Outcome::Output(_),
            ) | (Stage::Local, Outcome::Output(_)) | (Stage::Remote, Outcome::Output(_)) | (
                Stage::Reset,
                Outcome::Output(_),
            ) | (Stage::List, Outcome::Output(_)) => true,
            (Stage::Fetch, Outcome::Finished(_)) | (Stage::Clean, Outcome::Finished(_)) | (
                Stage::CreateDir,
                Outcome::Finished(_),
            ) => true,
            (Stage::Backup, Outcome::Saved(_)) => true,
            (Stage::Restore, Outcome::Restored(_)) => true,
            (Stage::Manifest, Outcome::Manifest(_)) => true,
            (Stage::Copy, Outcome::Copied(_)) => true,
            _ => false,
        }
    }

    /// Whether the job has finished.
    pub fn is_over(&self) -> (b: bool)
        ensures
            b == (self.stage == Stage::Over),
    {
        self.stage == Stage::Over
    }

    fn go(&mut self, s: Stage, events: Vec<ProgressEvent>, next: Command) -> (r: Step)
        ensures
            final(self)@ == with_stage(old(self)@, s),
            r.events@ == events@,
            r.next == Some(next),
    {
        self.stage = s;
        Step { events, next: Some(next) }
    }

    fn finish(&mut self, events: Vec<ProgressEvent>) -> (r: Step)
        ensures
            final(self)@ == with_stage(old(self)@, Stage::Over),
            r.events@ == events@,
            r.next is None,
    {
        self.stage = Stage::Over;
        Step { events, next: None }
    }

    /// Takes the outcome of the last command (`Outcome::Begin` to start) and
    /// returns the events to report and the next command, as `job_step` says.
    pub fn step(&mut self, outcome: Outcome) -> (r: Step)
        requires
            accepts(old(self)@, outcome@),
        ensures
            final(self)@ == job_step(old(self)@, outcome@).job,
            r.events@.map_values(|e: ProgressEvent| e@) == job_step(old(self)@, outcome@).events,
            opt_command(r.next) == job_step(old(self)@, outcome@).next,
    {
        let ghost o = outcome@;
        let ghost want = job_step(old(self)@, o);
        let mut events: Vec<ProgressEvent> = Vec::new();
        let failed = match &outcome {
            Outcome::Output(Err(e)) => Some(e.clone()),
            Outcome::Finished(Err(e)) => Some(e.clone()),
            Outcome::Copied(Err(e)) => Some(e.clone()),
            _ => None,
        };
        if let Some(e) = failed {
            let holds = match (self.kind, self.stage) {
                (JobKind::Update, Stage::Reset) | (JobKind::Update, Stage::Clean) => true,
                _ => false,
            };
            if holds {
                self.pending_error = Some(e);
                let r = self.go(Stage::Restore, events, Command::RestoreProtected);
                assert(r.events@.map_values(|e: ProgressEvent| e@) =~= want.events);
                return r;
            }
            events.push(ProgressEvent::Error(e));
            let r = self.finish(events);
            assert(r.events@.map_values(|e: ProgressEvent| e@) =~= want.events);
            return r;
        }
        let r = match self.kind {
            JobKind::CheckUpdate => self.check_step(outcome),
            JobKind::Update => self.update_step(outcome),
            JobKind::Repair => self.repair_step(outcome),
            JobKind::FetchBranches => self.branches_step(outcome),
        };
        r
    }

    fn check_step(&mut self, outcome: Outcome) -> (r: Step)
        requires
            old(self).kind == JobKind::CheckUpdate,
            accepts(old(self)@, outcome@),
            failure(outcome@) is None,
        ensures
            final(self)@ == check_step(old(self)@, outcome@).job,
            r.events@.map_values(|e: ProgressEvent| e@) == check_step(old(self)@, outcome@).events,
            opt_command(r.next) == check_step(old(self)@, outcome@).next,
    {
        let ghost want = check_step(old(self)@, outcome@);
        let mut events: Vec<ProgressEvent> = Vec::new();
        match self.stage {
            Stage::Start => {
                let r = self.go(Stage::Probe, events, Command::ProbeRepo);
                assert(r.events@.map_values(|e: ProgressEvent| e@) =~= want.events);
                r
            },
            Stage::Probe => {
                if let Outcome::Exists(false) = outcome {
                    events.push(ProgressEvent::StatusResult(UpdateStatus::NotInitialized));
                    events.push(ProgressEvent::Done);
                    let r = self.finish(events);
                    assert(r.events@.map_values(|e: ProgressEvent| e@) =~= want.events);
                    r
                } else {
                    events.push(log_event("Fetching from remote..."));
                    let r = self.go(
                        Stage::Fetch,
                        events,
                        Command::GitStream(args3("fetch", "origin", "--progress")),
                    );
                    assert(r.events@.map_values(|e: ProgressEvent| e@) =~= want.events);
                    r
                }
            },
            Stage::Fetch => {
                let r = self.go(Stage::Local, events, Command::Git(args2("rev-parse", "HEAD")));
                assert(r.events@.map_values(|e: ProgressEvent| e@) =~= want.events);
                r
            },
            Stage::Local => {
                if let Outcome::Output(Ok(out)) = outcome {
                    self.local = trimmed(out.as_str());
                }
                let mut a: Vec<String> = Vec::new();
                a.push("rev-parse".to_string());
                a.push(origin_of(&self.branch));
                assert(a.deep_view() =~= seq!["rev-parse"@, origin_ref(self.branch@)]);
                let r = self.go(Stage::Remote, events, Command::Git(a));
                assert(r.events@.map_values(|e: ProgressEvent| e@) =~= want.events);
                r
            },
            _ => {
                let remote = match outcome {
                    Outcome::Output(Ok(out)) => trimmed(out.as_str()),
                    _ => String::new(),
                };
                let local = self.local.clone();
                let status = if local == remote {
                    UpdateStatus::UpToDate { hash: local }
                } else {
                    UpdateStatus::Available { local, remote }
                };
                events.push(ProgressEvent::StatusResult(status));
                events.push(ProgressEvent::Done);
                let r = self.finish(events);
                assert(r.events@.map_values(|e: ProgressEvent| e@) =~= want.events);
                r
            },
        }
    }

    fn update_step(&mut self, outcome: Outcome) -> (r: Step)
        requires
            old(self).kind == JobKind::Update,
            accepts(old(self)@, outcome@),
            failure(outcome@) is None,
        ensures
            final(self)@ == update_step(old(self)@, outcome@).job,
            r.events@.map_values(|e: ProgressEvent| e@) == update_step(old(self)@, outcome@).events,
            opt_command(r.next) == update_step(old(self)@, outcome@).next,
    {
        let ghost want = update_step(old(self)@, outcome@);
        let mut events: Vec<ProgressEvent> = Vec::new();
        match self.stage {
            Stage::Start => {
                let r = self.go(Stage::Probe, events, Command::ProbeRepo);
                assert(r.events@.map_values(|e: ProgressEvent| e@) =~= want.events);
                r
            },
            Stage::Probe => {
                if let Outcome::Exists(false) = outcome {
                    events.push(log_event("Initializing repository..."));
                    let r = self.go(Stage::Init, events, Command::Git(args1("init")));
                    assert(r.events@.map_values(|e: ProgressEvent| e@) =~= want.events);
                    r
                } else {
                    events.push(log_event("Fetching updates..."));
                    let r = self.go(
                        Stage::Fetch,
                        events,
                        Command::GitStream(args3("fetch", "origin", "--progress")),
                    );
                    assert(r.events@.map_values(|e: ProgressEvent| e@) =~= want.events);
                    r
                }
            },
            Stage::Init => {
                let a = args3("checkout", "-B", self.branch.as_str());
                let r = self.go(Stage::Checkout, events, Command::Git(a));
                assert(r.events@.map_values(|e: ProgressEvent| e@) =~= want.events);
                r
            },
            Stage::Checkout => {
                let a = args4("remote", "add", "origin", self.remote.as_str());
                let r = self.go(Stage::AddRemote, events, Command::Git(a));
                assert(r.events@.map_values(|e: ProgressEvent| e@) =~= want.events);
                r
            },
            Stage::AddRemote => {
                events.push(log_event("Downloading modpack..."));
                let r = self.go(
                    Stage::Fetch,
                    events,
                    Command::GitStream(args3("fetch", "origin", "--progress")),
                );
                assert(r.events@.map_values(|e: ProgressEvent| e@) =~= want.events);
                r
            },
            Stage::Fetch => {
                let r = self.go(Stage::Backup, events, Command::BackupProtected);
                assert(r.events@.map_values(|e: ProgressEvent| e@) =~= want.events);
                r
            },
            Stage::Backup => {
                let n = match outcome {
                    Outcome::Saved(n) => n,
                    _ => 0,
                };
                if n > 0 {
                    let mut m = "Protecting ".to_string();
                    push_decimal(&mut m, n as u64);
                    push_str(&mut m, " config file(s)...");
                    events.push(ProgressEvent::Log(m));
                }
                events.push(log_event("Applying files..."));
                let mut a: Vec<String> = Vec::new();
                a.push("reset".to_string());
                a.push("--hard".to_string());
                a.push(origin_of(&self.branch));
                assert(a.deep_view() =~= reset_args(self.branch@));
                let r = self.go(Stage::Reset, events, Command::Git(a));
                assert(r.events@.map_values(|e: ProgressEvent| e@) =~= want.events);
                r
            },
            Stage::Reset => {
                let r = self.go(Stage::Clean, events, Command::GitStream(args2("clean", "-fd")));
                assert(r.events@.map_values(|e: ProgressEvent| e@) =~= want.events);
                r
            },
            Stage::Clean => {
                let r = self.go(Stage::Restore, events, Command::RestoreProtected);
                assert(r.events@.map_values(|e: ProgressEvent| e@) =~= want.events);
                r
            },
            Stage::Restore => {
                let mut lines = match &outcome {
                    Outcome::Restored(files) => restore_events(files),
                    _ => Vec::new(),
                };
                let pending = match &self.pending_error {
                    Some(e) => Some(e.clone()),
                    None => None,
                };
                match pending {
                    Some(e) => {
                        let ghost before = lines@;
                        lines.push(ProgressEvent::Error(e));
                        assert(lines@.map_values(|e: ProgressEvent| e@) =~= before.map_values(
                            |e: ProgressEvent| e@,
                        ).push(EventView::Error(old(self)@.pending_error->Some_0)));
                        let r = self.finish(lines);
                        assert(r.events@.map_values(|e: ProgressEvent| e@) =~= want.events);
                        r
                    },
                    None => self.go(Stage::Manifest, lines, Command::ReadManifest),
                }
            },
            _ => {
                match &outcome {
                    Outcome::Manifest(Some(m)) => {
                        events = manifest_events(m);
                        let ghost before = events@;
                        events.push(ProgressEvent::Done);
                        assert(events@.map_values(|e: ProgressEvent| e@) =~= before.map_values(
                            |e: ProgressEvent| e@,
                        ).push(EventView::Done));
                        assert(manifest_lines(m.description@, m.changelog.deep_view()).map_values(
                            |l: Seq<char>| EventView::Log(l),
                        ) =~= manifest_lines(m.description@, m.changelog.deep_view()).map_values(
                            |l: Seq<char>| log(l),
                        ));
                    },
                    _ => {
                        events.push(ProgressEvent::Done);
                    },
                }
                let r = self.finish(events);
                assert(r.events@.map_values(|e: ProgressEvent| e@) =~= want.events);
                r
            },
        }
    }

    fn repair_step(&mut self, outcome: Outcome) -> (r: Step)
        requires
            old(self).kind == JobKind::Repair,
            accepts(old(self)@, outcome@),
            failure(outcome@) is None,
        ensures
            final(self)@ == repair_step(old(self)@, outcome@).job,
            r.events@.map_values(|e: ProgressEvent| e@) == repair_step(old(self)@, outcome@).events,
            opt_command(r.next) == repair_step(old(self)@, outcome@).next,
    {
        let ghost want = repair_step(old(self)@, outcome@);
        let mut events: Vec<ProgressEvent> = Vec::new();
        match self.stage {
            Stage::Start => {
                let r = self.go(Stage::ProbeBackup, events, Command::ProbeBackup);
                assert(r.events@.map_values(|e: ProgressEvent| e@) =~= want.events);
                r
            },
            Stage::ProbeBackup => {
                if let Outcome::Exists(false) = outcome {
                    events.push(ProgressEvent::Error(".BACKUP/BepInEx/config not found".to_string()));
                    let r = self.finish(events);
                    assert(r.events@.map_values(|e: ProgressEvent| e@) =~= want.events);
                    r
                } else {
                    let r = self.go(Stage::CreateDir, events, Command::CreateConfigDir);
                    assert(r.events@.map_values(|e: ProgressEvent| e@) =~= want.events);
                    r
                }
            },
            Stage::CreateDir => {
                let r = self.go(Stage::Copy, events, Command::CopyBackup);
                assert(r.events@.map_values(|e: ProgressEvent| e@) =~= want.events);
                r
            },
            _ => {
                match &outcome {
                    Outcome::Copied(Ok(files)) => {
                        let (lines, count) = copy_events(files);
                        events = lines;
                        let ghost before = events@.map_values(|e: ProgressEvent| e@);
                        if count == 0 {
                            events.push(log_event("No files found in .BACKUP/BepInEx/config/"));
                        }
                        let ghost mid = events@.map_values(|e: ProgressEvent| e@);
                        events.push(ProgressEvent::Done);
                        assert(events@.map_values(|e: ProgressEvent| e@) =~= mid.push(EventView::Done));
                        assert(mid =~= before + (if count == 0 {
                            seq![log("No files found in .BACKUP/BepInEx/config/"@)]
                        } else {
                            seq![]
                        }));
                    },
                    _ => {
                        events.push(ProgressEvent::Done);
                    },
                }
                let r = self.finish(events);
                assert(r.events@.map_values(|e: ProgressEvent| e@) =~= want.events);
                r
            },
        }
    }

    fn branches_step(&mut self, outcome: Outcome) -> (r: Step)
        requires
            old(self).kind == JobKind::FetchBranches,
            accepts(old(self)@, outcome@),
            failure(outcome@) is None,
        ensures
            final(self)@ == branches_step(old(self)@, outcome@).job,
            r.events@.map_values(|e: ProgressEvent| e@) == branches_step(old(self)@, outcome@).events,
            opt_command(r.next) == branches_step(old(self)@, outcome@).next,
    {
        let ghost want = branches_step(old(self)@, outcome@);
        let mut events: Vec<ProgressEvent> = Vec::new();
        match self.stage {
            Stage::Start => {
                events.push(log_event("Fetching branch list..."));
                let r = self.go(Stage::Probe, events, Command::ProbeRepo);
                assert(r.events@.map_values(|e: ProgressEvent| e@) =~= want.events);
                r
            },
            Stage::Probe => {
                let a = if let Outcome::Exists(true) = outcome {
                    args3("ls-remote", "--heads", "origin")
                } else {
                    args3("ls-remote", "--heads", self.remote.as_str())
                };
                let r = self.go(Stage::List, events, Command::Git(a));
                assert(r.events@.map_values(|e: ProgressEvent| e@) =~= want.events);
                r
            },
            _ => {
                let empty = String::new();
                let out = match &outcome {
                    Outcome::Output(Ok(out)) => out.as_str(),
                    _ => empty.as_str(),
                };
                let branches = parse_branch_list(out);
                assert(branches.deep_view().len() == branches@.len());
                if branches.len() == 0 {
                    events.push(ProgressEvent::Error("No branches found on remote".to_string()));
                } else {
                    events.push(ProgressEvent::BranchList(branches));
                }
                let r = self.finish(events);
                assert(r.events@.map_values(|e: ProgressEvent| e@) =~= want.events);
                r
            },
        }
    }
}

} // verus!
