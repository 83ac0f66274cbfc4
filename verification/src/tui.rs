//! The interface's state and its decisions: what a key press or a reported
//! event does to it, and what it asks to be started.
//!
//! Drawing, threads and the terminal are left to the program around the
//! library; it hands key presses and events in and carries the returned
//! actions out.
use vstd::prelude::*;

use crate::git::{phase_percent, phase_share};
use crate::progress::{events_view, EventView, ProgressEvent};
use crate::text::{decimal, push_decimal, push_str};
use crate::types::{StatusView, UpdateStatus};

verus! {

broadcast use vstd::string::group_string_axioms;

/// How many log lines the interface keeps.
pub const LOG_CAPACITY: usize = 500;

/// Declares `std::path::PathBuf` to Verus as an opaque type, so that
/// `Config` can carry the game folder's path; nothing is claimed of its
/// contents, which the library never reads.
#[verifier::external_type_specification]
#[verifier::external_body]
pub struct ExPathBuf(std::path::PathBuf);

/// What the program was started with.
pub struct Config {
    /// The SPT installation folder.
    pub game_path: std::path::PathBuf,
    /// The SPT version found in the folder, if any.
    pub spt_version: Option<String>,
    /// The branch to follow at start.
    pub initial_branch: String,
}

/// What the interface shows and accepts.
#[derive(Debug, Clone, PartialEq)]
pub enum Mode {
    /// The main menu takes keys.
    Idle,
    /// An operation runs; `is_user_op` where the user started it (it then
    /// shows in a popup, and Esc asks before quitting).
    Running { is_user_op: bool },
    /// The user picks one of `branches`; `sel` is highlighted.
    SelectBranch { branches: Vec<String>, sel: usize },
    /// A user operation finished, successfully or not.
    Done(bool),
    /// A newer release of the updater is offered.
    SelfUpdatePrompt { version: String, url: String },
}

/// How far the running operation has come.
#[derive(Clone, Copy, PartialEq, Eq, Structural, Debug)]
pub enum Progress {
    /// Nothing done yet.
    Start,
    /// Within the phase that fills `lo`..`hi` percent of the bar, `current`
    /// of `total` units are done.
    Phase { lo: u64, hi: u64, current: u64, total: u64 },
    /// All done.
    Complete,
}

/// A key press, as far as the interface tells keys apart.
#[derive(Clone, Copy, PartialEq, Eq, Structural, Debug)]
pub enum Key {
    Up,
    Down,
    Enter,
    Esc,
    Char(char),
    Other,
}

/// What the interface asks the program to do after a key press.
#[derive(Debug, Clone, PartialEq)]
pub enum Action {
    /// Nothing.
    Stay,
    /// Leave the program.
    Quit,
    /// Run an update of the current branch.
    StartUpdate,
    /// Run a repair of the configuration files.
    StartRepair,
    /// List the remote's branches.
    FetchBranches,
    /// Remember this branch as the one to follow, and check it for updates.
    SwitchBranch(String),
    /// Download the updater's new release from this address and replace the
    /// running program with it.
    SelfUpdate(String),
}

/// The interface's state.
pub struct App {
    pub branch: String,
    pub spt_version: Option<String>,
    pub status: UpdateStatus,
    /// The highlighted entry of the main menu: UPDATE, REPAIR, BRANCH.
    pub menu_sel: usize,
    pub mode: Mode,
    /// The title of the operation popup.
    pub op_name: String,
    pub progress: Progress,
    /// The line under the progress bar.
    pub phase: String,
    /// The operation's log, oldest first.
    pub log: Vec<String>,
    /// Counts the frames drawn; drives the spinners.
    pub tick: u64,
    /// The "Quit?" question is shown.
    pub confirm_quit: bool,
    /// A newer release (version, address) waits to be offered.
    pub pending_self_update: Option<(String, String)>,
    /// The new release is being installed; the program restarts once done.
    pub self_update_in_progress: bool,
}

// ───────────────────────────── views ─────────────────────────────

pub enum ModeView {
    Idle,
    Running { is_user_op: bool },
    SelectBranch { branches: Seq<Seq<char>>, sel: nat },
    Done(bool),
    SelfUpdatePrompt { version: Seq<char>, url: Seq<char> },
}

pub enum ActionView {
    Stay,
    Quit,
    StartUpdate,
    StartRepair,
    FetchBranches,
    SwitchBranch(Seq<char>),
    SelfUpdate(Seq<char>),
}

#[verifier::ext_equal]
pub struct AppView {
    pub branch: Seq<char>,
    pub spt_version: Option<Seq<char>>,
    pub status: StatusView,
    pub menu_sel: nat,
    pub mode: ModeView,
    pub op_name: Seq<char>,
    pub progress: Progress,
    pub phase: Seq<char>,
    pub log: Seq<Seq<char>>,
    pub tick: u64,
    pub confirm_quit: bool,
    pub pending_self_update: Option<(Seq<char>, Seq<char>)>,
    pub self_update_in_progress: bool,
}

impl View for Mode {
    type V = ModeView;

    open spec fn view(&self) -> ModeView {
        match self {
            Mode::Idle => ModeView::Idle,
            Mode::Running { is_user_op } => ModeView::Running { is_user_op: *is_user_op },
            Mode::SelectBranch { branches, sel } => ModeView::SelectBranch {
                branches: branches.deep_view(),
                sel: *sel as nat,
            },
            Mode::Done(ok) => ModeView::Done(*ok),
            Mode::SelfUpdatePrompt { version, url } => ModeView::SelfUpdatePrompt {
                version: version@,
                url: url@,
            },
        }
    }
}

impl View for Action {
    type V = ActionView;

    open spec fn view(&self) -> ActionView {
        match self {
            Action::Stay => ActionView::Stay,
            Action::Quit => ActionView::Quit,
            Action::StartUpdate => ActionView::StartUpdate,
            Action::StartRepair => ActionView::StartRepair,
            Action::FetchBranches => ActionView::FetchBranches,
            Action::SwitchBranch(b) => ActionView::SwitchBranch(b@),
            Action::SelfUpdate(u) => ActionView::SelfUpdate(u@),
        }
    }
}

impl View for App {
    type V = AppView;

    open spec fn view(&self) -> AppView {
        AppView {
            branch: self.branch@,
            spt_version: match self.spt_version {
                Some(v) => Some(v@),
                None => None,
            },
            status: self.status@,
            menu_sel: self.menu_sel as nat,
            mode: self.mode@,
            op_name: self.op_name@,
            progress: self.progress,
            phase: self.phase@,
            log: self.log.deep_view(),
            tick: self.tick,
            confirm_quit: self.confirm_quit,
            pending_self_update: match self.pending_self_update {
                Some((v, u)) => Some((v@, u@)),
                None => None,
            },
            self_update_in_progress: self.self_update_in_progress,
        }
    }
}

// ───────────────────────────── the rules ─────────────────────────────

impl AppView {
    /// The state's invariant: a menu entry is highlighted, the log holds at
    /// most `LOG_CAPACITY` lines, and a branch picker highlights one of its
    /// branches (or holds none).
    pub open spec fn wf(self) -> bool {
        &&& self.menu_sel <= 2
        &&& self.log.len() <= LOG_CAPACITY
        &&& self.mode matches ModeView::SelectBranch { branches, sel } ==> (sel < branches.len()
            || (branches.len() == 0 && sel == 0))
    }
}

/// The log after `line` is appended and the oldest lines beyond
/// `LOG_CAPACITY` are dropped.
pub open spec fn log_push(log: Seq<Seq<char>>, line: Seq<char>) -> Seq<Seq<char>> {
    let l = log.push(line);
    if l.len() > LOG_CAPACITY {
        l.skip(l.len() - LOG_CAPACITY)
    } else {
        l
    }
}

/// The position of `b` in `bs` from the `k`-th on, or `bs.len()`.
pub open spec fn position_from(bs: Seq<Seq<char>>, b: Seq<char>, k: int) -> int
    decreases bs.len() - k,
{
    if k < 0 || k >= bs.len() {
        bs.len() as int
    } else if bs[k] == b {
        k
    } else {
        position_from(bs, b, k + 1)
    }
}

/// The branch highlighted when the picker opens: the current one where the
/// list has it, else the first.
pub open spec fn initial_selection(bs: Seq<Seq<char>>, current: Seq<char>) -> nat {
    let p = position_from(bs, current, 0);
    if p < bs.len() {
        p as nat
    } else {
        0
    }
}

/// The text under the progress bar for a phase report.
pub open spec fn phase_text(name: Seq<char>, current: u64, total: u64) -> Seq<char> {
    name + " ("@ + decimal(current as nat) + "/"@ + decimal(total as nat) + ")"@
}

/// What the event `e` does to the state `a`, and whether the program must
/// now restart into its new release.
pub open spec fn apply_event(a: AppView, e: EventView) -> (AppView, bool) {
    match e {
        EventView::Phase { name, current, total } => {
            let (lo, hi) = phase_share(name);
            (
                AppView {
                    progress: Progress::Phase { lo, hi, current, total },
                    phase: phase_text(name, current, total),
                    ..a
                },
                false,
            )
        },
        EventView::Log(m) => (AppView { log: log_push(a.log, m), ..a }, false),
        EventView::StatusResult(st) => (AppView { status: st, ..a }, false),
        EventView::BranchList(bs) => (
            AppView {
                mode: ModeView::SelectBranch { branches: bs, sel: initial_selection(bs, a.branch) },
                ..a
            },
            false,
        ),
        EventView::Done => {
            let b = AppView { progress: Progress::Complete, ..a };
            if a.self_update_in_progress {
                (b, true)
            } else {
                (
                    AppView {
                        mode: if a.mode == (ModeView::Running { is_user_op: true }) {
                            ModeView::Done(true)
                        } else {
                            ModeView::Idle
                        },
                        ..b
                    },
                    false,
                )
            }
        },
        EventView::Error(m) => {
            let b = AppView {
                log: log_push(a.log, "Error: "@ + m),
                self_update_in_progress: false,
                ..a
            };
            if a.mode == (ModeView::Running { is_user_op: true }) {
                (AppView { mode: ModeView::Done(false), ..b }, false)
            } else {
                (AppView { status: StatusView::Error(m), mode: ModeView::Idle, ..b }, false)
            }
        },
        EventView::SelfUpdateAvailable { version, url } => (
            AppView { pending_self_update: Some((version, url)), ..a },
            false,
        ),
    }
}

/// The events applied in order, stopping at one that restarts the program.
pub open spec fn apply_events(a: AppView, es: Seq<EventView>) -> (AppView, bool)
    decreases es.len(),
{
    if es.len() == 0 {
        (a, false)
    } else {
        let (b, restart) = apply_event(a, es[0]);
        if restart {
            (b, true)
        } else {
            apply_events(b, es.drop_first())
        }
    }
}

/// Once idle, a waiting release offer is shown.
pub open spec fn offer_pending(a: AppView) -> AppView {
    match a.pending_self_update {
        Some((version, url)) => if a.mode == ModeView::Idle {
            AppView {
                mode: ModeView::SelfUpdatePrompt { version, url },
                pending_self_update: None,
                ..a
            }
        } else {
            a
        },
        None => a,
    }
}

/// A batch of events as one frame takes them: applied in order, then a
/// waiting release offer is shown if the interface is idle.
pub open spec fn drain(a: AppView, es: Seq<EventView>) -> (AppView, bool) {
    let (b, restart) = apply_events(a, es);
    if restart {
        (b, true)
    } else {
        (offer_pending(b), false)
    }
}

pub open spec fn is_yes(k: Key) -> bool {
    k == Key::Char('y') || k == Key::Char('Y') || k == Key::Enter
}

pub open spec fn is_no(k: Key) -> bool {
    k == Key::Char('n') || k == Key::Char('N') || k == Key::Esc
}

/// A cleared operation view: progress at the start, log empty.
pub open spec fn fresh(a: AppView) -> AppView {
    AppView { progress: Progress::Start, log: seq![], ..a }
}

/// Starting the highlighted menu entry.
pub open spec fn start_action(a: AppView) -> (AppView, ActionView) {
    let b = fresh(a);
    if a.menu_sel == 0 {
        (
            AppView {
                op_name: "UPDATE"@,
                phase: "Starting update..."@,
                mode: ModeView::Running { is_user_op: true },
                ..b
            },
            ActionView::StartUpdate,
        )
    } else if a.menu_sel == 1 {
        (
            AppView {
                op_name: "REPAIR"@,
                phase: "Repairing config files..."@,
                mode: ModeView::Running { is_user_op: true },
                ..b
            },
            ActionView::StartRepair,
        )
    } else {
        (
            AppView {
                phase: "Fetching branch list..."@,
                mode: ModeView::Running { is_user_op: false },
                ..b
            },
            ActionView::FetchBranches,
        )
    }
}

/// Following the branch `b` from now on, starting with a check of it.
pub open spec fn switch_branch(a: AppView, b: Seq<char>) -> (AppView, ActionView) {
    (
        AppView {
            branch: b,
            phase: "Checking for updates..."@,
            mode: ModeView::Running { is_user_op: false },
            ..fresh(a)
        },
        ActionView::SwitchBranch(b),
    )
}

/// Installing the new release from `url`.
pub open spec fn start_self_update(a: AppView, url: Seq<char>) -> (AppView, ActionView) {
    (
        AppView {
            op_name: "SELF-UPDATE"@,
            phase: "Downloading..."@,
            mode: ModeView::Running { is_user_op: true },
            self_update_in_progress: true,
            ..fresh(a)
        },
        ActionView::SelfUpdate(url),
    )
}

/// What the key `k` does in the state `a`.
pub open spec fn press(a: AppView, k: Key) -> (AppView, ActionView) {
    if a.confirm_quit {
        if is_yes(k) {
            (a, ActionView::Quit)
        } else {
            (AppView { confirm_quit: false, ..a }, ActionView::Stay)
        }
    } else {
        match a.mode {
            ModeView::Idle => match k {
                Key::Up => (
                    AppView { menu_sel: if a.menu_sel > 0 { (a.menu_sel - 1) as nat } else { 0 }, ..a },
                    ActionView::Stay,
                ),
                Key::Down => (
                    AppView { menu_sel: if a.menu_sel < 2 { a.menu_sel + 1 } else { a.menu_sel }, ..a },
                    ActionView::Stay,
                ),
                Key::Enter => start_action(a),
                Key::Esc => (a, ActionView::Quit),
                _ => (a, ActionView::Stay),
            },
            ModeView::Running { is_user_op } => if k == Key::Esc {
                if is_user_op {
                    (AppView { confirm_quit: true, ..a }, ActionView::Stay)
                } else {
                    (a, ActionView::Quit)
                }
            } else {
                (a, ActionView::Stay)
            },
            ModeView::SelectBranch { branches, sel } => match k {
                Key::Up => (
                    AppView {
                        mode: ModeView::SelectBranch {
                            branches,
                            sel: if sel > 0 { (sel - 1) as nat } else { 0 },
                        },
                        ..a
                    },
                    ActionView::Stay,
                ),
                Key::Down => (
                    AppView {
                        mode: ModeView::SelectBranch {
                            branches,
                            sel: if sel + 1 < branches.len() { sel + 1 } else { sel },
                        },
                        ..a
                    },
                    ActionView::Stay,
                ),
                Key::Enter => switch_branch(a, branches[sel as int]),
                Key::Esc => (AppView { mode: ModeView::Idle, ..a }, ActionView::Stay),
                _ => (a, ActionView::Stay),
            },
            ModeView::Done(_) => match k {
                Key::Enter => (
                    AppView { mode: ModeView::Idle, phase: seq![], ..fresh(a) },
                    ActionView::Stay,
                ),
                Key::Esc => (a, ActionView::Quit),
                _ => (a, ActionView::Stay),
            },
            ModeView::SelfUpdatePrompt { url, .. } => if is_yes(k) {
                start_self_update(a, url)
            } else if is_no(k) {
                (AppView { mode: ModeView::Idle, ..a }, ActionView::Stay)
            } else {
                (a, ActionView::Stay)
            },
        }
    }
}

/// The key `k` would index an empty branch list (which the interface cannot
/// do): Enter while an empty picker is open.
pub open spec fn picks_from_empty(a: AppView, k: Key) -> bool {
    &&& !a.confirm_quit
    &&& a.mode matches ModeView::SelectBranch { branches, .. }
    &&& branches.len() == 0
    &&& k == Key::Enter
}

/// The state at start: the startup check runs in the background.
pub open spec fn initial_state(spt_version: Option<Seq<char>>, branch: Seq<char>) -> AppView {
    AppView {
        branch,
        spt_version,
        status: StatusView::NotInitialized,
        menu_sel: 0,
        mode: ModeView::Running { is_user_op: false },
        op_name: seq![],
        progress: Progress::Start,
        phase: "Checking for updates..."@,
        log: seq![],
        tick: 0,
        confirm_quit: false,
        pending_self_update: None,
        self_update_in_progress: false,
    }
}

impl App {
    /// The state at start, following `initial_branch`.
    pub fn new(spt_version: Option<String>, initial_branch: String) -> (a: App)
        ensures
            a@ == initial_state(
                match spt_version {
                    Some(v) => Some(v@),
                    None => None,
                },
                initial_branch@,
            ),
            a@.wf(),
    {
        let a = App {
            branch: initial_branch,
            spt_version,
            status: UpdateStatus::NotInitialized,
            menu_sel: 0,
            mode: Mode::Running { is_user_op: false },
            op_name: String::new(),
            progress: Progress::Start,
            phase: "Checking for updates...".to_string(),
            log: Vec::new(),
            tick: 0,
            confirm_quit: false,
            pending_self_update: None,
            self_update_in_progress: false,
        };
        assert(a.log.deep_view() =~= seq![]);
        a
    }

    /// Appends `line` to the log, dropping the oldest lines beyond
    /// `LOG_CAPACITY`.
    pub fn log_push(&mut self, line: String)
        ensures
            final(self)@ == (AppView { log: log_push(old(self)@.log, line@), ..old(self)@ }),
    {
        let ghost l = old(self)@.log.push(line@);
        self.log.push(line);
        assert(self.log.deep_view() =~= l);
        assert(l.skip(0) =~= l);
        while self.log.len() > LOG_CAPACITY
            invariant
                self.log.len() <= l.len(),
                self.log.deep_view() == l.skip(l.len() - self.log.len()),
                self.log.len() >= (if l.len() > LOG_CAPACITY {
                    LOG_CAPACITY as nat
                } else {
                    l.len()
                }),
                self.branch == old(self).branch,
                self.spt_version == old(self).spt_version,
                self.status == old(self).status,
                self.menu_sel == old(self).menu_sel,
                self.mode == old(self).mode,
                self.op_name == old(self).op_name,
                self.progress == old(self).progress,
                self.phase == old(self).phase,
                self.tick == old(self).tick,
                self.confirm_quit == old(self).confirm_quit,
                self.pending_self_update == old(self).pending_self_update,
                self.self_update_in_progress == old(self).self_update_in_progress,
            decreases self.log.len(),
        {
            let ghost before = self.log.deep_view();
            self.log.remove(0);
            assert(self.log.deep_view() =~= before.drop_first());
            assert(l.skip(l.len() - (before.len() - 1)) =~= before.drop_first());
        }
        assert(self@ =~= (AppView { log: log_push(old(self)@.log, line@), ..old(self)@ }));
    }

    fn clear_operation(&mut self)
        ensures
            final(self)@ == fresh(old(self)@),
    {
        self.progress = Progress::Start;
        self.log = Vec::new();
        assert(self.log.deep_view() =~= seq![]);
        assert(self@ =~= fresh(old(self)@));
    }

    /// Applies one reported event; true where the program must now restart
    /// into its new release.
    pub fn apply_event(&mut self, e: ProgressEvent) -> (restart: bool)
        ensures
            (final(self)@, restart) == apply_event(old(self)@, e@),
            old(self)@.wf() && !restart ==> final(self)@.wf(),
            old(self)@.wf() ==> final(self)@.log.len() <= LOG_CAPACITY,
    {
        let ghost want = apply_event(old(self)@, e@);
        match e {
            ProgressEvent::Phase { name, current, total } => {
                let (lo, hi) = phase_percent(name.as_str());
                self.progress = Progress::Phase { lo, hi, current, total };
                let mut t = name.clone();
                push_str(&mut t, " (");
                push_decimal(&mut t, current);
                push_str(&mut t, "/");
                push_decimal(&mut t, total);
                push_str(&mut t, ")");
                self.phase = t;
                assert(self@ =~= want.0);
                false
            },
            ProgressEvent::Log(m) => {
                self.log_push(m);
                false
            },
            ProgressEvent::StatusResult(st) => {
                self.status = st;
                assert(self@ =~= want.0);
                false
            },
            ProgressEvent::BranchList(bs) => {
                let sel = self.position_of_branch(&bs);
                self.mode = Mode::SelectBranch { branches: bs, sel };
                assert(self@ =~= want.0);
                false
            },
            ProgressEvent::Done => {
                self.progress = Progress::Complete;
                if self.self_update_in_progress {
                    assert(self@ =~= want.0);
                    return true;
                }
                let user_op = match self.mode {
                    Mode::Running { is_user_op } => is_user_op,
                    _ => false,
                };
                self.mode = if user_op {
                    Mode::Done(true)
                } else {
                    Mode::Idle
                };
                assert(self@ =~= want.0);
                false
            },
            ProgressEvent::Error(m) => {
                let mut line = "Error: ".to_string();
                push_str(&mut line, m.as_str());
                self.log_push(line);
                self.self_update_in_progress = false;
                let user_op = match self.mode {
                    Mode::Running { is_user_op } => is_user_op,
                    _ => false,
                };
                if user_op {
                    self.mode = Mode::Done(false);
                } else {
                    self.status = UpdateStatus::Error(m);
                    self.mode = Mode::Idle;
                }
                assert(self@ =~= want.0);
                false
            },
            ProgressEvent::SelfUpdateAvailable { version, url } => {
                self.pending_self_update = Some((version, url));
                assert(self@ =~= want.0);
                false
            },
        }
    }

    fn position_of_branch(&self, bs: &Vec<String>) -> (sel: usize)
        ensures
            sel as nat == initial_selection(bs.deep_view(), self.branch@),
            sel < bs.len() || (bs.len() == 0 && sel == 0),
    {
        let ghost bv = bs.deep_view();
        let mut i: usize = 0;
        while i < bs.len()
            invariant
                i <= bs.len(),
                bv == bs.deep_view(),
                position_from(bv, self.branch@, i as int) == position_from(bv, self.branch@, 0),
            decreases bs.len() - i,
        {
            assert(bv[i as int] == bs@[i as int]@);
            if bs[i] == self.branch {
                return i;
            }
            i += 1;
        }
        0
    }

    /// Shows a waiting release offer if the interface is idle.
    fn offer_pending(&mut self)
        ensures
            final(self)@ == offer_pending(old(self)@),
    {
        let idle = match self.mode {
            Mode::Idle => true,
            _ => false,
        };
        if idle {
            match self.pending_self_update.take() {
                Some((version, url)) => {
                    self.mode = Mode::SelfUpdatePrompt { version, url };
                    assert(self@ =~= offer_pending(old(self)@));
                },
                None => {},
            }
        }
    }

    /// Applies a batch of reported events in order (see `drain`); true where
    /// the program must now restart into its new release.
    pub fn drain_events(&mut self, events: Vec<ProgressEvent>) -> (restart: bool)
        ensures
            (final(self)@, restart) == drain(old(self)@, events_view(events@)),
            old(self)@.wf() && !restart ==> final(self)@.wf(),
    {
        let ghost all = events_view(events@);
        let mut pending = events;
        let ghost a0 = self@;
        let mut restart = false;
        while !restart && pending.len() > 0
            invariant
                !restart ==> apply_events(self@, events_view(pending@)) == apply_events(a0, all),
                restart ==> apply_events(a0, all) == (self@, true),
                a0 == old(self)@,
                !restart && a0.wf() ==> self@.wf(),
            decreases pending.len(),
        {
            let ghost rest = pending@;
            let e = pending.remove(0);
            assert(events_view(rest)[0] == e@);
            assert(events_view(rest).drop_first() =~= events_view(pending@));
            restart = self.apply_event(e);
        }
        if !restart {
            assert(events_view(pending@) =~= Seq::<EventView>::empty());
            self.offer_pending();
        }
        restart
    }

    fn start_action(&mut self) -> (r: Action)
        ensures
            (final(self)@, r@) == start_action(old(self)@),
    {
        self.clear_operation();
        if self.menu_sel == 0 {
            self.op_name = "UPDATE".to_string();
            self.phase = "Starting update...".to_string();
            self.mode = Mode::Running { is_user_op: true };
            Action::StartUpdate
        } else if self.menu_sel == 1 {
            self.op_name = "REPAIR".to_string();
            self.phase = "Repairing config files...".to_string();
            self.mode = Mode::Running { is_user_op: true };
            Action::StartRepair
        } else {
            self.phase = "Fetching branch list...".to_string();
            self.mode = Mode::Running { is_user_op: false };
            Action::FetchBranches
        }
    }

    fn switch_branch(&mut self, b: String) -> (r: Action)
        ensures
            (final(self)@, r@) == switch_branch(old(self)@, b@),
    {
        self.branch = b.clone();
        self.clear_operation();
        self.phase = "Checking for updates...".to_string();
        self.mode = Mode::Running { is_user_op: false };
        Action::SwitchBranch(b)
    }

    fn start_self_update(&mut self, url: String) -> (r: Action)
        ensures
            (final(self)@, r@) == start_self_update(old(self)@, url@),
    {
        self.op_name = "SELF-UPDATE".to_string();
        self.phase = "Downloading...".to_string();
        self.clear_operation();
        self.mode = Mode::Running { is_user_op: true };
        self.self_update_in_progress = true;
        Action::SelfUpdate(url)
    }

    /// Whether `key` would pick from an empty branch list (see
    /// `picks_from_empty`).
    pub fn picks_from_empty(&self, key: Key) -> (b: bool)
        ensures
            b == picks_from_empty(self@, key),
    {
        if self.confirm_quit {
            return false;
        }
        match &self.mode {
            Mode::SelectBranch { branches, .. } => branches.len() == 0 && key == Key::Enter,
            _ => false,
        }
    }

    /// What the key press `key` does (see `press`).
    pub fn handle_key(&mut self, key: Key) -> (r: Action)
        requires
            old(self)@.wf(),
            !picks_from_empty(old(self)@, key),
        ensures
            (final(self)@, r@) == press(old(self)@, key),
            final(self)@.wf(),
    {
        let ghost want = press(old(self)@, key);
        let yes = key == Key::Char('y') || key == Key::Char('Y') || key == Key::Enter;
        let no = key == Key::Char('n') || key == Key::Char('N') || key == Key::Esc;
        if self.confirm_quit {
            if yes {
                return Action::Quit;
            }
            self.confirm_quit = false;
            return Action::Stay;
        }
        match self.mode {
            Mode::Idle => match key {
                Key::Up => {
                    if self.menu_sel > 0 {
                        self.menu_sel = self.menu_sel - 1;
                    }
                    Action::Stay
                },
                Key::Down => {
                    if self.menu_sel < 2 {
                        self.menu_sel = self.menu_sel + 1;
                    }
                    Action::Stay
                },
                Key::Enter => self.start_action(),
                Key::Esc => Action::Quit,
                _ => Action::Stay,
            },
            Mode::Running { is_user_op } => {
                if key == Key::Esc {
                    if is_user_op {
                        self.confirm_quit = true;
                        Action::Stay
                    } else {
                        Action::Quit
                    }
                } else {
                    Action::Stay
                }
            },
            Mode::SelectBranch { .. } => match key {
                Key::Up => {
                    if let Mode::SelectBranch { sel, .. } = &mut self.mode {
                        if *sel > 0 {
                            *sel = *sel - 1;
                        }
                    }
                    assert(self@ =~= want.0);
                    Action::Stay
                },
                Key::Down => {
                    if let Mode::SelectBranch { branches, sel } = &mut self.mode {
                        if branches.len() > 0 && *sel < branches.len() - 1 {
                            *sel = *sel + 1;
                        }
                    }
                    assert(self@ =~= want.0);
                    Action::Stay
                },
                Key::Enter => {
                    let b = match &self.mode {
                        Mode::SelectBranch { branches, sel } => branches[*sel].clone(),
                        _ => String::new(),
                    };
                    self.switch_branch(b)
                },
                Key::Esc => {
                    self.mode = Mode::Idle;
                    Action::Stay
                },
                _ => Action::Stay,
            },
            Mode::Done(_) => match key {
                Key::Enter => {
                    self.mode = Mode::Idle;
                    self.clear_operation();
                    self.phase = String::new();
                    assert(self@ =~= want.0);
                    Action::Stay
                },
                Key::Esc => Action::Quit,
                _ => Action::Stay,
            },
            Mode::SelfUpdatePrompt { .. } => {
                if yes {
                    let url = match &self.mode {
                        Mode::SelfUpdatePrompt { url, .. } => url.clone(),
                        _ => String::new(),
                    };
                    self.start_self_update(url)
                } else if no {
                    self.mode = Mode::Idle;
                    Action::Stay
                } else {
                    Action::Stay
                }
            },
        }
    }
}

} // verus!
