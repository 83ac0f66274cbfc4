//! Properties that hold of the library as a whole, over all inputs.
use vstd::prelude::*;

use crate::git::{line_branch, opt_events, phase_share, piece_event, remote_branches, stream_events};
use crate::jobs::{
    accepts, copy_lines, failure, fetch_args, holds_protected_files, job_step, log, reset_args, restore_lines,
    CommandView, FileResultView, JobKind, JobView, ManifestView, OutcomeView, Stage,
};
use crate::launch::branch_from_file;
use crate::progress::EventView;
use crate::text::{all_digits, decimal, digit_char, digits_value, first_index, is_digit, lemma_first_index_bounds, lemma_first_index_unique, trim};
use crate::tui::{
    apply_event, apply_events, drain, initial_selection, is_yes, log_push, picks_from_empty,
    position_from, press, ActionView, AppView, Key, ModeView, LOG_CAPACITY,
};
use crate::screen::{status_line, status_tone, Tone};
use crate::types::StatusView;
use crate::updater::{lex_less, newer, numeric_parts, version_numbers};

verus! {

// ───────────────────────────── jobs ─────────────────────────────

/// How far along its operation a stage lies.
pub open spec fn stage_rank(s: Stage) -> nat {
    match s {
        Stage::Start => 0,
        Stage::Probe | Stage::ProbeBackup => 1,
        Stage::Init | Stage::CreateDir | Stage::List => 2,
        Stage::Checkout | Stage::Copy => 3,
        Stage::AddRemote => 4,
        Stage::Fetch => 5,
        Stage::Local | Stage::Backup => 6,
        Stage::Remote | Stage::Reset => 7,
        Stage::Clean => 8,
        Stage::Restore => 9,
        Stage::Manifest => 10,
        Stage::Over => 11,
    }
}

/// Every step moves a job forward, so that every operation finishes after
/// at most eleven steps.
pub proof fn law_jobs_always_finish(j: JobView, o: OutcomeView)
    requires
        accepts(j, o),
    ensures
        stage_rank(job_step(j, o).job.stage) > stage_rank(j.stage),
        stage_rank(job_step(j, o).job.stage) <= 11,
{
}

/// A step asks for no further command exactly when it finishes the job; a
/// finishing step ends with the job's one final event (done, an error, or
/// the branch list), and no other event of any step is final.
pub proof fn law_final_event_comes_last(j: JobView, o: OutcomeView)
    requires
        accepts(j, o),
    ensures
        (job_step(j, o).next is None) == (job_step(j, o).job.stage == Stage::Over),
        job_step(j, o).next is None ==> job_step(j, o).events.len() > 0 && job_step(
            j,
            o,
        ).events.last().is_terminal(),
        forall|i: int|
            0 <= i < job_step(j, o).events.len() && !(job_step(j, o).next is None && i
                == job_step(j, o).events.len() - 1) ==> !(#[trigger] job_step(j, o).events[i]).is_terminal(),
{
    let s = job_step(j, o);
    assert forall|i: int|
        0 <= i < s.events.len() && !(s.next is None && i == s.events.len() - 1) implies !(
    #[trigger] s.events[i]).is_terminal() by {
        match failure(o) {
            Some(_) => {},
            None => {
                match (j.kind, j.stage, o) {
                    (JobKind::Update, Stage::Restore, OutcomeView::Restored(files)) => {
                        assert(s.events[i] == restore_lines(files)[i]);
                    },
                    (JobKind::Update, _, OutcomeView::Manifest(Some(m))) => {
                        let ls = manifest_lines_events(m);
                        assert(s.events == ls + seq![EventView::Done]);
                        assert(s.events[i] == ls[i]);
                    },
                    (JobKind::Repair, _, OutcomeView::Copied(Ok(files))) => {
                        let lines = copy_lines(files);
                        if i < lines.len() {
                            assert(s.events[i] == lines[i]);
                        }
                    },
                    _ => {},
                }
            },
        }
    }
}

pub open spec fn manifest_lines_events(m: ManifestView) -> Seq<EventView> {
    crate::manifest::manifest_lines(m.description, m.changelog).map_values(
        |l: Seq<char>| log(l),
    )
}

/// The lines that git writes while a command streams never give a final
/// event: only the job's own steps end it.
pub proof fn law_stream_events_are_never_final(line: Seq<char>)
    ensures
        forall|i: int|
            0 <= i < stream_events(line).len() ==> !(#[trigger] stream_events(line)[i]).is_terminal(),
    decreases line.len(),
{
    let k = first_index(line, '\r');
    lemma_first_index_bounds(line, '\r');
    let head = opt_events(piece_event(line.take(k)));
    if k < line.len() {
        law_stream_events_are_never_final(line.skip(k + 1));
        assert forall|i: int| 0 <= i < stream_events(line).len() implies !(
        #[trigger] stream_events(line)[i]).is_terminal() by {
            if i >= head.len() {
                assert(stream_events(line)[i] == stream_events(line.skip(k + 1))[i - head.len()]);
            }
        }
    }
}

/// A command that fails ends its job, which reports the failure's message
/// as its final event; only an update that holds the protected files writes
/// them back first (see `law_protected_files_survive_failures`).
pub proof fn law_failure_ends_job(j: JobView, o: OutcomeView, e: Seq<char>)
    requires
        accepts(j, o),
        failure(o) == Some(e),
        !holds_protected_files(j),
    ensures
        job_step(j, o).events == seq![EventView::Error(e)],
        job_step(j, o).next is None,
{
}

/// Where the reset or the clean of an update fails, the job writes the
/// protected files back, and then ends with the failure's message after the
/// lines that report each file.
pub proof fn law_protected_files_survive_failures(
    j: JobView,
    o: OutcomeView,
    e: Seq<char>,
    files: Seq<FileResultView>,
)
    requires
        accepts(j, o),
        failure(o) == Some(e),
        holds_protected_files(j),
    ensures
        job_step(j, o).events == Seq::<EventView>::empty(),
        job_step(j, o).next == Some(CommandView::RestoreProtected),
        ({
            let after = job_step(j, o).job;
            let s = job_step(after, OutcomeView::Restored(files));
            &&& s.events == restore_lines(files) + seq![EventView::Error(e)]
            &&& s.next is None
        }),
{
}

/// An update keeps the protected files immediately before it resets the
/// checkout to the remote branch, and from then on it writes them back
/// before it ends, whether the reset and the clean succeed or fail: after
/// the backup comes the reset; after a reset that succeeded the clean, after
/// one that failed the restore; after the clean, whatever its outcome, the
/// restore. So within two steps of the reset the restore is asked for.
pub proof fn law_protected_files_survive_reset(j: JobView, o: OutcomeView, o2: OutcomeView)
    requires
        accepts(j, o),
        j.kind == JobKind::Update,
    ensures
        job_step(j, o).next == Some(CommandView::Git(reset_args(j.branch))) ==> j.stage
            == Stage::Backup && o is Saved,
        j.stage == Stage::Backup ==> job_step(j, o).next == Some(
            CommandView::Git(reset_args(j.branch)),
        ),
        job_step(j, o).next == Some(CommandView::GitStream(seq!["clean"@, "-fd"@])) ==> j.stage
            == Stage::Reset,
        j.stage == Stage::Reset ==> job_step(j, o).next == (if failure(o) is None {
            Some(CommandView::GitStream(seq!["clean"@, "-fd"@]))
        } else {
            Some(CommandView::RestoreProtected)
        }),
        j.stage == Stage::Clean ==> job_step(j, o).next == Some(CommandView::RestoreProtected),
        j.stage == Stage::Reset && failure(o) is None && accepts(job_step(j, o).job, o2)
            ==> job_step(job_step(j, o).job, o2).next == Some(CommandView::RestoreProtected),
{
    let s = job_step(j, o);
    assert(fetch_args().len() != seq!["clean"@, "-fd"@].len());
    if s.next == Some(CommandView::Git(reset_args(j.branch))) {
        if failure(o) is None {
            match j.stage {
                Stage::Init => {
                    assert(seq!["checkout"@, "-B"@, j.branch] != reset_args(j.branch)) by {
                        assert(seq!["checkout"@, "-B"@, j.branch][2] != reset_args(j.branch)[2])
                            by {
                            reveal_strlit("origin/");
                            assert(reset_args(j.branch)[2].len() == 7 + j.branch.len());
                        }
                    }
                },
                Stage::Probe => {
                    assert(seq!["init"@].len() != reset_args(j.branch).len());
                },
                Stage::Checkout => {
                    assert(seq!["remote"@, "add"@, "origin"@, j.remote].len() != reset_args(
                        j.branch,
                    ).len());
                },
                _ => {},
            }
        }
    }
}

/// A check reports "up to date" exactly when the local `HEAD` and the
/// remote branch's commit, as git prints them and trimmed, agree.
pub proof fn law_check_compares_commits(j: JobView, head: Seq<char>, remote: Seq<char>)
    requires
        j.kind == JobKind::CheckUpdate,
        j.stage == Stage::Local,
    ensures
        ({
            let after_local = job_step(j, OutcomeView::Output(Ok(head))).job;
            let s = job_step(after_local, OutcomeView::Output(Ok(remote)));
            s.events == seq![
                EventView::StatusResult(
                    if trim(head) == trim(remote) {
                        StatusView::UpToDate { hash: trim(head) }
                    } else {
                        StatusView::Available { local: trim(head), remote: trim(remote) }
                    },
                ),
                EventView::Done,
            ]
        }),
{
}

/// A branch listing never reports an empty list of branches; it reports an
/// error instead.
pub proof fn law_branch_lists_are_never_empty(j: JobView, o: OutcomeView)
    requires
        accepts(j, o),
    ensures
        forall|i: int|
            0 <= i < job_step(j, o).events.len() ==> ((#[trigger] job_step(j, o).events[i])
                matches EventView::BranchList(bs) ==> bs.len() > 0),
{
    let s = job_step(j, o);
    assert forall|i: int| 0 <= i < s.events.len() implies ((#[trigger] s.events[i])
        matches EventView::BranchList(bs) ==> bs.len() > 0) by {
        match failure(o) {
            Some(_) => {},
            None => {
                match (j.kind, j.stage, o) {
                    (JobKind::Update, Stage::Restore, OutcomeView::Restored(files)) => {
                        if i < restore_lines(files).len() {
                            assert(s.events[i] == restore_lines(files)[i]);
                        }
                    },
                    (JobKind::Update, _, OutcomeView::Manifest(Some(m))) => {
                        let ls = manifest_lines_events(m);
                        assert(s.events == ls + seq![EventView::Done]);
                        if i < ls.len() {
                            assert(s.events[i] == ls[i]);
                        }
                    },
                    (JobKind::Repair, _, OutcomeView::Copied(Ok(files))) => {
                        let lines = copy_lines(files);
                        if i < lines.len() {
                            assert(s.events[i] == lines[i]);
                        }
                    },
                    _ => {},
                }
            },
        }
    }
}

// ───────────────────────────── interface ─────────────────────────────

/// Esc while an operation that the user started runs does not quit: it
/// asks first, and changes nothing else.
pub proof fn law_esc_asks_before_quitting(a: AppView)
    requires
        a.mode == (ModeView::Running { is_user_op: true }),
        !a.confirm_quit,
    ensures
        press(a, Key::Esc) == (AppView { confirm_quit: true, ..a }, ActionView::Stay),
{
}

/// While the quit question is shown, y, Y or Enter quits, and any other key
/// withdraws the question and changes nothing else.
pub proof fn law_quit_question(a: AppView, k: Key)
    requires
        a.confirm_quit,
    ensures
        is_yes(k) ==> press(a, k) == (a, ActionView::Quit),
        !is_yes(k) ==> press(a, k) == (AppView { confirm_quit: false, ..a }, ActionView::Stay),
{
}

/// Picking a branch makes it the followed branch and asks for it to be
/// saved and checked at once.
pub proof fn law_picked_branch_is_followed(a: AppView, branches: Seq<Seq<char>>, sel: nat)
    requires
        !a.confirm_quit,
        a.mode == (ModeView::SelectBranch { branches, sel }),
        sel < branches.len(),
    ensures
        press(a, Key::Enter).0.branch == branches[sel as int],
        press(a, Key::Enter).0.mode == (ModeView::Running { is_user_op: false }),
        press(a, Key::Enter).1 == ActionView::SwitchBranch(branches[sel as int]),
{
}

proof fn lemma_position_from(bs: Seq<Seq<char>>, b: Seq<char>, k: int)
    requires
        0 <= k <= bs.len(),
    ensures
        k <= position_from(bs, b, k) <= bs.len(),
        position_from(bs, b, k) < bs.len() ==> bs[position_from(bs, b, k)] == b,
        forall|i: int| k <= i < position_from(bs, b, k) ==> bs[i] != b,
    decreases bs.len() - k,
{
    if k < bs.len() && bs[k] != b {
        lemma_position_from(bs, b, k + 1);
    }
}

/// The branch picker opens on the followed branch where the remote has it,
/// else on the first branch.
pub proof fn law_picker_opens_on_current_branch(bs: Seq<Seq<char>>, current: Seq<char>)
    ensures
        bs.contains(current) ==> bs[initial_selection(bs, current) as int] == current,
        !bs.contains(current) ==> initial_selection(bs, current) == 0,
        bs.len() > 0 ==> initial_selection(bs, current) < bs.len(),
{
    lemma_position_from(bs, current, 0);
    if bs.contains(current) {
        let w = choose|i: int| 0 <= i < bs.len() && bs[i] == current;
        assert(position_from(bs, current, 0) <= w);
    }
}

/// The log keeps the newest lines: an appended line becomes the last one,
/// and the log never holds more than `LOG_CAPACITY` lines.
pub proof fn law_log_keeps_newest(log: Seq<Seq<char>>, line: Seq<char>)
    requires
        log.len() <= LOG_CAPACITY,
    ensures
        log_push(log, line).len() == if log.len() < LOG_CAPACITY {
            log.len() + 1
        } else {
            LOG_CAPACITY as nat
        },
        log_push(log, line).last() == line,
        log_push(log, line).drop_last() == (if log.len() < LOG_CAPACITY {
            log
        } else {
            log.skip(1)
        }),
{
    let l = log.push(line);
    if l.len() > LOG_CAPACITY {
        assert(l.skip(1).drop_last() =~= log.skip(1));
    } else {
        assert(l.drop_last() =~= log);
    }
}

proof fn lemma_event_keeps_wf(a: AppView, e: EventView)
    requires
        a.wf(),
    ensures
        !apply_event(a, e).1 ==> apply_event(a, e).0.wf(),
{
    match e {
        EventView::BranchList(bs) => {
            law_picker_opens_on_current_branch(bs, a.branch);
        },
        EventView::Log(m) => {
            law_log_keeps_newest(a.log, m);
        },
        EventView::Error(m) => {
            law_log_keeps_newest(a.log, "Error: "@ + m);
        },
        _ => {},
    }
}

proof fn lemma_events_keep_wf(a: AppView, es: Seq<EventView>)
    requires
        a.wf(),
    ensures
        !apply_events(a, es).1 ==> apply_events(a, es).0.wf(),
    decreases es.len(),
{
    if es.len() > 0 {
        lemma_event_keeps_wf(a, es[0]);
        let (b, restart) = apply_event(a, es[0]);
        if !restart {
            lemma_events_keep_wf(b, es.drop_first());
        }
    }
}

/// The interface's invariant (`AppView::wf`) holds after every key press it
/// can take and every batch of events that does not restart the program.
pub proof fn law_invariant_is_kept(a: AppView, k: Key, es: Seq<EventView>)
    requires
        a.wf(),
    ensures
        !picks_from_empty(a, k) ==> press(a, k).0.wf(),
        !drain(a, es).1 ==> drain(a, es).0.wf(),
{
    lemma_events_keep_wf(a, es);
}

/// A release offer never waits while the interface is idle: after a batch
/// of events, either the interface is busy or no offer is pending.
pub proof fn law_offer_shown_once_idle(a: AppView, es: Seq<EventView>)
    ensures
        !drain(a, es).1 ==> !(drain(a, es).0.mode == ModeView::Idle && drain(
            a,
            es,
        ).0.pending_self_update is Some),
{
}

/// An operation that the user started ends in its result popup (success on
/// its final done, failure on an error, which leaves the status alone); a
/// background operation that fails sets the status to its error instead.
pub proof fn law_operation_outcomes(a: AppView, m: Seq<char>)
    requires
        !a.self_update_in_progress,
    ensures
        a.mode == (ModeView::Running { is_user_op: true }) ==> apply_event(a, EventView::Done).0.mode
            == ModeView::Done(true),
        a.mode == (ModeView::Running { is_user_op: true }) ==> apply_event(
            a,
            EventView::Error(m),
        ).0.mode == ModeView::Done(false) && apply_event(a, EventView::Error(m)).0.status
            == a.status,
        a.mode != (ModeView::Running { is_user_op: true }) ==> apply_event(
            a,
            EventView::Error(m),
        ).0.status == StatusView::Error(m) && apply_event(a, EventView::Error(m)).0.mode
            == ModeView::Idle,
{
}

/// The menu has three entries: in the idle menu Up and Down move the
/// highlight within them; no other key press moves it.
pub proof fn law_menu_highlight(a: AppView, k: Key)
    requires
        a.menu_sel <= 2,
    ensures
        press(a, k).0.menu_sel <= 2,
        !a.confirm_quit && a.mode == ModeView::Idle && k == Key::Up ==> press(a, k).0.menu_sel == (
        if a.menu_sel > 0 {
            (a.menu_sel - 1) as nat
        } else {
            0
        }),
        !a.confirm_quit && a.mode == ModeView::Idle && k == Key::Down ==> press(a, k).0.menu_sel == (
        if a.menu_sel < 2 {
            a.menu_sel + 1
        } else {
            2
        }),
        !(!a.confirm_quit && a.mode == ModeView::Idle && (k == Key::Up || k == Key::Down)) ==> press(
            a,
            k,
        ).0.menu_sel == a.menu_sel,
{
}

/// The program restarts into a new release only once that release is in
/// place: on the final "done" of its installation, and on nothing else.
pub proof fn law_restart_only_after_installation(a: AppView, e: EventView)
    ensures
        apply_event(a, e).1 == (e is Done && a.self_update_in_progress),
{
}

/// Every phase fills a part of the progress bar that lies within it.
pub proof fn law_phase_shares_fit_the_bar(p: Seq<char>)
    ensures
        phase_share(p).0 <= phase_share(p).1 <= 100,
{
}

// ───────────────────────────── status ─────────────────────────────

/// The info row shows the status's one-line text behind a `◆`, except for a
/// failed check, which it shows as `Error: ` and the message; its colour is
/// green, yellow, light blue or red for up to date, update available, not
/// installed and failed.
pub proof fn law_status_line_is_the_status_text(s: StatusView)
    ensures
        !(s is Error) ==> status_line(s) == "\u{25c6} "@ + s.text(),
        s matches StatusView::Error(e) ==> status_line(s) == "\u{25c6} "@ + ("Error: "@ + e)
            && s.text() == "Check failed: "@ + e,
        status_tone(s) == match s {
            StatusView::UpToDate { .. } => Tone::Green,
            StatusView::Available { .. } => Tone::Yellow,
            StatusView::NotInitialized => Tone::LightBlue,
            StatusView::Error(_) => Tone::Red,
        },
{
}

// ───────────────────────────── saved branch ─────────────────────────────

/// A picked branch survives a restart: the branch file holds the branch's
/// name, and reading it back gives that branch, for every non-empty name
/// without leading or trailing white space.
pub proof fn law_saved_branch_is_read_back(branch: Seq<char>, default_branch: Seq<char>)
    requires
        branch.len() > 0,
        trim(branch) == branch,
    ensures
        branch_from_file(Some(branch), default_branch) == branch,
{
}

// ───────────────────────────── versions ─────────────────────────────

proof fn lemma_lex_less_strict(a: Seq<u32>, b: Seq<u32>)
    ensures
        !lex_less(a, a),
        lex_less(a, b) ==> !lex_less(b, a),
    decreases a.len(),
{
    if a.len() > 0 && b.len() > 0 {
        lemma_lex_less_strict(a.drop_first(), b.drop_first());
    }
    if a.len() > 0 {
        lemma_lex_less_strict(a.drop_first(), a.drop_first());
    }
}

proof fn lemma_lex_less_transitive(a: Seq<u32>, b: Seq<u32>, c: Seq<u32>)
    requires
        lex_less(a, b),
        lex_less(b, c),
    ensures
        lex_less(a, c),
    decreases a.len(),
{
    if a.len() > 0 && b.len() > 0 && c.len() > 0 && a[0] == b[0] && b[0] == c[0] {
        lemma_lex_less_transitive(a.drop_first(), b.drop_first(), c.drop_first());
    }
}

/// A leading `v` does not change a version: `v1.2` is `1.2`.
pub proof fn law_leading_v_is_ignored(s: Seq<char>)
    ensures
        version_numbers(seq!['v'] + s) == version_numbers(s),
{
    assert((seq!['v'] + s).drop_first() =~= s);
}

/// "Newer" is a strict order on versions: no version is newer than itself,
/// of two versions at most one is newer than the other, and a version newer
/// than a newer one is newer still.
pub proof fn law_newer_is_a_strict_order(a: Seq<char>, b: Seq<char>, c: Seq<char>)
    ensures
        !newer(a, a),
        newer(a, b) ==> !newer(b, a),
        newer(a, b) && newer(b, c) ==> newer(a, c),
{
    lemma_lex_less_strict(version_numbers(a), version_numbers(b));
    if newer(a, b) && newer(b, c) {
        lemma_lex_less_transitive(version_numbers(c), version_numbers(b), version_numbers(a));
    }
}


proof fn lemma_lex_less_first_difference(a: Seq<u32>, b: Seq<u32>, i: int)
    requires
        0 <= i < a.len(),
        i < b.len(),
        forall|j: int| 0 <= j < i ==> a[j] == b[j],
        a[i] != b[i],
    ensures
        lex_less(a, b) == (a[i] < b[i]),
    decreases i,
{
    if i > 0 {
        assert(a[0] == b[0]);
        assert forall|j: int| 0 <= j < i - 1 implies a.drop_first()[j] == b.drop_first()[j] by {
            assert(a[j + 1] == b[j + 1]);
        }
        lemma_lex_less_first_difference(a.drop_first(), b.drop_first(), i - 1);
    }
}

proof fn lemma_lex_less_prefix(a: Seq<u32>, b: Seq<u32>)
    requires
        a.len() <= b.len(),
        forall|j: int| 0 <= j < a.len() ==> a[j] == b[j],
    ensures
        lex_less(a, b) == (a.len() < b.len()),
    decreases a.len(),
{
    if a.len() > 0 {
        assert(a[0] == b[0]);
        assert forall|j: int| 0 <= j < a.len() - 1 implies a.drop_first()[j] == b.drop_first()[j] by {
            assert(a[j + 1] == b[j + 1]);
        }
        lemma_lex_less_prefix(a.drop_first(), b.drop_first());
    }
}

/// A release is newer than the running version exactly as their numbers
/// compare part by part: at the first part where they differ, the larger
/// part is the newer version, whatever the lengths (so `2.0` is newer than
/// `1.9.9`, and `1.5.0` than `1.4.2.1`); where the numbers of one version
/// begin those of the other, the longer is newer, and equal numbers are
/// never newer.
pub proof fn law_newer_compares_part_by_part(latest: Seq<char>, current: Seq<char>, i: int)
    ensures
        ({
            let l = version_numbers(latest);
            let c = version_numbers(current);
            (0 <= i < l.len() && i < c.len() && (forall|j: int| 0 <= j < i ==> l[j] == c[j])
                && l[i] != c[i]) ==> (newer(latest, current) <==> l[i] > c[i])
        }),
        ({
            let l = version_numbers(latest);
            let c = version_numbers(current);
            (c.len() <= l.len() && (forall|j: int| 0 <= j < c.len() ==> l[j] == c[j])) ==> (newer(
                latest,
                current,
            ) <==> c.len() < l.len())
        }),
        ({
            let l = version_numbers(latest);
            let c = version_numbers(current);
            (l.len() <= c.len() && (forall|j: int| 0 <= j < l.len() ==> l[j] == c[j])) ==> !newer(
                latest,
                current,
            )
        }),
{
    let l = version_numbers(latest);
    let c = version_numbers(current);
    if 0 <= i < l.len() && i < c.len() && (forall|j: int| 0 <= j < i ==> l[j] == c[j]) && l[i]
        != c[i] {
        lemma_lex_less_first_difference(c, l, i);
    }
    if c.len() <= l.len() && (forall|j: int| 0 <= j < c.len() ==> l[j] == c[j]) {
        lemma_lex_less_prefix(c, l);
    }
    if l.len() <= c.len() && (forall|j: int| 0 <= j < l.len() ==> l[j] == c[j]) {
        lemma_lex_less_prefix(l, c);
        lemma_lex_less_strict(l, c);
        if l.len() == c.len() {
            assert(l =~= c);
        }
    }
}

/// The release offer takes its own keys: `n`, `N` or Esc skips it and goes
/// back to the menu, changing nothing else; `y`, `Y` or Enter starts the
/// self-update from the offered address; any other key leaves it open.
pub proof fn law_release_offer_keys(a: AppView, k: Key)
    requires
        !a.confirm_quit,
        a.mode is SelfUpdatePrompt,
    ensures
        (k == Key::Char('n') || k == Key::Char('N') || k == Key::Esc) ==> press(a, k) == (
        AppView { mode: ModeView::Idle, ..a }, ActionView::Stay),
        (k == Key::Char('y') || k == Key::Char('Y') || k == Key::Enter) ==> press(a, k).1
            == ActionView::SelfUpdate(a.mode->url) && press(a, k).0.mode == (ModeView::Running {
            is_user_op: true,
        }),
        !(k == Key::Char('n') || k == Key::Char('N') || k == Key::Esc || k == Key::Char('y') || k
            == Key::Char('Y') || k == Key::Enter) ==> press(a, k) == (a, ActionView::Stay),
{
}

/// A waiting release offer is shown only from the idle menu: where a batch
/// of events leaves the interface anything but idle (a finished user
/// operation's result popup among them), taking the batch changes nothing
/// more than its events do; where it leaves it idle with an offer waiting,
/// the offer is shown.
pub proof fn law_offer_waits_for_idle(a: AppView, es: Seq<EventView>)
    ensures
        drain(a, es).1 == apply_events(a, es).1,
        apply_events(a, es).0.mode != ModeView::Idle ==> drain(a, es).0 == apply_events(a, es).0,
        (!apply_events(a, es).1 && apply_events(a, es).0.mode == ModeView::Idle) ==> (apply_events(
            a,
            es,
        ).0.pending_self_update matches Some((v, u)) ==> drain(a, es).0.mode == (
        ModeView::SelfUpdatePrompt { version: v, url: u })),
{
}

/// Before an update resets the checkout, it reports how many config files it
/// keeps, where it keeps any, and then that it applies the files.
pub proof fn law_backup_is_reported(j: JobView, n: nat)
    requires
        j.kind == JobKind::Update,
        j.stage == Stage::Backup,
    ensures
        n > 0 ==> job_step(j, OutcomeView::Saved(n)).events == seq![
            log("Protecting "@ + decimal(n) + " config file(s)..."@),
            log("Applying files..."@),
        ],
        n == 0 ==> job_step(j, OutcomeView::Saved(n)).events == seq![log("Applying files..."@)],
{
    assert(seq![log("Applying files..."@)] =~= Seq::<EventView>::empty() + seq![
        log("Applying files..."@),
    ]);
}

/// A line of `git ls-remote --heads` names the branch that follows its tab
/// and `refs/heads/`, whatever characters the name holds (but a tab, a line
/// break, or a final `\r`); so a listing holds every such branch, in order.
pub proof fn law_every_head_is_listed(h: Seq<char>, b: Seq<char>, rest: Seq<char>)
    requires
        forall|k: int| 0 <= k < h.len() ==> h[k] != '\t' && h[k] != '\n',
        forall|k: int| 0 <= k < b.len() ==> b[k] != '\t' && b[k] != '\n',
        b.len() == 0 || b.last() != '\r',
    ensures
        line_branch(h + "\t"@ + "refs/heads/"@ + b) == Some(b),
        remote_branches(h + "\t"@ + "refs/heads/"@ + b) == seq![b],
        remote_branches(h + "\t"@ + "refs/heads/"@ + b + "\n"@ + rest) == seq![b]
            + remote_branches(rest),
{
    reveal_strlit("\t");
    reveal_strlit("\n");
    reveal_strlit("refs/heads/");
    let p = "refs/heads/"@;
    let l = h + "\t"@ + p + b;
    assert(p.len() == 11);
    assert forall|k: int| 0 <= k < l.len() implies l[k] != '\n' by {
        if k < h.len() {
            assert(l[k] == h[k]);
        } else if k > h.len() + 11 {
            assert(l[k] == b[k - h.len() - 12]);
        }
    }
    assert forall|k: int| 0 <= k < h.len() implies l[k] != '\t' by {
        assert(l[k] == h[k]);
    }
    lemma_first_index_unique(l, '\t', h.len() as int);
    let r = l.skip(h.len() + 1int);
    assert(r =~= p + b);
    assert forall|k: int| 0 <= k < r.len() implies r[k] != '\t' by {
        if k >= 11 {
            assert(r[k] == b[k - 11]);
        }
    }
    lemma_first_index_unique(r, '\t', r.len() as int);
    assert(r.take(r.len() as int) =~= r);
    assert(r.take(11) =~= p);
    assert(r.skip(11) =~= b);
    lemma_first_index_unique(l, '\n', l.len() as int);
    let s = l + "\n"@ + rest;
    assert forall|k: int| 0 <= k < l.len() implies s[k] != '\n' by {
        assert(s[k] == l[k]);
    }
    lemma_first_index_unique(s, '\n', l.len() as int);
    assert(s.take(l.len() as int) =~= l);
    assert(s.skip(l.len() + 1int) =~= rest);
    assert(l.len() > 0 && l.last() != '\r') by {
        if b.len() > 0 {
            assert(l.last() == b.last());
        } else {
            assert(l.last() == p[10]);
        }
    }
}


proof fn lemma_digit_char(d: nat)
    requires
        d < 10,
    ensures
        is_digit(digit_char(d)),
        digit_char(d) as nat - '0' as nat == d,
{
}

proof fn lemma_decimal_digits(n: nat)
    ensures
        decimal(n).len() > 0,
        all_digits(decimal(n)),
        digits_value(decimal(n)) == n,
    decreases n,
{
    if n < 10 {
        lemma_digit_char(n);
        assert(decimal(n).drop_last() =~= Seq::<char>::empty());
        assert(digits_value(decimal(n)) == digits_value(Seq::<char>::empty()) * 10 + n);
    } else {
        lemma_decimal_digits(n / 10);
        lemma_digit_char(n % 10);
        let d = decimal(n / 10);
        assert(decimal(n).drop_last() =~= d);
        assert(decimal(n).last() == digit_char(n % 10));
        assert(digits_value(decimal(n)) == digits_value(d) * 10 + (n % 10));
        assert((n / 10) * 10 + n % 10 == n);
        assert forall|i: int| 0 <= i < decimal(n).len() implies is_digit(#[trigger] decimal(n)[i]) by {
            if i < d.len() {
                assert(decimal(n)[i] == d[i]);
            }
        }
    }
}

/// A version's dot-separated parts are read one by one: what a version
/// yields is what its first part yields followed by what the rest yields.
pub proof fn law_version_parts_are_read_in_order(p: Seq<char>, rest: Seq<char>)
    requires
        forall|k: int| 0 <= k < p.len() ==> p[k] != '.',
    ensures
        numeric_parts(p + "."@ + rest) == numeric_parts(p) + numeric_parts(rest),
{
    reveal_strlit(".");
    let s = p + "."@ + rest;
    assert forall|k: int| 0 <= k < p.len() implies s[k] != '.' by {
        assert(s[k] == p[k]);
    }
    lemma_first_index_unique(s, '.', p.len() as int);
    lemma_first_index_unique(p, '.', p.len() as int);
    assert(s.take(p.len() as int) =~= p);
    assert(p.take(p.len() as int) =~= p);
    assert(s.skip(p.len() + 1int) =~= rest);
}

/// A part written as a number, as `{}` writes it, is read back as that
/// number, wherever it fits in a `u32`.
pub proof fn law_version_part_reads_its_number(n: nat)
    requires
        n <= u32::MAX,
    ensures
        numeric_parts(decimal(n)) == seq![n as u32],
{
    lemma_decimal_digits(n);
    let d = decimal(n);
    assert(d[0] != '+') by {
        assert(is_digit(d[0]));
    }
    assert forall|k: int| 0 <= k < d.len() implies d[k] != '.' by {
        assert(is_digit(d[k]));
    }
    lemma_first_index_unique(d, '.', d.len() as int);
    assert(d.take(d.len() as int) =~= d);
}

} // verus!
