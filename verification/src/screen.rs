//! What the interface shows: texts, highlights and colours, decided from the
//! state; the program around the library draws them.
use vstd::prelude::*;

use crate::text::{chars_of, push_char, push_str, starts_with, starts_with_at};
use crate::tui::{Mode, ModeView};
use crate::types::{short, short_id, StatusView, UpdateStatus};

verus! {

broadcast use vstd::string::group_string_axioms;

/// The colours of the interface.
#[derive(Clone, Copy, PartialEq, Eq, Structural, Debug)]
pub enum Tone {
    Green,
    Yellow,
    LightBlue,
    Red,
    Dim,
    White,
    Pink,
}

// ───────────────────────────── status line ─────────────────────────────

pub open spec fn status_tone(s: StatusView) -> Tone {
    match s {
        StatusView::UpToDate { .. } => Tone::Green,
        StatusView::Available { .. } => Tone::Yellow,
        StatusView::NotInitialized => Tone::LightBlue,
        StatusView::Error(_) => Tone::Red,
    }
}

/// The status as the info row shows it.
pub open spec fn status_line(s: StatusView) -> Seq<char> {
    "\u{25c6} "@ + match s {
        StatusView::UpToDate { hash } => "Up to date ("@ + short_id(hash) + ")"@,
        StatusView::Available { local, remote } => "Update available  "@ + short_id(local)
            + " \u{2192} "@ + short_id(remote),
        StatusView::NotInitialized => "Not installed \u{2014} UPDATE to install"@,
        StatusView::Error(e) => "Error: "@ + e,
    }
}

/// The colour and the text of the status in the info row.
pub fn status_display(status: &UpdateStatus) -> (r: (Tone, String))
    requires
        status@.displayable(),
    ensures
        r.0 == status_tone(status@),
        r.1@ == status_line(status@),
{
    let mut t = "\u{25c6} ".to_string();
    match status {
        UpdateStatus::UpToDate { hash } => {
            push_str(&mut t, "Up to date (");
            push_str(&mut t, short(hash.as_str()));
            push_str(&mut t, ")");
            (Tone::Green, t)
        },
        UpdateStatus::Available { local, remote } => {
            push_str(&mut t, "Update available  ");
            push_str(&mut t, short(local.as_str()));
            push_str(&mut t, " \u{2192} ");
            push_str(&mut t, short(remote.as_str()));
            (Tone::Yellow, t)
        },
        UpdateStatus::NotInitialized => {
            push_str(&mut t, "Not installed \u{2014} UPDATE to install");
            (Tone::LightBlue, t)
        },
        UpdateStatus::Error(e) => {
            push_str(&mut t, "Error: ");
            push_str(&mut t, e.as_str());
            (Tone::Red, t)
        },
    }
}

// ───────────────────────────── menu and branch picker ─────────────────────────────

pub open spec fn menu_entries() -> Seq<Seq<char>> {
    seq!["UPDATE"@, "REPAIR"@, "BRANCH"@]
}

/// A row of a list: the highlighted row is marked with `>`.
pub open spec fn row_label(text: Seq<char>, selected: bool) -> Seq<char> {
    (if selected {
        "  > "@
    } else {
        "    "@
    }) + text
}

/// The main menu's rows and which is highlighted: the entry `menu_sel`,
/// while the menu takes keys (`active`).
pub open spec fn menu_view(menu_sel: nat, active: bool) -> Seq<(Seq<char>, bool)> {
    Seq::new(
        3,
        |i: int| (row_label(menu_entries()[i], active && i == menu_sel), active && i == menu_sel),
    )
}

fn menu_entry(i: usize) -> (r: &'static str)
    requires
        i < 3,
    ensures
        r@ == menu_entries()[i as int],
{
    if i == 0 {
        "UPDATE"
    } else if i == 1 {
        "REPAIR"
    } else {
        "BRANCH"
    }
}

fn label(text: &str, selected: bool) -> (r: String)
    ensures
        r@ == row_label(text@, selected),
{
    let mut l = if selected {
        "  > ".to_string()
    } else {
        "    ".to_string()
    };
    push_str(&mut l, text);
    l
}

/// The main menu's rows (see `menu_view`).
pub fn menu_rows(menu_sel: usize, active: bool) -> (r: Vec<(String, bool)>)
    ensures
        r@.map_values(|x: (String, bool)| (x.0@, x.1)) == menu_view(menu_sel as nat, active),
{
    let mut r: Vec<(String, bool)> = Vec::new();
    let mut i: usize = 0;
    while i < 3
        invariant
            i <= 3,
            r@.len() == i,
            forall|k: int|
                0 <= k < i ==> (#[trigger] r@[k]).0@ == menu_view(menu_sel as nat, active)[k].0
                    && r@[k].1 == menu_view(menu_sel as nat, active)[k].1,
        decreases 3 - i,
    {
        let selected = active && i == menu_sel;
        r.push((label(menu_entry(i), selected), selected));
        i += 1;
    }
    assert(r@.map_values(|x: (String, bool)| (x.0@, x.1)) =~= menu_view(menu_sel as nat, active));
    r
}

/// One row of the branch picker.
#[derive(Debug, Clone, PartialEq)]
pub struct BranchRow {
    pub label: String,
    /// The highlighted branch.
    pub selected: bool,
    /// The branch that is followed now.
    pub current: bool,
}

/// The first branch that the picker's three rows show: it scrolls so that
/// the highlighted branch is the third row once it is past the second.
pub open spec fn picker_scroll(sel: nat) -> nat {
    if sel >= 2 {
        (sel - 2) as nat
    } else {
        0
    }
}

/// The number of rows the picker shows.
pub open spec fn picker_count(n: nat, sel: nat) -> nat {
    let s = picker_scroll(sel);
    if s >= n {
        0
    } else if n - s < 3 {
        (n - s) as nat
    } else {
        3
    }
}

/// The picker's rows: label, highlighted, current.
pub open spec fn picker_view(branches: Seq<Seq<char>>, sel: nat, current: Seq<char>) -> Seq<
    (Seq<char>, bool, bool),
> {
    Seq::new(
        picker_count(branches.len(), sel),
        |i: int|
            {
                let idx = picker_scroll(sel) + i;
                let b = branches[idx];
                (
                    row_label(b, idx == sel) + if b == current {
                        "  (current)"@
                    } else {
                        seq![]
                    },
                    idx == sel,
                    b == current,
                )
            },
    )
}

/// The rows of the branch picker (see `picker_view`).
pub fn branch_rows(branches: &Vec<String>, sel: usize, current: &String) -> (r: Vec<BranchRow>)
    ensures
        r@.map_values(|x: BranchRow| (x.label@, x.selected, x.current)) == picker_view(
            branches.deep_view(),
            sel as nat,
            current@,
        ),
{
    let ghost want = picker_view(branches.deep_view(), sel as nat, current@);
    let scroll = if sel >= 2 {
        sel - 2
    } else {
        0
    };
    let mut r: Vec<BranchRow> = Vec::new();
    let mut i: usize = 0;
    while i < 3 && scroll + i < branches.len()
        invariant
            i <= 3,
            scroll as nat == picker_scroll(sel as nat),
            scroll + i <= branches.len() || i == 0,
            r@.len() == i,
            want == picker_view(branches.deep_view(), sel as nat, current@),
            i <= picker_count(branches.deep_view().len(), sel as nat),
            forall|k: int|
                0 <= k < i ==> (#[trigger] r@[k]).label@ == want[k].0 && r@[k].selected
                    == want[k].1 && r@[k].current == want[k].2,
        decreases 3 - i,
    {
        let idx = scroll + i;
        let b = &branches[idx];
        assert(branches.deep_view()[idx as int] == b@);
        let is_cur = *b == *current;
        let mut l = label(b.as_str(), idx == sel);
        if is_cur {
            push_str(&mut l, "  (current)");
        } else {
            assert(l@ + seq![] =~= l@);
        }
        r.push(BranchRow { label: l, selected: idx == sel, current: is_cur });
        i += 1;
    }
    assert(r@.map_values(|x: BranchRow| (x.label@, x.selected, x.current)) =~= want);
    r
}

// ───────────────────────────── hints, log, popup ─────────────────────────────

/// The key hint at the bottom of the main view.
pub open spec fn hint_text(mode: ModeView, dimmed: bool) -> Seq<char> {
    if mode is SelfUpdatePrompt {
        seq![]
    } else if dimmed {
        "  (operation in progress)"@
    } else {
        match mode {
            ModeView::Idle => "  \u{2191}\u{2193} Navigate   Enter Select   Esc Quit"@,
            ModeView::Running { is_user_op: false } => "  Esc to quit"@,
            ModeView::SelectBranch { .. } => "  \u{2191}\u{2193} Navigate   Enter Select   Esc Cancel"@,
            _ => seq![],
        }
    }
}

/// The key hint at the bottom of the main view (see `hint_text`).
pub fn hint(mode: &Mode, dimmed: bool) -> (r: String)
    ensures
        r@ == hint_text(mode@, dimmed),
{
    match mode {
        Mode::SelfUpdatePrompt { .. } => String::new(),
        _ => {
            if dimmed {
                "  (operation in progress)".to_string()
            } else {
                match mode {
                    Mode::Idle => "  \u{2191}\u{2193} Navigate   Enter Select   Esc Quit".to_string(),
                    Mode::Running { is_user_op: false } => "  Esc to quit".to_string(),
                    Mode::SelectBranch { .. } => "  \u{2191}\u{2193} Navigate   Enter Select   Esc Cancel".to_string(),
                    _ => String::new(),
                }
            }
        },
    }
}

/// The colour of a log line: failures red, kept or restored files green,
/// everything else dim.
pub open spec fn log_tone(line: Seq<char>) -> Tone {
    if starts_with(line, "Error"@) || starts_with(line, "!"@) {
        Tone::Red
    } else if starts_with(line, "Protected"@) || starts_with(line, "Restored"@) {
        Tone::Green
    } else {
        Tone::Dim
    }
}

/// The colour of a log line (see `log_tone`).
pub fn log_line_tone(line: &str) -> (t: Tone)
    ensures
        t == log_tone(line@),
{
    let v = chars_of(line);
    let n = v.len();
    assert(v@.subrange(0, n as int) =~= v@);
    if starts_with_at(&v, 0, n, &chars_of("Error")) || starts_with_at(&v, 0, n, &chars_of("!")) {
        Tone::Red
    } else if starts_with_at(&v, 0, n, &chars_of("Protected")) || starts_with_at(
        &v,
        0,
        n,
        &chars_of("Restored"),
    ) {
        Tone::Green
    } else {
        Tone::Dim
    }
}

/// Which overlays the mode shows: the operation popup (a user operation
/// running or finished) and the release offer.
pub open spec fn overlays(mode: ModeView) -> (bool, bool) {
    (mode matches ModeView::Running { is_user_op: true } || mode is Done, mode is SelfUpdatePrompt)
}

/// Which overlays the mode shows (see `overlays`); the main view is dimmed
/// under either.
pub fn overlays_of(mode: &Mode) -> (r: (bool, bool))
    ensures
        r == overlays(mode@),
{
    match mode {
        Mode::Running { is_user_op: true } | Mode::Done(_) => (true, false),
        Mode::SelfUpdatePrompt { .. } => (false, true),
        _ => (false, false),
    }
}

/// The accent colour of the operation popup: green or red once the
/// operation has succeeded or failed, pink while it runs.
pub open spec fn popup_tone(mode: ModeView) -> Tone {
    match mode {
        ModeView::Done(true) => Tone::Green,
        ModeView::Done(false) => Tone::Red,
        _ => Tone::Pink,
    }
}

/// The accent colour of the operation popup (see `popup_tone`).
pub fn popup_accent(mode: &Mode) -> (t: Tone)
    ensures
        t == popup_tone(mode@),
{
    match mode {
        Mode::Done(true) => Tone::Green,
        Mode::Done(false) => Tone::Red,
        _ => Tone::Pink,
    }
}

/// The frame of a spinner with `frames` pictures: it turns every third tick.
pub fn spinner_frame(tick: u64, frames: usize) -> (i: usize)
    requires
        frames > 0,
    ensures
        i == ((tick / 3) as usize) % frames,
        i < frames,
{
    ((tick / 3) as usize) % frames
}

/// The pictures of the spinner on the main view's checking line.
pub open spec fn checking_spinner() -> Seq<char> {
    seq!['|', '/', '-', '\\']
}

/// The main view's line while the background check runs, at tick `tick`:
/// the spinner's picture of that tick (see `spinner_frame`) and "Checking...".
pub open spec fn checking_text(tick: u64) -> Seq<char> {
    "  "@ + seq![checking_spinner()[(((tick / 3) as usize) % 4) as int]] + " Checking..."@
}

/// The main view's line while the background check runs (see `checking_text`).
pub fn checking_line(tick: u64) -> (r: String)
    ensures
        r@ == checking_text(tick),
{
    let i = spinner_frame(tick, 4);
    let c = if i == 0 {
        '|'
    } else if i == 1 {
        '/'
    } else if i == 2 {
        '-'
    } else {
        '\\'
    };
    let mut l = String::new();
    push_str(&mut l, "  ");
    push_char(&mut l, c);
    push_str(&mut l, " Checking...");
    l
}

/// What the main view shows under its status, outside the branch picker.
pub enum MenuArea {
    /// The background check runs: the checking line instead of the menu.
    Checking(String),
    /// The menu's rows (see `menu_rows`).
    Menu(Vec<(String, bool)>),
}

/// Whether the mode is the background check, which hides the menu.
pub open spec fn background_check(mode: ModeView) -> bool {
    mode == (ModeView::Running { is_user_op: false })
}

/// Whether the menu takes keys, so that its selected entry is highlighted:
/// in the idle mode, with no popup over the main view.
pub open spec fn menu_active(mode: ModeView, dimmed: bool) -> bool {
    mode is Idle && !dimmed
}

/// What the main view shows under its status in mode `mode`, at tick `tick`,
/// with `menu_sel` the selected entry and `dimmed` where a popup covers the
/// view: the checking line during the background check, else the menu,
/// highlighted only where it takes keys.
pub fn menu_area(mode: &Mode, dimmed: bool, menu_sel: usize, tick: u64) -> (r: MenuArea)
    ensures
        match r {
            MenuArea::Checking(l) => background_check(mode@) && l@ == checking_text(tick),
            MenuArea::Menu(rows) => !background_check(mode@) && rows@.map_values(
                |x: (String, bool)| (x.0@, x.1),
            ) == menu_view(menu_sel as nat, menu_active(mode@, dimmed)),
        },
{
    match mode {
        Mode::Running { is_user_op: false } => MenuArea::Checking(checking_line(tick)),
        _ => {
            let active = match mode {
                Mode::Idle => !dimmed,
                _ => false,
            };
            MenuArea::Menu(menu_rows(menu_sel, active))
        },
    }
}

/// Whether the main view's inner area is large enough to draw it; else it
/// shows "Terminal too small".
pub fn fits_main_view(width: u16, height: u16) -> (b: bool)
    ensures
        b == (width >= 30 && height >= 10),
{
    !(height < 10 || width < 30)
}

/// The line under the progress bar once a user operation has finished.
pub fn result_line(success: bool) -> (r: (Tone, &'static str))
    ensures
        success ==> r.0 == Tone::Green && r.1@ == " \u{2713} Completed successfully"@,
        !success ==> r.0 == Tone::Red && r.1@ == " \u{2717} Failed \u{2014} see log below"@,
{
    if success {
        (Tone::Green, " \u{2713} Completed successfully")
    } else {
        (Tone::Red, " \u{2717} Failed \u{2014} see log below")
    }
}

/// The label of the button that dismisses a finished operation.
pub fn continue_label(success: bool) -> (r: &'static str)
    ensures
        success ==> r@ == " \u{2713}  Press Enter to continue "@,
        !success ==> r@ == " \u{2717}  Press Enter to continue "@,
{
    if success {
        " \u{2713}  Press Enter to continue "
    } else {
        " \u{2717}  Press Enter to continue "
    }
}

/// The first log line shown when `visible` lines fit: the newest lines are
/// shown.
pub fn log_window_start(len: usize, visible: usize) -> (r: usize)
    ensures
        r == if len > visible {
            (len - visible) as usize
        } else {
            0
        },
{
    if len > visible {
        len - visible
    } else {
        0
    }
}

/// A box of at most `width` by `height` centred in the area at `(x, y)` of
/// `area_width` by `area_height`: its position and size.
pub fn centered_box(x: u16, y: u16, area_width: u16, area_height: u16, width: u16, height: u16) -> (r: (
    u16,
    u16,
    u16,
    u16,
))
    requires
        x + area_width <= u16::MAX,
        y + area_height <= u16::MAX,
    ensures
        r.2 == if width < area_width {
            width
        } else {
            area_width
        },
        r.3 == if height < area_height {
            height
        } else {
            area_height
        },
        r.0 == x + (area_width - r.2) / 2,
        r.1 == y + (area_height - r.3) / 2,
{
    let w = if width < area_width {
        width
    } else {
        area_width
    };
    let h = if height < area_height {
        height
    } else {
        area_height
    };
    (x + (area_width - w) / 2, y + (area_height - h) / 2, w, h)
}

} // verus!
