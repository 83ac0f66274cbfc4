use spt_modpack_updater::screen::{
    branch_rows, centered_box, continue_label, fits_main_view, hint, log_line_tone,
    log_window_start, result_line, menu_rows, overlays_of, popup_accent, spinner_frame,
    status_display, checking_line, menu_area, BranchRow, MenuArea, Tone,
};
use spt_modpack_updater::tui::Mode;
use spt_modpack_updater::types::UpdateStatus;

#[test]
fn status_line_per_status() {
    assert_eq!(
        status_display(&UpdateStatus::UpToDate { hash: "0123456789".to_string() }),
        (Tone::Green, "◆ Up to date (01234567)".to_string())
    );
    assert_eq!(
        status_display(&UpdateStatus::Available {
            local: "aaaaaaaaa".to_string(),
            remote: "bbbbbbbbb".to_string()
        }),
        (Tone::Yellow, "◆ Update available  aaaaaaaa → bbbbbbbb".to_string())
    );
    assert_eq!(
        status_display(&UpdateStatus::NotInitialized),
        (Tone::LightBlue, "◆ Not installed — UPDATE to install".to_string())
    );
    assert_eq!(
        status_display(&UpdateStatus::Error("offline".to_string())),
        (Tone::Red, "◆ Error: offline".to_string())
    );
}

#[test]
fn menu_highlights_only_while_active() {
    assert_eq!(
        menu_rows(1, true),
        vec![
            ("    UPDATE".to_string(), false),
            ("  > REPAIR".to_string(), true),
            ("    BRANCH".to_string(), false),
        ]
    );
    assert_eq!(
        menu_rows(1, false),
        vec![
            ("    UPDATE".to_string(), false),
            ("    REPAIR".to_string(), false),
            ("    BRANCH".to_string(), false),
        ]
    );
}

fn names(n: usize) -> Vec<String> {
    (0..n).map(|i| format!("b{}", i)).collect()
}

fn row(label: &str, selected: bool, current: bool) -> BranchRow {
    BranchRow { label: label.to_string(), selected, current }
}

#[test]
fn picker_rows_without_scrolling() {
    assert_eq!(
        branch_rows(&names(5), 1, &"b0".to_string()),
        vec![row("    b0  (current)", false, true), row("  > b1", true, false), row("    b2", false, false)]
    );
}

#[test]
fn picker_scrolls_to_keep_the_highlight_third() {
    assert_eq!(
        branch_rows(&names(5), 3, &"b3".to_string()),
        vec![
            row("    b1", false, false),
            row("    b2", false, false),
            row("  > b3  (current)", true, true),
        ]
    );
    assert_eq!(
        branch_rows(&names(5), 4, &"main".to_string()),
        vec![row("    b2", false, false), row("    b3", false, false), row("  > b4", true, false)]
    );
}

#[test]
fn picker_with_few_branches() {
    assert_eq!(branch_rows(&names(2), 0, &"x".to_string()), vec![row("  > b0", true, false), row("    b1", false, false)]);
    assert_eq!(branch_rows(&vec![], 0, &"x".to_string()), vec![]);
}

#[test]
fn hints_per_mode() {
    assert_eq!(hint(&Mode::Idle, false), "  ↑↓ Navigate   Enter Select   Esc Quit");
    assert_eq!(hint(&Mode::Running { is_user_op: false }, false), "  Esc to quit");
    assert_eq!(
        hint(&Mode::SelectBranch { branches: vec![], sel: 0 }, false),
        "  ↑↓ Navigate   Enter Select   Esc Cancel"
    );
    assert_eq!(hint(&Mode::Done(true), false), "");
    assert_eq!(hint(&Mode::Idle, true), "  (operation in progress)");
    assert_eq!(
        hint(&Mode::SelfUpdatePrompt { version: "1".to_string(), url: "u".to_string() }, true),
        ""
    );
}

#[test]
fn log_line_colours() {
    assert_eq!(log_line_tone("Error: x"), Tone::Red);
    assert_eq!(log_line_tone("! fatal: y"), Tone::Red);
    assert_eq!(log_line_tone("Protected: a"), Tone::Green);
    assert_eq!(log_line_tone("Restored: a"), Tone::Green);
    assert_eq!(log_line_tone("Applying files..."), Tone::Dim);
    assert_eq!(log_line_tone(""), Tone::Dim);
}

#[test]
fn overlays_and_accent() {
    assert_eq!(overlays_of(&Mode::Running { is_user_op: true }), (true, false));
    assert_eq!(overlays_of(&Mode::Done(false)), (true, false));
    assert_eq!(overlays_of(&Mode::Running { is_user_op: false }), (false, false));
    assert_eq!(overlays_of(&Mode::Idle), (false, false));
    assert_eq!(
        overlays_of(&Mode::SelfUpdatePrompt { version: "1".to_string(), url: "u".to_string() }),
        (false, true)
    );
    assert_eq!(popup_accent(&Mode::Done(true)), Tone::Green);
    assert_eq!(popup_accent(&Mode::Done(false)), Tone::Red);
    assert_eq!(popup_accent(&Mode::Running { is_user_op: true }), Tone::Pink);
}

#[test]
fn spinner_turns_every_third_tick() {
    assert_eq!(spinner_frame(0, 4), 0);
    assert_eq!(spinner_frame(2, 4), 0);
    assert_eq!(spinner_frame(3, 4), 1);
    assert_eq!(spinner_frame(12, 4), 0);
    assert_eq!(spinner_frame(21, 8), 7);
}

#[test]
fn small_terminals_and_finished_operations() {
    assert!(fits_main_view(30, 10));
    assert!(!fits_main_view(29, 40));
    assert!(!fits_main_view(80, 9));
    assert_eq!(result_line(true), (Tone::Green, " ✓ Completed successfully"));
    assert_eq!(result_line(false), (Tone::Red, " ✗ Failed — see log below"));
    assert_eq!(continue_label(true), " ✓  Press Enter to continue ");
    assert_eq!(continue_label(false), " ✗  Press Enter to continue ");
    assert_eq!(log_window_start(10, 4), 6);
    assert_eq!(log_window_start(3, 4), 0);
}

#[test]
fn boxes_are_centred_and_clipped() {
    assert_eq!(centered_box(0, 0, 100, 40, 52, 6), (24, 17, 52, 6));
    assert_eq!(centered_box(5, 2, 30, 4, 52, 6), (5, 2, 30, 4));
    assert_eq!(centered_box(10, 3, 41, 1, 28, 1), (16, 3, 28, 1));
}

#[test]
fn background_check_shows_the_checking_line() {
    assert_eq!(checking_line(0), "  | Checking...");
    assert_eq!(checking_line(3), "  / Checking...");
    assert_eq!(checking_line(7), "  - Checking...");
    assert_eq!(checking_line(9), "  \\ Checking...");
    assert_eq!(checking_line(12), "  | Checking...");
    match menu_area(&Mode::Running { is_user_op: false }, false, 1, 4) {
        MenuArea::Checking(l) => assert_eq!(l, "  / Checking..."),
        MenuArea::Menu(_) => panic!("the menu shows during the background check"),
    }
}

fn menu_of(mode: &Mode, dimmed: bool, sel: usize) -> Vec<(String, bool)> {
    match menu_area(mode, dimmed, sel, 0) {
        MenuArea::Menu(rows) => rows,
        MenuArea::Checking(_) => panic!("the checking line shows outside the background check"),
    }
}

#[test]
fn menu_is_highlighted_only_when_it_takes_keys() {
    assert_eq!(
        menu_of(&Mode::Idle, false, 1),
        vec![
            ("    UPDATE".to_string(), false),
            ("  > REPAIR".to_string(), true),
            ("    BRANCH".to_string(), false)
        ]
    );
    let plain = vec![
        ("    UPDATE".to_string(), false),
        ("    REPAIR".to_string(), false),
        ("    BRANCH".to_string(), false),
    ];
    assert_eq!(menu_of(&Mode::Idle, true, 1), plain);
    assert_eq!(menu_of(&Mode::Running { is_user_op: true }, false, 1), plain);
    assert_eq!(menu_of(&Mode::Done(true), false, 1), plain);
}
