use lime_tui::terminal_output::{
    visible_terminal_text, wait_for_marker, wait_for_marker_after, wait_for_screen_marker,
    WaitStep,
};

#[test]
fn visible_terminal_text_ignores_cursor_controls() {
    let output = "Choose\u{1b}[19;8Ha\u{1b}[19;10H mode";
    assert_eq!(visible_terminal_text(output), "Choosea mode");
}

#[test]
fn operating_system_commands_and_short_escapes_are_dropped() {
    assert_eq!(
        visible_terminal_text("a\u{1b}]0;title\u{7}b\u{1b}]8;;x\u{1b}\\c\u{1b}7d\u{1b}"),
        "abcd"
    );
    assert_eq!(visible_terminal_text("\u{1b}[31"), "");
}

#[test]
fn waits_stop_when_the_marker_shows_or_time_is_up() {
    assert_eq!(
        wait_for_marker("x\u{1b}[2Jready", "ready", false),
        WaitStep::Found
    );
    assert_eq!(wait_for_marker("loading", "ready", false), WaitStep::Receive);
    assert_eq!(wait_for_marker("loading", "ready", true), WaitStep::TimedOut);
    assert_eq!(
        wait_for_marker_after("ready then more", 5, "ready", true),
        WaitStep::TimedOut
    );
    assert_eq!(
        wait_for_marker_after("old ready", 4, "ready", false),
        WaitStep::Found
    );
    assert_eq!(
        wait_for_marker_after("short", 99, "", false),
        WaitStep::Found
    );
    assert_eq!(
        wait_for_screen_marker("screen text", "text", false),
        WaitStep::Found
    );
}
