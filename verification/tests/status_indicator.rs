use lime_tui::locale::Locale;
use lime_tui::status_indicator::{fmt_elapsed_compact, status_line_text};

#[test]
fn elapsed_time_matches_codex_compact_format() {
    assert_eq!(fmt_elapsed_compact(0), "0s");
    assert_eq!(fmt_elapsed_compact(59), "59s");
    assert_eq!(fmt_elapsed_compact(60), "1m 00s");
    assert_eq!(fmt_elapsed_compact(3_599), "59m 59s");
    assert_eq!(fmt_elapsed_compact(3_600), "1h 00m 00s");
    assert_eq!(fmt_elapsed_compact(7_389), "2h 03m 09s");
}

#[test]
fn working_status_line_is_localized() {
    let cases = [
        (Locale::ZhCn, "处理中", "Esc 中断"),
        (Locale::ZhTw, "處理中", "Esc 中斷"),
        (Locale::EnUs, "Working", "esc to interrupt"),
        (Locale::JaJp, "処理中", "Esc で中断"),
        (Locale::KoKr, "작업 중", "Esc로 중단"),
    ];
    for (locale, working, interrupt) in cases {
        let text = status_line_text(locale, 63);
        assert!(text.contains(working), "{locale:?}: {text}");
        assert!(text.contains("1m 03s"), "{locale:?}: {text}");
        assert!(text.contains(interrupt), "{locale:?}: {text}");
    }
    assert_eq!(
        status_line_text(Locale::EnUs, 63),
        "• Working (1m 03s • esc to interrupt)"
    );
}

#[test]
fn large_elapsed_times_keep_counting_hours() {
    assert_eq!(fmt_elapsed_compact(360_000), "100h 00m 00s");
    assert_eq!(fmt_elapsed_compact(61), "1m 01s");
}
