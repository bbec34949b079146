use lime_tui::locale::Locale;
use lime_tui::pager_overlay::{
    pager_rows, percent, wrapped_line_starts, PagerAction, PagerKey, PagerKeyEvent, PagerOverlay, StatusFacts,
};
use unicode_width::UnicodeWidthStr;

fn key(code: PagerKey) -> PagerKeyEvent {
    PagerKeyEvent {
        code,
        control: false,
        press: true,
    }
}

/// The rows a line takes at `width` columns, wrapped by characters.
fn height(line: &str, width: usize) -> usize {
    let w = UnicodeWidthStr::width(line).max(1);
    w.div_ceil(width.max(1))
}

/// Lays the pager out in a terminal `width` by `rows` cells: a title row,
/// the content, a separator and a footer.
fn render(overlay: &mut PagerOverlay, lines: &[String], width: usize, rows: usize) {
    let content_rows = rows.saturating_sub(3);
    let shown: Vec<String> = match overlay.static_lines() {
        Some(static_lines) => static_lines.clone(),
        None => lines.to_vec(),
    };
    let heights: Vec<usize> = shown.iter().map(|line| height(line, width)).collect();
    if overlay.is_transcript() {
        overlay.remap_transcript_anchor(&shown, &heights, width as u16);
    }
    let total: usize = heights.iter().sum();
    overlay.apply_layout(total, content_rows);
    if overlay.is_transcript() {
        overlay.remember_transcript(shown, heights, width as u16);
    }
}

fn numbered(prefix: &str, n: usize) -> Vec<String> {
    (0..n).map(|index| format!("{prefix} {index}")).collect()
}

fn status_text(overlay: &PagerOverlay) -> String {
    overlay.static_lines().expect("status lines").concat()
}

#[test]
fn status_overlay_uses_current_values_without_a_second_session_model() {
    let overlay = PagerOverlay::status(
        Locale::EnUs,
        StatusFacts {
            thread_id: Some("thread-1"),
            model: Some("gpt-5"),
            provider: Some("openai"),
            effort: Some("high"),
            permissions: Some(":workspace"),
            cwd: "/workspace",
            status: "running",
        },
    );
    let text = status_text(&overlay);

    for value in [
        "thread-1",
        "gpt-5",
        "openai",
        "high",
        ":workspace",
        "/workspace",
        "running",
    ] {
        assert!(text.contains(value), "missing {value}: {text}");
    }
}

#[test]
fn status_overlay_localizes_an_empty_projection_status_as_ready() {
    for locale in [
        Locale::ZhCn,
        Locale::ZhTw,
        Locale::EnUs,
        Locale::JaJp,
        Locale::KoKr,
    ] {
        let overlay = PagerOverlay::status(
            locale,
            StatusFacts {
                thread_id: None,
                model: None,
                provider: None,
                effort: None,
                permissions: None,
                cwd: "/workspace",
                status: "",
            },
        );
        let text = status_text(&overlay);
        assert!(text.contains(locale.ready_label()), "{locale:?}: {text}");
    }
}

#[test]
fn status_lines_label_each_fact() {
    let overlay = PagerOverlay::status(
        Locale::EnUs,
        StatusFacts {
            thread_id: None,
            model: Some("m"),
            provider: None,
            effort: None,
            permissions: None,
            cwd: "/w",
            status: "",
        },
    );
    let lines = overlay.static_lines().expect("status lines");
    assert_eq!(lines.len(), 7);
    assert_eq!(lines[0], format!("{}: {}", Locale::EnUs.thread_label(), Locale::EnUs.not_set_label()));
    assert_eq!(lines[1], format!("{}: m", Locale::EnUs.model_label()));
    assert_eq!(lines[5], format!("{}: /w", Locale::EnUs.cwd_label()));
    assert_eq!(overlay.title(), Locale::EnUs.status_title());
}

#[test]
fn static_overlay_wraps_scrolls_jumps_and_closes() {
    let mut overlay = PagerOverlay::new(
        "STATUS".to_string(),
        (0..8)
            .map(|index| {
                format!("line {index}: a very long status value that wraps in a narrow terminal")
            })
            .collect(),
    );
    render(&mut overlay, &[], 24, 5);
    assert!(overlay.scroll_state().max_scroll > 0);

    assert_eq!(overlay.handle_event(key(PagerKey::Down)), PagerAction::Consumed);
    assert_eq!(overlay.scroll_state().scroll, 1);
    assert_eq!(overlay.handle_event(key(PagerKey::PageDown)), PagerAction::Consumed);
    assert_eq!(overlay.scroll_state().scroll, 3);
    assert_eq!(overlay.handle_event(key(PagerKey::Up)), PagerAction::Consumed);
    assert_eq!(overlay.scroll_state().scroll, 2);

    assert_eq!(overlay.handle_event(key(PagerKey::End)), PagerAction::Consumed);
    assert_eq!(overlay.scroll_state().scroll, overlay.scroll_state().max_scroll);
    assert_eq!(overlay.handle_event(key(PagerKey::PageUp)), PagerAction::Consumed);
    assert!(overlay.scroll_state().scroll < overlay.scroll_state().max_scroll);
    assert_eq!(overlay.handle_event(key(PagerKey::Home)), PagerAction::Consumed);
    assert_eq!(overlay.scroll_state().scroll, 0);
    assert_eq!(overlay.handle_event(key(PagerKey::Esc)), PagerAction::Close);
}

#[test]
fn resize_recomputes_scroll_bounds_and_tiny_areas_do_not_panic() {
    let mut overlay = PagerOverlay::new(
        "STATUS".to_string(),
        vec!["a long value that needs several rows in a narrow viewport".to_string()],
    );
    render(&mut overlay, &[], 10, 5);
    assert!(overlay.scroll_state().max_scroll > 0);
    overlay.handle_event(key(PagerKey::End));

    render(&mut overlay, &[], 80, 12);
    assert_eq!(overlay.scroll_state().max_scroll, 0);
    assert_eq!(overlay.scroll_state().scroll, 0);
    assert_eq!(overlay.scroll_state().page_height, 9);

    render(&mut overlay, &[], 0, 0);
    render(&mut overlay, &[], 1, 1);
    assert_eq!(overlay.scroll_state().page_height, 1);
}

#[test]
fn transcript_overlay_starts_at_tail_follows_updates_and_closes_with_ctrl_t() {
    let mut overlay = PagerOverlay::transcript(Locale::EnUs);
    render(&mut overlay, &numbered("line", 8), 24, 6);
    assert_eq!(overlay.scroll_state().scroll, overlay.scroll_state().max_scroll);

    render(&mut overlay, &numbered("line", 10), 24, 6);
    assert_eq!(overlay.scroll_state().scroll, overlay.scroll_state().max_scroll);
    assert_eq!(overlay.scroll_state().max_scroll, 7);

    assert_eq!(
        overlay.handle_event(PagerKeyEvent {
            code: PagerKey::Char('t'),
            control: true,
            press: true,
        }),
        PagerAction::Close
    );
}

#[test]
fn transcript_overlay_requests_older_history_when_scrolled_to_the_top() {
    let mut overlay = PagerOverlay::transcript(Locale::EnUs);
    overlay.set_older_history_available(true);
    render(&mut overlay, &numbered("line", 12), 24, 6);

    assert_eq!(overlay.handle_event(key(PagerKey::Home)), PagerAction::LoadOlderHistory);
    assert_eq!(overlay.scroll_state().scroll, 0);
    assert!(!overlay.scroll_state().pinned_to_bottom);
    assert_eq!(overlay.handle_event(key(PagerKey::PageUp)), PagerAction::LoadOlderHistory);
}

#[test]
fn static_overlay_never_requests_older_history() {
    let mut overlay = PagerOverlay::new("STATUS".to_string(), vec!["line".to_string()]);
    overlay.set_older_history_available(true);
    assert_eq!(overlay.handle_event(key(PagerKey::Home)), PagerAction::Consumed);
}

#[test]
fn transcript_overlay_without_older_history_consumes_top_navigation() {
    let mut overlay = PagerOverlay::transcript(Locale::EnUs);
    assert_eq!(overlay.handle_event(key(PagerKey::Home)), PagerAction::Consumed);
}

#[test]
fn transcript_overlay_reset_anchor_keeps_newly_loaded_beginning_visible() {
    let mut overlay = PagerOverlay::transcript(Locale::EnUs);
    render(&mut overlay, &["oldest loaded".to_string()], 24, 6);

    overlay.reset_transcript_anchor_at_top();
    render(
        &mut overlay,
        &["actual oldest".to_string(), "oldest loaded".to_string()],
        24,
        6,
    );

    assert_eq!(overlay.scroll_state().scroll, 0);
}

#[test]
fn transcript_overlay_preserves_manual_scroll_when_projection_grows() {
    let mut overlay = PagerOverlay::transcript(Locale::EnUs);
    render(&mut overlay, &numbered("line", 10), 24, 6);
    overlay.handle_event(key(PagerKey::Up));
    let manual_scroll = overlay.scroll_state().scroll;

    render(&mut overlay, &numbered("line", 12), 24, 6);

    assert_eq!(overlay.scroll_state().scroll, manual_scroll);
    assert!(!overlay.scroll_state().pinned_to_bottom);
}

#[test]
fn transcript_overlay_preserves_manual_anchor_when_history_is_prepended() {
    let mut overlay = PagerOverlay::transcript(Locale::EnUs);
    let initial = numbered("line", 20);
    render(&mut overlay, &initial, 24, 6);
    overlay.handle_event(key(PagerKey::PageUp));
    let previous_scroll = overlay.scroll_state().scroll;
    assert!(!overlay.scroll_state().pinned_to_bottom);

    let mut updated = numbered("older", 3);
    updated.extend(initial);
    render(&mut overlay, &updated, 24, 6);

    assert_eq!(overlay.scroll_state().scroll, previous_scroll + 3);
    assert!(!overlay.scroll_state().pinned_to_bottom);
}

#[test]
fn transcript_overlay_remaps_manual_anchor_when_width_reflows() {
    let mut overlay = PagerOverlay::transcript(Locale::EnUs);
    let mut lines = vec![
        "a long first transcript line that wraps after resize".to_string(),
        "anchor line".to_string(),
    ];
    lines.extend(numbered("tail", 8));
    render(&mut overlay, &lines, 48, 6);
    let wide: Vec<usize> = lines.iter().map(|line| height(line, 48)).collect();
    let target = wrapped_line_starts(&wide)[1];
    overlay.handle_event(key(PagerKey::Home));
    for _ in 0..target {
        overlay.handle_event(key(PagerKey::Down));
    }
    assert_eq!(overlay.scroll_state().scroll, target);

    render(&mut overlay, &lines, 16, 6);

    let narrow: Vec<usize> = lines.iter().map(|line| height(line, 16)).collect();
    let expected = wrapped_line_starts(&narrow)[1];
    assert!(expected > 1);
    assert_eq!(overlay.scroll_state().scroll, expected);
    assert!(!overlay.scroll_state().pinned_to_bottom);
}

#[test]
fn transcript_overlay_remaps_manual_anchor_when_streaming_line_grows_in_place() {
    let mut overlay = PagerOverlay::transcript(Locale::EnUs);
    let initial = vec![
        "stable header".to_string(),
        "anchor line".to_string(),
        "tail line".to_string(),
    ];
    render(&mut overlay, &initial, 18, 4);
    overlay.handle_event(key(PagerKey::Home));
    overlay.handle_event(key(PagerKey::Down));
    let first: Vec<usize> = initial.iter().map(|line| height(line, 18)).collect();
    assert_eq!(overlay.scroll_state().scroll, wrapped_line_starts(&first)[1]);

    let updated = vec![
        "stable header that grew while streaming".to_string(),
        "anchor line".to_string(),
        "tail line".to_string(),
    ];
    render(&mut overlay, &updated, 18, 4);

    let heights: Vec<usize> = updated.iter().map(|line| height(line, 18)).collect();
    assert_eq!(overlay.scroll_state().scroll, wrapped_line_starts(&heights)[1]);
    assert!(!overlay.scroll_state().pinned_to_bottom);
}

#[test]
fn key_releases_and_other_keys_change_nothing() {
    let mut overlay = PagerOverlay::transcript(Locale::EnUs);
    render(&mut overlay, &numbered("line", 12), 24, 6);
    let before = overlay.scroll_state();
    let release = PagerKeyEvent {
        code: PagerKey::Up,
        control: false,
        press: false,
    };
    assert_eq!(overlay.handle_event(release), PagerAction::Consumed);
    assert_eq!(overlay.handle_event(key(PagerKey::Other)), PagerAction::Consumed);
    assert_eq!(overlay.scroll_state(), before);
    assert_eq!(overlay.handle_event(key(PagerKey::Char('q'))), PagerAction::Close);
}

#[test]
fn line_starts_and_percent() {
    assert_eq!(wrapped_line_starts(&[2, 0, 3]), vec![0, 2, 3]);
    assert_eq!(wrapped_line_starts(&[]), Vec::<usize>::new());
    assert_eq!(percent(5, 10), 50);
    assert_eq!(percent(0, 0), 100);
    assert_eq!(percent(7, 7), 100);
}

#[test]
fn pager_rows_split_header_content_separator_and_footer() {
    let rows = pager_rows(2, 80, 10).expect("a non-empty area has rows");
    assert_eq!(rows.header_y, 2);
    assert_eq!(rows.content_y, 3);
    assert_eq!(rows.content_height, 7);
    assert_eq!(rows.separator_y, 10);
    assert_eq!(rows.separator_height, 1);
    assert_eq!(rows.footer_y, 11);
    assert_eq!(rows.footer_height, 1);
    let two = pager_rows(0, 80, 2).expect("two rows");
    assert_eq!((two.content_height, two.separator_height, two.footer_height), (0, 0, 1));
    assert_eq!(two.footer_y, 1);
    assert!(pager_rows(0, 0, 10).is_none());
    assert!(pager_rows(0, 10, 0).is_none());
    let top = pager_rows(u16::MAX, 10, 3).expect("rows at the bottom edge");
    assert_eq!(top.content_y, u16::MAX);
}

#[test]
fn transcript_overlay_keeps_the_row_inside_a_line_that_got_shorter() {
    let mut overlay = PagerOverlay::transcript(Locale::EnUs);
    let before = vec!["a".to_string(), "b".to_string()];
    overlay.remap_transcript_anchor(&before, &vec![3, 1], 10);
    overlay.apply_layout(4, 1);
    overlay.remember_transcript(before, vec![3, 1], 10);
    overlay.handle_event(key(PagerKey::Home));
    overlay.handle_event(key(PagerKey::Down));
    overlay.handle_event(key(PagerKey::Down));
    assert_eq!(overlay.scroll_state().scroll, 2);
    assert!(!overlay.scroll_state().pinned_to_bottom);

    let after = vec!["x".to_string(), "a".to_string(), "b".to_string()];
    overlay.remap_transcript_anchor(&after, &vec![1, 1, 1], 20);
    assert_eq!(overlay.scroll_state().scroll, 1);
}

#[test]
fn transcript_overlay_keeps_the_same_row_of_a_rewrapped_line_after_a_prepend() {
    let mut overlay = PagerOverlay::transcript(Locale::EnUs);
    let before = vec!["a".to_string(), "b".to_string()];
    overlay.remap_transcript_anchor(&before, &vec![3, 1], 10);
    overlay.apply_layout(4, 1);
    overlay.remember_transcript(before, vec![3, 1], 10);
    overlay.handle_event(key(PagerKey::Home));
    overlay.handle_event(key(PagerKey::Down));
    assert_eq!(overlay.scroll_state().scroll, 1);

    let after = vec!["x".to_string(), "a".to_string(), "b".to_string()];
    overlay.remap_transcript_anchor(&after, &vec![1, 2, 1], 20);
    assert_eq!(overlay.scroll_state().scroll, 2);
}
