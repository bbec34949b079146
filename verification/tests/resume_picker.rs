use lime_tui::input::{InputEvent, Key, KeyPress};
use lime_tui::locale::Locale;
use lime_tui::projection::{EntryKind, TranscriptEntry};
use lime_tui::resume_picker::{
    filter_threads, ArchiveState, PickerAction, PickerState, PickerTranscriptPager,
    SessionListDensity, SessionPickerAction, SessionSelection, SessionStatus,
    PreviewLine, PreviewSpeaker, SessionTranscriptState, SessionTarget, ThreadSortKey, ThreadSummary,
};
use lime_tui::resume_picker::page_loop::{
    picker_loop_step, PickerLoopCommand, PickerLoopEvent, ThreadPage,
};
use lime_tui::resume_picker::screen::{picker_screen_text, PickerRowLayout, PickerScreen};

fn thread(id: &str, preview: &str, ephemeral: bool) -> ThreadSummary {
    ThreadSummary {
        id: id.to_string(),
        name: None,
        preview: preview.to_string(),
        cwd: "/workspace".to_string(),
        ephemeral,
    }
}

fn ids(threads: &[ThreadSummary]) -> Vec<&str> {
    threads.iter().map(|thread| thread.id.as_str()).collect()
}

#[test]
fn session_picker_action_keeps_resume_and_fork_selection_distinct() {
    let target = || SessionTarget {
        path: None,
        thread_id: "thread-1".to_string(),
    };
    assert!(matches!(
        SessionPickerAction::Resume.selection(target()),
        SessionSelection::Resume(t) if t.thread_id == "thread-1"
    ));
    assert!(matches!(
        SessionPickerAction::Fork.selection(target()),
        SessionSelection::Fork(t) if t.thread_id == "thread-1"
    ));
    assert_eq!(SessionPickerAction::Resume.title(), "Resume a previous session");
    assert_eq!(SessionPickerAction::Fork.title(), "Fork a previous session");
    assert_eq!(SessionPickerAction::Resume.action_label(), "resume");
    assert_eq!(SessionPickerAction::Fork.action_label(), "fork");
}

#[test]
fn session_target_uses_thread_id_when_path_is_not_available() {
    let target = SessionTarget {
        path: None,
        thread_id: "thread-1".to_string(),
    };
    assert_eq!(target.display_label(), "thread thread-1");
    let with_path = SessionTarget {
        path: Some("/tmp/session.jsonl".to_string()),
        thread_id: "thread-1".to_string(),
    };
    assert_eq!(with_path.display_label(), "/tmp/session.jsonl");
}

#[test]
fn picker_search_filters_preview_name_path_and_thread_id() {
    let threads = || {
        let mut named = thread("named", "other", false);
        named.name = Some("Release Notes".to_string());
        let mut pathed = thread("pathed", "other", false);
        pathed.cwd = "/Work/ReleaseTool".to_string();
        vec![
            thread("preview", "prepare RELEASE", false),
            named,
            pathed,
            thread("release-id", "other", false),
            thread("hidden", "release", true),
            thread("unrelated", "other", false),
        ]
    };
    assert_eq!(
        ids(&filter_threads(threads(), "  release ")),
        vec!["preview", "named", "pathed", "release-id"]
    );
    assert_eq!(
        ids(&filter_threads(threads(), "")),
        vec!["preview", "named", "pathed", "release-id", "unrelated"]
    );
}

#[test]
fn density_toggles_and_transcript_pager_follows_the_tail() {
    assert_eq!(SessionListDensity::Comfortable.toggle(), SessionListDensity::Dense);
    assert_eq!(SessionListDensity::Dense.toggle(), SessionListDensity::Comfortable);
    let pager = PickerTranscriptPager::new("thread-1".to_string(), Locale::EnUs);
    assert_eq!(pager.thread_id, "thread-1");
    assert!(pager.overlay.is_transcript());
    assert!(pager.overlay.scroll_state().pinned_to_bottom);
    assert_eq!(pager.overlay.title(), Locale::EnUs.transcript_title());
}

fn key_with(code: Key, control: bool) -> InputEvent {
    InputEvent::Key(KeyPress {
        code,
        control,
        alt: false,
        other_modifiers: false,
        press: true,
    })
}

fn key(code: Key) -> InputEvent {
    key_with(code, false)
}

fn control(c: char) -> InputEvent {
    key_with(Key::Char(c), true)
}

fn picker(threads: Vec<ThreadSummary>, status: SessionStatus) -> PickerState {
    PickerState::new(threads, SessionPickerAction::Resume, status, None, true)
}

fn entry(id: &str, kind: EntryKind, text: &str) -> TranscriptEntry {
    TranscriptEntry {
        id: id.to_string(),
        kind,
        text: text.to_string(),
        streaming: false,
        status: None,
        summary: Vec::new(),
    }
}

#[test]
fn picker_filters_ephemeral_threads_and_navigates() {
    let mut picker = picker(
        vec![
            thread("hidden", "temporary", true),
            thread("one", "first", false),
            thread("two", "second", false),
        ],
        SessionStatus::Active,
    );
    assert_eq!(picker.threads.len(), 2);
    assert_eq!(picker.selected_thread_id(), Some("one"));
    assert_eq!(picker.handle_event(key(Key::Down)), PickerAction::MoveDown);
    assert_eq!(picker.selected_thread_id(), Some("two"));
    assert_eq!(picker.handle_event(key(Key::Enter)), PickerAction::Select);
}

#[test]
fn picker_controls_match_codex_resume_shortcut_shapes() {
    let mut picker = PickerState::new(
        vec![thread("one", "first", false)],
        SessionPickerAction::Resume,
        SessionStatus::Active,
        Some("/workspace".to_string()),
        false,
    );
    assert_eq!(picker.handle_event(control('s')), PickerAction::ToggleStatus);
    picker.toggle_status();
    assert_eq!(picker.status, SessionStatus::Archived);
    assert_eq!(picker.handle_event(control('o')), PickerAction::ToggleDensity);
    picker.density = picker.density.toggle();
    assert_eq!(picker.density, SessionListDensity::Dense);
}

#[test]
fn control_t_opens_the_transcript_pager_and_marks_it_loading() {
    let mut picker = picker(vec![thread("one", "first", false)], SessionStatus::Active);
    assert_eq!(picker.handle_event(control('t')), PickerAction::OpenTranscript);
    assert_eq!(
        picker.open_transcript_pager(Locale::EnUs),
        Some("one".to_string())
    );
    assert!(picker.transcript_pager.is_some());
    assert!(matches!(
        picker.transcript("one"),
        Some(SessionTranscriptState::Loading)
    ));
    assert_eq!(picker.open_transcript_pager(Locale::EnUs), None);
}

#[test]
fn the_transcript_pager_closes_with_control_t_and_ignores_other_events() {
    let mut picker = picker(vec![thread("one", "first", false)], SessionStatus::Active);
    picker.set_transcript(
        "one".to_string(),
        Ok(vec![entry("entry-1", EntryKind::Assistant, "assistant line")]),
    );
    assert_eq!(picker.open_transcript_pager(Locale::EnUs), None);
    picker.handle_transcript_pager_event(&InputEvent::Paste("x".to_string()));
    assert!(picker.transcript_pager_is_open());
    picker.handle_transcript_pager_event(&key(Key::Home));
    assert!(picker.transcript_pager_is_open());
    picker.handle_transcript_pager_event(&control('t'));
    assert!(!picker.transcript_pager_is_open());
}

#[test]
fn raw_ctrl_t_keycode_matches_codex_resume_shortcut() {
    let mut picker = picker(vec![thread("one", "first", false)], SessionStatus::Active);
    assert_eq!(
        picker.handle_event(key(Key::Char('\u{0014}'))),
        PickerAction::OpenTranscript
    );
}

#[test]
fn ctrl_e_toggles_selected_session_expansion_and_transcript_loading() {
    let mut picker = picker(vec![thread("one", "first", false)], SessionStatus::Active);
    assert_eq!(picker.handle_event(control('e')), PickerAction::ToggleExpanded);
    assert_eq!(
        picker.toggle_selected_expansion(),
        Some(String::from("one"))
    );
    assert_eq!(picker.expanded_thread_id.as_deref(), Some("one"));
    assert!(matches!(
        picker.transcript("one"),
        Some(SessionTranscriptState::Loading)
    ));

    assert_eq!(picker.handle_event(control('e')), PickerAction::ToggleExpanded);
    assert_eq!(picker.toggle_selected_expansion(), None);
    assert_eq!(picker.expanded_thread_id, None);
}

#[test]
fn raw_ctrl_e_keycode_matches_codex_resume_shortcut() {
    let mut picker = picker(vec![thread("one", "first", false)], SessionStatus::Active);
    assert_eq!(
        picker.handle_event(key(Key::Char('\u{0005}'))),
        PickerAction::ToggleExpanded
    );
}

#[test]
fn transcript_load_event_records_loaded_and_failed_states() {
    let mut picker = picker(vec![thread("one", "first", false)], SessionStatus::Active);
    picker.set_transcript(
        String::from("one"),
        Ok(vec![entry("entry-1", EntryKind::User, "hello")]),
    );
    assert!(matches!(
        picker.transcript("one"),
        Some(SessionTranscriptState::Loaded(entries)) if entries.len() == 1
    ));

    picker.set_transcript(String::from("one"), Err("offline".to_string()));
    assert!(matches!(
        picker.transcript("one"),
        Some(SessionTranscriptState::Failed)
    ));
}

#[test]
fn picker_only_reloads_for_query_mutations() {
    let mut picker = PickerState::new(
        vec![thread("one", "first", false)],
        SessionPickerAction::Resume,
        SessionStatus::Active,
        Some("/workspace".to_string()),
        false,
    );
    assert_eq!(picker.handle_event(key(Key::Other)), PickerAction::Ignored);
    assert_eq!(picker.handle_event(key(Key::Char('x'))), PickerAction::Reload);
}

#[test]
fn page_keys_move_by_ten_and_stop_at_the_ends() {
    let threads = (0..12)
        .map(|index| thread(&format!("thread-{index}"), "preview", false))
        .collect();
    let mut picker = picker(threads, SessionStatus::Active);
    assert_eq!(picker.handle_event(key(Key::PageDown)), PickerAction::MoveDown);
    assert_eq!(picker.selected, 10);
    assert_eq!(picker.handle_event(key(Key::PageDown)), PickerAction::MoveDown);
    assert_eq!(picker.selected, 11);
    assert_eq!(picker.handle_event(key(Key::PageUp)), PickerAction::MoveUp);
    assert_eq!(picker.selected, 1);
    assert_eq!(picker.handle_event(key(Key::End)), PickerAction::MoveDown);
    assert_eq!(picker.selected, 11);
    assert_eq!(picker.handle_event(key(Key::Home)), PickerAction::MoveUp);
    assert_eq!(picker.selected, 0);
    assert_eq!(picker.handle_event(key(Key::Char('k'))), PickerAction::MoveUp);
    assert_eq!(picker.selected, 0);
}

#[test]
fn query_edits_escape_and_paste_follow_the_picker_rules() {
    let mut picker = picker(vec![thread("one", "first", false)], SessionStatus::Archived);
    assert_eq!(picker.handle_event(key(Key::Char('a'))), PickerAction::Reload);
    assert_eq!(
        picker.handle_event(InputEvent::Paste("deploy".to_string())),
        PickerAction::Reload
    );
    assert_eq!(picker.query, "a deploy");
    assert_eq!(
        picker.handle_event(InputEvent::Paste(String::new())),
        PickerAction::Reload
    );
    assert_eq!(picker.query, "a deploy");
    assert_eq!(picker.handle_event(key(Key::Backspace)), PickerAction::Reload);
    assert_eq!(picker.query, "a deplo");
    assert_eq!(picker.handle_event(key(Key::Enter)), PickerAction::Restore);
    assert_eq!(picker.handle_event(key(Key::Esc)), PickerAction::Reload);
    assert_eq!(picker.query, "");
    assert_eq!(picker.handle_event(key(Key::Esc)), PickerAction::Cancel);
    assert_eq!(picker.handle_event(control('c')), PickerAction::Cancel);
    assert_eq!(picker.handle_event(InputEvent::Other), PickerAction::Ignored);
}

#[test]
fn list_toggles_reset_the_selection_and_session_details() {
    let mut picker = picker(
        vec![thread("one", "first", false), thread("two", "second", false)],
        SessionStatus::Active,
    );
    picker.handle_event(key(Key::Down));
    assert_eq!(picker.toggle_selected_expansion(), Some("two".to_string()));
    picker.toggle_sort();
    assert_eq!(picker.sort_key, ThreadSortKey::CreatedAt);
    assert_eq!(picker.selected, 0);
    assert!(picker.expanded_thread_id.is_none());
    assert!(picker.transcript("two").is_none());
    picker.toggle_sort();
    assert_eq!(picker.sort_key, ThreadSortKey::UpdatedAt);
    picker.toggle_filter();
    assert!(!picker.show_all);
}

#[test]
fn a_stale_failed_load_changes_nothing() {
    let mut picker = picker(Vec::new(), SessionStatus::Active);
    let first = picker.begin_load();
    let second = picker.begin_load();
    assert_eq!((first, second), (1, 2));
    picker.fail_thread_load(first, "stale".to_string());
    assert!(picker.loading);
    assert!(picker.status_message.is_none());
    picker.fail_thread_load(second, "offline".to_string());
    assert!(!picker.loading);
    assert_eq!(picker.status_message.as_deref(), Some("offline"));
}

#[test]
fn archive_request_is_deduplicated_until_completion() {
    let mut picker = picker(
        vec![thread("one", "preview-one", false), thread("two", "preview-two", false)],
        SessionStatus::Active,
    );

    assert_eq!(
        picker.request_archive_for_selected_session(),
        Some("one".into())
    );
    assert_eq!(picker.request_archive_for_selected_session(), None);
    assert!(matches!(
        &picker.archive_state,
        ArchiveState::Pending { thread_id } if thread_id == "one"
    ));
}

#[test]
fn archive_failure_preserves_selected_thread_and_allows_retry() {
    let mut picker = picker(vec![thread("one", "preview-one", false)], SessionStatus::Active);
    let thread_id = picker
        .request_archive_for_selected_session()
        .expect("selected thread");

    picker.handle_archive_result(thread_id.clone(), Err("server refused".to_string()));

    assert_eq!(picker.threads.len(), 1);
    assert_eq!(
        picker.status_message.as_deref(),
        Some("Failed to archive session: server refused")
    );
    assert_eq!(
        picker.request_archive_for_selected_session(),
        Some(thread_id)
    );
}

#[test]
fn archive_success_removes_thread_and_clamps_selection() {
    let mut picker = picker(
        vec![thread("one", "preview-one", false), thread("two", "preview-two", false)],
        SessionStatus::Active,
    );
    picker.selected = 1;
    let thread_id = picker
        .request_archive_for_selected_session()
        .expect("selected thread");

    picker.handle_archive_result(thread_id, Ok(()));

    assert_eq!(picker.threads.len(), 1);
    assert_eq!(picker.selected_thread_id(), Some("one"));
    assert!(matches!(picker.archive_state, ArchiveState::Idle));
    assert!(picker.status_message.is_none());
}

#[test]
fn restore_request_is_deduplicated_and_returns_canonical_target() {
    let mut picker = picker(vec![thread("archived", "preview-archived", false)], SessionStatus::Archived);
    let thread_id = picker
        .request_unarchive_for_selected_session()
        .expect("selected archived thread");
    assert_eq!(picker.request_unarchive_for_selected_session(), None);
    assert!(matches!(
        &picker.archive_state,
        ArchiveState::Restoring { thread_id } if thread_id == "archived"
    ));

    let selection = picker.handle_unarchive_result(
        thread_id,
        Ok(SessionTarget {
            path: None,
            thread_id: "archived".to_string(),
        }),
    );
    assert!(matches!(
        selection,
        Some(SessionSelection::Resume(target)) if target.thread_id == "archived"
    ));
    assert!(matches!(picker.archive_state, ArchiveState::Idle));
}

#[test]
fn restore_failure_preserves_archived_thread_and_allows_retry() {
    let mut picker = picker(vec![thread("archived", "preview-archived", false)], SessionStatus::Archived);
    let thread_id = picker
        .request_unarchive_for_selected_session()
        .expect("selected archived thread");

    assert!(picker
        .handle_unarchive_result(thread_id.clone(), Err("restore denied".to_string()))
        .is_none());
    assert_eq!(picker.threads.len(), 1);
    assert_eq!(
        picker.status_message.as_deref(),
        Some("Failed to restore archived session: restore denied")
    );
    assert_eq!(
        picker.request_unarchive_for_selected_session(),
        Some(thread_id)
    );
}

#[test]
fn an_answer_to_no_request_in_flight_changes_nothing() {
    let mut picker = picker(vec![thread("one", "first", false)], SessionStatus::Active);
    picker.handle_archive_result("one".to_string(), Ok(()));
    assert_eq!(picker.threads.len(), 1);
    assert!(picker
        .handle_unarchive_result("one".to_string(), Err("late".to_string()))
        .is_none());
    assert!(picker.status_message.is_none());
    picker.request_archive_for_selected_session();
    picker.handle_archive_result("other".to_string(), Ok(()));
    assert!(matches!(
        &picker.archive_state,
        ArchiveState::Pending { thread_id } if thread_id == "one"
    ));
}

fn page(threads: Vec<ThreadSummary>, next_cursor: Option<&str>) -> ThreadPage {
    ThreadPage {
        threads,
        next_cursor: next_cursor.map(|c| c.to_string()),
    }
}

#[test]
fn stale_thread_load_results_do_not_clear_newer_loading_state() {
    let mut picker = PickerState::new(
        Vec::new(),
        SessionPickerAction::Resume,
        SessionStatus::Active,
        None,
        true,
    );
    let first = picker.begin_load();
    let second = picker.begin_load();
    picker.apply_thread_page(first, page(vec![thread("stale", "stale", false)], None));

    assert!(picker.loading);
    assert!(picker.threads.is_empty());

    picker.apply_thread_page(second, page(vec![thread("fresh", "fresh", false)], None));
    assert!(!picker.loading);
    assert_eq!(picker.selected_thread_id(), Some("fresh"));
}

#[test]
fn thread_pages_append_unique_threads_and_keep_the_next_cursor() {
    let mut picker = PickerState::new(
        Vec::new(),
        SessionPickerAction::Resume,
        SessionStatus::Active,
        None,
        true,
    );
    let first_token = picker.begin_load();
    picker.apply_thread_page(
        first_token,
        page(
            vec![thread("one", "first", false), thread("two", "second", false)],
            Some("cursor-1"),
        ),
    );
    assert_eq!(picker.threads.len(), 2);
    assert_eq!(picker.next_cursor.as_deref(), Some("cursor-1"));
    picker.selected = 1;
    assert!(picker.should_load_more());

    let second_token = picker.begin_load();
    picker.apply_thread_page(
        second_token,
        page(
            vec![thread("two", "duplicate", false), thread("three", "third", false)],
            None,
        ),
    );
    assert_eq!(ids(&picker.threads), vec!["one", "two", "three"]);
    assert!(picker.next_cursor.is_none());
    assert!(!picker.should_load_more());
}

#[test]
fn query_mutation_invalidates_a_previous_page_cursor() {
    let mut picker = PickerState::new(
        vec![thread("one", "first", false)],
        SessionPickerAction::Resume,
        SessionStatus::Active,
        None,
        true,
    );
    picker.next_cursor = Some("cursor-1".to_string());
    picker.seen_cursors.push("cursor-1".to_string());
    assert_eq!(picker.handle_event(key(Key::Char('x'))), PickerAction::Reload);
    assert!(picker.next_cursor.is_none());
    assert!(picker.seen_cursors.is_empty());
}

#[test]
fn page_navigation_matches_codex_shape_and_reaches_the_next_cursor() {
    let mut picker = PickerState::new(
        (0..12)
            .map(|index| thread(&format!("thread-{index}"), "preview", false))
            .collect(),
        SessionPickerAction::Resume,
        SessionStatus::Active,
        None,
        true,
    );
    picker.next_cursor = Some("cursor-1".to_string());
    assert_eq!(picker.handle_event(key(Key::PageDown)), PickerAction::MoveDown);
    assert_eq!(picker.selected, 10);
    assert_eq!(picker.handle_event(key(Key::PageDown)), PickerAction::MoveDown);
    assert_eq!(picker.selected, 11);
    assert!(picker.should_load_more());
    assert_eq!(picker.handle_event(key(Key::Home)), PickerAction::MoveUp);
    assert_eq!(picker.selected, 0);
}

#[test]
fn first_load_empties_the_list_and_carries_the_list_options() {
    let mut picker = PickerState::new(
        vec![thread("one", "first", false)],
        SessionPickerAction::Resume,
        SessionStatus::Archived,
        Some("/work".to_string()),
        false,
    );
    picker.query = "fix".to_string();
    picker.seen_cursors.push("old".to_string());
    let request = picker.start_thread_load().expect("a first page is always asked for");
    assert!(picker.threads.is_empty());
    assert!(picker.seen_cursors.is_empty());
    assert!(picker.loading);
    assert_eq!(request.token, 1);
    assert_eq!(picker.load_token, 1);
    assert_eq!(request.status, SessionStatus::Archived);
    assert_eq!(request.cwd.as_deref(), Some("/work"));
    assert_eq!(request.query, "fix");
    assert!(request.cursor.is_none());
}

#[test]
fn a_repeated_page_start_is_refused_with_a_message() {
    let mut picker = PickerState::new(
        vec![thread("one", "first", false)],
        SessionPickerAction::Resume,
        SessionStatus::Active,
        Some("/work".to_string()),
        true,
    );
    picker.next_cursor = Some("c1".to_string());
    let request = picker.start_thread_load().expect("a new page start is asked for");
    assert_eq!(request.cursor.as_deref(), Some("c1"));
    assert!(request.cwd.is_none());
    assert_eq!(ids(&picker.threads), vec!["one"]);
    assert_eq!(picker.seen_cursors, vec!["c1".to_string()]);
    assert!(picker.start_thread_load().is_none());
    assert_eq!(
        picker.status_message.as_deref(),
        Some("thread list pagination repeated cursor c1")
    );
}

#[test]
fn the_loop_loads_transcripts_and_finishes_with_the_choice() {
    let mut picker = PickerState::new(
        vec![thread("one", "first", false), thread("two", "second", false)],
        SessionPickerAction::Resume,
        SessionStatus::Active,
        None,
        true,
    );
    let command = picker_loop_step(&mut picker, PickerLoopEvent::Input(control('e')), Locale::EnUs);
    assert!(matches!(command, PickerLoopCommand::LoadTranscript(ref id) if id == "one"));
    let command = picker_loop_step(
        &mut picker,
        PickerLoopEvent::Transcript { thread_id: "one".to_string(), result: Ok(Vec::new()) },
        Locale::EnUs,
    );
    assert!(matches!(command, PickerLoopCommand::Wait));
    assert!(matches!(picker.transcript("one"), Some(SessionTranscriptState::Loaded(_))));
    let command = picker_loop_step(&mut picker, PickerLoopEvent::Input(key(Key::Down)), Locale::EnUs);
    assert!(matches!(command, PickerLoopCommand::Wait));
    let command = picker_loop_step(&mut picker, PickerLoopEvent::Input(key(Key::Enter)), Locale::EnUs);
    assert!(matches!(command, PickerLoopCommand::Finish(Some(ref id)) if id == "two"));
    let command = picker_loop_step(&mut picker, PickerLoopEvent::Closed, Locale::EnUs);
    assert!(matches!(command, PickerLoopCommand::Finish(None)));
}

#[test]
fn the_loop_reloads_on_a_new_query_and_asks_for_more_pages() {
    let mut picker = PickerState::new(
        Vec::new(),
        SessionPickerAction::Resume,
        SessionStatus::Active,
        None,
        true,
    );
    let command = picker_loop_step(&mut picker, PickerLoopEvent::Input(key(Key::Char('a'))), Locale::EnUs);
    let token = match command {
        PickerLoopCommand::LoadThreads(request) => {
            assert_eq!(request.query, "a");
            request.token
        },
        _ => panic!("a new query reloads the list"),
    };
    let command = picker_loop_step(
        &mut picker,
        PickerLoopEvent::Threads { token, result: Ok(page(Vec::new(), Some("next"))) },
        Locale::EnUs,
    );
    match command {
        PickerLoopCommand::LoadThreads(request) => {
            assert_eq!(request.cursor.as_deref(), Some("next"));
            assert_eq!(request.token, token + 1);
        },
        _ => panic!("an empty page with more to come asks for the next"),
    }
    let command = picker_loop_step(
        &mut picker,
        PickerLoopEvent::Threads { token: token + 1, result: Err("offline".to_string()) },
        Locale::EnUs,
    );
    assert!(matches!(command, PickerLoopCommand::Wait));
    assert_eq!(picker.status_message.as_deref(), Some("offline"));
    assert!(!picker.loading);
    let command = picker_loop_step(&mut picker, PickerLoopEvent::Input(control('c')), Locale::EnUs);
    assert!(matches!(command, PickerLoopCommand::Finish(None)));
}

#[test]
fn the_loop_restores_an_archived_session_and_resumes_it() {
    let mut picker = PickerState::new(
        vec![thread("old", "archived", false)],
        SessionPickerAction::Resume,
        SessionStatus::Archived,
        None,
        true,
    );
    let command = picker_loop_step(&mut picker, PickerLoopEvent::Input(key(Key::Enter)), Locale::EnUs);
    assert!(matches!(command, PickerLoopCommand::Unarchive(ref id) if id == "old"));
    let command = picker_loop_step(
        &mut picker,
        PickerLoopEvent::Unarchive {
            thread_id: "old".to_string(),
            result: Ok(SessionTarget { path: None, thread_id: "old".to_string() }),
        },
        Locale::EnUs,
    );
    assert!(matches!(command, PickerLoopCommand::Finish(Some(ref id)) if id == "old"));
}

#[test]
fn picker_screen_names_the_options_rows_and_footer() {
    let mut picker = PickerState::new(
        vec![thread("one", "first", false), thread("two", "second", false)],
        SessionPickerAction::Resume,
        SessionStatus::Active,
        None,
        false,
    );
    picker.expanded_thread_id = Some("one".to_string());
    match picker_screen_text(&picker, Locale::EnUs) {
        PickerScreen::List(screen) => {
            assert_eq!(
                screen.rows,
                vec![PickerRowLayout::Expanded, PickerRowLayout::WithMetadata]
            );
            assert_eq!(screen.highlighted, Some(0));
            assert!(screen.title.starts_with(' ') && screen.title.ends_with(' '));
            assert!(screen.search_line.contains(" | "));
            assert!(!screen.footer.is_empty());
        },
        PickerScreen::Transcript(_) => panic!("no pager is open"),
    }
    picker.loading = true;
    picker.toggle_density();
    match picker_screen_text(&picker, Locale::EnUs) {
        PickerScreen::List(screen) => {
            assert_eq!(screen.footer, Locale::EnUs.resume_loading());
            assert_eq!(screen.rows[1], PickerRowLayout::TitleOnly);
        },
        PickerScreen::Transcript(_) => panic!("no pager is open"),
    }
    picker.open_transcript_pager(Locale::EnUs);
    assert!(matches!(
        picker_screen_text(&picker, Locale::EnUs),
        PickerScreen::Transcript(ref id) if id == "one"
    ));
}

#[test]
fn previews_load_once_and_title_rows_without_a_name() {
    let mut picker = PickerState::new(
        vec![thread("one", "first prompt", false), thread("two", "  ", false)],
        SessionPickerAction::Resume,
        SessionStatus::Active,
        None,
        true,
    );
    assert_eq!(picker.next_preview_request().as_deref(), Some("one"));
    assert!(picker.next_preview_request().is_none());
    assert!(!picker.preview_needs_load("one"));
    assert!(picker.preview_needs_load("two"));
    let command = picker_loop_step(
        &mut picker,
        PickerLoopEvent::Preview {
            thread_id: "one".to_string(),
            result: Ok(vec![
                PreviewLine { speaker: PreviewSpeaker::User, text: "hi".to_string() },
                PreviewLine { speaker: PreviewSpeaker::Assistant, text: "hello".to_string() },
            ]),
        },
        Locale::EnUs,
    );
    assert!(matches!(command, PickerLoopCommand::Wait));
    assert!(picker.preview_loading.is_empty());
    assert_eq!(
        picker.transcript_preview_text("one").as_deref(),
        Some("you: hi | assistant: hello")
    );
    match picker_screen_text(&picker, Locale::EnUs) {
        PickerScreen::List(screen) => {
            assert_eq!(screen.row_titles[0], "you: hi | assistant: hello");
            assert_eq!(screen.row_titles[1], Locale::EnUs.untitled_conversation());
        },
        PickerScreen::Transcript(_) => panic!("no pager is open"),
    }
    picker.set_transcript_preview("two".to_string(), Vec::new());
    assert!(picker.transcript_preview_text("two").is_none());
    picker.toggle_status();
    assert!(picker.transcript_previews.is_empty());
}
