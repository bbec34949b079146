use lime_tui::history_cell::approvals::{
    new_approval_decision_cell, ApprovalDecisionActor, ApprovalDecisionSubject, ReviewDecision,
};
use lime_tui::history_cell::cells::{
    message_entry, AgentMessageCell, CommandOutput, CompositeHistoryCell, ExecCall, ExecCell,
    NoticeCell, NoticeKind, PatchHistoryCell, PlanUpdateCell, ReasoningSummaryCell,
    SessionInfoCell, TranscriptHistoryCell, UserHistoryCell,
};
use lime_tui::history_cell::computer_activity::{is_computer_activity, summary, ContentBlock};
use lime_tui::history_cell::hook::{is_quiet_success, output_details, status_text, MAX_OUTPUTS};
use lime_tui::history_cell::mcp_result::{
    content_previews, content_type_summary, invocation_text, McpToolCallResult,
};
use lime_tui::history_cell::mcp::{
    mcp_auth_status_label, mcp_connection_status_label, McpAuthStatus, McpInvocation,
    McpServerConnectionStatus, McpToolCallCell,
};
use lime_tui::history_cell::request_user_input::RequestUserInputResultCell;
use lime_tui::protocol::{ToolRequestUserInputAnswer, ToolRequestUserInputQuestion};
use lime_tui::history_cell::search::{web_search_detail, WebSearchAction};
use lime_tui::history_cell::separators::FinalMessageSeparator;
use lime_tui::history_cell::session::{card_inner_width, padded_label, SessionHeaderHistoryCell};
use lime_tui::history_cell::{compact_text, join_parts, sanitize_user_text};
use lime_tui::locale::Locale;
use lime_tui::projection::{
    EntryKind, EntryStatus, HookOutputEntry, HookOutputEntryKind, HookRunStatus, HookRunSummary,
    TranscriptEntry,
};
use unicode_width::UnicodeWidthStr;

fn entry(kind: EntryKind, text: &str) -> TranscriptEntry {
    TranscriptEntry {
        id: "entry-1".to_string(),
        kind,
        text: text.to_string(),
        streaming: false,
        status: Some(EntryStatus::Completed),
        summary: Vec::new(),
    }
}

#[test]
fn streaming_projection_marks_cell_as_stream_continuation() {
    let mut item = entry(EntryKind::Assistant, "partial");
    item.streaming = true;
    let cell = TranscriptHistoryCell::new(item, Locale::EnUs, "/workspace".to_string());
    assert!(cell.is_stream_continuation());
}

#[test]
fn transcript_cell_keeps_its_entry_locale_and_directory() {
    let cell = TranscriptHistoryCell::new(
        entry(EntryKind::Assistant, "hello"),
        Locale::JaJp,
        "/workspace".to_string(),
    );
    assert_eq!(cell.entry().id, "entry-1");
    assert_eq!(cell.entry().text, "hello");
    assert_eq!(cell.locale(), Locale::JaJp);
    assert_eq!(cell.cwd(), "/workspace");
    assert!(!cell.is_stream_continuation());
}

#[test]
fn completion_separator_localizes_elapsed_label() {
    let labels = [
        (Locale::ZhCn, "已用时 61 秒"),
        (Locale::ZhTw, "已用時 61 秒"),
        (Locale::EnUs, "Worked for 61s"),
        (Locale::JaJp, "所要時間 61秒"),
        (Locale::KoKr, "소요 시간 61초"),
    ];
    for (locale, expected) in labels {
        let lines = FinalMessageSeparator::new(Some(61))
            .with_locale(locale)
            .raw_lines();
        assert_eq!(lines[0].to_string(), expected);

        let display_line = FinalMessageSeparator::new(Some(61))
            .with_locale(locale)
            .display_line(20);
        assert!(UnicodeWidthStr::width(display_line.as_str()) <= 20);
    }
}

#[test]
fn separator_draws_the_label_only_after_a_minute() {
    let short = FinalMessageSeparator::new(Some(60)).display_line(10);
    assert_eq!(short, "----------");
    let long = FinalMessageSeparator::new(Some(61)).display_line(24);
    assert_eq!(long, "- Worked for 61s -------");
    assert_eq!(FinalMessageSeparator::new(None).raw_lines().len(), 0);
    assert_eq!(
        FinalMessageSeparator::new(None).worked_label(5),
        "Worked for 5s"
    );
}

#[test]
fn composite_history_cell_separates_non_empty_parts() {
    let cell = CompositeHistoryCell::new(vec![vec!["one".to_string()], vec!["two".to_string()]]);
    let lines = cell.into_lines();
    assert_eq!(lines[0], "one");
    assert_eq!(UnicodeWidthStr::width(lines[1].as_str()), 0);
    assert_eq!(lines[2], "two");
}

#[test]
fn join_parts_skips_empty_parts() {
    let lines = join_parts(vec![
        vec![],
        vec!["a".to_string(), "b".to_string()],
        vec![],
        vec!["c".to_string()],
    ]);
    assert_eq!(lines, vec!["a", "b", "", "c"]);
    let info = SessionInfoCell::new(vec![vec!["x".to_string()], vec![]]);
    assert_eq!(info.into_lines(), vec!["x"]);
}

fn run(status: HookRunStatus, entries: Vec<(HookOutputEntryKind, &str)>) -> HookRunSummary {
    HookRunSummary {
        id: "hook-1".to_string(),
        status,
        status_message: None,
        entries: entries
            .into_iter()
            .map(|(kind, text)| HookOutputEntry {
                kind,
                text: text.to_string(),
            })
            .collect(),
    }
}

#[test]
fn context_only_success_is_quiet() {
    let run = run(
        HookRunStatus::Completed,
        vec![(HookOutputEntryKind::Context, "private context")],
    );
    assert!(is_quiet_success(&run));
    assert!(output_details(&run).is_empty());
}

#[test]
fn non_context_outputs_are_bounded_and_compact() {
    let run = run(
        HookRunStatus::Failed,
        (0..6)
            .map(|index| {
                (
                    HookOutputEntryKind::Error,
                    if index == 0 { "first\nsecond" } else { "output" },
                )
            })
            .collect(),
    );
    assert!(!is_quiet_success(&run));
    assert_eq!(output_details(&run).len(), MAX_OUTPUTS);
    assert_eq!(output_details(&run)[0], "hook output: first");
    assert_eq!(status_text(HookRunStatus::Blocked), Some("hook blocked"));
}

#[test]
fn running_hooks_have_no_status_line() {
    assert_eq!(status_text(HookRunStatus::Running), None);
    assert_eq!(status_text(HookRunStatus::Completed), Some("hook completed"));
}

#[test]
fn compact_text_keeps_the_first_line_and_marks_a_cut() {
    assert_eq!(compact_text("first\nsecond"), "first");
    let long = "x".repeat(161);
    assert_eq!(compact_text(&long), format!("{}...", "x".repeat(160)));
    assert_eq!(compact_text(&"y".repeat(160)), "y".repeat(160));
}

#[test]
fn sanitize_user_text_drops_control_sequences() {
    assert_eq!(sanitize_user_text("a\x1b[31mred\x1b[0m b"), "ared b");
    assert_eq!(sanitize_user_text("tab\tline\nbell\x07"), "tab\tline\nbell");
    assert_eq!(sanitize_user_text("plain"), "plain");
}

#[test]
fn message_cells_use_message_entries() {
    let e = message_entry(EntryKind::Assistant, "text".to_string(), true);
    assert_eq!(e.id, "");
    assert_eq!(e.kind, EntryKind::Assistant);
    assert!(e.streaming);
    assert!(e.status.is_none());

    let agent = AgentMessageCell::new("answer".to_string(), true);
    assert!(agent.is_stream_continuation());
    assert_eq!(agent.entry().text, "answer");
    assert_eq!(agent.entry().kind, EntryKind::Assistant);

    let user = UserHistoryCell::new("hi".to_string());
    assert_eq!(user.entry().kind, EntryKind::User);
    assert!(!user.entry().streaming);

    assert_eq!(
        ReasoningSummaryCell::new("why".to_string()).entry().kind,
        EntryKind::Reasoning
    );
    assert_eq!(PatchHistoryCell::new("p".to_string()).entry().kind, EntryKind::Patch);
    assert_eq!(PlanUpdateCell::new("q".to_string()).entry().kind, EntryKind::Plan);

    let notice = NoticeCell::new(NoticeKind::Deprecation, "old flag".to_string());
    assert_eq!(notice.entry().kind, EntryKind::System);
    assert_eq!(notice.raw_lines(), vec!["old flag"]);
}

#[test]
fn exec_cell_joins_commands_and_outputs() {
    let mut cell = ExecCell::new(ExecCall {
        call_id: "call-1".to_string(),
        command: "ls".to_string(),
        output: Some(CommandOutput::new(0, "a\nb".to_string())),
        streaming: false,
    });
    cell.add_call(ExecCall {
        call_id: "call-2".to_string(),
        command: "pwd".to_string(),
        output: Some(CommandOutput::new(0, String::new())),
        streaming: true,
    });
    assert_eq!(cell.iter_calls().len(), 2);
    assert!(cell.is_stream_continuation());
    let e = cell.entry();
    assert_eq!(e.id, "call-1");
    assert_eq!(e.kind, EntryKind::Command);
    assert_eq!(e.text, "ls\na\nb\npwd");
    assert!(e.streaming);
}

#[test]
fn approval_decisions_name_actor_decision_and_subject() {
    let cell = new_approval_decision_cell(
        ApprovalDecisionSubject::Command(vec!["git".to_string(), "push".to_string()]),
        ReviewDecision::ApprovedForSession,
        ApprovalDecisionActor::User,
    );
    assert_eq!(cell.lines, vec!["user approved for session: git push"]);
    let cell = new_approval_decision_cell(
        ApprovalDecisionSubject::NetworkAccess {
            target: "example.com".to_string(),
        },
        ReviewDecision::TimedOut,
        ApprovalDecisionActor::Policy,
    );
    assert_eq!(cell.lines, vec!["policy timed out: example.com"]);
}

fn block(kind: Option<&str>, text: Option<&str>) -> ContentBlock {
    ContentBlock {
        kind: kind.map(str::to_string),
        text: text.map(str::to_string),
    }
}

#[test]
fn computer_activity_keeps_title_and_screenshot_fact_without_media() {
    let content = vec![block(Some("image"), None)];
    let details = summary(Some("Capture calendar"), Some(&content), None);
    assert_eq!(
        details,
        vec![
            "computer action: Capture calendar",
            "computer screenshot: captured"
        ]
    );
    assert!(details.iter().all(|detail| !detail.contains("secret")));
}

#[test]
fn computer_activity_bounds_provider_diagnostics() {
    let details = summary(None, None, Some("failed\nfull provider manual"));
    assert_eq!(details[0], "computer action: Computer action");
    assert_eq!(details[1], "computer error: failed");
}

#[test]
fn computer_activity_bounds_multiline_titles_before_projection() {
    let title = format!("{}\nprovider manual", "a".repeat(200));
    let details = summary(Some(&title), None, None);
    assert_eq!(details.len(), 1);
    assert_eq!(
        details[0].chars().count(),
        "computer action: ".chars().count() + 163
    );
    assert!(details[0].ends_with("..."));
    assert!(!details[0].contains("provider manual"));
}

#[test]
fn computer_activity_counts_screenshots_and_reads_script_errors() {
    assert!(is_computer_activity("cua_repl"));
    assert!(!is_computer_activity("other"));
    let content = vec![
        block(Some("image"), None),
        block(Some("text"), Some("Script error:   boom\nmore")),
        block(Some("image"), None),
        block(Some("text"), Some("Script error: second")),
    ];
    let details = summary(Some("  "), Some(&content), None);
    assert_eq!(
        details,
        vec![
            "computer action: Computer action",
            "computer screenshot: 2 captured",
            "computer error: boom",
        ]
    );
}

#[test]
fn summary_keeps_bounded_text_and_structured_facts() {
    let result = McpToolCallResult {
        content: vec![
            block(Some("text"), Some("first line\nsecret")),
            block(Some("image"), None),
            block(Some("resource_link"), None),
            block(Some("future"), None),
        ],
        structured_content: Some("{\"matches\":1}".to_string()),
        meta_truncated: true,
        meta_output_available: true,
    };
    let details =
        lime_tui::history_cell::mcp_result::summary(Some(&result), Some("failed"), Some(7));
    assert_eq!(
        details,
        vec![
            "result items: 4",
            "content types: text=1, image=1, resource-link=1, unknown=1",
            "output: first line",
            "structured content: {\"matches\":1}",
            "truncated",
            "output available",
            "error: failed",
            "duration 7ms",
        ]
    );
    assert!(details.iter().all(|detail| !detail.contains("secret")));
}

#[test]
fn content_previews_cap_items_and_length() {
    let long = "x".repeat(161);
    let content = vec![
        block(Some("text"), Some("a\nb")),
        block(Some("text"), Some(&long)),
        block(Some("image"), None),
        block(Some("text"), Some("c")),
        block(Some("text"), Some("d")),
        block(Some("text"), Some("e")),
        block(Some("text"), Some("f")),
    ];
    let previews = content_previews(&content);
    assert_eq!(previews.len(), 4);
    assert_eq!(previews[0], "output: a");
    assert_eq!(previews[1], format!("output: {}...", "x".repeat(160)));
    assert_eq!(previews[2], "output: c");
    assert_eq!(previews[3], "output: d");
}

#[test]
fn tool_invocations_and_empty_content_summaries() {
    assert_eq!(content_type_summary(&Vec::new()), "");
    assert_eq!(
        content_type_summary(&vec![block(Some("audio"), None), block(None, None)]),
        "audio=1, unknown=1"
    );
    assert_eq!(
        invocation_text("files", "read", "{\"path\":\"a\"}"),
        "files.read({\"path\":\"a\"})"
    );
    assert_eq!(
        lime_tui::history_cell::mcp_result::summary(None, None, Some(-3)),
        vec!["duration -3ms"]
    );
}

#[test]
fn session_header_card_width_and_labels() {
    assert_eq!(card_inner_width(3), None);
    assert_eq!(card_inner_width(4), Some(0));
    assert_eq!(card_inner_width(40), Some(36));
    assert_eq!(card_inner_width(200), Some(56));
    assert_eq!(padded_label("model", 8), "model   ");
    assert_eq!(padded_label("directory", 4), "directory");
    assert_eq!(padded_label("模型", 6), "模型  ");
}

#[test]
fn session_header_raw_lines_show_home_relative_directories() {
    let mut header = SessionHeaderHistoryCell::new(
        "fixture-model".to_string(),
        Some("high".to_string()),
        Some(":workspace".to_string()),
        "/home/me/project".to_string(),
        "1.2.3".to_string(),
        Locale::EnUs,
    );
    assert_eq!(header.format_directory(Some("/home/me"), '/'), "~/project");
    assert_eq!(header.format_directory(Some("/elsewhere"), '/'), "/home/me/project");
    assert_eq!(header.format_directory(None, '/'), "/home/me/project");
    let lines = header.raw_lines(Some("/home/me"), '/');
    assert_eq!(lines.len(), 3);
    assert_eq!(lines[0], "Lime (v1.2.3)");
    assert!(lines[1].ends_with(": fixture-model high"));
    assert!(lines[2].ends_with(": ~/project"));

    header.permissions = Some(":danger-full-access".to_string());
    header.directory = "/home/me".to_string();
    let lines = header.raw_lines(Some("/home/me"), '/');
    assert_eq!(lines.len(), 4);
    assert!(lines[2].ends_with(": ~"));
    assert!(lines[3].ends_with(": :danger-full-access"));
}

#[test]
fn web_search_detail_prefers_typed_action_fields() {
    assert_eq!(
        web_search_detail(
            "canonical",
            Some(&WebSearchAction::FindInPage {
                url: Some("https://example.test".to_string()),
                pattern: Some("release".to_string()),
            }),
        ),
        "'release' in https://example.test"
    );
    assert_eq!(
        web_search_detail(
            "canonical",
            Some(&WebSearchAction::Search {
                query: None,
                queries: Some(vec!["first".to_string(), "second".to_string()]),
            }),
        ),
        "first ..."
    );
}

#[test]
fn web_search_detail_fails_closed_to_query() {
    // A payload of unknown shape reaches the library as no action at all.
    assert_eq!(web_search_detail("canonical query", None), "canonical query");
    for action in [
        WebSearchAction::Other,
        WebSearchAction::OpenPage { url: None },
        WebSearchAction::Search { query: Some(String::new()), queries: None },
        WebSearchAction::FindInPage { url: None, pattern: None },
    ] {
        assert_eq!(
            web_search_detail("canonical query", Some(&action)),
            "canonical query"
        );
    }
}

#[test]
fn context_entries_stay_hidden_among_shown_outputs() {
    let run = run(
        HookRunStatus::Completed,
        vec![
            (HookOutputEntryKind::Context, "model-facing"),
            (HookOutputEntryKind::Error, "visible"),
            (HookOutputEntryKind::Context, "also hidden"),
            (HookOutputEntryKind::Error, "   "),
        ],
    );
    assert_eq!(output_details(&run), vec!["hook output: visible"]);
}

#[test]
fn details_are_one_bounded_line_and_shown_text_has_no_controls() {
    let long = format!("{}\nrest", "z".repeat(500));
    let detail = compact_text(&long);
    assert_eq!(detail.chars().count(), 163);
    assert!(!detail.contains('\n'));
    let shown = sanitize_user_text("\x1b[1;32mok\x1b\x7f\x1b]x\r\n\tend");
    assert!(shown
        .chars()
        .all(|c| c != '\x1b' && (!c.is_control() || c == '\n' || c == '\t')));
    assert_eq!(shown, "ok]x\n\tend");
}

#[test]
fn request_user_input_record_counts_answers_and_lists_each_question() {
    let question = |id: &str, text: &str| ToolRequestUserInputQuestion {
        id: id.to_string(),
        question: text.to_string(),
    };
    let cell = RequestUserInputResultCell::new(
        vec![
            question("q1", "Which branch?"),
            question("q2", "Run tests?"),
            question("q3", "Anything else?"),
        ],
        vec![
            (
                "q2".to_string(),
                ToolRequestUserInputAnswer {
                    answers: vec!["yes".to_string()],
                },
            ),
            (
                "q1".to_string(),
                ToolRequestUserInputAnswer {
                    answers: vec!["main".to_string(), "dev".to_string()],
                },
            ),
        ],
        true,
    );
    assert_eq!(
        cell.display_lines(20),
        vec![
            "Questions 2/3 answered (interrupted)",
            "Which branch?: main, dev",
            "Run tests?: yes",
            "Anything else?: (unanswered)",
        ]
    );
    assert_eq!(cell.raw_lines(), cell.display_lines(80));
    let empty = RequestUserInputResultCell::new(Vec::new(), Vec::new(), false);
    assert_eq!(empty.raw_lines(), vec!["Questions 0/0 answered"]);
}

#[test]
fn mcp_server_states_read_as_words() {
    assert_eq!(
        mcp_connection_status_label(Some(McpServerConnectionStatus::Connected), McpAuthStatus::OAuth),
        "connected"
    );
    assert_eq!(
        mcp_connection_status_label(None, McpAuthStatus::NotLoggedIn),
        "authentication required"
    );
    assert_eq!(mcp_connection_status_label(None, McpAuthStatus::Unknown), "unknown");
    assert_eq!(
        mcp_connection_status_label(Some(McpServerConnectionStatus::NotStarted), McpAuthStatus::Unknown),
        "not started"
    );
    assert_eq!(mcp_auth_status_label(McpAuthStatus::BearerToken), "bearer token");
    assert_eq!(mcp_auth_status_label(McpAuthStatus::OAuth), "OAuth");
    let cell = McpToolCallCell::new(
        "call-1".to_string(),
        McpInvocation {
            server: "docs".to_string(),
            tool: "search".to_string(),
            arguments: None,
        },
    );
    assert!(cell.result.is_none() && !cell.failed);
    assert_eq!(cell.invocation.tool, "search");
}

#[test]
fn home_relative_directories_use_the_platform_separator() {
    let header = SessionHeaderHistoryCell::new(
        "fixture-model".to_string(),
        None,
        None,
        "/home/me/project".to_string(),
        "1.2.3".to_string(),
        Locale::EnUs,
    );
    assert_eq!(header.format_directory(Some("/home/me"), '\\'), "~\\project");
    assert!(header.raw_lines(Some("/home/me"), '\\')[2].ends_with(": ~\\project"));
}

#[test]
fn a_later_answer_to_a_question_replaces_the_earlier_one() {
    let answer = |text: &str| ToolRequestUserInputAnswer {
        answers: vec![text.to_string()],
    };
    let cell = RequestUserInputResultCell::new(
        vec![ToolRequestUserInputQuestion {
            id: "q1".to_string(),
            question: "Which branch?".to_string(),
        }],
        vec![
            ("q1".to_string(), answer("main")),
            ("q1".to_string(), answer("dev")),
        ],
        false,
    );
    assert_eq!(
        cell.raw_lines(),
        vec!["Questions 1/1 answered", "Which branch?: dev"]
    );
}
