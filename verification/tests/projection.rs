use lime_tui::history_cell::computer_activity::ContentBlock;
use lime_tui::history_cell::mcp_result::McpToolCallResult;
use lime_tui::history_cell::search::WebSearchAction;
use lime_tui::history_filter::hidden_user_message_ids;
use lime_tui::multi_agents::{
    AgentStates, CollabAgentState, CollabAgentStatus, CollabAgentTool, CollabAgentToolCall,
    CollabAgentToolCallStatus,
};
use lime_tui::projection::items::{dynamic_summary, format_patch, project_item};
use lime_tui::projection::{
    CompletionMetadata, ConversationProjection, EntryKind, EntryStatus, HookOutputEntry,
    HookOutputEntryKind, HookRunStatus, HookRunSummary, MessagePhase, TranscriptEntry, TurnStatus,
};
use lime_tui::protocol::{
    CommandExecutionStatus, DynamicContentItem, FileUpdateChange, PatchApplyStatus,
    PatchChangeKind, ServerNotification, Thread, ThreadItem, ToolCallStatus, Turn, TurnPlanStep,
    TurnPlanStepStatus, UserInput,
};

fn user_message(id: &str, text: &str) -> ThreadItem {
    ThreadItem::UserMessage {
        id: id.to_string(),
        client_id: None,
        content: vec![UserInput::Text(text.to_string())],
    }
}

fn agent_message(id: &str, text: &str, phase: Option<MessagePhase>) -> ThreadItem {
    ThreadItem::AgentMessage {
        id: id.to_string(),
        text: text.to_string(),
        phase,
    }
}

fn review_boundary(id: &str, entered: bool) -> ThreadItem {
    if entered {
        ThreadItem::EnteredReviewMode {
            id: id.to_string(),
            review: "review".to_string(),
        }
    } else {
        ThreadItem::ExitedReviewMode {
            id: id.to_string(),
            review: "review".to_string(),
        }
    }
}

fn test_thread(turns: Vec<Turn>) -> Thread {
    Thread { turns }
}

fn test_turn(id: &str, status: TurnStatus, items: Vec<ThreadItem>) -> Turn {
    Turn {
        id: id.to_string(),
        items,
        status,
        completed_at: if matches!(status, TurnStatus::Completed | TurnStatus::Failed) {
            Some(2)
        } else {
            None
        },
        duration_ms: Some(1),
    }
}

fn completed_turn(id: &str, status: TurnStatus, items: Vec<ThreadItem>) -> Turn {
    Turn {
        id: id.to_string(),
        items,
        status,
        completed_at: Some(2),
        duration_ms: Some(1),
    }
}

fn hook_run(
    id: &str,
    status: HookRunStatus,
    status_message: Option<&str>,
    entries: Vec<(HookOutputEntryKind, &str)>,
) -> HookRunSummary {
    HookRunSummary {
        id: id.to_string(),
        status,
        status_message: status_message.map(str::to_string),
        entries: entries
            .into_iter()
            .map(|(kind, text)| HookOutputEntry {
                kind,
                text: text.to_string(),
            })
            .collect(),
    }
}

fn hook_started(run: HookRunSummary, turn_id: Option<&str>) -> ServerNotification {
    ServerNotification::HookStarted {
        turn_id: turn_id.map(str::to_string),
        run,
    }
}

fn hook_completed(run: HookRunSummary) -> ServerNotification {
    ServerNotification::HookCompleted { run }
}

fn completed(item: ThreadItem) -> ServerNotification {
    ServerNotification::ItemCompleted { item }
}

fn started(item: ThreadItem) -> ServerNotification {
    ServerNotification::ItemStarted { item }
}

fn agent_delta(item_id: &str, delta: &str) -> ServerNotification {
    ServerNotification::AgentMessageDelta {
        item_id: item_id.to_string(),
        delta: delta.to_string(),
    }
}

fn texts(projection: &ConversationProjection) -> Vec<String> {
    projection
        .entries()
        .iter()
        .map(|entry| entry.text.clone())
        .collect()
}

fn same_entry(a: &TranscriptEntry, b: &TranscriptEntry) -> bool {
    a.id == b.id
        && a.kind == b.kind
        && a.text == b.text
        && a.streaming == b.streaming
        && a.status == b.status
        && a.summary == b.summary
}

#[test]
fn hook_started_exposes_running_status_without_transcript_entry() {
    let mut projection = ConversationProjection::new();
    projection.apply(hook_started(
        hook_run("hook-1", HookRunStatus::Running, None, Vec::new()),
        Some("turn-1"),
    ));

    assert_eq!(projection.status(), "running hook");
    assert!(projection.entries().is_empty());

    projection.apply(hook_started(
        hook_run("hook-1", HookRunStatus::Running, Some("checking files"), Vec::new()),
        Some("turn-1"),
    ));
    assert_eq!(projection.status(), "checking files");
}

#[test]
fn multiple_running_hooks_use_shared_message_or_plural_status() {
    let mut projection = ConversationProjection::new();
    projection.apply(hook_started(
        hook_run("hook-1", HookRunStatus::Running, Some("checking"), Vec::new()),
        Some("turn-1"),
    ));
    projection.apply(hook_started(
        hook_run("hook-2", HookRunStatus::Running, Some("checking"), Vec::new()),
        Some("turn-1"),
    ));
    assert_eq!(projection.status(), "checking");

    projection.apply(hook_started(
        hook_run("hook-3", HookRunStatus::Running, Some("waiting"), Vec::new()),
        Some("turn-1"),
    ));
    assert_eq!(projection.status(), "running hooks");
}

#[test]
fn context_only_successful_hook_is_hidden_from_transcript() {
    let mut projection = ConversationProjection::new();
    projection.start_turn("turn-1".to_string());
    projection.apply(hook_started(
        hook_run("hook-1", HookRunStatus::Running, None, Vec::new()),
        Some("turn-1"),
    ));
    projection.apply(hook_completed(hook_run(
        "hook-1",
        HookRunStatus::Completed,
        None,
        vec![(HookOutputEntryKind::Context, "private model context")],
    )));

    assert_eq!(projection.status(), "running");
    assert!(projection.entries().is_empty());
}

#[test]
fn non_successful_hooks_render_bounded_user_visible_summary() {
    for (status, label) in [
        (HookRunStatus::Failed, "hook failed"),
        (HookRunStatus::Blocked, "hook blocked"),
        (HookRunStatus::Stopped, "hook stopped"),
    ] {
        let mut projection = ConversationProjection::new();
        let mut run = hook_run(
            "hook-1",
            status,
            None,
            vec![
                (HookOutputEntryKind::Context, "private model context"),
                (HookOutputEntryKind::Feedback, "visible output\nsecond line"),
            ],
        );
        run.entries.extend((0..6).map(|_| HookOutputEntry {
            kind: HookOutputEntryKind::Warning,
            text: "additional output".to_string(),
        }));
        projection.apply(hook_completed(run));

        assert_eq!(projection.entries().len(), 1);
        let entry = &projection.entries()[0];
        assert_eq!(entry.text, label);
        assert_eq!(entry.status, Some(EntryStatus::Failed));
        assert_eq!(entry.summary.len(), 4);
        assert_eq!(entry.summary[0], "hook output: visible output");
        assert!(!entry
            .summary
            .iter()
            .any(|summary| summary.contains("private model context")));
    }
}

#[test]
fn turn_completion_clears_only_hooks_owned_by_that_turn() {
    let mut projection = ConversationProjection::new();
    projection.apply(hook_started(
        hook_run("hook-1", HookRunStatus::Running, None, Vec::new()),
        Some("turn-1"),
    ));
    projection.apply(hook_started(
        hook_run("hook-2", HookRunStatus::Running, None, Vec::new()),
        Some("turn-2"),
    ));

    projection.apply(ServerNotification::TurnCompleted {
        turn: test_turn("turn-1", TurnStatus::Completed, Vec::new()),
    });
    assert_eq!(projection.status(), "running hook");

    projection.apply(hook_completed(hook_run(
        "hook-2",
        HookRunStatus::Completed,
        None,
        Vec::new(),
    )));
    assert_eq!(projection.status(), "ready");
}

#[test]
fn hydrate_thread_hides_review_prompt_but_keeps_boundaries() {
    let mut projection = ConversationProjection::new();
    projection.hydrate_thread(test_thread(vec![test_turn(
        "turn-review",
        TurnStatus::Completed,
        vec![
            review_boundary("enter", true),
            user_message("review-prompt", "内部 review prompt"),
            review_boundary("exit", false),
            user_message("visible", "普通请求"),
        ],
    )]));

    let texts = texts(&projection);
    assert_eq!(
        texts,
        vec!["review started: review", "review completed: review", "普通请求"]
    );
    assert!(!texts.iter().any(|text| text.contains("内部 review prompt")));
}

#[test]
fn hydrate_thread_hides_unfinished_nested_review_duplicate_only() {
    let mut projection = ConversationProjection::new();
    projection.hydrate_thread(test_thread(vec![
        test_turn(
            "turn-review",
            TurnStatus::Completed,
            vec![review_boundary("enter", true), review_boundary("exit", false)],
        ),
        test_turn(
            "turn-nested",
            TurnStatus::Interrupted,
            vec![
                user_message("nested-1", "重复请求"),
                user_message("nested-2", "重复请求"),
            ],
        ),
        test_turn(
            "turn-normal",
            TurnStatus::Completed,
            vec![
                user_message("normal-1", "重复请求"),
                user_message("normal-2", "重复请求"),
            ],
        ),
    ]));

    let visible_user_texts = projection
        .entries()
        .iter()
        .filter(|entry| entry.kind == EntryKind::User)
        .map(|entry| entry.text.as_str())
        .collect::<Vec<_>>();
    assert_eq!(visible_user_texts, vec!["重复请求", "重复请求"]);
}

#[test]
fn realtime_review_boundary_hides_only_messages_inside_interval() {
    let mut projection = ConversationProjection::new();
    projection.apply(completed(user_message("before", "普通请求")));
    projection.apply(completed(review_boundary("enter", true)));
    projection.apply(completed(user_message("hidden", "内部 review prompt")));
    projection.apply(completed(review_boundary("exit", false)));
    projection.apply(completed(user_message("after", "普通请求 2")));

    let visible_user_texts = projection
        .entries()
        .iter()
        .filter(|entry| entry.kind == EntryKind::User)
        .map(|entry| entry.text.as_str())
        .collect::<Vec<_>>();
    assert_eq!(visible_user_texts, vec!["普通请求", "普通请求 2"]);
}

#[test]
fn completed_agent_item_replaces_streaming_delta() {
    let mut projection = ConversationProjection::new();
    projection.apply(agent_delta("item-1", "你"));
    projection.apply(agent_delta("item-1", "好"));
    projection.apply(completed(agent_message("item-1", "你好。", None)));

    assert_eq!(projection.entries().len(), 1);
    assert_eq!(projection.entries()[0].text, "你好。");
    assert!(!projection.entries()[0].streaming);
    assert_eq!(projection.final_answer(), "你好。");
}

#[test]
fn late_agent_delta_does_not_reopen_completed_item() {
    let mut projection = ConversationProjection::new();
    projection.apply(completed(agent_message("item-1", "canonical", None)));
    projection.apply(agent_delta("item-1", " late"));

    assert_eq!(projection.entries()[0].text, "canonical");
    assert!(!projection.entries()[0].streaming);
}

#[test]
fn commentary_agent_messages_are_visible_but_not_final_answers() {
    let mut projection = ConversationProjection::new();
    projection.apply(completed(agent_message(
        "commentary-1",
        "正在检查实现",
        Some(MessagePhase::Commentary),
    )));

    assert_eq!(projection.entries().len(), 1);
    assert_eq!(projection.entries()[0].text, "正在检查实现");
    assert_eq!(projection.final_answer(), "");
}

#[test]
fn final_answer_phase_wins_over_older_commentary() {
    let mut projection = ConversationProjection::new();
    projection.apply(completed(agent_message(
        "commentary-1",
        "正在检查实现",
        Some(MessagePhase::Commentary),
    )));
    projection.apply(completed(agent_message(
        "final-1",
        "实现已完成",
        Some(MessagePhase::FinalAnswer),
    )));

    assert_eq!(projection.final_answer(), "实现已完成");
}

#[test]
fn legacy_agent_messages_without_phase_remain_final_answers() {
    let mut projection = ConversationProjection::new();
    projection.apply(completed(agent_message("legacy-1", "兼容回答", None)));

    assert_eq!(projection.final_answer(), "兼容回答");
}

#[test]
fn streamed_agent_message_phase_is_repaired_by_item_completion() {
    let mut projection = ConversationProjection::new();
    projection.apply(agent_delta("streamed-1", "内部进度"));
    projection.apply(completed(agent_message(
        "streamed-1",
        "内部进度",
        Some(MessagePhase::Commentary),
    )));
    assert_eq!(projection.final_answer(), "");

    projection.apply(completed(agent_message(
        "streamed-1",
        "公开回答",
        Some(MessagePhase::FinalAnswer),
    )));
    assert_eq!(projection.final_answer(), "公开回答");
}

#[test]
fn reasoning_summary_parts_keep_streamed_section_boundaries() {
    let mut projection = ConversationProjection::new();
    projection.apply(ServerNotification::ReasoningSummaryTextDelta {
        item_id: "reasoning-1".to_string(),
        delta: "检查输入".to_string(),
    });
    projection.apply(ServerNotification::ReasoningSummaryPartAdded {
        item_id: "reasoning-1".to_string(),
    });
    projection.apply(ServerNotification::ReasoningSummaryTextDelta {
        item_id: "reasoning-1".to_string(),
        delta: "准备回答".to_string(),
    });

    assert_eq!(projection.entries()[0].text, "检查输入\n准备回答");
    assert!(projection.entries()[0].streaming);
}

#[test]
fn reasoning_summary_updates_running_status_with_latest_usable_line() {
    let mut projection = ConversationProjection::new();
    projection.start_turn("turn-1".to_string());

    projection.apply(ServerNotification::ReasoningSummaryTextDelta {
        item_id: "reasoning-1".to_string(),
        delta: "**Checking tests**".to_string(),
    });
    assert_eq!(projection.status(), "Checking tests");

    projection.apply(ServerNotification::ReasoningSummaryTextDelta {
        item_id: "reasoning-1".to_string(),
        delta: "\n<!-- progress -->\nPreparing response".to_string(),
    });
    assert_eq!(projection.status(), "Preparing response");

    projection.apply(ServerNotification::TurnCompleted {
        turn: test_turn("turn-1", TurnStatus::Completed, Vec::new()),
    });
    assert_eq!(projection.status(), "ready");
}

#[test]
fn explicit_status_clears_reasoning_summary_header() {
    let mut projection = ConversationProjection::new();
    projection.start_turn("turn-1".to_string());
    projection.apply(ServerNotification::ReasoningSummaryTextDelta {
        item_id: "reasoning-1".to_string(),
        delta: "**Checking**".to_string(),
    });
    assert_eq!(projection.status(), "Checking");

    projection.set_status("waiting for input");
    assert_eq!(projection.status(), "waiting for input");
}

#[test]
fn late_reasoning_section_boundary_does_not_mutate_completed_history() {
    let mut projection = ConversationProjection::new();
    projection.apply(completed(ThreadItem::Reasoning {
        id: "reasoning-1".to_string(),
        summary: vec!["已完成".to_string()],
        content: Vec::new(),
    }));
    projection.apply(ServerNotification::ReasoningSummaryPartAdded {
        item_id: "reasoning-1".to_string(),
    });
    projection.apply(ServerNotification::ReasoningSummaryTextDelta {
        item_id: "reasoning-1".to_string(),
        delta: " late".to_string(),
    });

    assert_eq!(projection.entries()[0].text, "已完成");
    assert!(!projection.entries()[0].streaming);
}

#[test]
fn hydrated_thread_uses_the_same_phase_aware_final_answer_rule() {
    let mut projection = ConversationProjection::new();
    projection.hydrate_thread(test_thread(vec![test_turn(
        "turn-1",
        TurnStatus::Completed,
        vec![
            agent_message("commentary-1", "历史进度", Some(MessagePhase::Commentary)),
            agent_message("final-1", "历史最终回答", Some(MessagePhase::FinalAnswer)),
        ],
    )]));

    assert_eq!(projection.final_answer(), "历史最终回答");
}

fn image_message() -> ThreadItem {
    ThreadItem::UserMessage {
        id: "user-images".to_string(),
        client_id: None,
        content: vec![
            UserInput::Image,
            UserInput::Text("describe these".to_string()),
            UserInput::LocalImage {
                path: "C:/Users/alice/private.png".to_string(),
            },
        ],
    }
}

#[test]
fn user_message_images_are_numbered_without_retaining_sources() {
    let mut live = ConversationProjection::new();
    live.apply(completed(image_message()));
    let mut persisted = ConversationProjection::new();
    persisted.hydrate_thread(test_thread(vec![test_turn(
        "turn-1",
        TurnStatus::Completed,
        vec![image_message()],
    )]));

    assert_eq!(live.entries().len(), persisted.entries().len());
    assert!(same_entry(&live.entries()[0], &persisted.entries()[0]));
    let entry = &live.entries()[0];
    assert_eq!(entry.text, "describe these");
    assert_eq!(entry.summary, vec!["image: 1", "image: 2"]);
    assert!(!entry.text.contains("private-payload"));
    assert!(!entry.text.contains("alice"));
}

#[test]
fn hydrate_thread_restores_items_and_active_turn_identity() {
    let mut projection = ConversationProjection::new();
    projection.hydrate_thread(test_thread(vec![Turn {
        id: "turn-restore".to_string(),
        items: vec![agent_message("item-restore", "已恢复", None)],
        status: TurnStatus::InProgress,
        completed_at: None,
        duration_ms: None,
    }]));

    assert_eq!(projection.active_turn_id(), Some("turn-restore"));
    assert_eq!(projection.status(), "running");
    assert_eq!(projection.final_answer(), "已恢复");
}

#[test]
fn start_turn_records_active_turn_from_request_response() {
    let mut projection = ConversationProjection::new();
    projection.start_turn("turn-response".to_string());

    assert_eq!(projection.active_turn_id(), Some("turn-response"));
    assert_eq!(projection.status(), "running");
}

#[test]
fn plan_and_diff_notifications_replace_stable_projection_entries() {
    let mut projection = ConversationProjection::new();
    projection.apply(ServerNotification::TurnPlanUpdated {
        turn_id: "turn-1".to_string(),
        plan: vec![TurnPlanStep {
            step: "运行测试".to_string(),
            status: TurnPlanStepStatus::InProgress,
        }],
    });
    projection.apply(ServerNotification::TurnDiffUpdated {
        turn_id: "turn-1".to_string(),
        diff: "@@ -1 +1 @@\n-旧\n+新".to_string(),
    });
    projection.apply(ServerNotification::FileChangePatchUpdated {
        item_id: "patch-1".to_string(),
        changes: vec![FileUpdateChange {
            path: "src/lib.rs".to_string(),
            kind: PatchChangeKind::Update { move_path: None },
            diff: "+新".to_string(),
        }],
    });

    assert_eq!(projection.entries().len(), 3);
    assert!(projection.entries()[0].text.contains("运行测试"));
    assert_eq!(projection.entries()[0].kind, EntryKind::Plan);
    assert!(projection.entries()[1].text.contains("+新"));
    assert_eq!(projection.entries()[1].kind, EntryKind::Patch);
    assert!(projection.entries()[2].text.contains("src/lib.rs"));
    assert_eq!(projection.entries()[2].kind, EntryKind::Patch);
}

#[test]
fn patch_format_preserves_rename_destination() {
    let text = format_patch(&vec![FileUpdateChange {
        path: "/workspace/src/old.rs".to_string(),
        kind: PatchChangeKind::Update {
            move_path: Some("/workspace/src/new.rs".to_string()),
        },
        diff: "@@ -1 +1 @@\n-old\n+new".to_string(),
    }]);

    assert!(text.starts_with("updated /workspace/src/old.rs → /workspace/src/new.rs\n"));
}

fn web_search(query: Option<&str>, action: Option<WebSearchAction>) -> ThreadItem {
    ThreadItem::WebSearch {
        id: "web-search".to_string(),
        query: query.map(str::to_string),
        action,
    }
}

#[test]
fn web_search_action_details_follow_codex_display_contract() {
    let cases = [
        (
            Some(WebSearchAction::Search {
                query: Some("Rust release".to_string()),
                queries: None,
            }),
            Some("canonical query"),
            "web search: Rust release",
        ),
        (
            Some(WebSearchAction::Search {
                query: None,
                queries: Some(vec!["first query".to_string(), "second query".to_string()]),
            }),
            None,
            "web search: first query ...",
        ),
        (
            Some(WebSearchAction::OpenPage {
                url: Some("https://example.test/page".to_string()),
            }),
            None,
            "web search: https://example.test/page",
        ),
        (
            Some(WebSearchAction::FindInPage {
                url: Some("https://example.test/page".to_string()),
                pattern: Some("release".to_string()),
            }),
            None,
            "web search: 'release' in https://example.test/page",
        ),
        (
            Some(WebSearchAction::FindInPage {
                url: None,
                pattern: Some("release".to_string()),
            }),
            None,
            "web search: 'release'",
        ),
    ];

    for (action, query, expected) in cases {
        let entry = project_item(&web_search(query, action), false).expect("web search projection");
        assert_eq!(entry.text, expected);
    }
}

#[test]
fn web_search_realtime_lifecycle_uses_codex_started_and_completed_labels() {
    let mut projection = ConversationProjection::new();
    projection.apply(started(web_search(Some("Rust release"), None)));
    assert_eq!(projection.entries()[0].text, "searching the web Rust release");
    assert!(projection.entries()[0].streaming);

    projection.apply(completed(web_search(Some("Rust release"), None)));
    assert_eq!(
        projection.entries()[0].text,
        "searched the web for Rust release"
    );
    assert!(!projection.entries()[0].streaming);
}

#[test]
fn completed_turn_repair_keeps_web_search_completed_label() {
    let mut projection = ConversationProjection::new();
    projection.apply(started(web_search(Some("Rust release"), None)));
    projection.apply(ServerNotification::TurnCompleted {
        turn: test_turn(
            "turn-1",
            TurnStatus::Completed,
            vec![web_search(Some("Rust release"), None)],
        ),
    });

    assert_eq!(
        projection.entries()[0].text,
        "searched the web for Rust release"
    );
    assert!(!projection.entries()[0].streaming);
}

#[test]
fn web_search_persisted_projection_is_status_agnostic() {
    let entry =
        project_item(&web_search(Some("Rust release"), None), false).expect("web search projection");
    assert_eq!(entry.text, "web search: Rust release");
}

#[test]
fn web_search_malformed_or_unknown_action_falls_back_to_query() {
    for action in [
        None,
        Some(WebSearchAction::Other),
        Some(WebSearchAction::OpenPage { url: None }),
        Some(WebSearchAction::Search {
            query: None,
            queries: None,
        }),
    ] {
        let entry = project_item(&web_search(Some("canonical query"), action), false)
            .expect("web search projection");
        assert_eq!(entry.text, "web search: canonical query");
    }
}

fn command_item(
    id: &str,
    command: &str,
    status: CommandExecutionStatus,
    aggregated_output: Option<&str>,
) -> ThreadItem {
    ThreadItem::CommandExecution {
        id: id.to_string(),
        command: command.to_string(),
        status,
        aggregated_output: aggregated_output.map(str::to_string),
        exit_code: if status == CommandExecutionStatus::Completed {
            Some(0)
        } else {
            None
        },
        duration_ms: None,
    }
}

fn block(kind: Option<&str>, text: Option<&str>) -> ContentBlock {
    ContentBlock {
        kind: kind.map(str::to_string),
        text: text.map(str::to_string),
    }
}

fn states(entries: Vec<(&str, CollabAgentStatus, Option<&str>)>) -> AgentStates {
    let mut states = AgentStates::new();
    for (id, status, message) in entries {
        states.insert(
            id.to_string(),
            CollabAgentState {
                status,
                message: message.map(str::to_string),
            },
        );
    }
    states
}

fn collab(
    id: &str,
    tool: CollabAgentTool,
    receivers: Vec<&str>,
    prompt: Option<&str>,
    model: Option<&str>,
    effort: Option<&str>,
    agents_states: AgentStates,
) -> ThreadItem {
    ThreadItem::CollabAgentToolCall(CollabAgentToolCall {
        id: id.to_string(),
        tool,
        status: CollabAgentToolCallStatus::Completed,
        sender_thread_id: "thread-1".to_string(),
        receiver_thread_ids: receivers.into_iter().map(str::to_string).collect(),
        prompt: prompt.map(str::to_string),
        model: model.map(str::to_string),
        reasoning_effort: effort.map(str::to_string),
        agents_states,
    })
}

#[test]
fn item_result_fields_become_structured_display_summaries() {
    let command = project_item(
        &ThreadItem::CommandExecution {
            id: "command-1".to_string(),
            command: "cargo test -p tui".to_string(),
            status: CommandExecutionStatus::Completed,
            aggregated_output: Some("ok".to_string()),
            exit_code: Some(0),
            duration_ms: Some(42),
        },
        false,
    )
    .expect("command projection");
    assert_eq!(command.status, Some(EntryStatus::Completed));
    assert!(command.text.contains("cargo test -p tui\nok"));
    assert_eq!(command.summary, vec!["exit 0", "duration 42ms"]);

    assert!(project_item(&ThreadItem::Sleep, false).is_none());

    let patch = project_item(
        &ThreadItem::FileChange {
            id: "patch-1".to_string(),
            changes: vec![
                FileUpdateChange {
                    path: "src/new.rs".to_string(),
                    kind: PatchChangeKind::Add,
                    diff: "+new".to_string(),
                },
                FileUpdateChange {
                    path: "src/lib.rs".to_string(),
                    kind: PatchChangeKind::Update { move_path: None },
                    diff: "+changed".to_string(),
                },
            ],
            status: PatchApplyStatus::Completed,
        },
        false,
    )
    .expect("patch projection");
    assert_eq!(patch.summary, vec!["files: 2", "added: 1", "updated: 1"]);

    let mcp = project_item(
        &ThreadItem::McpToolCall {
            id: "mcp-1".to_string(),
            server: "docs".to_string(),
            tool: "search".to_string(),
            arguments: "{\"query\":\"tui\"}".to_string(),
            title: None,
            status: ToolCallStatus::Failed,
            result: Some(McpToolCallResult {
                content: vec![block(None, None)],
                structured_content: None,
                meta_truncated: false,
                meta_output_available: false,
            }),
            error: Some("upstream unavailable".to_string()),
            duration_ms: Some(9),
        },
        false,
    )
    .expect("mcp projection");
    assert_eq!(mcp.status, Some(EntryStatus::Failed));
    assert_eq!(mcp.text, "docs.search({\"query\":\"tui\"})");
    assert_eq!(
        mcp.summary,
        vec![
            "result items: 1",
            "content types: unknown=1",
            "error: upstream unavailable",
            "duration 9ms"
        ]
    );

    let mcp_details = project_item(
        &ThreadItem::McpToolCall {
            id: "mcp-details".to_string(),
            server: "docs".to_string(),
            tool: "search".to_string(),
            arguments: "{}".to_string(),
            title: None,
            status: ToolCallStatus::Completed,
            result: Some(McpToolCallResult {
                content: vec![
                    block(Some("text"), Some("ok")),
                    block(Some("image"), None),
                    block(Some("resource_link"), None),
                    block(Some("future_block"), None),
                ],
                structured_content: Some("{\"matches\":1}".to_string()),
                meta_truncated: true,
                meta_output_available: true,
            }),
            error: None,
            duration_ms: Some(4),
        },
        false,
    )
    .expect("mcp details projection");
    assert_eq!(
        mcp_details.summary,
        vec![
            "result items: 4",
            "content types: text=1, image=1, resource-link=1, unknown=1",
            "output: ok",
            "structured content: {\"matches\":1}",
            "truncated",
            "output available",
            "duration 4ms",
        ]
    );

    let computer = project_item(
        &ThreadItem::McpToolCall {
            id: "computer-1".to_string(),
            server: "cua_repl".to_string(),
            tool: "computer".to_string(),
            arguments: "{\"title\":\"Capture calendar\"}".to_string(),
            title: Some("Capture calendar".to_string()),
            status: ToolCallStatus::Completed,
            result: Some(McpToolCallResult {
                content: vec![block(Some("image"), None)],
                structured_content: None,
                meta_truncated: false,
                meta_output_available: false,
            }),
            error: None,
            duration_ms: None,
        },
        false,
    )
    .expect("computer activity projection");
    assert_eq!(
        computer.summary,
        vec![
            "result items: 1",
            "content types: image=1",
            "computer action: Capture calendar",
            "computer screenshot: captured",
        ]
    );

    let dynamic = project_item(
        &ThreadItem::DynamicToolCall {
            id: "dynamic-1".to_string(),
            tool: "open".to_string(),
            status: ToolCallStatus::Completed,
            content_items: Some(vec![DynamicContentItem {
                input_text: Some("done".to_string()),
            }]),
            success: Some(true),
            duration_ms: Some(12),
        },
        false,
    )
    .expect("dynamic projection");
    assert_eq!(
        dynamic.summary,
        vec!["success: true", "content items: 1", "output: done", "duration 12ms"]
    );

    let collab_entry = project_item(
        &collab(
            "collab-1",
            CollabAgentTool::SpawnAgent,
            vec!["agent-1", "agent-2"],
            None,
            None,
            None,
            states(vec![
                ("agent-1", CollabAgentStatus::Running, None),
                ("agent-2", CollabAgentStatus::Completed, None),
            ]),
        ),
        false,
    )
    .expect("collab projection");
    assert_eq!(
        collab_entry.summary,
        vec!["agents: 2", "completed: 1", "running: 1"]
    );
    assert_eq!(collab_entry.text, "Spawned agent-1");

    let image = project_item(
        &ThreadItem::ImageGeneration {
            id: "image-1".to_string(),
            status: "completed".to_string(),
            saved_path: Some("/tmp/image.png".to_string()),
            revised_prompt: Some("a concise prompt".to_string()),
        },
        false,
    )
    .expect("image projection");
    assert_eq!(image.status, Some(EntryStatus::Completed));
    assert_eq!(
        image.summary,
        vec!["saved: /tmp/image.png", "revised prompt: a concise prompt"]
    );
}

#[test]
fn dynamic_text_previews_are_compact_bounded_and_ignore_media_urls() {
    let long_text = "x".repeat(161);
    let text = |t: &str| DynamicContentItem {
        input_text: Some(t.to_string()),
    };
    let media = DynamicContentItem { input_text: None };
    let content = vec![
        text("first line\nsecond line"),
        media,
        text(&long_text),
        DynamicContentItem { input_text: None },
        text("third"),
        text("fourth"),
        text("fifth"),
    ];

    let summary = dynamic_summary(Some(&content), Some(true), None);

    assert_eq!(
        summary,
        vec![
            "success: true".to_string(),
            "content items: 7".to_string(),
            "output: first line".to_string(),
            format!("output: {}...", "x".repeat(160)),
            "output: third".to_string(),
            "output: fourth".to_string(),
        ]
    );
    assert!(summary.iter().all(|detail| !detail.contains("secret.example")));
}

#[test]
fn mcp_text_previews_are_compact_bounded_and_capped() {
    let long_text = "x".repeat(161);
    let content = vec![
        block(Some("text"), Some("first line\nsecond line")),
        block(Some("text"), Some(&long_text)),
        block(Some("image"), None),
        block(Some("text"), Some("third")),
        block(Some("text"), Some("fourth")),
        block(Some("text"), Some("fifth")),
        block(Some("text"), Some("sixth")),
    ];

    let previews = lime_tui::history_cell::mcp_result::content_previews(&content);
    assert_eq!(previews.len(), 4);
    assert_eq!(previews[0], "output: first line");
    assert_eq!(previews[1], format!("output: {}...", "x".repeat(160)));
    assert_eq!(previews[2], "output: third");
    assert_eq!(previews[3], "output: fourth");
}

#[test]
fn command_output_deltas_follow_the_command_without_splitting_chunks() {
    let mut projection = ConversationProjection::new();
    projection.apply(started(command_item(
        "command-1",
        "printf 'stdout\\nstderr\\n'",
        CommandExecutionStatus::InProgress,
        None,
    )));
    for delta in ["std", "out\nstderr\n"] {
        projection.apply(ServerNotification::CommandExecutionOutputDelta {
            item_id: "command-1".to_string(),
            delta: delta.to_string(),
        });
    }

    assert_eq!(
        projection.entries()[0].text,
        "printf 'stdout\\nstderr\\n'\nstdout\nstderr\n"
    );
    assert!(projection.entries()[0].streaming);
    assert_eq!(projection.entries()[0].status, Some(EntryStatus::Running));
}

#[test]
fn completed_command_item_replaces_live_output_with_canonical_output() {
    let mut projection = ConversationProjection::new();
    projection.apply(started(command_item(
        "command-1",
        "printf data",
        CommandExecutionStatus::InProgress,
        None,
    )));
    projection.apply(ServerNotification::CommandExecutionOutputDelta {
        item_id: "command-1".to_string(),
        delta: "partial".to_string(),
    });
    projection.apply(completed(command_item(
        "command-1",
        "printf data",
        CommandExecutionStatus::Completed,
        Some("canonical output"),
    )));

    assert_eq!(projection.entries()[0].text, "printf data\ncanonical output");
    assert!(!projection.entries()[0].streaming);
    assert_eq!(projection.entries()[0].status, Some(EntryStatus::Completed));
}

#[test]
fn collab_agent_summary_keeps_requested_model_effort_and_prompt() {
    let entry = project_item(
        &collab(
            "collab-1",
            CollabAgentTool::SpawnAgent,
            vec!["agent-1"],
            Some("Inspect the repository structure"),
            Some("fixture-model"),
            Some("high"),
            AgentStates::new(),
        ),
        false,
    )
    .expect("collab projection");

    assert_eq!(
        entry.summary,
        vec![
            "agents: 0",
            "model: fixture-model",
            "effort: high",
            "prompt: Inspect the repository structure",
        ]
    );
}

#[test]
fn collab_wait_projection_keeps_per_agent_results() {
    let entry = project_item(
        &collab(
            "collab-wait",
            CollabAgentTool::Wait,
            vec!["agent-2", "agent-1"],
            None,
            None,
            None,
            states(vec![
                ("agent-1", CollabAgentStatus::Completed, Some("answer")),
                ("agent-2", CollabAgentStatus::Errored, Some("timeout")),
            ]),
        ),
        false,
    )
    .expect("collab projection");

    assert!(entry
        .summary
        .iter()
        .any(|detail| detail == "agent-1: Completed - answer"));
    assert!(entry
        .summary
        .iter()
        .any(|detail| detail == "agent-2: Error - timeout"));
}

#[test]
fn collab_resume_projection_keeps_resume_result() {
    let entry = project_item(
        &collab(
            "collab-resume",
            CollabAgentTool::ResumeAgent,
            vec!["agent-1"],
            None,
            None,
            None,
            states(vec![("agent-1", CollabAgentStatus::Interrupted, None)]),
        ),
        false,
    )
    .expect("collab projection");

    assert!(entry.summary.iter().any(|detail| detail == "Interrupted"));
}

#[test]
fn turn_terminal_status_settles_in_progress_items() {
    let mut projection = ConversationProjection::new();
    projection.apply(started(command_item(
        "command-1",
        "cargo test -p tui",
        CommandExecutionStatus::InProgress,
        None,
    )));
    projection.apply(ServerNotification::TurnCompleted {
        turn: completed_turn("turn-1", TurnStatus::Interrupted, Vec::new()),
    });

    assert_eq!(projection.status(), "interrupted");
    assert_eq!(projection.entries()[0].status, Some(EntryStatus::Interrupted));
}

#[test]
fn turn_completion_repairs_missing_streamed_items_from_canonical_turn() {
    let mut projection = ConversationProjection::new();
    projection.start_turn("turn-1".to_string());
    projection.apply(ServerNotification::TurnCompleted {
        turn: completed_turn(
            "turn-1",
            TurnStatus::Completed,
            vec![agent_message("answer-1", "最终回答", None)],
        ),
    });

    assert_eq!(projection.final_answer(), "最终回答");
    assert_eq!(projection.entries().len(), 1);
    assert!(!projection.entries()[0].streaming);
}

#[test]
fn turn_completion_replaces_streaming_item_with_canonical_text() {
    let mut projection = ConversationProjection::new();
    projection.apply(agent_delta("answer-1", "部分"));
    projection.apply(ServerNotification::TurnCompleted {
        turn: completed_turn(
            "turn-1",
            TurnStatus::Completed,
            vec![agent_message("answer-1", "完整最终回答", None)],
        ),
    });

    assert_eq!(projection.entries().len(), 1);
    assert_eq!(projection.entries()[0].text, "完整最终回答");
    assert!(!projection.entries()[0].streaming);
}

#[test]
fn terminal_turn_closes_unrepaired_stream_tail_against_late_delta() {
    let mut projection = ConversationProjection::new();
    projection.apply(agent_delta("answer-1", "部分"));
    projection.apply(ServerNotification::TurnCompleted {
        turn: completed_turn("turn-1", TurnStatus::Interrupted, Vec::new()),
    });
    projection.apply(agent_delta("answer-1", " late"));

    assert_eq!(projection.entries().len(), 1);
    assert_eq!(projection.entries()[0].text, "部分");
    assert!(!projection.entries()[0].streaming);
}

#[test]
fn terminal_turn_rejects_late_delta_for_unknown_item() {
    let mut projection = ConversationProjection::new();
    projection.apply(ServerNotification::TurnCompleted {
        turn: completed_turn("turn-1", TurnStatus::Failed, Vec::new()),
    });
    projection.apply(agent_delta("missing-answer", "late output"));

    assert!(projection.entries().is_empty());
}

#[test]
fn terminal_turn_rejects_late_item_started_but_accepts_canonical_completion() {
    let mut projection = ConversationProjection::new();
    projection.apply(ServerNotification::TurnCompleted {
        turn: completed_turn("turn-1", TurnStatus::Interrupted, Vec::new()),
    });
    projection.apply(started(agent_message("late-item", "provisional", None)));
    assert!(projection.entries().is_empty());

    projection.apply(completed(agent_message("late-item", "canonical repair", None)));
    assert_eq!(projection.entries().len(), 1);
    assert_eq!(projection.entries()[0].text, "canonical repair");
    assert!(!projection.entries()[0].streaming);
}

#[test]
fn a_new_turn_can_create_a_streaming_item_after_a_terminal_turn() {
    let mut projection = ConversationProjection::new();
    projection.apply(ServerNotification::TurnCompleted {
        turn: completed_turn("turn-1", TurnStatus::Completed, Vec::new()),
    });
    projection.apply(ServerNotification::TurnStarted {
        turn_id: "turn-2".to_string(),
    });
    projection.apply(agent_delta("answer-2", "new output"));

    assert_eq!(projection.entries().len(), 1);
    assert_eq!(projection.entries()[0].text, "new output");
    assert!(projection.entries()[0].streaming);
}

#[test]
fn turn_completion_inserts_missing_canonical_items_before_known_following_items() {
    let mut projection = ConversationProjection::new();
    projection.apply(agent_delta("answer-1", "回答"));
    projection.apply(ServerNotification::TurnCompleted {
        turn: completed_turn(
            "turn-1",
            TurnStatus::Completed,
            vec![
                ThreadItem::UserMessage {
                    id: "user-1".to_string(),
                    client_id: Some("client-1".to_string()),
                    content: vec![UserInput::Text("请求".to_string())],
                },
                agent_message("answer-1", "完整回答", None),
            ],
        ),
    });

    assert_eq!(texts(&projection), vec!["请求", "完整回答"]);
}

#[test]
fn completed_turn_exposes_separator_after_its_last_visible_item() {
    let mut projection = ConversationProjection::new();
    projection.hydrate_thread(test_thread(vec![test_turn(
        "turn-complete",
        TurnStatus::Completed,
        vec![
            user_message("prompt", "请求"),
            agent_message("answer", "回答", None),
        ],
    )]));

    assert_eq!(
        projection
            .completion_after("answer")
            .map(|boundary| boundary.elapsed_seconds),
        Some(Some(0))
    );
    assert!(projection.completion_after("prompt").is_none());
}

#[test]
fn unsuccessful_turns_do_not_expose_completion_separators() {
    let mut projection = ConversationProjection::new();
    projection.hydrate_thread(test_thread(vec![test_turn(
        "turn-failed",
        TurnStatus::Failed,
        vec![agent_message("answer", "失败", None)],
    )]));

    assert!(projection.completion_after("answer").is_none());
}

#[test]
fn grouped_history_does_not_move_completion_to_a_previous_visible_item() {
    let mut projection = ConversationProjection::new();
    projection.prepend_grouped_items_with_hidden_ids(
        vec![(
            vec![
                review_boundary("enter", true),
                user_message("hidden-final", "内部请求"),
            ],
            Some(CompletionMetadata {
                elapsed_seconds: Some(61),
            }),
        )],
        &[],
    );

    assert!(projection.completion_after("enter").is_none());
    assert!(projection.completion_after("hidden-final").is_none());
}

#[test]
fn grouped_history_filters_metadata_hidden_user_without_moving_completion() {
    let mut projection = ConversationProjection::new();
    projection.prepend_grouped_items_with_hidden_ids(
        vec![(
            vec![
                user_message("hidden", "内部请求"),
                agent_message("answer", "回答", None),
            ],
            Some(CompletionMetadata {
                elapsed_seconds: Some(12),
            }),
        )],
        &["hidden".to_string()],
    );

    assert_eq!(
        projection
            .entries()
            .iter()
            .map(|entry| entry.id.as_str())
            .collect::<Vec<_>>(),
        vec!["answer"]
    );
    assert_eq!(
        projection
            .completion_after("answer")
            .map(|boundary| boundary.elapsed_seconds),
        Some(Some(12))
    );
}

#[test]
fn grouped_history_hides_nested_review_prompts_from_turn_metadata() {
    let previous = test_turn(
        "review-turn",
        TurnStatus::Completed,
        vec![review_boundary("enter", true), review_boundary("exit", false)],
    );
    let current = test_turn(
        "nested-turn",
        TurnStatus::Interrupted,
        vec![
            user_message("nested-one", "重复请求"),
            user_message("nested-two", "重复请求"),
        ],
    );
    let hidden_ids = hidden_user_message_ids(&vec![previous, current]);
    let mut projection = ConversationProjection::new();
    projection.prepend_grouped_items_with_hidden_ids(
        vec![(
            vec![
                review_boundary("enter", true),
                review_boundary("exit", false),
                user_message("nested-one", "重复请求"),
                user_message("nested-two", "重复请求"),
            ],
            None,
        )],
        &hidden_ids,
    );

    assert_eq!(
        texts(&projection),
        vec!["review started: review", "review completed: review"]
    );
}

#[test]
fn hidden_id_reconciliation_removes_entries_loaded_from_a_newer_page() {
    let mut projection = ConversationProjection::new();
    projection.prepend_items(vec![user_message("nested-one", "重复请求")]);
    projection.add_completion_boundary("nested-one".to_string(), Some(9));

    projection.remove_hidden_entries(&["nested-one".to_string()]);

    assert!(projection.entries().is_empty());
    assert!(projection.completion_after("nested-one").is_none());
}

#[test]
fn system_messages_and_warnings_are_shown_in_order() {
    let mut projection = ConversationProjection::new();
    projection.add_system_message("connected".to_string());
    projection.apply(ServerNotification::Warning {
        message: "slow network".to_string(),
    });
    let texts = texts(&projection);
    assert_eq!(texts.len(), 2);
    assert_eq!(texts[0], "connected");
    assert!(texts[1].contains("slow network"));
}

#[test]
fn grouped_history_keeps_order_skips_known_ids_and_places_separators_on_group_tails() {
    let mut projection = ConversationProjection::new();
    projection.prepend_grouped_items_with_hidden_ids(
        vec![(vec![agent_message("c", "现在", None)], None)],
        &[],
    );
    projection.prepend_grouped_items_with_hidden_ids(
        vec![
            (
                vec![user_message("a", "问题"), agent_message("b", "回答", None)],
                Some(CompletionMetadata {
                    elapsed_seconds: Some(5),
                }),
            ),
            (
                vec![agent_message("b", "重复", None), user_message("d", "隐藏")],
                Some(CompletionMetadata {
                    elapsed_seconds: Some(3),
                }),
            ),
            (
                vec![agent_message("c", "已显示", None)],
                Some(CompletionMetadata {
                    elapsed_seconds: Some(7),
                }),
            ),
        ],
        &["d".to_string()],
    );

    assert_eq!(
        projection
            .entries()
            .iter()
            .map(|entry| entry.id.as_str())
            .collect::<Vec<_>>(),
        vec!["a", "b", "c"]
    );
    assert_eq!(texts(&projection), vec!["问题", "回答", "现在"]);
    assert_eq!(
        projection
            .completion_after("b")
            .map(|boundary| boundary.elapsed_seconds),
        Some(Some(5))
    );
    assert!(projection.completion_after("d").is_none());
    assert!(projection.completion_after("a").is_none());
    assert_eq!(
        projection
            .completion_after("c")
            .map(|boundary| boundary.elapsed_seconds),
        Some(Some(7))
    );
}
