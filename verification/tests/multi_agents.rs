use lime_tui::multi_agents::{
    collab_agent_status_label, collab_summary, collab_summary_for_item, compact_text,
    format_agent_picker_item_name, next_agent_shortcut_matches, non_empty,
    previous_agent_shortcut_matches, prompt_line, sorted_unique_ids, spawn_request_summary,
    status_summary_text, sub_agent_activity_display, sub_agent_activity_summary,
    tool_call_history_cell, wait_complete_lines, AgentKey, AgentKeyEvent, AgentStates,
    CollabAgentState, CollabAgentStatus, CollabAgentTool, CollabAgentToolCall,
    CollabAgentToolCallStatus, SubAgentActivity, SubAgentActivityKind,
};
use lime_tui::multi_agents::CollabAgentToolCallStatus::{Completed, InProgress};

fn activity(kind: SubAgentActivityKind) -> SubAgentActivity {
    SubAgentActivity {
        id: "activity-1".to_string(),
        kind,
        agent_thread_id: "agent-1".to_string(),
        agent_path: "/root/child".to_string(),
    }
}

fn state(status: CollabAgentStatus, message: Option<&str>) -> CollabAgentState {
    CollabAgentState {
        status,
        message: message.map(str::to_string),
    }
}

fn call(
    tool: CollabAgentTool,
    status: CollabAgentToolCallStatus,
    receivers: Vec<&str>,
    agents_states: AgentStates,
) -> CollabAgentToolCall {
    CollabAgentToolCall {
        id: "call".to_string(),
        tool,
        status,
        sender_thread_id: "thread-1".to_string(),
        receiver_thread_ids: receivers.into_iter().map(str::to_string).collect(),
        prompt: None,
        model: None,
        reasoning_effort: None,
        agents_states,
    }
}

#[test]
fn interacted_sub_agent_activity_does_not_change_liveness() {
    assert!(sub_agent_activity_display(&activity(SubAgentActivityKind::Interacted)).is_none());
}

#[test]
fn interrupted_sub_agent_activity_stops_running_liveness() {
    let display = sub_agent_activity_display(&activity(SubAgentActivityKind::Interrupted))
        .expect("display");
    assert_eq!(display.thread_id, "agent-1");
    assert_eq!(display.agent_path, "/root/child");
    assert!(!display.is_running_hint);
    let started =
        sub_agent_activity_display(&activity(SubAgentActivityKind::Started)).expect("display");
    assert!(started.is_running_hint);
}

#[test]
fn tool_call_history_cells_cover_collaboration_lifecycle() {
    let mut agents_states = AgentStates::new();
    agents_states.insert(
        "agent-1".to_string(),
        state(CollabAgentStatus::Completed, Some("39916800")),
    );
    let item = call(
        CollabAgentTool::Wait,
        CollabAgentToolCallStatus::Completed,
        vec!["agent-1"],
        agents_states,
    );
    let cell = tool_call_history_cell(&item).expect("wait history cell");
    assert_eq!(cell.title, "Finished waiting");
    assert_eq!(cell.details, vec!["agent-1: Completed - 39916800"]);
}

#[test]
fn spawn_request_summary_preserves_model_and_effort() {
    let mut item = call(
        CollabAgentTool::SpawnAgent,
        CollabAgentToolCallStatus::Completed,
        vec!["agent-1"],
        AgentStates::new(),
    );
    item.model = Some("gpt-5".to_string());
    item.reasoning_effort = Some("high".to_string());
    let summary = spawn_request_summary(&item).expect("summary");
    assert_eq!(summary.model, "gpt-5");
    assert_eq!(summary.reasoning_effort, "high");
    item.model = None;
    assert!(spawn_request_summary(&item).is_none());
}

#[test]
fn picker_names_prefer_nickname_and_role() {
    assert_eq!(format_agent_picker_item_name(Some("x"), Some("y"), true), "Main [default]");
    assert_eq!(
        format_agent_picker_item_name(Some(" Ada "), Some(" tester "), false),
        "Ada [tester]"
    );
    assert_eq!(format_agent_picker_item_name(Some("Ada"), Some("  "), false), "Ada");
    assert_eq!(format_agent_picker_item_name(None, Some("worker"), false), "[worker]");
    assert_eq!(format_agent_picker_item_name(Some(""), None, false), "Agent");
}

#[test]
fn prompts_are_trimmed_and_bounded() {
    assert_eq!(prompt_line("   "), None);
    assert_eq!(prompt_line("  do it \nmore"), Some("do it ".to_string()));
    assert_eq!(non_empty(Some("  a ")), Some("a".to_string()));
    assert_eq!(non_empty(None), None);
    assert_eq!(compact_text("abcdef", 3), "abc...");
    assert_eq!(compact_text("abc", 3), "abc");
}

#[test]
fn agent_navigation_uses_alt_arrows() {
    let alt = |code| AgentKeyEvent {
        code,
        alt: true,
        press: true,
    };
    assert!(previous_agent_shortcut_matches(alt(AgentKey::Left), false, false));
    assert!(next_agent_shortcut_matches(alt(AgentKey::Right), false, false));
    assert!(!previous_agent_shortcut_matches(alt(AgentKey::Char('b')), true, false));
    assert!(previous_agent_shortcut_matches(alt(AgentKey::Char('b')), true, true));
    assert!(next_agent_shortcut_matches(alt(AgentKey::Char('f')), true, true));
    assert!(!next_agent_shortcut_matches(
        AgentKeyEvent {
            code: AgentKey::Right,
            alt: false,
            press: true
        },
        false,
        false
    ));
}

#[test]
fn titles_follow_the_call_lifecycle() {
    let title = |tool, status, receivers: Vec<&str>| {
        tool_call_history_cell(&call(tool, status, receivers, AgentStates::new()))
            .map(|cell| cell.title)
    };
    assert_eq!(title(CollabAgentTool::SpawnAgent, InProgress, vec!["a"]), None);
    assert_eq!(
        title(CollabAgentTool::SpawnAgent, Completed, vec![]),
        Some("Spawned agents".to_string())
    );
    assert_eq!(
        title(CollabAgentTool::SendInput, Completed, vec!["a"]),
        Some("Sent input to a".to_string())
    );
    assert_eq!(
        title(CollabAgentTool::ResumeAgent, InProgress, vec!["a"]),
        Some("Resuming a".to_string())
    );
    assert_eq!(
        title(CollabAgentTool::Wait, InProgress, vec!["a"]),
        Some("Waiting for a".to_string())
    );
    assert_eq!(
        title(CollabAgentTool::Wait, InProgress, vec!["a", "b"]),
        Some("Waiting for 2 agents".to_string())
    );
    assert_eq!(
        title(CollabAgentTool::CloseAgent, Completed, vec!["a"]),
        Some("Closed a".to_string())
    );
}

#[test]
fn wait_lines_list_each_agent_once_in_id_order() {
    let mut states = AgentStates::new();
    states.insert("b".to_string(), state(CollabAgentStatus::Running, None));
    states.insert("c".to_string(), state(CollabAgentStatus::Errored, None));
    states.insert("b".to_string(), state(CollabAgentStatus::Shutdown, None));
    assert_eq!(states.len(), 2);
    let lines = wait_complete_lines(&vec!["d".to_string(), "b".to_string()], &states);
    assert_eq!(
        lines,
        vec![
            "b: Shutdown",
            "c: Error - Agent errored",
            "d: Error - agent state unavailable"
        ]
    );
    assert_eq!(
        wait_complete_lines(&Vec::new(), &AgentStates::new()),
        vec!["No agents completed yet"]
    );
    assert_eq!(
        sorted_unique_ids(
            &vec!["b".to_string(), "a".to_string(), "b".to_string()],
            &vec!["ab".to_string(), "a".to_string()]
        ),
        vec!["a", "ab", "b"]
    );
}

#[test]
fn summaries_count_states_by_label() {
    let mut states = AgentStates::new();
    states.insert("a".to_string(), state(CollabAgentStatus::Running, None));
    states.insert("b".to_string(), state(CollabAgentStatus::Running, None));
    states.insert("c".to_string(), state(CollabAgentStatus::PendingInit, None));
    assert_eq!(
        collab_summary(&states, Some(" go "), Some(""), Some("low")),
        vec!["agents: 3", "pending: 1", "running: 2", "effort: low", "prompt: go"]
    );
    assert_eq!(collab_agent_status_label(CollabAgentStatus::NotFound), "not-found");
    assert_eq!(
        status_summary_text(&state(CollabAgentStatus::PendingInit, None)),
        "Pending init"
    );
    assert_eq!(
        sub_agent_activity_summary(SubAgentActivityKind::Interacted, "/root/x"),
        "Interacted with `/root/x`"
    );
}

#[test]
fn item_summaries_add_lifecycle_details_without_repeating_facts() {
    let mut states = AgentStates::new();
    states.insert("a".to_string(), state(CollabAgentStatus::Completed, Some("ok")));
    let mut item = call(
        CollabAgentTool::Wait,
        CollabAgentToolCallStatus::Completed,
        vec!["a"],
        states,
    );
    item.prompt = Some("check".to_string());
    assert_eq!(
        collab_summary_for_item(&item),
        vec!["agents: 1", "completed: 1", "prompt: check", "a: Completed - ok"]
    );
    item.status = CollabAgentToolCallStatus::InProgress;
    item.tool = CollabAgentTool::SpawnAgent;
    assert_eq!(
        collab_summary_for_item(&item),
        vec!["agents: 1", "completed: 1", "prompt: check"]
    );
}
