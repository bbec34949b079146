use lime_tui::protocol::UserInput;
use lime_tui::runtime::step::{tui_step, Awaiting, PlanMode, TuiCommand, TuiEvent, TuiState};

fn state() -> TuiState {
    TuiState {
        model: Some("gpt".to_string()),
        model_provider: Some("openai".to_string()),
        effort: None,
        permissions: None,
        permissions_fixed: false,
        plan_mode: None,
        active_turn: None,
        pending_images: Vec::new(),
        status: None,
        connected: true,
        reconnect_thread_id: None,
        reconnecting: false,
        reconnect_failed: false,
        awaiting: Awaiting::Nothing,
    }
}

fn texts(input: &[UserInput]) -> Vec<String> {
    input
        .iter()
        .map(|item| match item {
            UserInput::Text(t) => format!("text:{t}"),
            UserInput::LocalImage { path } => format!("image:{path}"),
            _ => "other".to_string(),
        })
        .collect()
}

#[test]
fn a_prompt_without_a_turn_starts_one_with_the_waiting_images() {
    let mut st = state();
    st.pending_images = vec!["/tmp/a.png".to_string()];
    let (st, command) = tui_step(st, TuiEvent::Submit("hello".to_string()));
    match command {
        TuiCommand::StartTurn { input } => {
            assert_eq!(texts(&input), vec!["image:/tmp/a.png", "text:hello"]);
        },
        _ => panic!("no turn runs, so one starts"),
    }
    assert!(st.pending_images.is_empty());
    let (st, command) = tui_step(st, TuiEvent::StartResult(Ok("turn-1".to_string())));
    assert!(matches!(command, TuiCommand::PersistPrompt(ref p) if p == "hello"));
    assert_eq!(st.active_turn.as_deref(), Some("turn-1"));
    assert!(matches!(st.awaiting, Awaiting::Nothing));
}

#[test]
fn a_refused_steer_falls_back_to_the_queue() {
    let mut st = state();
    st.active_turn = Some("turn-1".to_string());
    let (st, command) = tui_step(st, TuiEvent::Submit("more".to_string()));
    assert!(matches!(command, TuiCommand::Steer { ref turn_id, .. } if turn_id == "turn-1"));
    let (st, command) = tui_step(st, TuiEvent::SteerResult(Err("busy".to_string())));
    match command {
        TuiCommand::Queue { input } => assert_eq!(texts(&input), vec!["text:more"]),
        _ => panic!("a refused steer is queued"),
    }
    let (st, command) = tui_step(st, TuiEvent::QueueResult(Ok(())));
    assert!(matches!(command, TuiCommand::PersistPrompt(ref p) if p == "more"));
    assert_eq!(st.status.as_deref(), Some("queued"));
}

#[test]
fn a_failed_queue_after_a_steer_gives_the_images_back_and_shows_both_errors() {
    let mut st = state();
    st.active_turn = Some("turn-1".to_string());
    st.pending_images = vec!["/tmp/a.png".to_string()];
    let (st, _) = tui_step(st, TuiEvent::Submit("more".to_string()));
    let (st, _) = tui_step(st, TuiEvent::SteerResult(Err("busy".to_string())));
    let (st, command) = tui_step(st, TuiEvent::QueueResult(Err("full".to_string())));
    assert!(matches!(command, TuiCommand::Nothing));
    assert_eq!(st.status.as_deref(), Some("busy; queue failed: full"));
    assert_eq!(st.pending_images, vec!["/tmp/a.png".to_string()]);
}

#[test]
fn a_steer_that_succeeds_says_steering() {
    let mut st = state();
    st.active_turn = Some("turn-1".to_string());
    let (st, _) = tui_step(st, TuiEvent::Submit("more".to_string()));
    let (st, command) = tui_step(st, TuiEvent::SteerResult(Ok(())));
    assert!(matches!(command, TuiCommand::PersistPrompt(ref p) if p == "more"));
    assert_eq!(st.status.as_deref(), Some("steering"));
}

#[test]
fn settings_commands_update_the_settings_when_the_server_accepts() {
    let (st, command) = tui_step(state(), TuiEvent::Submit("/effort high".to_string()));
    match command {
        TuiCommand::UpdateSettings { model, provider, effort, permissions } => {
            assert!(model.is_none() && provider.is_none() && permissions.is_none());
            assert_eq!(effort.as_deref(), Some("high"));
        },
        _ => panic!("an effort command updates the settings"),
    }
    let (st, command) = tui_step(st, TuiEvent::SettingsResult(Ok(())));
    assert!(matches!(command, TuiCommand::Nothing));
    assert_eq!(st.effort.as_deref(), Some("high"));
    assert_eq!(st.status.as_deref(), Some("settings updated"));

    let (st, _) = tui_step(st, TuiEvent::Submit("/model other".to_string()));
    let (st, _) = tui_step(st, TuiEvent::SettingsResult(Err("denied".to_string())));
    assert_eq!(st.model.as_deref(), Some("gpt"));
    assert_eq!(st.status.as_deref(), Some("denied"));

    let (st, command) = tui_step(st, TuiEvent::Submit("/effort".to_string()));
    assert!(matches!(command, TuiCommand::Nothing));
    assert_eq!(st.status.as_deref(), Some("usage: /effort <low|medium|high>"));
}

#[test]
fn plan_mode_needs_the_server_to_offer_it() {
    let (st, command) = tui_step(state(), TuiEvent::Submit("/plan".to_string()));
    assert!(matches!(command, TuiCommand::Nothing));
    assert_eq!(st.status.as_deref(), Some("plan mode unavailable on this server"));
    let mut st = st;
    st.plan_mode = Some(PlanMode { model: "planner".to_string(), effort: Some("high".to_string()) });
    let (st, command) = tui_step(st, TuiEvent::Submit("/plan".to_string()));
    assert!(matches!(command, TuiCommand::UpdateCollaborationMode { ref model, .. } if model == "planner"));
    let (st, _) = tui_step(st, TuiEvent::SettingsResult(Ok(())));
    assert_eq!(st.model.as_deref(), Some("planner"));
    assert_eq!(st.effort.as_deref(), Some("high"));
    assert_eq!(st.status.as_deref(), Some("plan mode"));
}

#[test]
fn interrupt_without_a_turn_quits_and_no_active_turn_answers_quit() {
    let (_, command) = tui_step(state(), TuiEvent::Interrupt);
    assert!(matches!(command, TuiCommand::Quit));
    let mut st = state();
    st.active_turn = Some("turn-1".to_string());
    let (st, command) = tui_step(st, TuiEvent::Interrupt);
    assert!(matches!(command, TuiCommand::Interrupt { ref turn_id } if turn_id == "turn-1"));
    let (_, command) = tui_step(
        st,
        TuiEvent::InterruptResult(Err(vec!["rpc failed".to_string(), "No active turn".to_string()])),
    );
    assert!(matches!(command, TuiCommand::Quit));

    let mut st = state();
    st.active_turn = Some("turn-1".to_string());
    let (st, _) = tui_step(st, TuiEvent::Interrupt);
    let (st, command) = tui_step(st, TuiEvent::InterruptResult(Ok(())));
    assert!(matches!(command, TuiCommand::Nothing));
    assert_eq!(st.status.as_deref(), Some("interrupting"));
    let (st, _) = tui_step(st, TuiEvent::Interrupt);
    let (_, command) = tui_step(st, TuiEvent::InterruptResult(Err(vec!["boom".to_string()])));
    assert!(matches!(command, TuiCommand::Fail(ref chain) if chain == &vec!["boom".to_string()]));
}

#[test]
fn a_lost_connection_reconnects_and_adopts_the_server_profile() {
    let (st, command) = tui_step(state(), TuiEvent::Disconnected(Ok("thread-1".to_string())));
    assert!(matches!(command, TuiCommand::Reconnect { ref thread_id } if thread_id == "thread-1"));
    assert!(!st.connected && st.reconnecting);
    let (st, command) = tui_step(st, TuiEvent::Submit("ignored".to_string()));
    assert!(matches!(command, TuiCommand::Nothing));
    let (st, _) = tui_step(st, TuiEvent::ReconnectResult(Ok(Some("workspace".to_string()))));
    assert!(st.connected);
    assert_eq!(st.permissions.as_deref(), Some("workspace"));
    assert_eq!(st.status.as_deref(), Some("reconnected"));

    let mut fixed = state();
    fixed.permissions_fixed = true;
    let (st, _) = tui_step(fixed, TuiEvent::Disconnected(Ok("thread-1".to_string())));
    let (st, _) = tui_step(st, TuiEvent::ReconnectResult(Ok(Some("workspace".to_string()))));
    assert!(st.permissions.is_none());

    let (st, _) = tui_step(state(), TuiEvent::Disconnected(Ok("thread-1".to_string())));
    let (st, _) = tui_step(st, TuiEvent::ReconnectResult(Err("refused".to_string())));
    assert!(st.reconnect_failed && !st.connected);
    assert_eq!(st.status.as_deref(), Some("reconnect failed: refused"));

    let (st, command) = tui_step(
        state(),
        TuiEvent::Disconnected(Err(vec!["thread id unavailable".to_string()])),
    );
    assert!(matches!(command, TuiCommand::Fail(ref chain) if chain == &vec!["thread id unavailable".to_string()]));
    assert!(st.connected);
}

#[test]
fn the_model_list_opens_the_picker_and_quit_quits() {
    let (st, command) = tui_step(state(), TuiEvent::Submit("/model".to_string()));
    assert!(matches!(command, TuiCommand::ListModels));
    let (st, _) = tui_step(st, TuiEvent::ModelsResult(Ok(())));
    assert_eq!(st.status.as_deref(), Some("choose model"));
    let (st, command) = tui_step(st, TuiEvent::QueueResult(Ok(())));
    assert!(matches!(command, TuiCommand::Nothing));
    assert_eq!(st.status.as_deref(), Some("choose model"));
    let (_, command) = tui_step(st, TuiEvent::Quit);
    assert!(matches!(command, TuiCommand::Quit));
}

#[test]
fn a_blank_prompt_is_not_remembered_and_history_errors_are_shown() {
    let (st, _) = tui_step(state(), TuiEvent::Submit("   ".to_string()));
    let (st, command) = tui_step(st, TuiEvent::StartResult(Ok("turn-1".to_string())));
    assert!(matches!(command, TuiCommand::Nothing));
    let (st, command) = tui_step(st, TuiEvent::PromptHistoryResult(Err("disk full".to_string())));
    assert!(matches!(command, TuiCommand::Nothing));
    assert_eq!(st.status.as_deref(), Some("prompt history unavailable: disk full"));
}

#[test]
fn a_failed_start_gives_the_images_back() {
    let mut st = state();
    st.pending_images = vec!["/tmp/a.png".to_string(), "/tmp/b.png".to_string()];
    let (st, _) = tui_step(st, TuiEvent::Submit("draw".to_string()));
    assert!(st.pending_images.is_empty());
    let (st, command) = tui_step(st, TuiEvent::StartResult(Err("no model".to_string())));
    assert!(matches!(command, TuiCommand::Nothing));
    assert_eq!(st.pending_images, vec!["/tmp/a.png".to_string(), "/tmp/b.png".to_string()]);
    assert_eq!(st.status.as_deref(), Some("no model"));
}

#[test]
fn a_pasted_image_waits_for_the_next_prompt() {
    let (st, command) = tui_step(
        state(),
        TuiEvent::ImagePasted(Ok(("/tmp/p.png".to_string(), 640, 480))),
    );
    assert!(matches!(command, TuiCommand::Nothing));
    assert_eq!(st.pending_images, vec!["/tmp/p.png".to_string()]);
    assert_eq!(st.status.as_deref(), Some("image attached: 640x480"));
    let (st, _) = tui_step(st, TuiEvent::ImagePasted(Err("no image".to_string())));
    assert_eq!(st.status.as_deref(), Some("image paste failed: no image"));
    assert_eq!(st.pending_images.len(), 1);
}

#[test]
fn queued_input_edits_and_agent_switches_report_their_outcome() {
    let (st, command) = tui_step(
        state(),
        TuiEvent::QueueEditResult { deleted: Ok(true), restored: true },
    );
    assert!(matches!(command, TuiCommand::Nothing));
    assert_eq!(st.status.as_deref(), Some("queued input editing"));
    let (st, command) = tui_step(st, TuiEvent::QueueEditResult { deleted: Ok(false), restored: false });
    assert!(matches!(command, TuiCommand::RefreshQueue));
    assert_eq!(st.status.as_deref(), Some("queued input unavailable"));
    let (st, _) = tui_step(st, TuiEvent::QueueEditResult { deleted: Err("gone".to_string()), restored: false });
    assert_eq!(st.status.as_deref(), Some("queue edit failed: gone"));
    let (st, _) = tui_step(st, TuiEvent::SwitchResult(Ok(())));
    assert_eq!(st.status.as_deref(), Some("switched agent"));
    let (st, _) = tui_step(st, TuiEvent::SwitchResult(Err("missing".to_string())));
    assert_eq!(st.status.as_deref(), Some("agent switch failed: missing"));
}
