use std::cell::RefCell;

use lime_tui::projection::ConversationProjection;
use lime_tui::protocol::{ServerNotification, UserInput};
use lime_tui::runtime::{
    copy_last_response_with, exec_result, export_transcript_with, is_no_active_turn_error,
    submission_input, validate_model_route, RouteError,
};

#[test]
fn submission_input_keeps_codex_image_then_text_order() {
    let input = submission_input(
        "describe".to_string(),
        &vec!["/tmp/one.png".to_string(), "/tmp/two.png".to_string()],
    );
    assert_eq!(input.len(), 3);
    assert!(matches!(&input[0], UserInput::LocalImage { path } if path == "/tmp/one.png"));
    assert!(matches!(&input[1], UserInput::LocalImage { path } if path == "/tmp/two.png"));
    assert!(matches!(&input[2], UserInput::Text(text) if text == "describe"));

    let images_only = submission_input(String::new(), &vec!["/tmp/one.png".to_string()]);
    assert_eq!(images_only.len(), 1);
}

#[test]
fn model_route_requires_model_and_provider_together() {
    assert_eq!(
        validate_model_route(Some("model"), None),
        Err(RouteError::Unpaired)
    );
    assert_eq!(
        validate_model_route(None, Some("provider")),
        Err(RouteError::Unpaired)
    );
    assert_eq!(
        validate_model_route(Some(" "), Some("provider")),
        Err(RouteError::Empty)
    );
    assert_eq!(validate_model_route(Some("m"), Some("p")), Ok(()));
    assert_eq!(validate_model_route(None, None), Ok(()));
    assert_eq!(
        RouteError::Unpaired.message(),
        "--model and --provider must be specified together"
    );
    assert_eq!(
        RouteError::Empty.message(),
        "model and provider must not be empty"
    );
}

#[test]
fn copy_uses_last_canonical_agent_markdown_and_reports_outcome() {
    let mut projection = ConversationProjection::new();
    projection.apply(ServerNotification::AgentMessageDelta {
        item_id: "message-1".to_string(),
        delta: "**answer** with `code`".to_string(),
    });
    let copied = RefCell::new(String::new());

    let lease = copy_last_response_with(&mut projection, |text: String| {
        copied.replace(text);
        Ok::<u32, String>(7)
    });

    assert_eq!(copied.into_inner(), "**answer** with `code`");
    assert_eq!(projection.status(), "copied last response");
    assert_eq!(lease, Some(7));

    let mut empty = ConversationProjection::new();
    let lease = copy_last_response_with(&mut empty, |_: String| -> Result<u32, String> {
        panic!("clipboard must not be called")
    });
    assert_eq!(empty.status(), "no agent response to copy");
    assert_eq!(lease, None);
}

#[test]
fn copy_failures_are_reported_in_the_status() {
    let mut projection = ConversationProjection::new();
    projection.apply(ServerNotification::AgentMessageDelta {
        item_id: "message-1".to_string(),
        delta: "answer".to_string(),
    });
    let lease = copy_last_response_with(&mut projection, |_: String| {
        Err::<u32, String>("no clipboard".to_string())
    });
    assert_eq!(lease, None);
    assert_eq!(projection.status(), "copy failed: no clipboard");
}

#[test]
fn export_reports_where_the_conversation_went() {
    let mut projection = ConversationProjection::new();
    let lease = export_transcript_with(
        &mut projection,
        Ok("# transcript".to_string()),
        Some("out.md".to_string()),
        |path: String, _markdown: String| Ok(format!("/work/{path}")),
        |_: String| -> Result<u32, String> { panic!("clipboard must not be called") },
    );
    assert_eq!(lease, None);
    assert_eq!(projection.status(), "exported conversation to /work/out.md");

    let lease = export_transcript_with(
        &mut projection,
        Ok("# transcript".to_string()),
        None,
        |_: String, _: String| -> Result<String, String> { panic!("no file") },
        |_: String| Ok::<u32, String>(1),
    );
    assert_eq!(lease, Some(1));
    assert_eq!(projection.status(), "exported conversation to clipboard");

    let lease = export_transcript_with(
        &mut projection,
        Err("bad entry".to_string()),
        None,
        |_: String, _: String| -> Result<String, String> { panic!("no file") },
        |_: String| -> Result<u32, String> { panic!("no clipboard") },
    );
    assert_eq!(lease, None);
    assert_eq!(projection.status(), "export failed: bad entry");

    export_transcript_with(
        &mut projection,
        Ok("x".to_string()),
        Some("x.md".to_string()),
        |_: String, _: String| Err("disk full".to_string()),
        |_: String| Ok::<u32, String>(1),
    );
    assert_eq!(projection.status(), "export failed: disk full");
}

#[test]
fn no_active_turn_errors_are_recognized_in_any_cause() {
    assert!(is_no_active_turn_error(&vec![
        "request failed".to_string(),
        "No Active Turn to interrupt".to_string(),
    ]));
    assert!(is_no_active_turn_error(&vec!["code TURN_NOT_ACTIVE".to_string()]));
    assert!(!is_no_active_turn_error(&vec!["turn active".to_string()]));
    assert!(!is_no_active_turn_error(&Vec::new()));
}

#[test]
fn exec_result_reports_status_and_final_answer() {
    let mut projection = ConversationProjection::new();
    projection.apply(ServerNotification::AgentMessageDelta {
        item_id: "a".to_string(),
        delta: "done".to_string(),
    });
    let result = exec_result("thread-1".to_string(), "turn-1".to_string(), &projection);
    assert_eq!(result.thread_id, "thread-1");
    assert_eq!(result.turn_id, "turn-1");
    assert_eq!(result.output, "done");
    assert_eq!(result.status, projection.status());
}
