use lime_tui::history_filter::{
    filter_review_mode_items, filter_review_mode_items_with_state, filter_user_message_ids,
    hidden_user_message_ids, is_hidden_nested_review_turn, user_message_id,
};
use lime_tui::projection::TurnStatus;
use lime_tui::protocol::{ThreadItem, Turn, UserInput};

fn text_message(id: &str, text: &str) -> ThreadItem {
    ThreadItem::UserMessage {
        id: id.to_string(),
        client_id: None,
        content: vec![UserInput::Text(text.to_string())],
    }
}

fn entered(id: &str) -> ThreadItem {
    ThreadItem::EnteredReviewMode {
        id: id.to_string(),
        review: "review".to_string(),
    }
}

fn exited(id: &str) -> ThreadItem {
    ThreadItem::ExitedReviewMode {
        id: id.to_string(),
        review: "review".to_string(),
    }
}

fn turn(id: &str, status: TurnStatus, items: Vec<ThreadItem>) -> Turn {
    Turn {
        id: id.to_string(),
        items,
        status,
        completed_at: None,
        duration_ms: None,
    }
}

fn sorted(mut ids: Vec<String>) -> Vec<String> {
    ids.sort();
    ids
}

fn kept_ids(items: &[ThreadItem], positions: &[usize]) -> Vec<String> {
    positions
        .iter()
        .filter_map(|&i| user_message_id(&items[i]).map(str::to_string))
        .collect()
}

#[test]
fn hides_user_messages_inside_review_interval() {
    let turns = vec![turn(
        "turn-1",
        TurnStatus::Completed,
        vec![entered("enter"), text_message("hidden", "prompt"), exited("exit")],
    )];

    assert_eq!(hidden_user_message_ids(&turns), vec!["hidden".to_string()]);
}

#[test]
fn hides_only_unfinished_nested_duplicate_review_turn() {
    let previous = turn(
        "turn-1",
        TurnStatus::Completed,
        vec![entered("enter"), exited("exit")],
    );
    let current = turn(
        "turn-2",
        TurnStatus::Interrupted,
        vec![text_message("one", "same"), text_message("two", "same")],
    );

    assert!(is_hidden_nested_review_turn(&previous, &current));
    assert_eq!(
        sorted(hidden_user_message_ids(&vec![previous, current])),
        vec!["one".to_string(), "two".to_string()]
    );
}

#[test]
fn completed_at_prevents_nested_review_hiding() {
    let previous = turn(
        "turn-1",
        TurnStatus::Completed,
        vec![entered("enter"), exited("exit")],
    );
    let mut current = turn(
        "turn-2",
        TurnStatus::Interrupted,
        vec![text_message("one", "same"), text_message("two", "same")],
    );
    current.completed_at = Some(2);

    assert!(!is_hidden_nested_review_turn(&previous, &current));
    assert!(hidden_user_message_ids(&vec![previous, current]).is_empty());
}

#[test]
fn flat_page_only_filters_explicit_review_boundary() {
    let items = vec![
        text_message("before", "before"),
        entered("enter"),
        text_message("hidden", "hidden"),
        exited("exit"),
        text_message("after", "after"),
    ];
    let filtered = filter_review_mode_items(&items);
    assert_eq!(kept_ids(&items, &filtered), vec!["before", "after"]);
}

#[test]
fn flat_page_can_continue_an_existing_review_interval() {
    let items = vec![
        text_message("hidden", "hidden"),
        exited("exit"),
        text_message("after", "after"),
    ];
    let filtered = filter_review_mode_items_with_state(&items, true);
    assert_eq!(kept_ids(&items, &filtered), vec!["after"]);
}

#[test]
fn canonical_ids_filter_cross_page_review_messages_without_text_matching() {
    let items = vec![
        text_message("hidden", "same"),
        text_message("visible", "same"),
    ];
    let filtered = filter_user_message_ids(&items, &["hidden".to_string()]);
    assert_eq!(kept_ids(&items, &filtered), vec!["visible"]);
}

#[test]
fn review_boundaries_themselves_stay_visible() {
    let items = vec![entered("enter"), text_message("hidden", "x"), exited("exit")];
    let filtered = filter_review_mode_items(&items);
    assert_eq!(filtered, vec![0, 2]);
}
