use lime_tui::input::{InputEvent, Key, KeyPress};
use lime_tui::model_picker::{ModelPicker, ModelPickerAction};
use lime_tui::protocol::Model;

fn model(id: &str, provider: &str, hidden: bool, is_default: bool) -> Model {
    Model {
        id: id.to_string(),
        model: id.to_string(),
        provider_id: provider.to_string(),
        display_name: id.to_string(),
        description: String::new(),
        hidden,
        is_default,
    }
}

fn key(code: Key) -> InputEvent {
    InputEvent::Key(KeyPress {
        code,
        control: false,
        alt: false,
        other_modifiers: false,
        press: true,
    })
}

fn control(c: char) -> InputEvent {
    InputEvent::Key(KeyPress {
        code: Key::Char(c),
        control: true,
        alt: false,
        other_modifiers: false,
        press: true,
    })
}

#[test]
fn picker_filters_hidden_models_and_selects_default_first() {
    let mut picker = ModelPicker::new(vec![
        model("slow", "fixture", false, false),
        model("hidden", "fixture", true, false),
        model("fast", "fixture", false, true),
    ]);
    assert_eq!(picker.visible_models().len(), 2);
    assert_eq!(picker.selected_model(0).expect("default").model, "fast");
    picker.handle_event(key(Key::Char('l')));
    assert_eq!(picker.selected_model(0).expect("filtered").model, "slow");
    assert_eq!(
        picker.handle_event(key(Key::Enter)),
        ModelPickerAction::Select(0)
    );
}

#[test]
fn searchable_picker_keeps_plain_vim_letters_for_query_input() {
    let mut picker = ModelPicker::new(vec![
        model("alpha", "fixture", false, true),
        model("jupiter", "fixture", false, false),
        model("kilo", "fixture", false, false),
    ]);

    assert_eq!(
        picker.handle_event(key(Key::Char('j'))),
        ModelPickerAction::Ignored
    );
    assert_eq!(picker.query(), "j");
    assert_eq!(picker.visible_models()[0].model, "jupiter");

    picker.handle_event(key(Key::Backspace));
    picker.handle_event(key(Key::Char('k')));
    assert_eq!(picker.query(), "k");
    assert_eq!(picker.visible_models()[0].model, "kilo");
}

#[test]
fn picker_navigation_wraps_and_accepts_control_bindings() {
    let mut picker = ModelPicker::new(vec![
        model("first", "fixture", false, true),
        model("second", "fixture", false, false),
    ]);

    picker.handle_event(key(Key::Up));
    assert_eq!(picker.selected(), 1);

    picker.handle_event(control('n'));
    assert_eq!(picker.selected(), 0);

    picker.handle_event(control('k'));
    assert_eq!(picker.selected(), 1);
}

#[test]
fn unhandled_control_keys_do_not_pollute_model_query() {
    let mut picker = ModelPicker::new(vec![model("first", "fixture", false, true)]);
    picker.handle_event(control('z'));
    assert!(picker.query().is_empty());
}

#[test]
fn escape_and_control_c_cancel_the_picker() {
    let mut picker = ModelPicker::new(vec![model("模型", "提供方", false, true)]);
    assert_eq!(picker.handle_event(key(Key::Esc)), ModelPickerAction::Cancel);
    assert_eq!(picker.handle_event(control('c')), ModelPickerAction::Cancel);
    assert_eq!(picker.handle_event(control('d')), ModelPickerAction::Cancel);
}

#[test]
fn models_sort_defaults_first_then_by_lower_case_display_name() {
    let picker = ModelPicker::new(vec![
        model("Zeta", "fixture", false, false),
        model("alpha", "fixture", false, false),
        model("Beta", "fixture", false, true),
        model("Gamma", "fixture", false, false),
    ]);
    let names: Vec<&str> = picker
        .visible_models()
        .iter()
        .map(|m| m.model.as_str())
        .collect();
    assert_eq!(names, vec!["Beta", "alpha", "Gamma", "Zeta"]);
}

#[test]
fn query_matches_model_and_provider_in_any_case_after_trimming() {
    let mut picker = ModelPicker::new(vec![
        model("one", "Acme", false, false),
        model("two", "other", false, false),
    ]);
    picker.handle_event(InputEvent::Paste("  ACM ".to_string()));
    assert_eq!(picker.query(), "  ACM ");
    let names: Vec<&str> = picker
        .visible_models()
        .iter()
        .map(|m| m.model.as_str())
        .collect();
    assert_eq!(names, vec!["one"]);
    assert!(picker.selected_model(1).is_none());
}

#[test]
fn selection_stays_on_a_visible_row_and_resets_on_query_edits() {
    let mut picker = ModelPicker::new(vec![
        model("first", "fixture", false, true),
        model("second", "fixture", false, false),
        model("third", "fixture", false, false),
    ]);
    for _ in 0..7 {
        picker.handle_event(key(Key::Down));
        assert!(picker.selected() < 3);
    }
    assert_eq!(picker.selected(), 1);
    picker.handle_event(key(Key::Char('t')));
    assert_eq!(picker.selected(), 0);
    picker.handle_event(key(Key::Char('q')));
    assert_eq!(picker.visible_models().len(), 0);
    assert_eq!(picker.handle_event(key(Key::Enter)), ModelPickerAction::Ignored);
    picker.handle_event(key(Key::Down));
    assert_eq!(picker.selected(), 0);
}
