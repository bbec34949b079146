use lime_tui::settings::{
    cycle_setting, parse_settings_command, SettingsCommand, SettingsError, EFFORTS,
    PERMISSION_PROFILES,
};

#[test]
fn shortcuts_cycle_codex_order_and_recover_unknown_values() {
    assert_eq!(cycle_setting(&EFFORTS, Some("medium"), 1), "high");
    assert_eq!(cycle_setting(&EFFORTS, Some("low"), -1), "high");
    assert_eq!(
        cycle_setting(&PERMISSION_PROFILES, Some("unknown"), 1),
        ":workspace"
    );
}

#[test]
fn commands_parse_without_becoming_turn_input() {
    assert!(matches!(
        parse_settings_command("/model"),
        Some(Ok(SettingsCommand::ModelPicker))
    ));
    assert!(matches!(
        parse_settings_command("/plan"),
        Some(Ok(SettingsCommand::Plan))
    ));
    assert!(matches!(
        parse_settings_command("/model grok-test grok"),
        Some(Ok(SettingsCommand::Model { model, provider }))
            if model == "grok-test" && provider.as_deref() == Some("grok")
    ));
    assert!(matches!(
        parse_settings_command("/effort high"),
        Some(Ok(SettingsCommand::Effort(effort))) if effort == "high"
    ));
    assert!(matches!(
        parse_settings_command("/permissions :workspace"),
        Some(Ok(SettingsCommand::Permissions(permissions))) if permissions == ":workspace"
    ));
    assert!(parse_settings_command("ordinary question").is_none());
    assert!(parse_settings_command("/effort").is_some_and(|value| value.is_err()));
}

#[test]
fn each_usage_error_comes_with_its_command() {
    assert!(matches!(
        parse_settings_command("/plan now"),
        Some(Err(SettingsError::PlanUsage))
    ));
    assert!(matches!(
        parse_settings_command("/effort"),
        Some(Err(SettingsError::EffortUsage))
    ));
    assert!(matches!(
        parse_settings_command("/permissions"),
        Some(Err(SettingsError::PermissionsUsage))
    ));
    assert_eq!(SettingsError::PlanUsage.message(), "usage: /plan");
    assert_eq!(
        SettingsError::EffortUsage.message(),
        "usage: /effort <low|medium|high>"
    );
    assert_eq!(
        SettingsError::PermissionsUsage.message(),
        "usage: /permissions <profile>"
    );
}

#[test]
fn model_without_provider_and_commands_without_settings() {
    assert!(matches!(
        parse_settings_command("/model gpt"),
        Some(Ok(SettingsCommand::Model { model, provider: None })) if model == "gpt"
    ));
    assert!(parse_settings_command("/status").is_none());
    assert!(parse_settings_command("/vim on").is_none());
}

#[test]
fn cycling_wraps_in_both_directions() {
    assert_eq!(cycle_setting(&EFFORTS, Some("high"), 1), "low");
    assert_eq!(cycle_setting(&EFFORTS, None, 1), "medium");
    assert_eq!(cycle_setting(&EFFORTS, None, -1), "high");
    assert_eq!(cycle_setting(&EFFORTS, Some("medium"), -1), "low");
    assert_eq!(cycle_setting(&EFFORTS, Some("medium"), 0), "high");
}

#[test]
fn a_step_and_a_step_back_return_to_the_current_choice() {
    for values in [&EFFORTS, &PERMISSION_PROFILES] {
        for current in values.iter() {
            for direction in [1i8, -1i8] {
                let next = cycle_setting(values, Some(current), direction);
                let back = cycle_setting(values, Some(next.as_str()), -direction);
                assert_eq!(back, *current);
            }
        }
    }
}
