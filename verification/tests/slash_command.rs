use lime_tui::slash_command::{command_filter, command_from_prompt, SlashCommand};

#[test]
fn filter_only_accepts_a_single_leading_command_token() {
    assert_eq!(command_filter("/"), Some(""));
    assert_eq!(command_filter("/mo"), Some("mo"));
    assert_eq!(command_filter("/model "), None);
    assert_eq!(command_filter("hello /model"), None);
    assert_eq!(command_filter("/model\nnext"), None);
}

#[test]
fn command_catalog_is_the_prompt_parser_fact_source() {
    assert_eq!(
        SlashCommand::ALL.map(SlashCommand::command),
        [
            "model",
            "plan",
            "effort",
            "permissions",
            "status",
            "pwd",
            "copy",
            "export",
            "agents",
            "subagents",
            "resume",
            "mcp",
            "vim",
        ]
    );
    for command in SlashCommand::ALL {
        let prompt = format!("/{}", command.command());
        assert_eq!(command_from_prompt(&prompt), Some(command));
    }
    assert_eq!(command_from_prompt("/unknown"), None);
    assert_eq!(command_from_prompt("ordinary input"), None);
    assert_eq!(command_from_prompt("/cwd"), Some(SlashCommand::Pwd));
}

#[test]
fn command_filter_rejects_empty_text_and_missing_slash() {
    assert_eq!(command_filter(""), None);
    assert_eq!(command_filter("model"), None);
    assert_eq!(command_filter("/a\tb"), None);
}

#[test]
fn command_from_prompt_skips_leading_white_space_and_reads_the_first_token() {
    assert_eq!(
        command_from_prompt("   /effort high"),
        Some(SlashCommand::Effort)
    );
    assert_eq!(command_from_prompt("/ model"), None);
    assert_eq!(command_from_prompt(""), None);
    assert_eq!(command_from_prompt("/subagents"), Some(SlashCommand::MultiAgents));
}

#[test]
fn only_effort_and_permissions_require_an_argument() {
    for command in SlashCommand::ALL {
        assert_eq!(
            command.requires_argument(),
            matches!(command, SlashCommand::Effort | SlashCommand::Permissions)
        );
    }
}

#[test]
fn from_name_accepts_cwd_as_pwd() {
    assert_eq!(SlashCommand::from_name("cwd"), Some(SlashCommand::Pwd));
    assert_eq!(SlashCommand::from_name("pwd"), Some(SlashCommand::Pwd));
    assert_eq!(SlashCommand::from_name("Model"), None);
}

#[test]
fn every_command_name_invokes_its_command() {
    for command in SlashCommand::ALL {
        assert_eq!(SlashCommand::from_name(command.command()), Some(command));
    }
}
