use lime_tui::history_cell::mcp::{
    mcp_inventory_lines, LineStyle, McpAuthStatus, McpInventoryLabels, McpResourceInfo,
    McpServerConnectionStatus, McpServerStatus, McpServerStatusDetail, StyledLine,
};

fn labels() -> McpInventoryLabels {
    McpInventoryLabels {
        title: "MCP Tools".to_string(),
        no_servers: "No MCP servers configured.".to_string(),
        no_tools_available: "No MCP tools available.".to_string(),
        auth_label: "Auth".to_string(),
        tools_label: "Tools".to_string(),
        resources_label: "Resources".to_string(),
        resource_templates_label: "Resource templates".to_string(),
        none: "(none)".to_string(),
        use_verbose: "Use /mcp verbose for tools and resources.".to_string(),
        tool_unit_one: "tool".to_string(),
        tool_unit_other: "tools".to_string(),
        translations: vec![("bearer token".to_string(), "Bearer token".to_string())],
    }
}

fn status(name: &str, tool: &str) -> McpServerStatus {
    McpServerStatus {
        name: name.to_string(),
        runtime_status: Some(McpServerConnectionStatus::Connected),
        auth_status: McpAuthStatus::BearerToken,
        tools: vec![tool.to_string()],
        resources: Vec::new(),
        resource_templates: Vec::new(),
    }
}

fn text(lines: &[StyledLine]) -> Vec<String> {
    lines.iter().map(|line| line.text.clone()).collect()
}

#[test]
fn inventory_is_sorted_and_full_detail_includes_tool_counts_and_names() {
    let lines = mcp_inventory_lines(
        &vec![status("zeta", "z-tool"), status("alpha", "a-tool")],
        McpServerStatusDetail::Full,
        &labels(),
    );
    let text = text(&lines);
    assert_eq!(text[4], "  • alpha: connected (1 tool)");
    assert_eq!(text[5], "    • Auth: Bearer token");
    assert_eq!(text[6], "    • Tools: a-tool");
    assert_eq!(text[7], "    • Resources: (none)");
    assert_eq!(text[8], "    • Resource templates: (none)");
    assert!(text[10].starts_with("  • zeta: connected"));
}

#[test]
fn compact_inventory_matches_codex_summary_shape() {
    let lines = mcp_inventory_lines(
        &vec![status("alpha", "a-tool")],
        McpServerStatusDetail::ToolsAndAuthOnly,
        &labels(),
    );
    let text = text(&lines);
    assert_eq!(text[4], "  • alpha: connected (1 tool)");
    assert!(text.iter().all(|line| !line.contains("Auth:")));
    assert_eq!(text[6], "Use /mcp verbose for tools and resources.");
    assert_eq!(lines[6].style, LineStyle::Dim);
}

#[test]
fn full_inventory_uses_codex_empty_tool_label() {
    let mut empty = status("alpha", "a-tool");
    empty.tools.clear();
    let lines = mcp_inventory_lines(&vec![empty], McpServerStatusDetail::Full, &labels());
    let text = text(&lines);
    assert_eq!(text[8], "    • Tools: (none)");
}

#[test]
fn full_inventory_preserves_resource_order_from_app_server() {
    let mut server = status("alpha", "a-tool");
    server.resources = vec![
        McpResourceInfo { title: None, name: "zeta".to_string(), uri: "file:///zeta".to_string() },
        McpResourceInfo { title: None, name: "alpha".to_string(), uri: "file:///alpha".to_string() },
    ];
    let lines = mcp_inventory_lines(&vec![server], McpServerStatusDetail::Full, &labels());
    let text = text(&lines);
    assert_eq!(text[5], "    • Auth: Bearer token");
    assert_eq!(text[7], "    • Resources: zeta (file:///zeta), alpha (file:///alpha)");
}

#[test]
fn inventory_empty_state_is_localized() {
    let mut zh = labels();
    zh.no_servers = "未配置 MCP 服务器。".to_string();
    let lines = mcp_inventory_lines(&vec![], McpServerStatusDetail::ToolsAndAuthOnly, &zh);
    let text = text(&lines);
    assert_eq!(text[4], "未配置 MCP 服务器。");
    assert_eq!(text.len(), 5);
}

#[test]
fn inventory_head_is_the_command_and_a_bold_title() {
    let lines = mcp_inventory_lines(&vec![], McpServerStatusDetail::Full, &labels());
    assert_eq!(text(&lines)[..4], ["/mcp", "", "🔌  MCP Tools", ""]);
    assert_eq!(lines[2].style, LineStyle::Bold);
    assert_eq!(lines[0].style, LineStyle::Plain);
}

#[test]
fn full_detail_without_any_tool_says_so_first() {
    let mut a = status("alpha", "x");
    a.tools.clear();
    let mut b = status("beta", "y");
    b.tools.clear();
    let lines = mcp_inventory_lines(&vec![b, a], McpServerStatusDetail::Full, &labels());
    let text = text(&lines);
    assert_eq!(text[4], "No MCP tools available.");
    assert_eq!(text[5], "");
    assert_eq!(text[6], "  • alpha: connected (0 tools)");
    assert_eq!(text[11], "");
    assert_eq!(text[12], "  • beta: connected (0 tools)");
    assert_eq!(text.len(), 18);
}

#[test]
fn tools_are_listed_by_name_and_titles_replace_resource_names() {
    let mut server = status("alpha", "b-tool");
    server.tools = vec!["c".to_string(), "a".to_string(), "b".to_string()];
    server.runtime_status = None;
    server.auth_status = McpAuthStatus::NotLoggedIn;
    server.resource_templates = vec![McpResourceInfo {
        title: Some("Docs".to_string()),
        name: "docs".to_string(),
        uri: "file:///{path}".to_string(),
    }];
    let lines = mcp_inventory_lines(&vec![server], McpServerStatusDetail::Full, &labels());
    let text = text(&lines);
    assert_eq!(text[4], "  • alpha: authentication required (3 tools)");
    assert_eq!(text[5], "    • Auth: not logged in");
    assert_eq!(text[6], "    • Tools: a, b, c");
    assert_eq!(text[8], "    • Resource templates: Docs (file:///{path})");
}

#[test]
fn servers_with_equal_names_keep_their_order() {
    let lines = mcp_inventory_lines(
        &vec![status("same", "first"), status("same", "second"), status("a", "t")],
        McpServerStatusDetail::Full,
        &labels(),
    );
    let text = text(&lines);
    assert_eq!(text[4], "  • a: connected (1 tool)");
    assert_eq!(text[12], "    • Tools: first");
    assert_eq!(text[18], "    • Tools: second");
}
