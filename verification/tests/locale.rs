use lime_tui::locale::Locale;
use lime_tui::slash_command::SlashCommand;


#[test]
fn parses_supported_locale_families_and_falls_back_to_english() {
    assert_eq!(Locale::parse("zh_CN"), Some(Locale::ZhCn));
    assert_eq!(Locale::parse("zh-Hant-TW"), Some(Locale::ZhTw));
    assert_eq!(Locale::parse("ja"), Some(Locale::JaJp));
    assert_eq!(Locale::parse("ko-KR"), Some(Locale::KoKr));
    assert_eq!(Locale::parse("en-GB"), Some(Locale::EnUs));
    assert_eq!(Locale::parse("fr-FR"), None);
}

#[test]
fn translates_statuses_and_dynamic_detail_labels_without_changing_unknown_text() {
    assert_eq!(Locale::ZhCn.status("ready"), "就绪");
    assert_eq!(Locale::JaJp.status("effort: high"), "推論: high");
    assert_eq!(
        Locale::ZhTw.status("image attached: 20x10"),
        "已附加圖片: 20x10"
    );
    assert_eq!(
        Locale::KoKr.status("image paste failed: unavailable"),
        "이미지 붙여넣기 실패: unavailable"
    );
    assert_eq!(Locale::KoKr.detail("files: 2"), "파일 수: 2");
    assert_eq!(Locale::ZhCn.detail("model: fixture"), "模型：fixture");
    assert_eq!(Locale::ZhTw.detail("effort: high"), "思考強度：high");
    assert_eq!(Locale::EnUs.detail("prompt: inspect"), "prompt: inspect");
    assert_eq!(Locale::JaJp.detail("model: fixture"), "モデル: fixture");
    assert_eq!(Locale::KoKr.detail("effort: high"), "추론 강도: high");
    assert_eq!(Locale::ZhCn.detail("output: ok"), "输出：ok");
    assert_eq!(Locale::ZhTw.detail("output: ok"), "輸出：ok");
    assert_eq!(Locale::EnUs.detail("output: ok"), "output: ok");
    assert_eq!(Locale::JaJp.detail("output: ok"), "出力: ok");
    assert_eq!(Locale::KoKr.detail("output: ok"), "출력: ok");
    assert_eq!(
        Locale::ZhCn.detail("structured content: {\"matches\":1}"),
        "结构化内容：{\"matches\":1}"
    );
    assert_eq!(
        Locale::ZhTw.detail("structured content: {\"matches\":1}"),
        "結構化內容：{\"matches\":1}"
    );
    assert_eq!(
        Locale::EnUs.detail("structured content: {\"matches\":1}"),
        "structured content: {\"matches\":1}"
    );
    assert_eq!(
        Locale::JaJp.detail("structured content: {\"matches\":1}"),
        "構造化コンテンツ: {\"matches\":1}"
    );
    assert_eq!(
        Locale::KoKr.detail("structured content: {\"matches\":1}"),
        "구조화 콘텐츠: {\"matches\":1}"
    );
    assert_eq!(
        Locale::ZhCn.detail("computer screenshot: captured"),
        "电脑截图：captured"
    );
    assert_eq!(
        Locale::ZhTw.detail("computer action: Capture"),
        "電腦操作：Capture"
    );
    assert_eq!(
        Locale::EnUs.detail("computer error: failed"),
        "computer error: failed"
    );
    assert_eq!(
        Locale::JaJp.detail("computer screenshot: captured"),
        "コンピュータ スクリーンショット: captured"
    );
    assert_eq!(
        Locale::KoKr.detail("computer action: Capture"),
        "컴퓨터 작업: Capture"
    );
    assert_eq!(Locale::ZhTw.detail("custom: value"), "custom: value");
    assert_eq!(Locale::ZhCn.status("running hook"), "正在运行 Hook");
    assert_eq!(Locale::ZhTw.status("running hooks"), "正在執行多個 Hook");
    assert_eq!(Locale::EnUs.status("running hook"), "running hook");
    assert_eq!(Locale::JaJp.status("running hooks"), "複数の Hook を実行中");
    assert_eq!(Locale::KoKr.status("running hook"), "Hook 실행 중");
    assert_eq!(
        Locale::ZhCn.status("MCP startup issue: docs: offline"),
        "MCP 启动问题: docs: offline"
    );
    assert_eq!(
        Locale::ZhTw.status("MCP startup issues: 2"),
        "MCP 啟動問題: 2"
    );
    assert_eq!(
        Locale::JaJp.status("MCP startup issue: docs: offline"),
        "MCP 起動の問題: docs: offline"
    );
    assert_eq!(
        Locale::KoKr.status("MCP startup issue: docs: offline"),
        "MCP 시작 문제: docs: offline"
    );
    assert_eq!(Locale::ZhCn.detail("hook completed"), "Hook 已完成");
    assert_eq!(Locale::ZhTw.detail("hook failed"), "Hook 失敗");
    assert_eq!(Locale::EnUs.detail("hook blocked"), "hook blocked");
    assert_eq!(Locale::JaJp.detail("hook stopped"), "Hook 停止");
    assert_eq!(Locale::KoKr.detail("hook output: ok"), "Hook 출력: ok");
    assert_eq!(Locale::ZhCn.approval_option("Allow once"), "允许一次");
    assert_eq!(
        Locale::JaJp.approval_option("Cancel turn"),
        "ターンをキャンセル"
    );
}

#[test]
fn collaboration_mode_statuses_cover_all_product_locales() {
    let cases = [
        (
            Locale::ZhCn,
            "协作模式已更新",
            "计划模式",
            "此服务器不支持计划模式",
        ),
        (
            Locale::ZhTw,
            "協作模式已更新",
            "計畫模式",
            "此伺服器不支援計畫模式",
        ),
        (
            Locale::EnUs,
            "collaboration mode updated",
            "plan mode",
            "plan mode unavailable on this server",
        ),
        (
            Locale::JaJp,
            "コラボレーションモードを更新しました",
            "計画モード",
            "このサーバーでは計画モードを利用できません",
        ),
        (
            Locale::KoKr,
            "협업 모드가 업데이트됨",
            "계획 모드",
            "이 서버에서는 계획 모드를 사용할 수 없음",
        ),
    ];

    for (locale, updated, plan, unavailable) in cases {
        assert_eq!(locale.status("collaboration mode updated"), updated);
        assert_eq!(locale.status("plan mode"), plan);
        assert_eq!(
            locale.status("plan mode unavailable on this server"),
            unavailable
        );
    }
}

#[test]
fn multi_agent_titles_cover_all_product_locales() {
    let cases = [
        (
            Locale::ZhCn,
            "已启动 agent-1",
            "等待完成",
            "已中断 `agent-1`",
        ),
        (
            Locale::ZhTw,
            "已啟動 agent-1",
            "等待完成",
            "已中斷 `agent-1`",
        ),
        (
            Locale::EnUs,
            "Spawned agent-1",
            "Finished waiting",
            "Interrupted `agent-1`",
        ),
        (
            Locale::JaJp,
            "起動: agent-1",
            "待機が完了しました",
            "中断: `agent-1`",
        ),
        (
            Locale::KoKr,
            "생성됨 agent-1",
            "대기 완료",
            "중단됨 `agent-1`",
        ),
    ];
    for (locale, spawned, waiting, interrupted) in cases {
        assert_eq!(locale.multi_agent("Spawned agent-1"), spawned);
        assert_eq!(locale.multi_agent("Finished waiting"), waiting);
        assert_eq!(locale.multi_agent("Interrupted `agent-1`"), interrupted);
    }
    assert_eq!(Locale::EnUs.multi_agent("unknown event"), "unknown event");
}

#[test]
fn command_output_omission_markers_cover_all_product_locales() {
    let line_markers = [
        (Locale::ZhCn, "已省略 2 行"),
        (Locale::ZhTw, "已省略 2 行"),
        (Locale::EnUs, "2 lines omitted"),
        (Locale::JaJp, "2 行を省略"),
        (Locale::KoKr, "2줄 생략"),
    ];
    let byte_markers = [
        (Locale::ZhCn, "已省略 3 字节"),
        (Locale::ZhTw, "已省略 3 位元組"),
        (Locale::EnUs, "3 bytes omitted"),
        (Locale::JaJp, "3 バイトを省略"),
        (Locale::KoKr, "3바이트 생략"),
    ];

    for (locale, marker) in line_markers {
        assert!(locale.output_omitted_lines(2).contains(marker));
    }
    for (locale, marker) in byte_markers {
        assert!(locale.output_omitted_bytes(3).contains(marker));
    }
}

#[test]
fn agents_overview_controls_cover_all_product_locales() {
    for locale in [
        Locale::ZhCn,
        Locale::ZhTw,
        Locale::EnUs,
        Locale::JaJp,
        Locale::KoKr,
    ] {
        assert!(!locale.agents_overview_title().is_empty());
        assert!(!locale.agents_overview_footer().is_empty());
        assert!(!locale.agents_overview_search_prefix().is_empty());
        assert!(!locale.agents_overview_group_label("need input").is_empty());
    }
}

#[test]
fn agents_overview_task_statuses_cover_all_product_locales() {
    for locale in [
        Locale::ZhCn,
        Locale::ZhTw,
        Locale::EnUs,
        Locale::JaJp,
        Locale::KoKr,
    ] {
        assert!(!locale.agents_overview_input_prefix(false).is_empty());
        assert!(!locale.agents_overview_input_prefix(true).is_empty());
        assert!(!locale
            .status("background task started: thread-1")
            .is_empty());
        assert!(!locale.status("background task failed: offline").is_empty());
        assert!(!locale.status("agent renamed").is_empty());
        assert!(!locale
            .status("resume picker is available from /resume")
            .is_empty());
    }
}

#[test]
fn image_clipboard_statuses_cover_all_product_locales() {
    let cases = [
        (
            Locale::ZhCn,
            "已附加图片: 20x10",
            "粘贴图片失败: unavailable",
        ),
        (
            Locale::ZhTw,
            "已附加圖片: 20x10",
            "貼上圖片失敗: unavailable",
        ),
        (
            Locale::EnUs,
            "image attached: 20x10",
            "image paste failed: unavailable",
        ),
        (
            Locale::JaJp,
            "画像を添付しました: 20x10",
            "画像の貼り付けに失敗しました: unavailable",
        ),
        (
            Locale::KoKr,
            "이미지 첨부됨: 20x10",
            "이미지 붙여넣기 실패: unavailable",
        ),
    ];

    for (locale, attached, failed) in cases {
        assert_eq!(locale.status("image attached: 20x10"), attached);
        assert_eq!(locale.status("image paste failed: unavailable"), failed);
    }
}

#[test]
fn queue_unavailable_status_covers_all_product_locales() {
    let cases = [
        (
            Locale::ZhCn,
            "队列不可用: offline",
            "正在编辑排队输入",
            "排队输入已不可用",
            "编辑排队输入失败: offline",
            "Alt+Up 编辑最后一条排队输入",
        ),
        (
            Locale::ZhTw,
            "佇列無法使用: offline",
            "正在編輯排隊輸入",
            "排隊輸入已無法使用",
            "編輯排隊輸入失敗: offline",
            "Alt+Up 編輯最後一則排隊輸入",
        ),
        (
            Locale::EnUs,
            "queue unavailable: offline",
            "editing queued input",
            "queued input unavailable",
            "queue edit failed: offline",
            "Alt+Up edit last queued input",
        ),
        (
            Locale::JaJp,
            "キューを利用できません: offline",
            "キュー入力を編集中",
            "キュー入力を利用できません",
            "キュー入力の編集に失敗しました: offline",
            "Alt+Up 最後のキュー入力を編集",
        ),
        (
            Locale::KoKr,
            "대기열을 사용할 수 없음: offline",
            "대기 입력 편집 중",
            "대기 입력을 사용할 수 없음",
            "대기 입력 편집 실패: offline",
            "Alt+Up 마지막 대기 입력 편집",
        ),
    ];
    for (locale, unavailable, editing, input_unavailable, failed, hint) in cases {
        assert_eq!(locale.status("queue unavailable: offline"), unavailable);
        assert_eq!(locale.status("queued input editing"), editing);
        assert_eq!(locale.status("queued input unavailable"), input_unavailable);
        assert_eq!(locale.status("queue edit failed: offline"), failed);
        assert_eq!(locale.edit_queued_input_hint(), hint);
    }
}

#[test]
fn exposes_all_product_locale_tags() {
    let locales = [
        Locale::ZhCn,
        Locale::ZhTw,
        Locale::EnUs,
        Locale::JaJp,
        Locale::KoKr,
    ];
    assert_eq!(
        locales
            .iter()
            .map(|locale| locale.tag())
            .collect::<Vec<_>>(),
        vec!["zh-CN", "zh-TW", "en-US", "ja-JP", "ko-KR"]
    );
}

#[test]
fn slash_command_descriptions_cover_all_product_locales() {
    let cases = [
        (Locale::ZhCn, "选择模型"),
        (Locale::ZhTw, "選擇模型"),
        (Locale::EnUs, "choose a model"),
        (Locale::JaJp, "モデルを選択"),
        (Locale::KoKr, "모델 선택"),
    ];
    for (locale, expected) in cases {
        assert_eq!(
            locale.slash_command_description(SlashCommand::Model),
            expected
        );
        for command in SlashCommand::ALL {
            assert!(!locale.slash_command_description(command).is_empty());
        }
    }
}

#[test]
fn export_picker_labels_cover_all_product_locales() {
    for locale in [
        Locale::ZhCn,
        Locale::ZhTw,
        Locale::EnUs,
        Locale::JaJp,
        Locale::KoKr,
    ] {
        for label in [
            locale.export_title(),
            locale.export_subtitle(),
            locale.export_copy_label(),
            locale.export_copy_description(),
            locale.export_file_label(),
            locale.export_file_description(),
            locale.export_picker_hint(),
            locale.export_prompt_title(),
            locale.export_prompt_hint(),
        ] {
            assert!(!label.is_empty(), "missing export label for {locale:?}");
        }
    }
}

#[test]
fn mcp_approval_labels_cover_all_product_locales() {
    for locale in [
        Locale::ZhCn,
        Locale::ZhTw,
        Locale::EnUs,
        Locale::JaJp,
        Locale::KoKr,
    ] {
        for value in [
            "accept",
            "accept_session",
            "accept_always",
            "decline",
            "cancel",
        ] {
            assert!(
                !locale.mcp_elicitation_approval_option(value).is_empty(),
                "missing MCP approval label for {locale:?}/{value}"
            );
        }
    }
}

#[test]
fn working_directory_messages_cover_all_product_locales() {
    let cwd = "/tmp/project";
    for locale in [
        Locale::ZhCn,
        Locale::ZhTw,
        Locale::EnUs,
        Locale::JaJp,
        Locale::KoKr,
    ] {
        let message = locale.current_working_directory_message(cwd);
        assert!(message.contains(cwd));
        assert!(!locale.pwd_usage().is_empty());
    }
}

#[test]
fn file_search_popup_labels_cover_all_product_locales() {
    for locale in [
        Locale::ZhCn,
        Locale::ZhTw,
        Locale::EnUs,
        Locale::JaJp,
        Locale::KoKr,
    ] {
        assert!(!locale.file_search_loading().is_empty());
        assert!(!locale.file_search_no_matches().is_empty());
    }
    assert_eq!(Locale::ZhCn.file_search_loading(), "正在搜索...");
    assert_eq!(Locale::EnUs.file_search_no_matches(), "no matches");
    for locale in [
        Locale::ZhCn,
        Locale::ZhTw,
        Locale::EnUs,
        Locale::JaJp,
        Locale::KoKr,
    ] {
        assert!(!locale.skill_popup_no_matches().is_empty());
    }
}

#[test]
fn skill_warning_messages_cover_all_product_locales() {
    for locale in [
        Locale::ZhCn,
        Locale::ZhTw,
        Locale::EnUs,
        Locale::JaJp,
        Locale::KoKr,
    ] {
        let summary = locale.skipped_skills_message(2);
        let detail = locale.skill_load_error_message("/tmp/SKILL.md", "invalid");
        assert!(summary.contains('2'));
        assert!(detail.contains("/tmp/SKILL.md"));
        assert!(detail.contains("invalid"));
    }
}

#[test]
fn status_pager_labels_cover_all_product_locales() {
    for locale in [
        Locale::ZhCn,
        Locale::ZhTw,
        Locale::EnUs,
        Locale::JaJp,
        Locale::KoKr,
    ] {
        for label in [
            locale.status_title(),
            locale.transcript_title(),
            locale.thread_label(),
            locale.provider_label(),
            locale.cwd_label(),
            locale.state_label(),
            locale.not_set_label(),
            locale.history_search_label(),
            locale.pager_footer(),
            locale.transcript_pager_footer(),
        ] {
            assert!(!label.is_empty(), "{locale:?}");
        }
    }
    assert_eq!(Locale::ZhCn.status_title(), "状态");
    assert_eq!(Locale::EnUs.transcript_title(), "T R A N S C R I P T");
    assert_eq!(Locale::ZhTw.state_label(), "狀態");
    assert_eq!(Locale::JaJp.not_set_label(), "未設定");
    assert!(Locale::KoKr.pager_footer().contains("Esc/Q"));
    assert!(Locale::ZhCn.transcript_pager_footer().contains("Ctrl+T"));
}

#[test]
fn resume_picker_controls_cover_all_product_locales() {
    for locale in [
        Locale::ZhCn,
        Locale::ZhTw,
        Locale::EnUs,
        Locale::JaJp,
        Locale::KoKr,
    ] {
        assert!(!locale.resume_picker_title(false).is_empty());
        assert!(!locale.resume_picker_title(true).is_empty());
        assert!(!locale.resume_enter_hint(false, false).is_empty());
        assert!(!locale.resume_enter_hint(true, false).is_empty());
        assert!(!locale.resume_enter_hint(false, true).is_empty());
        assert!(!locale.resume_controls_hint().is_empty());
        assert!(!locale.resume_search_placeholder().is_empty());
        assert!(!locale.resume_loading().is_empty());
        assert!(!locale.resume_status_label(false).is_empty());
        assert!(!locale.resume_status_label(true).is_empty());
        assert!(!locale.resume_filter_label(false).is_empty());
        assert!(!locale.resume_filter_label(true).is_empty());
        assert!(!locale.resume_sort_label(false).is_empty());
        assert!(!locale.resume_sort_label(true).is_empty());
        assert!(!locale.resume_density_label(false).is_empty());
        assert!(!locale.resume_density_label(true).is_empty());
        assert!(!locale.resume_expand_hint().is_empty());
        assert!(!locale.resume_transcript_hint().is_empty());
        assert!(!locale.created_label().is_empty());
        assert!(!locale.updated_label().is_empty());
        assert!(!locale.resume_transcript_loading().is_empty());
        assert!(!locale.resume_transcript_failed().is_empty());
        assert!(!locale.resume_transcript_empty().is_empty());
    }
}

#[test]
fn every_locale_tag_parses_back_to_its_locale() {
    for locale in [Locale::ZhCn, Locale::ZhTw, Locale::EnUs, Locale::JaJp, Locale::KoKr] {
        assert_eq!(Locale::parse(locale.tag()), Some(locale));
    }
}

#[test]
fn parsing_ignores_surrounding_space_case_and_underscores() {
    assert_eq!(Locale::parse("  ZH_tw "), Locale::parse("zh-tw"));
    assert_eq!(Locale::parse("EN_us"), Locale::parse("en-us"));
    assert_eq!(Locale::parse("   "), None);
    assert_eq!(Locale::parse(""), None);
}
