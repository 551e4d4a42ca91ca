use sbtui::command::ClientCommand;
use sbtui::format::human_bytes;
use sbtui::gui_lang::Locale;
use sbtui::gui_override::{build, OverridePage, Row, Shade};
use sbtui::snapshot::{ClientSnapshot, OverrideFragmentSummary, OverrideSummary, ReservedField};

const OVERRIDE_FILE: &str = "5c4f4a8f0e3b6c2d9a1e7f0b3c5d8e2a4f6b9c1d3e5f7a9b2c4d6e8f0a1b3c5d";

fn owned(items: &[&str]) -> Vec<String> {
    items.iter().map(|item| (*item).to_owned()).collect()
}

fn fragment(id: &str, label: &str, enabled: bool, rules: u64, changes: &[&str], reserved: &[&str]) -> OverrideFragmentSummary {
    OverrideFragmentSummary {
        id: id.to_owned(),
        label: label.to_owned(),
        enabled,
        rules,
        changes: owned(changes),
        reserved: owned(reserved),
    }
}

fn reserved(path: &str, reason_zh: &str) -> ReservedField {
    ReservedField {
        path: path.to_owned(),
        reason_zh: reason_zh.to_owned(),
    }
}

fn summary() -> OverrideSummary {
    OverrideSummary {
        profile: "内网订阅".to_owned(),
        file_name: OVERRIDE_FILE.to_owned(),
        bytes: 612,
        implicit: false,
        fragments: vec![
            fragment("private-direct", "内网直连", true, 2, &["/route/rules(+2)"], &[]),
            fragment("custom-dns", "自建 DNS", false, 0, &["/dns/servers(1 项)", "/dns/final"], &[]),
            fragment(
                "takeover",
                "接管入站",
                true,
                0,
                &["/route/auto_detect_interface", "/inbounds", "/experimental/clash_api/secret"],
                &["/experimental/clash_api/secret", "/inbounds", "/route/auto_detect_interface"],
            ),
        ],
        reserved: vec![
            reserved("/experimental/clash_api/secret", "客户端生成控制通道密钥"),
            reserved("/inbounds", "入站列表由流量模式决定（系统代理或 TUN）"),
            reserved("/route/auto_detect_interface", "本地运行需要自动检测出站网卡"),
        ],
    }
}

fn snapshot(summary: Option<OverrideSummary>) -> ClientSnapshot {
    ClientSnapshot {
        active_profile: summary.as_ref().map(|s| s.profile.clone()),
        override_summary: summary,
        ..ClientSnapshot::default()
    }
}

fn fragment_snapshot() -> ClientSnapshot {
    snapshot(Some(summary()))
}

fn texts(rows: &[Row]) -> Vec<String> {
    rows.iter().map(|row| row.text.clone()).collect()
}

fn card_lines(page: &OverridePage) -> Vec<String> {
    page.fragments
        .iter()
        .flat_map(|fragment| texts(&fragment.details))
        .collect()
}

#[test]
fn overrides_a_fragment_list_shows_state_rule_count_changed_paths_and_refused_paths() {
    let page = build(&fragment_snapshot(), Locale::Zh, false);
    let titles: Vec<&str> = page.fragments.iter().map(|f| f.title.as_str()).collect();
    assert_eq!(titles, ["内网直连（private-direct）", "自建 DNS（custom-dns）", "接管入站（takeover）"]);
    let states: Vec<&str> = page.fragments.iter().map(|f| f.state.as_str()).collect();
    assert_eq!(states, ["启用", "停用", "启用"]);
    let lines = card_lines(&page);
    assert!(lines.iter().any(|line| line == "改动  /route/rules(+2) · +2 条规则"), "{lines:?}");
    assert!(lines.iter().any(|line| line == "改动  /dns/final、/dns/servers(1 项)"), "{lines:?}");
    assert!(
        lines
            .iter()
            .any(|line| line == "⚠ 保留  /experimental/clash_api/secret（客户端写回，不生效）"),
        "{lines:?}"
    );
    assert!(lines.iter().any(|line| line == "⚠ 保留  /inbounds（客户端写回，不生效）"), "{lines:?}");
    let notes = texts(&page.reserved);
    assert!(notes.iter().any(|line| line.starts_with("⚠ 保留字段被覆写改动")), "{notes:?}");
    assert!(
        notes.iter().any(|line| line.starts_with("/route/auto_detect_interface — 本地运行")),
        "{notes:?}"
    );
    assert!(notes.iter().any(|line| line.contains("本页只读")), "{notes:?}");
}

#[test]
fn a_switch_asks_the_engine_to_flip_one_fragment_by_id() {
    let page = build(&fragment_snapshot(), Locale::Zh, false);
    assert_eq!(
        page.fragments[0].command,
        Some(ClientCommand::ToggleOverrideFragment {
            profile: "内网订阅".to_owned(),
            id: "private-direct".to_owned(),
            enabled: None,
        })
    );
    for card in &page.fragments {
        assert!(
            matches!(card.command, Some(ClientCommand::ToggleOverrideFragment { enabled: None, .. })),
            "a disabled fragment is switched the same way as an enabled one: {}",
            card.title
        );
    }
}

#[test]
fn a_fragment_with_no_label_of_its_own_reads_as_its_id() {
    let mut built = summary();
    built.fragments[0].label = built.fragments[0].id.clone();
    let page = build(&snapshot(Some(built)), Locale::Zh, false);
    assert_eq!(page.fragments[0].title, "private-direct");
}

#[test]
fn the_size_line_says_the_byte_count_once() {
    let page = build(&fragment_snapshot(), Locale::Zh, false);
    let line = texts(&page.status)
        .into_iter()
        .find(|line| line.contains("片段启用"))
        .expect("the size line");
    assert!(!line.contains(" B（"), "the rounded form repeated the byte count: {line}");
    let mut big = summary();
    big.bytes = 4096;
    let page = build(&snapshot(Some(big.clone())), Locale::Zh, false);
    let zh = texts(&page.status)
        .into_iter()
        .find(|line| line.contains("片段启用"))
        .expect("the size line");
    assert!(zh.contains("4.0 KiB（4096 字节）"), "{zh}");
    let page = build(&snapshot(Some(big)), Locale::En, false);
    let en = texts(&page.status)
        .into_iter()
        .find(|line| line.contains("fragments on"))
        .expect("the size line");
    assert!(en.contains("4.0 KiB (4096 bytes)"), "{en}");
}

#[test]
fn the_sha256_file_name_keeps_one_monospace_line() {
    let page = build(&fragment_snapshot(), Locale::Zh, false);
    let row = page
        .status
        .iter()
        .find(|row| row.text == OVERRIDE_FILE)
        .expect("the file name is printed");
    assert!(row.mono, "the name would break across two lines");
}

#[test]
fn overrides_a_disabled_fragment_loses_its_rule_and_its_conflict() {
    let mut built = summary();
    built
        .fragments
        .iter_mut()
        .for_each(|fragment| fragment.enabled = fragment.id == "custom-dns");
    built.reserved.clear();
    let page = build(&snapshot(Some(built)), Locale::Zh, false);
    let notes = texts(&page.reserved);
    assert!(notes.iter().any(|line| line.contains("没有启用中的片段改动它们")), "{notes:?}");
    let lines = card_lines(&page);
    assert!(!lines.iter().any(|line| line.contains("⚠ 保留")), "{lines:?}");
    assert!(
        lines.iter().any(|line| line == "保留字段  /inbounds（启用后会被客户端写回）"),
        "{lines:?}"
    );
    assert!(
        texts(&page.status).iter().any(|line| line.contains("1/3 片段启用")),
        "{:?}",
        texts(&page.status)
    );
}

#[test]
fn overrides_a_bare_object_says_there_is_nothing_to_toggle() {
    let bare = OverrideSummary {
        profile: "手写档案".to_owned(),
        file_name: OVERRIDE_FILE.to_owned(),
        bytes: 120,
        implicit: true,
        fragments: vec![fragment("override", "override", true, 0, &["/dns/final"], &[])],
        reserved: Vec::new(),
    };
    let page = build(&snapshot(Some(bare)), Locale::Zh, false);
    assert!(
        page.status
            .iter()
            .any(|row| row.text == "手写整份覆写：没有片段列表，无片段可开关。"),
        "{:?}",
        texts(&page.status)
    );
    assert_eq!(page.fragments.len(), 1, "the whole file is one fragment");
    assert!(page.fragments[0].command.is_none());
    assert!(page.fragments[0].enabled);
}

#[test]
fn a_malformed_override_is_printed_in_the_engine_s_own_words_and_owns_the_page() {
    let error = format!("覆写文件 {OVERRIDE_FILE} 不是有效的 JSON：第 1 行第 2 列：expected value");
    let page = build(
        &ClientSnapshot {
            active_profile: Some("内网订阅".to_owned()),
            override_error: Some(error.clone()),
            ..ClientSnapshot::default()
        },
        Locale::Zh,
        false,
    );
    assert!(page.broken);
    let head = texts(&page.status);
    assert_eq!(head[0], "覆写无效 · 内核不会启动");
    assert_eq!(head[1], error, "verbatim, not summarized");
    assert_eq!(page.status[1].shade, Shade::Danger);
    assert!(head.iter().any(|line| line.contains("没有被改写，也没有被部分应用")), "{head:?}");
    assert!(page.fragments.is_empty());
    assert!(page.clear_profile.is_some(), "a refused file is the state that most needs the way out");
}

#[test]
fn clearing_an_override_asks_once_and_names_the_profile() {
    let with_file = fragment_snapshot();
    let page = build(&with_file, Locale::Zh, false);
    assert_eq!(page.clear_profile.as_deref(), Some("内网订阅"));
    assert!(page.clear_warning.is_none(), "one click has not armed anything yet");
    let warning = build(&with_file, Locale::Zh, true).clear_warning.expect("the armed bar");
    assert!(warning.contains("内网订阅"), "{warning}");
    assert!(warning.contains("不可撤销"), "{warning}");
    assert!(
        build(&snapshot(None), Locale::Zh, true).clear_warning.is_none(),
        "with no file there is nothing to confirm deleting, so no bar appears"
    );
}

#[test]
fn overrides_no_override_file_is_a_state_rather_than_a_problem() {
    let page = build(&snapshot(None), Locale::Zh, false);
    let head = texts(&page.status);
    assert!(
        head.iter()
            .any(|line| line.contains("无覆写文件（数据目录的 overrides/ 下没有本档案的 JSON）")),
        "{head:?}"
    );
    assert!(head.iter().any(|line| line.contains("档案  （尚无档案：先导入订阅）")), "{head:?}");
    assert!(!page.broken);
    let notes = texts(&page.reserved);
    assert!(notes.len() == 1 && notes[0].contains("本页只读"), "{notes:?}");
    assert!(page.clear_profile.is_none());
    assert!(page.fragments.is_empty());
}

#[test]
fn overrides_the_outline_is_labelled_redacted_and_never_carries_a_secret() {
    let mut snapshot = fragment_snapshot();
    snapshot.core_running = true;
    snapshot.effective_outline = owned(&[
        "/route/rule_set/0/url: https://sbctl.test/sub/[redacted]",
        "/experimental/clash_api/secret: [已脱敏]",
        "/dns/final: local",
    ]);
    let page = build(&snapshot, Locale::Zh, false);
    let head = texts(&page.outline_head);
    assert!(head[0].contains("已脱敏 / redacted"), "{head:?}");
    assert!(head.iter().any(|line| line.contains("运行中内核的配置")), "{head:?}");
    assert!(page
        .outline_lines
        .iter()
        .any(|line| line.contains("/experimental/clash_api/secret: [已脱敏]")));
    let mut sorted = page.outline_lines.clone();
    sorted.sort();
    assert_eq!(page.outline_lines, sorted, "the outline shows in one order");
}

#[test]
fn overrides_an_empty_outline_explains_itself() {
    let page = build(&snapshot(None), Locale::Zh, false);
    let head = texts(&page.outline_head);
    assert!(head.iter().any(|line| line.contains("尚无生效配置")), "{head:?}");
    assert!(!head.iter().any(|line| line.contains("运行中内核")), "{head:?}");
    assert!(page.outline_lines.is_empty());
}

#[test]
fn the_two_hints_survive_whole_in_both_languages() {
    for locale in [Locale::Zh, Locale::En] {
        let page = build(&fragment_snapshot(), locale, false);
        let expected_note = match locale {
            Locale::Zh => "本页只读，不编辑 JSON：要改覆写就在数据目录的 overrides/ 下改这个文件，下次启动内核时生效。",
            Locale::En => "This page is read-only and edits no JSON: to change an override, edit that file under the data directory's overrides/ and start the core again.",
        };
        assert!(texts(&page.reserved).iter().any(|line| line == expected_note));
        let expected_when = match locale {
            Locale::Zh => "生效  开关只改这个文件，下次启动内核时才生效",
            Locale::En => "When it applies  a switch only rewrites this file; the next core start reads it",
        };
        assert!(texts(&page.status).iter().any(|line| line == expected_when));
    }
}

#[test]
fn the_page_has_an_english_half_for_every_state() {
    let page = build(&fragment_snapshot(), Locale::En, false);
    let states: Vec<&str> = page.fragments.iter().map(|f| f.state.as_str()).collect();
    assert_eq!(states, ["On", "Off", "On"]);
    assert!(card_lines(&page).iter().any(|line| line.starts_with("⚠ Reserved  /inbounds")));
    assert!(texts(&page.reserved)
        .iter()
        .any(|line| line == "/inbounds — the traffic mode owns the inbound list (system proxy or TUN)"));
    assert!(texts(&page.fragments[0].details)
        .iter()
        .any(|line| line == "Changes  /route/rules(+2) · +2 rules"));
    let broken = build(
        &ClientSnapshot {
            active_profile: Some("内网订阅".to_owned()),
            override_error: Some("测试错误".to_owned()),
            ..ClientSnapshot::default()
        },
        Locale::En,
        false,
    );
    let lines = texts(&broken.status);
    assert!(lines.iter().any(|line| line == "Override refused · the core will not start"));
    assert!(lines.iter().any(|line| line == "测试错误"));
}

#[test]
fn byte_counts_read_in_binary_units() {
    assert_eq!(human_bytes(0), "0 B");
    assert_eq!(human_bytes(1023), "1023 B");
    assert_eq!(human_bytes(1024), "1.0 KiB");
    assert_eq!(human_bytes(1536), "1.5 KiB");
    assert_eq!(human_bytes(4096), "4.0 KiB");
    assert_eq!(human_bytes(1280), "1.2 KiB", "a tie goes to the even tenth");
    assert_eq!(human_bytes(1024 * 1024), "1.0 MiB");
    assert_eq!(human_bytes(1_048_575), "1024.0 KiB");
}
