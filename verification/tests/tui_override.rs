use sbtui::snapshot::{ClientSnapshot, OverrideFragmentSummary, OverrideSummary, ReservedField};
use sbtui::tui_override::{
    block_height, fit, fragment_groups, head_rows, note_rows, outline_rows, outline_title, override_title, Row, Tone,
};

const OVERRIDE_FILE: &str = "5c4f4a8f0e3b6c2d9a1e7f0b3c5d8e2a4f6b9c1d3e5f7a9b2c4d6e8f0a1b3c5d";

fn owned(items: &[&str]) -> Vec<String> {
    items.iter().map(|item| (*item).to_owned()).collect()
}

fn fragment(id: &str, label: &str, enabled: bool, rules: u64, changes: &[&str], reserved: &[&str]) -> OverrideFragmentSummary {
    OverrideFragmentSummary {
        id: id.to_owned(),
        label: label.to_owned(),
        enabled,
        rules,
        changes: owned(changes),
        reserved: owned(reserved),
    }
}

fn reserved(path: &str, reason_zh: &str) -> ReservedField {
    ReservedField {
        path: path.to_owned(),
        reason_zh: reason_zh.to_owned(),
    }
}

/// Three fragments: one adds two rules, one rewrites DNS and is off, one
/// reaches for three fields the client owns.
fn fragment_summary() -> OverrideSummary {
    OverrideSummary {
        profile: "内网订阅".to_owned(),
        file_name: OVERRIDE_FILE.to_owned(),
        bytes: 612,
        implicit: false,
        fragments: vec![
            fragment("private-direct", "内网直连", true, 2, &["/route/rules(+2)"], &[]),
            fragment("custom-dns", "自建 DNS", false, 0, &["/dns/servers(1 项)", "/dns/final"], &[]),
            fragment(
                "takeover",
                "接管入站",
                true,
                0,
                &["/route/auto_detect_interface", "/inbounds", "/experimental/clash_api/secret"],
                &["/experimental/clash_api/secret", "/inbounds", "/route/auto_detect_interface"],
            ),
        ],
        reserved: vec![
            reserved("/experimental/clash_api/secret", "客户端生成控制通道密钥"),
            reserved("/inbounds", "入站列表由流量模式决定（系统代理或 TUN）"),
            reserved("/route/auto_detect_interface", "本地运行需要自动检测出站网卡"),
        ],
    }
}

fn texts(rows: &[Row]) -> Vec<String> {
    rows.iter().map(|row| row.text.clone()).collect()
}

fn group_texts(groups: &[Vec<Row>]) -> Vec<String> {
    groups.iter().flat_map(|group| texts(group)).collect()
}

#[test]
fn config_override_a_fragment_list_shows_state_rule_count_changed_paths_and_refused_paths() {
    let snapshot = ClientSnapshot {
        override_summary: Some(fragment_summary()),
        ..ClientSnapshot::default()
    };
    let groups = fragment_groups(&snapshot, 60);
    assert_eq!(groups.len(), 3, "one group per fragment");
    let joined = group_texts(&groups);
    assert!(
        joined
            .iter()
            .any(|line| line.contains("[启用] 内网直连（private-direct） · +2 条规则")),
        "the rule count and the switch state read on one line: {joined:?}"
    );
    assert!(
        joined.iter().any(|line| line.contains("[停用] 自建 DNS")),
        "a disabled fragment says so: {joined:?}"
    );
    assert!(
        joined
            .iter()
            .any(|line| line == "改动  /dns/final、/dns/servers(1 项)"),
        "field paths, not a JSON dump: {joined:?}"
    );
    assert!(
        joined
            .iter()
            .any(|line| line == "⚠ 保留  /experimental/clash_api/secret（客户端写回，不生效）"),
        "the refused path is named on the fragment that asked for it: {joined:?}"
    );
    assert!(
        joined.iter().any(|line| line == "⚠ 保留  /inbounds（客户端写回，不生效）"),
        "every reserved pointer the enabled fragment touches is listed: {joined:?}"
    );
    let notes = texts(&note_rows(&snapshot, 60));
    assert!(
        notes
            .iter()
            .any(|line| line.contains("⚠ 保留字段被覆写改动") && !line.contains("静默")),
        "{notes:?}"
    );
    assert!(
        notes
            .iter()
            .any(|line| line.contains("/route/auto_detect_interface — 本地运行")),
        "the path leads the row, so the reason can be cut and the row still says which field: {notes:?}"
    );
    assert!(notes.iter().any(|line| line.contains("本页只读")), "{notes:?}");
}

#[test]
fn config_override_a_disabled_fragment_loses_its_rule_and_its_conflict() {
    let mut built = fragment_summary();
    built
        .fragments
        .iter_mut()
        .for_each(|fragment| fragment.enabled = fragment.id == "custom-dns");
    built.reserved.clear();
    let snapshot = ClientSnapshot {
        override_summary: Some(built),
        ..ClientSnapshot::default()
    };
    let notes = texts(&note_rows(&snapshot, 60));
    assert!(
        notes.iter().any(|line| line.contains("没有启用中的片段改动它们")),
        "the only conflict came from the now-disabled fragment: {notes:?}"
    );
    let lines = group_texts(&fragment_groups(&snapshot, 60));
    assert!(
        !lines.iter().any(|line| line.contains("⚠ 保留")),
        "no enabled fragment reaches for a reserved field, so nothing is refused: {lines:?}"
    );
    assert!(
        lines
            .iter()
            .any(|line| line == "保留字段  /inbounds（启用后会被客户端写回）"),
        "the switch that is off still says what it would ask for: {lines:?}"
    );
    assert_eq!(
        override_title(&snapshot),
        "配置覆写 · 1/3 启用 · ↑↓ 选择 · Enter 开关",
        "the title counts what merges, not what exists"
    );
}

#[test]
fn config_override_a_bare_object_says_there_is_nothing_to_toggle() {
    let bare = OverrideSummary {
        profile: "手写档案".to_owned(),
        file_name: OVERRIDE_FILE.to_owned(),
        bytes: 120,
        implicit: true,
        fragments: vec![fragment("override", "override", true, 0, &["/dns/final"], &[])],
        reserved: Vec::new(),
    };
    let snapshot = ClientSnapshot {
        override_summary: Some(bare),
        ..ClientSnapshot::default()
    };
    let head = texts(&head_rows(&snapshot));
    assert!(
        head.iter()
            .any(|line| line.contains("手写整份覆写：没有片段列表，无片段可开关")),
        "{head:?}"
    );
    assert_eq!(
        override_title(&snapshot),
        "配置覆写 · 手写整份（无片段可开关）",
        "the title promises no key it cannot honour"
    );
    assert_eq!(fragment_groups(&snapshot, 60).len(), 1, "the whole file reads as one fragment");
}

#[test]
fn a_malformed_override_is_printed_in_the_engine_s_own_words() {
    let error = format!("覆写文件 {OVERRIDE_FILE} 不是有效的 JSON：第 1 行第 2 列：expected value");
    let snapshot = ClientSnapshot {
        override_error: Some(error.clone()),
        ..ClientSnapshot::default()
    };
    let head = texts(&head_rows(&snapshot));
    assert_eq!(head[0], "覆写无效 · 内核不会启动", "the consequence comes before the cause");
    assert!(head.iter().any(|line| line == &error), "verbatim, not summarized: {head:?}");
    assert!(head.iter().any(|line| line.contains("没有被改写，也没有被部分应用")), "{head:?}");
    assert!(fragment_groups(&snapshot, 60).is_empty(), "nothing was applied, so there is nothing to list");
    assert_eq!(override_title(&snapshot), "配置覆写 · 覆写无效");
}

#[test]
fn config_override_no_override_file_is_a_state_rather_than_a_problem() {
    let snapshot = ClientSnapshot::default();
    let head = texts(&head_rows(&snapshot));
    assert!(
        head.iter()
            .any(|line| line.contains("无覆写文件（数据目录的 overrides/ 下没有本档案的 JSON）")),
        "{head:?}"
    );
    assert!(
        head.iter().any(|line| line.contains("档案  （尚无档案：先导入订阅）")),
        "with no profile the page says which profile it looked for: {head:?}"
    );
    assert!(
        !texts(&note_rows(&snapshot, 60))
            .iter()
            .any(|line| line.contains("保留字段被覆写改动")),
        "no file, no refusal to report"
    );
}

#[test]
fn config_override_the_outline_is_labelled_redacted_and_never_carries_a_secret() {
    let snapshot = ClientSnapshot {
        core_running: true,
        effective_outline: owned(&[
            "/route/rule_set/0/url: https://sbctl.test/sub/[redacted]",
            "/experimental/clash_api/secret: [已脱敏]",
            "/dns/final: local",
        ]),
        ..ClientSnapshot::default()
    };
    assert_eq!(outline_title(), "生效配置 · 已脱敏 / redacted · 只读");
    let rows = texts(&outline_rows(&snapshot, 60));
    assert!(rows[0].contains("已脱敏 / redacted"), "the label leads: {rows:?}");
    assert!(rows.iter().any(|line| line.contains("运行中内核的配置")), "{rows:?}");
    assert!(
        rows.iter()
            .any(|line| line.contains("/experimental/clash_api/secret: [已脱敏]")),
        "{rows:?}"
    );
    assert!(
        rows.iter().any(|line| line.contains("https://sbctl.test/sub/[redacted]")),
        "{rows:?}"
    );
    let body: Vec<String> = rows[3..].to_vec();
    let mut sorted = body.clone();
    sorted.sort();
    assert_eq!(body, sorted, "the outline reads in one order whatever the walk order was");
}

#[test]
fn config_override_an_empty_outline_explains_itself() {
    let snapshot = ClientSnapshot::default();
    let rows = texts(&outline_rows(&snapshot, 60));
    assert!(rows.iter().any(|line| line.contains("尚无生效配置")), "{rows:?}");
    assert!(
        !rows.iter().any(|line| line.contains("运行中内核")),
        "nothing has started, so the page must not claim it has: {rows:?}"
    );
}

#[test]
fn rows_are_cut_at_the_display_width_and_the_cut_is_marked() {
    assert_eq!(fit("[启用] 内网直连 · +2 条规则", 60), "[启用] 内网直连 · +2 条规则");
    let cut = fit("[启用] 内网直连 · +2 条规则", 20);
    assert_eq!(ratatui::text::Line::from(cut.as_str()).width(), 20, "{cut:?}");
    assert!(cut.ends_with('…') && !cut.contains('规'), "{cut:?}");
    assert_eq!(fit("abcdef", 2), "abc…", "the four-column floor still marks a cut");
    assert_eq!(fit("中文文", 1), "中…", "a two-column glyph cannot fit four with the mark");
}

#[test]
fn a_wrapping_error_does_not_squeeze_the_list_out_of_the_panel() {
    let lines = vec![Row::new(Tone::Danger, "x".repeat(200)), Row::new(Tone::Text, "y".repeat(5))];
    let height = block_height(&lines, 50);
    assert_eq!(height, 5, "the 200-column row wraps to 4, the short one to 1");
    let one_long_row = vec![Row::new(Tone::Danger, "x".repeat(900))];
    assert_eq!(block_height(&one_long_row, 50), 8, "capped, not tall");
    assert_eq!(block_height(&Vec::new(), 50), 0);
    assert_eq!(block_height(&lines, 0), 2, "no width means one row each");
}
