use sbtui::clash_api::{Connection, ConnectionMetadata, OutboundMode};
use sbtui::snapshot::{ClientSnapshot, NodeDelay, ProfileSummary, ProxyGroupSnapshot, TrafficPoint};
use sbtui::system_proxy::{HostOs, TrafficMode};
use sbtui::tui::{ConnSort, InputGoal, Tab};
use sbtui::tui_pages::{
    activity_lines, compact_lines, confirmation_lines, connection_cells, connection_heading, connections_title,
    dashboard_is_compact, delay_text, environment_lines, footer_line, group_item, header_line, health_lines,
    help_lines, input_lines, member_line, members_title, network_lines, profile_item, rate_line, rates_text,
    selected_node, summary_lines, totals_text, traffic_peak, traffic_title, Ink, Piece,
};

fn texts(line: &[Piece]) -> String {
    line.iter().map(|p| p.text.as_str()).collect()
}

fn all_texts(lines: &[Vec<Piece>]) -> Vec<String> {
    lines.iter().map(|l| texts(l)).collect()
}

fn group() -> ProxyGroupSnapshot {
    ProxyGroupSnapshot {
        name: "🚀节点选择".to_owned(),
        kind: "Selector".to_owned(),
        current: "HK-01".to_owned(),
        members: vec!["HK-01".to_owned(), "JP-01".to_owned(), "US-01".to_owned()],
        delays: vec![NodeDelay { node: "HK-01".to_owned(), millis: 120 }],
        failed: vec!["US-01".to_owned()],
    }
}

#[test]
fn the_selector_group_names_the_current_node() {
    let mut snapshot = ClientSnapshot { current_node: Some("engine-node".to_owned()), ..Default::default() };
    assert_eq!(selected_node(&snapshot, "🚀节点选择"), "engine-node");
    snapshot.proxy_groups = vec![group()];
    assert_eq!(selected_node(&snapshot, "🚀节点选择"), "HK-01");
    assert_eq!(selected_node(&ClientSnapshot::default(), "🚀节点选择"), "等待选择节点");
}

#[test]
fn delays_read_in_milliseconds_or_as_untested() {
    assert_eq!(delay_text(Some(87)), "87 ms");
    assert_eq!(delay_text(None), "待测");
}

#[test]
fn the_header_shows_state_node_and_rates() {
    let snapshot = ClientSnapshot { core_running: true, download_speed: 2048, upload_speed: 0, ..Default::default() };
    let line = header_line(&snapshot, "HK-01");
    assert_eq!(texts(&line), " sbtui 网络控制台  /  ● 运行中  ·  HK-01  ·  ↓ 2.0 KiB/s  ↑ 0 B/s");
    assert_eq!(line[3].ink, Ink::Mint);
    assert!(line[3].bold);
}

#[test]
fn the_footer_colours_the_status_by_its_words() {
    let line = footer_line("启动失败", Tab::Dashboard);
    assert_eq!(line[1].ink, Ink::Danger);
    assert!(texts(&line).ends_with("  │  Tab 切换  ·  ? 帮助  ·  q 退出"));
}

#[test]
fn small_terminals_get_the_compact_dashboard() {
    assert!(dashboard_is_compact(99, 40));
    assert!(dashboard_is_compact(120, 27));
    assert!(!dashboard_is_compact(100, 28));
}

#[test]
fn the_health_panel_reports_core_proxy_and_modes() {
    let mut snapshot = ClientSnapshot { core_running: true, system_proxy_enabled: true, ..Default::default() };
    snapshot.settings.mixed_port = 7890;
    snapshot.traffic_mode = TrafficMode::SystemProxy;
    snapshot.outbound_mode = OutboundMode::Rule;
    let lines = health_lines(&snapshot, "HK-01", Some(120));
    let t = all_texts(&lines);
    assert_eq!(t[0], "● 在线");
    assert_eq!(t[1], "");
    assert_eq!(t[2], "内核  已启动");
    assert_eq!(t[3], "代理  已接管 127.0.0.1:7890");
    assert!(t[4].starts_with("模式  "));
    assert_eq!(t[7], "HK-01");
    assert_eq!(t[8], "延迟 120 ms");
    assert_eq!(lines[8][0].ink, Ink::Delay(Some(120)));
    let idle = health_lines(&ClientSnapshot::default(), "x", None);
    assert_eq!(texts(&idle[3]), "代理  未接管系统网络");
    assert_eq!(texts(&idle[8]), "延迟 待测");
}

#[test]
fn the_network_path_counts_live_connections() {
    let mut snapshot = ClientSnapshot::default();
    snapshot.connections.connections = vec![Connection::default(), Connection::default()];
    let t = all_texts(&network_lines(&snapshot, "HK-01"));
    assert_eq!(t[2], "  ├── 系统代理  待启用");
    assert_eq!(t[5], "  [ HK-01 ]");
    assert_eq!(t[9], "  公网出口  ·  2 个活动连接");
}

#[test]
fn the_activity_panel_keeps_the_five_newest_events() {
    let snapshot = ClientSnapshot {
        events: (1..=7).map(|i| format!("事件 {i}")).collect(),
        ..Default::default()
    };
    let t = all_texts(&activity_lines(&snapshot));
    assert_eq!(t, vec!["事件 3", "事件 4", "事件 5", "事件 6", "事件 7"]);
    let empty = activity_lines(&ClientSnapshot::default());
    assert_eq!(all_texts(&empty), vec!["等待新的运行事件"]);
    assert_eq!(empty[0][0].ink, Ink::Muted);
}

#[test]
fn the_summary_names_versions_and_memory() {
    let snapshot = ClientSnapshot {
        core_running: true,
        core_version: Some("1.12.0".to_owned()),
        core_runtime_version: Some("sing-box 1.12.0".to_owned()),
        memory_used: 1536,
        ..Default::default()
    };
    let t = all_texts(&summary_lines(&snapshot, "HK-01", "已用 1 GiB"));
    assert_eq!(t[5], "已用 1 GiB");
    assert_eq!(t[7], "内核 1.12.0");
    assert_eq!(t[8], "运行 sing-box 1.12.0  ·  内存 1.5 KiB");
    let stopped = all_texts(&summary_lines(&ClientSnapshot::default(), "x", "-"));
    assert_eq!(stopped[7], "内核 未安装");
    assert_eq!(stopped[8], "内存 0 B");
}

#[test]
fn the_traffic_panel_scales_to_the_window_peak() {
    let history = vec![TrafficPoint { up: 10, down: 300 }, TrafficPoint { up: 900, down: 5 }];
    assert_eq!(traffic_peak(&history), 900);
    assert_eq!(traffic_peak(&Vec::new()), 1);
    assert_eq!(traffic_title(30, 2), "实时流量 · 近 60 秒");
    let snapshot = ClientSnapshot {
        download_speed: 1024,
        upload_speed: 512,
        total_download: 2048,
        total_upload: 0,
        ..Default::default()
    };
    assert_eq!(rates_text(&snapshot), "↓ 1.0 KiB/s   ↑ 512 B/s");
    assert_eq!(texts(&rate_line(true, &snapshot)), "↓ 1.0 KiB/s");
    assert_eq!(totals_text(&snapshot, 900), "累计 ↓ 2.0 KiB   ↑ 0 B   峰值 900 B/s");
}

#[test]
fn the_compact_dashboard_fits_the_essentials() {
    let snapshot = ClientSnapshot { outbound_mode: OutboundMode::Rule, ..Default::default() };
    let t = all_texts(&compact_lines(&snapshot, "HK-01", None));
    assert_eq!(t[0], "状态  已停止  ·  系统代理：未启用");
    assert_eq!(t[3], "本机  →  HK-01  →  公网出口");
    assert!(t[4].ends_with(" · 待测 · 0 个活动连接"));
    assert_eq!(t[6].chars().filter(|&c| c == '░').count(), 24);
}

#[test]
fn proxy_rows_mark_the_current_node_and_its_delay() {
    let g = group();
    assert_eq!(group_item(&g), "🚀节点选择 (Selector)");
    let hk = member_line(&g, "HK-01");
    assert_eq!(hk.text, "● HK-01  [120ms]");
    assert_eq!(hk.ink, Ink::Delay(Some(120)));
    assert_eq!(member_line(&g, "JP-01").text, "○ JP-01  [-]");
    let us = member_line(&g, "US-01");
    assert_eq!(us.text, "○ US-01  [超时]");
    assert_eq!(us.ink, Ink::Danger);
    assert_eq!(members_title(&g), "🚀节点选择 节点 · Enter 切换");
}

#[test]
fn connection_rows_fill_every_column() {
    let c = Connection {
        rule: String::new(),
        chains: vec!["HK-01".to_owned(), "🚀节点选择".to_owned()],
        upload: 1024,
        download: 0,
        metadata: ConnectionMetadata {
            network: "tcp".to_owned(),
            destination_host: "example.com".to_owned(),
            destination_ip: "93.184.216.34".to_owned(),
            destination_port: "443".to_owned(),
            ..Default::default()
        },
        ..Default::default()
    };
    assert_eq!(
        connection_cells(&c, true),
        vec!["●", "93.184.216.34:443", "example.com", "tcp", "-", "HK-01 → 🚀节点选择", "1.0 KiB", "0 B"]
    );
    assert_eq!(connection_cells(&Connection::default(), false)[5], "-");
    assert_eq!(connection_heading(), vec!["", "目标", "主机", "网络", "规则", "链路", "上传", "下载"]);
    assert_eq!(connections_title(ConnSort::Download, 3, "", 3), "活动连接 · 下载 · 3 条");
    assert_eq!(connections_title(ConnSort::Host, 0, "zz", 5), "活动连接 · 主机 · 0 条 · 过滤「zz」 · 无匹配");
}

#[test]
fn the_settings_page_describes_the_environment() {
    let profile = ProfileSummary { name: "机场".to_owned(), active: true, ..Default::default() };
    assert_eq!(profile_item(&profile, "3 分钟前"), "✓ 机场（更新于 3 分钟前）");
    let mut snapshot = ClientSnapshot { core_installed: true, ..Default::default() };
    snapshot.settings.mixed_port = 7890;
    snapshot.settings.auto_update_minutes = 30;
    snapshot.settings.test_url = "https://t".to_owned();
    let lines = environment_lines(&snapshot, "/data/bin/sing-box", HostOs::Linux, "未获取");
    assert_eq!(lines[0], "内核: /data/bin/sing-box");
    assert_eq!(lines[1], "版本: 未检测   镜像: 直连");
    assert_eq!(lines[2], "运行版本: 未运行   内存: -");
    assert!(lines[3].ends_with("   混合端口: 7890   延迟地址: https://t"));
    assert_eq!(lines[4], "自动更新: 30 分钟   启动内核: 关   自动系统代理: 关");
    assert_eq!(lines[5], "系统代理后端: Linux gsettings / 环境变量   订阅用量: 未获取");
    assert_eq!(lines.len(), 10);
}

#[test]
fn the_overlays_say_what_to_press() {
    let help = all_texts(&help_lines(Tab::Logs));
    assert_eq!(help[2], "全局  Tab / 1–7 切换页面  ·  o 切换出站  ·  q 退出");
    assert!(help[3].starts_with("当前页  ↑↓/PgUp PgDn 回看"));
    let input = input_lines(InputGoal::MixedPort, "abcdef", 3);
    assert_eq!(texts(&input[0]), "混合代理端口");
    assert_eq!(texts(&input[2]), "def");
    let (title, lines) = confirmation_lines(true, TrafficMode::SystemProxy);
    assert_eq!(title, "退出确认");
    assert_eq!(lines[0][0].ink, Ink::Amber);
    assert!(lines[0][0].bold);
    assert_eq!(texts(&lines[2]), "Esc 或其它按键取消");
}
