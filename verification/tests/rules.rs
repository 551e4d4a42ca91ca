use sbtui::snapshot::{ClientSnapshot, InboundInfo, RouteRuleSnapshot, RuleSetSummary};
use sbtui::tui_views::{confirmation, core_state, footer_hint, help_keys, rules_lines};
use sbtui::system_proxy::TrafficMode;
use sbtui::tui::Tab;

#[test]
fn rules_rules_lines_render_the_engine_snapshot() {
    let snapshot = ClientSnapshot {
        inbounds: vec![
            InboundInfo {
                kind: "mixed".to_owned(),
                tag: "mixed-in".to_owned(),
                listen: "127.0.0.1".to_owned(),
                port: 2080,
            },
            InboundInfo {
                kind: "tun".to_owned(),
                tag: "tun-in".to_owned(),
                listen: String::new(),
                port: 0,
            },
        ],
        rule_sets: vec![RuleSetSummary {
            tag: "geoip-cn".to_owned(),
            url: "https://example/srs".to_owned(),
            kind: "remote".to_owned(),
        }],
        rules: vec![
            RouteRuleSnapshot {
                matcher: "规则集 · geoip-cn".to_owned(),
                outbound: "🚀节点选择".to_owned(),
            },
            RouteRuleSnapshot {
                matcher: "其他未命中流量".to_owned(),
                outbound: "🚀节点选择".to_owned(),
            },
        ],
        ..ClientSnapshot::default()
    };
    let lines = rules_lines(&snapshot);
    assert!(lines.iter().any(|line| line == "• mixed:2080（127.0.0.1） · mixed-in"), "{lines:?}");
    assert!(lines.iter().any(|line| line == "• tun（全部地址） · tun-in"), "{lines:?}");
    assert!(lines.iter().any(|line| line.contains("geoip-cn")));
    assert!(lines.iter().any(|line| line.contains(" 1. 规则集 · geoip-cn → 🚀节点选择")), "{lines:?}");
    assert!(lines.iter().any(|line| line.contains("其他未命中流量")));
}

#[test]
fn rules_lines_say_the_configuration_is_absent_instead_of_showing_nothing() {
    assert_eq!(
        rules_lines(&ClientSnapshot::default()),
        vec!["（尚无激活配置；先启动一次内核）".to_owned()]
    );
}

#[test]
fn settings_rules_lines_render_the_engine_snapshot() {
    let snapshot = ClientSnapshot {
        rule_sets: vec![RuleSetSummary {
            tag: "geoip-cn".to_owned(),
            url: String::new(),
            kind: "local".to_owned(),
        }],
        rules: vec![RouteRuleSnapshot {
            matcher: "协议 · dns".to_owned(),
            outbound: String::new(),
        }],
        ..ClientSnapshot::default()
    };
    let lines = rules_lines(&snapshot);
    assert_eq!(
        lines,
        vec![
            "── 规则集 ──".to_owned(),
            "• geoip-cn（local） ← （本地）".to_owned(),
            String::new(),
            "── 分流规则（自上而下匹配）──".to_owned(),
            " 1. 协议 · dns → （动作）".to_owned(),
        ]
    );
}

#[test]
fn the_chrome_names_every_page_and_state() {
    assert!(footer_hint(Tab::Logs).contains("Space 暂停"));
    assert!(help_keys(Tab::Override).contains("overrides/"));
    assert_eq!(core_state(true, true), "● 运行中");
    assert_eq!(core_state(false, true), "◐ 启动中");
    assert_eq!(core_state(false, false), "○ 已停止");
    let (title, lines) = confirmation(false, TrafficMode::SystemProxy);
    assert_eq!(title, "模式切换确认");
    assert_eq!(lines[0], "准备切换至 TUN 模式");
    let (title, _) = confirmation(true, TrafficMode::Tun);
    assert_eq!(title, "退出确认");
}
