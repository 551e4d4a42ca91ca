use sbtui::clash_api::{Connection, OutboundMode};
use sbtui::command::ClientCommand;
use sbtui::gui_dashboard::{core_button, headline, network_split, outbound_control, proxy_control, tun_control};
use sbtui::gui_lang::Locale;
use sbtui::snapshot::{ClientSnapshot, NodeDelay, ProxyGroupSnapshot};
use sbtui::system_proxy::TrafficMode;

#[test]
fn the_core_button_stops_whenever_anything_runs() {
    let idle = ClientSnapshot::default();
    assert_eq!(core_button(&idle, Locale::Zh), ("启动内核", ClientCommand::StartCore));
    let running = ClientSnapshot { core_running: true, ..Default::default() };
    assert_eq!(core_button(&running, Locale::En), ("Stop core", ClientCommand::StopCore));
    let starting = ClientSnapshot { starting: true, ..Default::default() };
    assert_eq!(core_button(&starting, Locale::Zh), ("启动中", ClientCommand::StopCore));
    let busy = ClientSnapshot { busy: true, core_running: true, ..Default::default() };
    assert_eq!(core_button(&busy, Locale::En), ("Stop & cancel", ClientCommand::StopCore));
}

#[test]
fn the_headline_names_profile_node_and_group() {
    let empty = headline(&ClientSnapshot::default(), 0, Locale::En);
    assert_eq!(empty, ("No subscription yet".to_owned(), "No node selected".to_owned(), "No policy group".to_owned(), None));
    let snapshot = ClientSnapshot {
        active_profile: Some("机场".to_owned()),
        current_node: Some("🇭🇰 HK-01".to_owned()),
        proxy_groups: vec![ProxyGroupSnapshot {
            name: "🚀 节点选择".to_owned(),
            delays: vec![NodeDelay { node: "🇭🇰 HK-01".to_owned(), millis: 88 }],
            ..Default::default()
        }],
        ..Default::default()
    };
    assert_eq!(
        headline(&snapshot, 5, Locale::Zh),
        ("机场".to_owned(), "HK-01".to_owned(), "节点选择".to_owned(), Some(88))
    );
}

#[test]
fn the_quick_controls_describe_and_flip_the_modes() {
    let mut snapshot = ClientSnapshot { system_proxy_enabled: true, ..Default::default() };
    snapshot.settings.mixed_port = 7890;
    assert_eq!(proxy_control(&snapshot, Locale::En), "Enabled · 127.0.0.1:7890");
    assert_eq!(proxy_control(&ClientSnapshot::default(), Locale::Zh), "已关闭");
    let (label, command) = tun_control(&snapshot, Locale::Zh);
    assert_eq!(label, "已关闭");
    match command {
        Some(ClientCommand::UpdateSettings(patch)) => assert_eq!(patch.traffic_mode, Some(TrafficMode::Tun)),
        other => panic!("expected a settings update, got {other:?}"),
    }
    let running = ClientSnapshot { core_running: true, traffic_mode: TrafficMode::Tun, ..Default::default() };
    assert_eq!(tun_control(&running, Locale::En), ("Enabled · a core restart applies it", None));
    assert_eq!(outbound_control(OutboundMode::Global, Locale::En), "Global takes matched traffic");
}

#[test]
fn udp_is_what_the_core_counts_beyond_the_tcp_rows() {
    let mut tcp = Connection::default();
    tcp.metadata.network = "TCP".to_owned();
    let mut udp = Connection::default();
    udp.metadata.network = "udp".to_owned();
    let mut snapshot = ClientSnapshot { active_connections: 5, ..Default::default() };
    snapshot.connections.connections = vec![tcp.clone(), udp, tcp];
    assert_eq!(network_split(&snapshot), (2, 3));
    snapshot.active_connections = 1;
    assert_eq!(network_split(&snapshot), (2, 0));
}
