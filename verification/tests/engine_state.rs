use sbtui::command::SettingsPatch;
use sbtui::clash_api::{HistoryEntry, ProxyGroup, ProxyNode};
use sbtui::engine_state::{apply_patch, group_snapshot, push_sample, rate, record_delay};
use sbtui::snapshot::{NodeDelay, ProxyGroupSnapshot, SettingsSnapshot, TrafficPoint};
use sbtui::system_proxy::TrafficMode;

#[test]
fn a_settings_request_changes_only_what_it_carries() {
    let settings = SettingsSnapshot {
        core_version: "1.12.0".to_owned(),
        mirror: "https://mirror".to_owned(),
        auto_update_minutes: 30,
        mixed_port: 2080,
        ..Default::default()
    };
    let mut patch = SettingsPatch::unchanged();
    patch.mixed_port = Some(7890);
    patch.traffic_mode = Some(TrafficMode::Tun);
    let (after, mode) = apply_patch(settings, TrafficMode::SystemProxy, patch);
    assert_eq!(after.mixed_port, 7890);
    assert_eq!(after.core_version, "1.12.0");
    assert_eq!(after.mirror, "https://mirror");
    assert_eq!(after.auto_update_minutes, 30);
    assert_eq!(mode, TrafficMode::Tun);
}

#[test]
fn a_new_delay_replaces_the_old_one_in_the_groups_listing_the_node() {
    let mut group = ProxyGroupSnapshot {
        members: vec!["HK".to_owned(), "JP".to_owned()],
        delays: vec![
            NodeDelay { node: "HK".to_owned(), millis: 90 },
            NodeDelay { node: "JP".to_owned(), millis: 150 },
        ],
        ..Default::default()
    };
    record_delay(&mut group, "HK", 70);
    let delays: Vec<(&str, u64)> = group.delays.iter().map(|d| (d.node.as_str(), d.millis)).collect();
    assert_eq!(delays, vec![("JP", 150), ("HK", 70)]);
    record_delay(&mut group, "US", 10);
    assert_eq!(group.delays.len(), 2, "a group that does not list the node is left alone");
}

#[test]
fn rates_are_bytes_per_second_and_never_negative() {
    assert_eq!(rate(1000, 5000, 2), 2000);
    assert_eq!(rate(1000, 5000, 0), 4000);
    assert_eq!(rate(5000, 1000, 1), 0);
}

#[test]
fn the_history_keeps_the_newest_samples() {
    let mut history = Vec::new();
    for i in 0..5 {
        push_sample(&mut history, TrafficPoint { up: i, down: i }, 3);
    }
    let ups: Vec<u64> = history.iter().map(|p| p.up).collect();
    assert_eq!(ups, vec![2, 3, 4]);
}

fn node(name: &str, delays: &[u64]) -> ProxyNode {
    ProxyNode {
        name: name.to_owned(),
        history: delays.iter().map(|&delay| HistoryEntry { time: String::new(), delay }).collect(),
        ..Default::default()
    }
}

#[test]
fn a_group_takes_each_member_s_newest_successful_probe() {
    let group = ProxyGroup {
        name: "节点选择".to_owned(),
        kind: "Selector".to_owned(),
        now: "HK".to_owned(),
        all: vec!["HK".to_owned(), "JP".to_owned(), "US".to_owned(), "SG".to_owned()],
        history: Vec::new(),
    };
    let nodes = vec![node("HK", &[300, 120]), node("JP", &[80, 0]), node("US", &[])];
    let snapshot = group_snapshot(group, &nodes);
    assert_eq!(snapshot.name, "节点选择");
    assert_eq!(snapshot.current, "HK");
    assert_eq!(snapshot.members.len(), 4);
    let delays: Vec<(&str, u64)> = snapshot.delays.iter().map(|d| (d.node.as_str(), d.millis)).collect();
    assert_eq!(delays, vec![("HK", 120)]);
    assert!(snapshot.failed.is_empty());
}
