use sbtui::clash_api::{Connection, ConnectionMetadata};
use sbtui::command::ClientCommand;
use sbtui::connections::{sort_connections, visible_connections};
use sbtui::snapshot::{ClientSnapshot, ProfileSummary, ProxyGroupSnapshot};
use sbtui::system_proxy::TrafficMode;
use sbtui::tui::{ConnSort, InputGoal, Tab};
use sbtui::tui_keys::{Action, Key, Modifiers};
use sbtui::tui_state::ViewState;

const NONE: Modifiers = Modifiers { control: false, alt: false, super_key: false, shift: false };
const CTRL: Modifiers = Modifiers { control: true, alt: false, super_key: false, shift: false };

fn connection(host: &str, rule: &str) -> Connection {
    Connection {
        id: host.to_owned(),
        metadata: ConnectionMetadata {
            destination_host: host.to_owned(),
            ..Default::default()
        },
        rule: rule.to_owned(),
        ..Default::default()
    }
}

fn group(name: &str, current: &str, members: &[&str]) -> ProxyGroupSnapshot {
    ProxyGroupSnapshot {
        name: name.to_owned(),
        kind: "Selector".to_owned(),
        current: current.to_owned(),
        members: members.iter().map(|member| (*member).to_owned()).collect(),
        delays: Vec::new(),
        failed: Vec::new(),
    }
}

fn fresh(snapshot: &ClientSnapshot) -> ViewState {
    ViewState::new(snapshot)
}

fn selected_connection_index(view: &ViewState, snapshot: &ClientSnapshot) -> usize {
    let rows = visible_connections(&snapshot.connections.connections, &view.conn_filter);
    let ids: Vec<String> = rows
        .iter()
        .map(|&index| snapshot.connections.connections[index].id.clone())
        .collect();
    sbtui::connections::selected_index(&ids, &view.selected_connection_id)
}

#[test]
fn view_state_separates_from_engine_state() {
    let mut snapshot = ClientSnapshot::default();
    snapshot.proxy_groups = vec![group("g", "b", &["a", "b", "c"])];
    let mut view = fresh(&snapshot);
    view.tab = Tab::Proxies;
    view.selected_group = 0;
    view.selected_member = 1;

    view.move_cursor(&snapshot, true, 1);
    assert_eq!(view.selected_member, 2);
    view.move_cursor(&snapshot, true, 1);
    assert_eq!(view.selected_member, 2, "clamps at the last member");
    view.move_cursor(&snapshot, false, 1);
    assert_eq!(view.selected_member, 1);

    view.selected_connection_id = None;
    assert_eq!(view.selected_member, 1, "connection state is separate");
}

#[test]
fn proxy_group_switch_snaps_member_to_the_current_node() {
    let mut snapshot = ClientSnapshot::default();
    snapshot.proxy_groups = vec![group("one", "a", &["a", "b"]), group("two", "y", &["x", "y", "z"])];
    let mut view = fresh(&snapshot);
    view.selected_group = 0;
    view.selected_member = 1;

    view.move_group(&snapshot, true);
    assert_eq!(view.selected_group, 1);
    assert_eq!(view.selected_member, 1, "snaps to the group's current node");
}

#[test]
fn connection_filter_keeps_only_matching_rows() {
    let rows = vec![connection("api.github.com", "Proxy"), connection("cdn.example.net", "DIRECT")];
    let visible = visible_connections(&rows, "github");
    assert_eq!(visible.len(), 1);
    assert_eq!(rows[visible[0]].metadata.destination_host, "api.github.com");
    assert_eq!(visible_connections(&rows, "direct").len(), 1);
    assert_eq!(visible_connections(&rows, "").len(), 2);
}

#[test]
fn the_connection_highlight_follows_the_connection_across_reordering() {
    let mut snapshot = ClientSnapshot::default();
    snapshot.connections.connections =
        vec![connection("api.github.com", "Proxy"), connection("cdn.example.net", "DIRECT")];
    let mut view = fresh(&snapshot);
    view.tab = Tab::Connections;

    view.move_cursor(&snapshot, true, 1);
    assert_eq!(selected_connection_index(&view, &snapshot), 1);

    snapshot.connections.connections.reverse();
    assert_eq!(
        selected_connection_index(&view, &snapshot),
        0,
        "the highlight stays on the same connection, not its old row"
    );

    view.selected_connection_id = Some("closed".to_owned());
    assert_eq!(
        selected_connection_index(&view, &snapshot),
        0,
        "a vanished connection falls back to the first row"
    );
}

#[test]
fn connection_sort_orders_by_download_then_target() {
    let mut heavy = connection("heavy.example.net", "Proxy");
    heavy.download = 500;
    let mut light = connection("light.example.net", "Proxy");
    light.download = 100;
    let sorted = sort_connections(vec![light, heavy], ConnSort::Download);
    assert_eq!(sorted[0].metadata.destination_host, "heavy.example.net");
}

#[test]
fn a_chorded_key_never_acts() {
    let mut snapshot = ClientSnapshot::default();
    let mut view = fresh(&snapshot);
    let action = view.on_key(&mut snapshot, Key::Char('s'), CTRL);
    assert!(matches!(action, Action::Nothing), "Ctrl+S must not stop the core");
    assert!(matches!(view.on_key(&mut snapshot, Key::Char('c'), CTRL), Action::Quit));
}

#[test]
fn quitting_with_the_proxy_on_asks_once() {
    let mut snapshot = ClientSnapshot { system_proxy_enabled: true, ..ClientSnapshot::default() };
    let mut view = fresh(&snapshot);
    assert!(matches!(view.on_key(&mut snapshot, Key::Char('q'), NONE), Action::Nothing));
    assert!(view.confirm_quit);
    assert!(matches!(view.on_key(&mut snapshot, Key::Char('q'), NONE), Action::Quit));

    let mut view = fresh(&snapshot);
    view.on_key(&mut snapshot, Key::Char('q'), NONE);
    view.on_key(&mut snapshot, Key::Esc, NONE);
    assert!(!view.confirm_quit, "any other key withdraws the question");

    let mut off = ClientSnapshot::default();
    let mut view = fresh(&off);
    assert!(matches!(view.on_key(&mut off, Key::Char('q'), NONE), Action::Quit));
}

#[test]
fn the_mode_switch_asks_before_it_restarts_the_core() {
    let mut snapshot = ClientSnapshot::default();
    let mut view = fresh(&snapshot);
    assert!(matches!(view.on_key(&mut snapshot, Key::Char('m'), NONE), Action::Nothing));
    assert!(view.status.starts_with("再按 m 确认切换到 TUN"), "{}", view.status);
    match view.on_key(&mut snapshot, Key::Char('m'), NONE) {
        Action::Send(ClientCommand::SetTrafficMode { mode, restart }) => {
            assert_eq!(mode, TrafficMode::Tun);
            assert!(restart);
        }
        _ => panic!("the second press switches"),
    }
}

#[test]
fn deleting_a_profile_takes_two_presses() {
    let mut snapshot = ClientSnapshot::default();
    snapshot.profiles = vec![ProfileSummary { name: "家宽".to_owned(), active: false, last_updated: 0 }];
    let mut view = fresh(&snapshot);
    view.tab = Tab::Settings;
    view.selected_profile = Some(0);
    assert!(matches!(view.on_key(&mut snapshot, Key::Delete, NONE), Action::Nothing));
    assert_eq!(view.status, "再按 Delete 确认删除档案 家宽（不可撤销）");
    match view.on_key(&mut snapshot, Key::Delete, NONE) {
        Action::Send(ClientCommand::RemoveProfile(name)) => assert_eq!(name, "家宽"),
        _ => panic!("the second press removes"),
    }
    assert_eq!(view.confirm_delete, None);
}

#[test]
fn the_input_overlay_collects_a_profile_and_its_link() {
    let mut snapshot = ClientSnapshot::default();
    let mut view = fresh(&snapshot);
    view.tab = Tab::Settings;
    view.on_key(&mut snapshot, Key::Char('n'), NONE);
    assert_eq!(view.input, Some(InputGoal::ProfileName));
    for ch in " 家宽 ".chars() {
        view.on_key(&mut snapshot, Key::Char(ch), NONE);
    }
    view.on_key(&mut snapshot, Key::Char('q'), NONE);
    view.on_key(&mut snapshot, Key::Backspace, NONE);
    view.on_key(&mut snapshot, Key::Enter, NONE);
    assert_eq!(view.input, Some(InputGoal::ProfileUrl));
    assert_eq!(view.pending_profile_name.as_deref(), Some("家宽"));
    for ch in "https://sub.example.test/sb.json".chars() {
        view.on_key(&mut snapshot, Key::Char(ch), NONE);
    }
    match view.on_key(&mut snapshot, Key::Enter, NONE) {
        Action::Send(ClientCommand::ImportSubscription { name, url }) => {
            assert_eq!(name.as_deref(), Some("家宽"));
            assert_eq!(url, "https://sub.example.test/sb.json");
        }
        _ => panic!("the link goes to the engine"),
    }
    assert_eq!(view.input, None);
    assert_eq!(view.status, "导入订阅…");
}

#[test]
fn a_port_outside_the_user_range_is_refused() {
    let mut snapshot = ClientSnapshot::default();
    let mut view = fresh(&snapshot);
    view.input = Some(InputGoal::MixedPort);
    view.input_text = "80".to_owned();
    assert!(matches!(view.on_key(&mut snapshot, Key::Enter, NONE), Action::Nothing));
    assert_eq!(view.status, "端口必须是 1024–65535 之间的整数");
    view.input = Some(InputGoal::MixedPort);
    view.input_text = " 7890 ".to_owned();
    match view.on_key(&mut snapshot, Key::Enter, NONE) {
        Action::Send(ClientCommand::UpdateSettings(patch)) => assert_eq!(patch.mixed_port, Some(7890)),
        _ => panic!("a user port is saved"),
    }
    assert_eq!(view.status, "混合代理端口已设为 7890（重启内核生效）");
}

#[test]
fn the_core_version_drops_its_v_and_an_empty_interval_turns_updates_off() {
    let mut snapshot = ClientSnapshot::default();
    let mut view = fresh(&snapshot);
    view.input = Some(InputGoal::CoreVersion);
    view.input_text = "v1.12.0".to_owned();
    match view.on_key(&mut snapshot, Key::Enter, NONE) {
        Action::Send(ClientCommand::UpdateSettings(patch)) => {
            assert_eq!(patch.core_version.as_deref(), Some("1.12.0"))
        }
        _ => panic!("the version is saved"),
    }
    view.input = Some(InputGoal::AutoUpdate);
    view.input_text = "   ".to_owned();
    match view.on_key(&mut snapshot, Key::Enter, NONE) {
        Action::Send(ClientCommand::UpdateSettings(patch)) => {
            assert_eq!(patch.auto_update_minutes, Some(0))
        }
        _ => panic!("an empty interval is sent as off"),
    }
    assert_eq!(view.status, "已关闭订阅自动更新");
    view.input = Some(InputGoal::AutoUpdate);
    view.input_text = "soon".to_owned();
    assert!(matches!(view.on_key(&mut snapshot, Key::Enter, NONE), Action::Nothing));
    assert_eq!(view.status, "自动更新间隔必须是整数分钟");
}

#[test]
fn the_sort_key_reorders_the_table_at_once() {
    let mut snapshot = ClientSnapshot::default();
    let mut a = connection("b.example", "Proxy");
    a.upload = 1;
    let mut b = connection("a.example", "Proxy");
    b.upload = 9;
    snapshot.connections.connections = vec![a, b];
    let mut view = fresh(&snapshot);
    view.tab = Tab::Connections;
    view.on_key(&mut snapshot, Key::Char('S'), NONE);
    assert_eq!(view.conn_sort, ConnSort::Upload);
    assert_eq!(view.status, "连接排序: 上传");
    assert_eq!(snapshot.connections.connections[0].metadata.destination_host, "a.example");
    view.on_key(&mut snapshot, Key::Char('S'), NONE);
    assert_eq!(view.conn_sort, ConnSort::Host);
    assert_eq!(snapshot.connections.connections[0].metadata.destination_host, "a.example");
}

#[test]
fn a_tick_clamps_the_highlights_to_the_new_snapshot() {
    let mut snapshot = ClientSnapshot::default();
    snapshot.proxy_groups = vec![group("g", "c", &["a", "b", "c"])];
    let mut view = fresh(&snapshot);
    view.selected_group = 4;
    let changed = view.absorb(&mut snapshot);
    assert_eq!(view.selected_group, 0);
    assert_eq!(view.selected_member, 2, "the first look snaps to the running node");
    assert!(!changed, "an empty status is not news");
    view.selected_member = 0;
    view.absorb(&mut snapshot);
    assert_eq!(view.selected_member, 0, "after that the user's highlight stays");
    snapshot.status = "内核已启动".to_owned();
    assert!(view.absorb(&mut snapshot));
    assert_eq!(view.status, "内核已启动");
}

#[test]
fn copying_takes_the_newest_shown_line() {
    let mut snapshot = ClientSnapshot::default();
    snapshot.core_logs = vec!["INFO one".to_owned(), "DEBUG two".to_owned()];
    let mut view = fresh(&snapshot);
    view.tab = Tab::Logs;
    view.log_filter = sbtui::tui::LogFilter::Info;
    match view.on_key(&mut snapshot, Key::Char('c'), NONE) {
        Action::Copy(line) => assert_eq!(line, "INFO one"),
        _ => panic!("a shown line is copied"),
    }
    assert_eq!(view.status, "已复制当前行到剪贴板（OSC52）");
}

#[test]
fn sorting_by_target_orders_by_address_then_port_and_keeps_every_row() {
    let mut a = connection("a", "Proxy");
    a.metadata.destination_ip = "10.0.0.2".to_owned();
    a.metadata.destination_port = "443".to_owned();
    let mut b = connection("b", "Proxy");
    b.metadata.destination_ip = "10.0.0.1".to_owned();
    b.metadata.destination_port = "80".to_owned();
    let mut c = connection("c", "Proxy");
    c.metadata.destination_ip = "10.0.0.2".to_owned();
    c.metadata.destination_port = "22".to_owned();
    let sorted = sort_connections(vec![a, b, c], ConnSort::Target);
    let ids: Vec<&str> = sorted.iter().map(|c| c.id.as_str()).collect();
    assert_eq!(ids, vec!["b", "c", "a"]);
}

#[test]
fn equal_downloads_are_ordered_by_target() {
    let mut a = connection("a", "Proxy");
    a.download = 300;
    a.metadata.destination_ip = "10.0.0.9".to_owned();
    let mut b = connection("b", "Proxy");
    b.download = 300;
    b.metadata.destination_ip = "10.0.0.1".to_owned();
    let mut c = connection("c", "Proxy");
    c.download = 900;
    let sorted = sort_connections(vec![a, b, c], ConnSort::Download);
    let ids: Vec<&str> = sorted.iter().map(|c| c.id.as_str()).collect();
    assert_eq!(ids, vec!["c", "b", "a"]);
}

#[test]
fn every_tab_is_reachable_by_its_number_key() {
    let mut snapshot = ClientSnapshot::default();
    let mut view = fresh(&snapshot);
    for (digit, tab) in [
        ('1', Tab::Dashboard),
        ('2', Tab::Proxies),
        ('3', Tab::Connections),
        ('4', Tab::Logs),
        ('5', Tab::Settings),
        ('6', Tab::Rules),
        ('7', Tab::Override),
    ] {
        view.on_key(&mut snapshot, Key::Char(digit), NONE);
        assert_eq!(view.tab, tab, "key {digit}");
    }
}
