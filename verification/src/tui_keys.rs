//! The terminal client's key map: what each key does to the view state and
//! which request, if any, it sends to the engine. The event loop reads a key,
//! hands it here with the snapshot it is looking at, and carries out the
//! action that comes back (send a request, copy a line, or quit).

use vstd::prelude::*;
use crate::text::{
    decimal,
    decimal_spec,
    opt_view,
    parse_unsigned,
    parse_unsigned_spec,
    push_str,
    str_eq,
    trim,
    trim_spec,
    views,
};

use crate::clash_api::{outbound_next_spec, Connection, OutboundMode};
use crate::command::{no_change, ClientCommand, CommandModel, PatchModel, SettingsPatch, command_label_spec};
use crate::connections::{found_spec, ids_of, selected_index, selected_index_spec, sort_connections, sorted_spec, visible_connections, visible_spec};
use crate::snapshot::{ClientSnapshot, ProxyGroupSnapshot};
use crate::system_proxy::{traffic_label_spec, TrafficMode};
use crate::tui::{
    conn_sort_next_spec, conn_sort_label_spec, log_filter_label_spec, log_filter_minimum_spec,
    log_filter_next_spec, log_level_shown_spec, tab_next_spec, tab_previous_spec, ConnSort,
    InputGoal, LogFilter, Tab,
};
use crate::tui_logs::log_query_matches_spec;
use crate::tui_state::{current_position, ViewModel, ViewState};

verus! {

/// A key as the terminal reports it.
#[derive(Clone, Copy, Debug, PartialEq, Eq, Structural)]
pub enum Key {
    Char(char),
    Enter,
    Esc,
    Backspace,
    Tab,
    BackTab,
    Left,
    Right,
    Up,
    Down,
    PageUp,
    PageDown,
    End,
    Delete,
    /// Any key this client has no use for.
    Other,
}

/// The modifier keys held with a key.
#[derive(Clone, Copy, Debug, PartialEq, Eq, Structural)]
pub struct Modifiers {
    pub control: bool,
    pub alt: bool,
    pub super_key: bool,
    /// Shift, or any other modifier the terminal reports.
    pub shift: bool,
}

/// What the event loop does after a key.
pub enum Action {
    Nothing,
    /// Leave the event loop.
    Quit,
    /// Send a request to the engine.
    Send(ClientCommand),
    /// Put a line on the clipboard (OSC 52).
    Copy(String),
}

/// An action as plain values.
pub enum ActionModel {
    Nothing,
    Quit,
    Send(CommandModel),
    Copy(Seq<char>),
}

impl View for Action {
    type V = ActionModel;

    open spec fn view(&self) -> ActionModel {
        match self {
            Action::Nothing => ActionModel::Nothing,
            Action::Quit => ActionModel::Quit,
            Action::Send(c) => ActionModel::Send(c@),
            Action::Copy(s) => ActionModel::Copy(s@),
        }
    }
}

pub open spec fn with_status(v: ViewModel, status: Seq<char>) -> ViewModel {
    ViewModel { status, ..v }
}

/// Sending a request: the footer says it is under way.
pub open spec fn sent(v: ViewModel, c: CommandModel) -> (ViewModel, ActionModel) {
    (with_status(v, command_label_spec(c) + "…"@), ActionModel::Send(c))
}

pub open spec fn stay(v: ViewModel) -> (ViewModel, ActionModel) {
    (v, ActionModel::Nothing)
}

/// `cur` moved `steps` rows down (or up) and clamped to `0..len`.
pub open spec fn clamp_step(cur: int, down: bool, steps: int, len: int) -> int {
    let x = if down {
        cur + steps
    } else {
        cur - steps
    };
    if x < 0 {
        0
    } else if x > len - 1 {
        len - 1
    } else {
        x
    }
}

/// The highlighted proxy group, if it exists.
pub open spec fn group_at(v: ViewModel, s: ClientSnapshot) -> Option<ProxyGroupSnapshot> {
    if v.selected_group < s.proxy_groups@.len() {
        Some(s.proxy_groups@[v.selected_group as int])
    } else {
        None
    }
}

/// The highlighted member of the highlighted group, if both exist.
pub open spec fn member_at(v: ViewModel, s: ClientSnapshot) -> Option<Seq<char>> {
    match group_at(v, s) {
        Some(g) => if v.selected_member < g.members@.len() {
            Some(g.members@[v.selected_member as int]@)
        } else {
            None
        },
        None => None,
    }
}

/// Whether a group picks its own node (a url-test group).
pub open spec fn is_auto_spec(kind: Seq<char>) -> bool {
    kind == "URLTest"@ || kind == "urltest"@
}

/// The ids of the connections the table shows, in order.
pub open spec fn visible_ids(v: ViewModel, s: ClientSnapshot) -> Seq<Seq<char>> {
    ids_of(visible_spec(s.connections.connections@, v.conn_filter))
}

/// The highlighted profile's name, if the highlight is on a profile.
pub open spec fn profile_at(v: ViewModel, s: ClientSnapshot) -> Option<Seq<char>> {
    match v.selected_profile {
        Some(i) => if i < s.profiles@.len() {
            Some(s.profiles@[i as int].name@)
        } else {
            None
        },
        None => None,
    }
}

/// The arrow keys and `j`/`k` (and, on the Logs tab, a page of them).
pub open spec fn move_cursor_spec(v: ViewModel, s: ClientSnapshot, down: bool, steps: nat) -> ViewModel {
    match v.tab {
        Tab::Proxies => {
            let count = match group_at(v, s) {
                Some(g) => g.members@.len(),
                None => 0,
            };
            if count == 0 {
                v
            } else {
                ViewModel {
                    selected_member: clamp_step(v.selected_member as int, down, steps as int, count as int) as usize,
                    ..v
                }
            }
        },
        Tab::Connections => {
            let ids = visible_ids(v, s);
            if ids.len() == 0 {
                ViewModel { selected_connection_id: None, ..v }
            } else {
                let cur = selected_index_spec(ids, v.selected_connection_id);
                ViewModel {
                    selected_connection_id: Some(ids[clamp_step(cur as int, down, steps as int, ids.len() as int)]),
                    ..v
                }
            }
        },
        Tab::Logs => ViewModel {
            // Down walks towards the newest line, a smaller offset.
            log_scroll: if down {
                if v.log_scroll >= steps {
                    (v.log_scroll - steps) as usize
                } else {
                    0
                }
            } else {
                if v.log_scroll + steps <= usize::MAX {
                    (v.log_scroll + steps) as usize
                } else {
                    usize::MAX
                }
            },
            ..v
        },
        Tab::Settings => {
            let len = s.profiles@.len();
            if len > 0 {
                let cur = match v.selected_profile {
                    Some(i) => i as int,
                    None => 0,
                };
                ViewModel { selected_profile: Some(clamp_step(cur, down, steps as int, len as int) as usize), ..v }
            } else {
                ViewModel { selected_profile: Some(0), ..v }
            }
        },
        _ => v,
    }
}

/// Page Up / Page Down: a screenful of the Logs panel; nothing elsewhere.
pub open spec fn page_logs_spec(v: ViewModel, s: ClientSnapshot, down: bool) -> ViewModel {
    if v.tab != Tab::Logs {
        v
    } else {
        move_cursor_spec(v, s, down, if v.log_view_height > 0 { v.log_view_height as nat } else { 1 })
    }
}

/// Left / Right on the Proxies tab: the neighbouring group, with the member
/// highlight snapped to its running node.
pub open spec fn move_group_spec(v: ViewModel, s: ClientSnapshot, down: bool) -> ViewModel {
    let len = s.proxy_groups@.len();
    if len == 0 {
        v
    } else {
        let next = clamp_step(v.selected_group as int, down, 1, len as int);
        ViewModel {
            selected_group: next as usize,
            selected_member: current_position(s.proxy_groups@[next]) as usize,
            proxies_synced_group: Some(next as usize),
            ..v
        }
    }
}

/// Enter: activate the highlighted profile, or switch the highlighted
/// group to the highlighted member (a url-test group refuses).
pub open spec fn select_current_spec(v: ViewModel, s: ClientSnapshot) -> (ViewModel, ActionModel) {
    match v.tab {
        Tab::Settings => match profile_at(v, s) {
            Some(name) => sent(v, CommandModel::SwitchProfile(name)),
            None => stay(v),
        },
        Tab::Proxies => if s.core_running && member_at(v, s) is Some {
            let g = group_at(v, s)->0;
            if is_auto_spec(g.kind@) {
                stay(with_status(v, "「"@ + g.name@ + "」是自动选择组，不支持手动切换（按 t 可测速）"@))
            } else {
                sent(v, CommandModel::SwitchNode { group: g.name@, node: member_at(v, s)->0 })
            }
        } else {
            stay(v)
        },
        _ => stay(v),
    }
}

/// `t`: measure the highlighted member.
pub open spec fn test_node_spec(v: ViewModel, s: ClientSnapshot) -> (ViewModel, ActionModel) {
    if s.core_running && member_at(v, s) is Some {
        sent(v, CommandModel::TestNode(member_at(v, s)->0))
    } else {
        stay(v)
    }
}

/// `T`: measure every member of the highlighted group.
pub open spec fn test_group_spec(v: ViewModel, s: ClientSnapshot) -> (ViewModel, ActionModel) {
    if s.core_running && group_at(v, s) is Some {
        sent(v, CommandModel::TestGroup(group_at(v, s)->0.name@))
    } else {
        stay(v)
    }
}

/// `x`: close the highlighted connection.
pub open spec fn close_selected_spec(v: ViewModel, s: ClientSnapshot) -> (ViewModel, ActionModel) {
    let ids = visible_ids(v, s);
    let index = selected_index_spec(ids, v.selected_connection_id);
    if s.core_running && index < ids.len() {
        sent(v, CommandModel::CloseConnection(ids[index as int]))
    } else {
        stay(v)
    }
}

/// `X`: close every connection.
pub open spec fn close_all_spec(v: ViewModel, s: ClientSnapshot) -> (ViewModel, ActionModel) {
    if !s.core_running {
        stay(v)
    } else if s.connections.connections@.len() == 0 {
        stay(with_status(v, "没有可关闭的连接"@))
    } else {
        sent(v, CommandModel::CloseAllConnections)
    }
}

/// Delete: the first press arms, a second press on the same profile removes
/// it.
pub open spec fn delete_profile_spec(v: ViewModel, s: ClientSnapshot) -> (ViewModel, ActionModel) {
    match profile_at(v, s) {
        None => stay(v),
        Some(name) => if v.confirm_delete != Some(name) {
            stay(ViewModel {
                confirm_delete: Some(name),
                status: "再按 Delete 确认删除档案 "@ + name + "（不可撤销）"@,
                ..v
            })
        } else {
            sent(ViewModel { confirm_delete: None, ..v }, CommandModel::RemoveProfile(name))
        },
    }
}

pub open spec fn other_mode(m: TrafficMode) -> TrafficMode {
    match m {
        TrafficMode::SystemProxy => TrafficMode::Tun,
        TrafficMode::Tun => TrafficMode::SystemProxy,
    }
}

/// `m`: the first press asks, the second switches the traffic mode (which
/// restarts the core).
pub open spec fn toggle_mode_spec(v: ViewModel, s: ClientSnapshot) -> (ViewModel, ActionModel) {
    let target = other_mode(s.traffic_mode);
    if !v.confirm_mode {
        stay(ViewModel {
            confirm_mode: true,
            status: "再按 m 确认切换到 "@ + traffic_label_spec(target) + "（将重启内核；TUN 需要管理员/root 权限）"@,
            ..v
        })
    } else {
        sent(ViewModel { confirm_mode: false, ..v }, CommandModel::SetTrafficMode { mode: target, restart: true })
    }
}

/// The log lines on screen: the frozen copy while paused, the live tail
/// otherwise.
pub open spec fn current_log_lines_spec(v: ViewModel, s: ClientSnapshot) -> Seq<Seq<char>> {
    match v.paused_logs {
        Some(frozen) => frozen,
        None => views(s.core_logs@),
    }
}

/// The newest line that passes both the level and the keyword filter.
pub open spec fn last_shown(lines: Seq<Seq<char>>, filter: LogFilter, query: Seq<char>) -> Option<Seq<char>>
    decreases lines.len(),
{
    if lines.len() == 0 {
        None
    } else if log_level_shown_spec(log_filter_minimum_spec(filter), lines.last())
        && log_query_matches_spec(query, lines.last()) {
        Some(lines.last())
    } else {
        last_shown(lines.drop_last(), filter, query)
    }
}

/// `c` on the Logs tab: copy the newest shown line, or the newest client
/// event when no line is shown.
pub open spec fn copy_line_spec(v: ViewModel, s: ClientSnapshot) -> (ViewModel, ActionModel) {
    let line = match last_shown(current_log_lines_spec(v, s), v.log_filter, v.log_query) {
        Some(l) => Some(l),
        None => if s.events@.len() > 0 {
            Some(s.events@.last()@)
        } else {
            None
        },
    };
    match line {
        Some(l) => (with_status(v, "已复制当前行到剪贴板（OSC52）"@), ActionModel::Copy(l)),
        None => stay(with_status(v, "没有可复制的日志行"@)),
    }
}

/// Opens the input overlay for `goal`, pre-filled with `text`.
pub open spec fn open_input(v: ViewModel, goal: InputGoal, text: Seq<char>) -> ViewModel {
    ViewModel { input: Some(goal), input_text: text, ..v }
}

pub open spec fn on_off(b: bool) -> Seq<char> {
    if b {
        "开"@
    } else {
        "关"@
    }
}

pub open spec fn patch_auto_start(b: bool) -> PatchModel {
    PatchModel { auto_start: Some(b), ..no_change() }
}

pub open spec fn patch_auto_proxy(b: bool) -> PatchModel {
    PatchModel { auto_system_proxy: Some(b), ..no_change() }
}

/// A character key with no overlay open.
pub open spec fn char_key_spec(v: ViewModel, s: ClientSnapshot, c: char) -> (ViewModel, ActionModel) {
    let tab = v.tab;
    if c == '?' {
        stay(ViewModel { show_help: true, ..v })
    } else if c == '1' {
        stay(ViewModel { tab: Tab::Dashboard, ..v })
    } else if c == '2' {
        stay(ViewModel { tab: Tab::Proxies, ..v })
    } else if c == '3' {
        stay(ViewModel { tab: Tab::Connections, ..v })
    } else if c == '4' {
        stay(ViewModel { tab: Tab::Logs, ..v })
    } else if c == '5' {
        stay(ViewModel { tab: Tab::Settings, ..v })
    } else if c == '6' {
        stay(ViewModel { tab: Tab::Rules, ..v })
    } else if c == '7' {
        stay(ViewModel { tab: Tab::Override, ..v })
    } else if c == 'j' {
        stay(move_cursor_spec(v, s, true, 1))
    } else if c == 'k' {
        stay(move_cursor_spec(v, s, false, 1))
    } else if c == 's' {
        if s.core_running || s.starting || s.busy {
            sent(v, CommandModel::StopCore)
        } else {
            sent(v, CommandModel::StartCore)
        }
    } else if c == 'p' {
        sent(v, CommandModel::ToggleSystemProxy)
    } else if c == 'm' {
        toggle_mode_spec(v, s)
    } else if c == 't' && tab == Tab::Proxies {
        test_node_spec(v, s)
    } else if c == 'T' && tab == Tab::Proxies {
        test_group_spec(v, s)
    } else if c == 'u' {
        sent(v, CommandModel::UpdateSubscription)
    } else if c == 'x' && tab == Tab::Connections {
        close_selected_spec(v, s)
    } else if c == 'X' && tab == Tab::Connections {
        close_all_spec(v, s)
    } else if c == 'S' && tab == Tab::Connections {
        let sort = conn_sort_next_spec(v.conn_sort);
        stay(ViewModel { conn_sort: sort, status: "连接排序: "@ + conn_sort_label_spec(sort), ..v })
    } else if c == 'f' && tab == Tab::Settings {
        stay(open_input(v, InputGoal::ProfileFile, Seq::empty()))
    } else if c == 'e' && tab == Tab::Settings {
        match profile_at(v, s) {
            Some(name) => stay(ViewModel {
                pending_profile_name: Some(name),
                ..open_input(v, InputGoal::ProfileEditUrl, Seq::empty())
            }),
            None => stay(v),
        }
    } else if c == 'n' && tab == Tab::Settings {
        stay(open_input(v, InputGoal::ProfileName, Seq::empty()))
    } else if c == 'v' && tab == Tab::Settings {
        stay(open_input(v, InputGoal::CoreVersion, s.settings.core_version@))
    } else if c == 'r' && tab == Tab::Settings {
        stay(open_input(v, InputGoal::Mirror, s.settings.mirror@))
    } else if c == 'd' && tab == Tab::Settings {
        sent(v, CommandModel::DownloadCore)
    } else if c == 'r' && tab == Tab::Logs {
        stay(ViewModel { tab: Tab::Rules, ..v })
    } else if c == 'r' && tab == Tab::Rules {
        stay(ViewModel { tab: Tab::Logs, ..v })
    } else if c == 'o' {
        sent(v, CommandModel::SetOutboundMode(outbound_next_spec(s.outbound_mode)))
    } else if c == ' ' && tab == Tab::Logs {
        if v.paused_logs is Some {
            stay(ViewModel { paused_logs: None, status: "日志已恢复"@, ..v })
        } else {
            stay(ViewModel {
                paused_logs: Some(current_log_lines_spec(v, s)),
                status: "日志已暂停（Space 恢复）"@,
                ..v
            })
        }
    } else if c == 'l' && tab == Tab::Logs {
        let filter = log_filter_next_spec(v.log_filter);
        stay(ViewModel { log_filter: filter, status: "日志级别过滤: "@ + log_filter_label_spec(filter), ..v })
    } else if c == 'c' && tab == Tab::Logs {
        copy_line_spec(v, s)
    } else if c == '/' && tab == Tab::Connections {
        stay(with_status(
            open_input(v, InputGoal::ConnFilter, v.conn_filter),
            "输入连接过滤关键字（留空 = 显示全部）"@,
        ))
    } else if c == '/' && tab == Tab::Logs {
        stay(with_status(open_input(v, InputGoal::LogQuery, v.log_query), "输入日志关键字（留空 = 不过滤）"@))
    } else if c == 'a' && tab == Tab::Settings {
        stay(with_status(
            open_input(v, InputGoal::AutoUpdate, decimal_spec(s.settings.auto_update_minutes as nat)),
            "自动更新间隔（分钟，0 = 关闭）"@,
        ))
    } else if c == 'P' && tab == Tab::Settings {
        stay(with_status(
            open_input(v, InputGoal::MixedPort, decimal_spec(s.settings.mixed_port as nat)),
            "本地混合代理端口（1024–65535）"@,
        ))
    } else if c == 'U' && tab == Tab::Settings {
        stay(with_status(open_input(v, InputGoal::TestUrl, s.settings.test_url@), "延迟测试地址"@))
    } else if c == 'g' && tab == Tab::Settings {
        let enabled = !s.settings.auto_start;
        (
            with_status(v, "启动时自动启动内核: "@ + on_off(enabled)),
            ActionModel::Send(CommandModel::UpdateSettings(patch_auto_start(enabled))),
        )
    } else if c == 'y' && tab == Tab::Settings {
        let enabled = !s.settings.auto_system_proxy;
        (
            with_status(v, "内核就绪后自动开启系统代理: "@ + on_off(enabled)),
            ActionModel::Send(CommandModel::UpdateSettings(patch_auto_proxy(enabled))),
        )
    } else {
        stay(v)
    }
}

/// A key with no overlay open, after the pending confirmations were
/// cleared.
pub open spec fn page_key_spec(v: ViewModel, s: ClientSnapshot, key: Key) -> (ViewModel, ActionModel) {
    match key {
        Key::Char(c) => char_key_spec(v, s, c),
        Key::Tab => stay(ViewModel { tab: tab_next_spec(v.tab), ..v }),
        Key::BackTab => stay(ViewModel { tab: tab_previous_spec(v.tab), ..v }),
        Key::Left => if v.tab == Tab::Proxies {
            stay(move_group_spec(v, s, false))
        } else {
            stay(v)
        },
        Key::Right => if v.tab == Tab::Proxies {
            stay(move_group_spec(v, s, true))
        } else {
            stay(v)
        },
        Key::Down => stay(move_cursor_spec(v, s, true, 1)),
        Key::Up => stay(move_cursor_spec(v, s, false, 1)),
        Key::PageDown => stay(page_logs_spec(v, s, true)),
        Key::PageUp => stay(page_logs_spec(v, s, false)),
        Key::End => stay(ViewModel { log_scroll: 0, ..v }),
        Key::Enter => select_current_spec(v, s),
        Key::Delete => if v.tab == Tab::Settings {
            delete_profile_spec(v, s)
        } else {
            stay(v)
        },
        _ => stay(v),
    }
}

/// `s` with every leading `v` removed: `v1.12` and `1.12` name one version.
pub open spec fn drop_leading_v(s: Seq<char>) -> Seq<char>
    decreases s.len(),
{
    if s.len() > 0 && s[0] == 'v' {
        drop_leading_v(s.drop_first())
    } else {
        s
    }
}

/// Enter in the input overlay: the trimmed value goes where the goal says,
/// onto the view (the two filters) or to the engine (everything else).
pub open spec fn commit_input_spec(v: ViewModel, goal: InputGoal) -> (ViewModel, ActionModel) {
    let text = trim_spec(v.input_text);
    let c = ViewModel { input: None, input_text: Seq::empty(), ..v };
    let name = match v.pending_profile_name {
        Some(n) => n,
        None => Seq::empty(),
    };
    match goal {
        InputGoal::ProfileName => stay(ViewModel {
            pending_profile_name: Some(text),
            input: Some(InputGoal::ProfileUrl),
            status: "输入订阅链接（任意 sbctl 订阅后缀都会自动归一化）"@,
            ..c
        }),
        InputGoal::ProfileUrl => {
            let c2 = ViewModel { pending_profile_name: None, ..c };
            if name.len() == 0 || text.len() == 0 {
                stay(with_status(c2, "档案名与链接都不能为空"@))
            } else {
                sent(c2, CommandModel::ImportSubscription { name: Some(name), url: text })
            }
        },
        InputGoal::ProfileFile => sent(c, CommandModel::ImportProfileFile(text)),
        InputGoal::ProfileEditUrl => {
            let c2 = ViewModel { pending_profile_name: None, ..c };
            if text.len() == 0 {
                stay(with_status(c2, "已取消编辑"@))
            } else {
                sent(c2, CommandModel::SetProfileUrl { name, url: text })
            }
        },
        InputGoal::CoreVersion => (
            with_status(c, "内核版本已保存；按 d 下载"@),
            ActionModel::Send(CommandModel::UpdateSettings(PatchModel { core_version: Some(drop_leading_v(text)), ..no_change() })),
        ),
        InputGoal::Mirror => (
            with_status(c, "镜像前缀已保存"@),
            ActionModel::Send(CommandModel::UpdateSettings(PatchModel { mirror: Some(text), ..no_change() })),
        ),
        InputGoal::AutoUpdate => {
            let minutes = if text.len() == 0 {
                Some(0nat)
            } else {
                parse_unsigned_spec(text, u64::MAX as nat)
            };
            match minutes {
                None => stay(with_status(c, "自动更新间隔必须是整数分钟"@)),
                Some(m) => (
                    with_status(c, if m == 0 {
                        "已关闭订阅自动更新"@
                    } else {
                        "订阅每 "@ + decimal_spec(m) + " 分钟自动更新"@
                    }),
                    ActionModel::Send(CommandModel::UpdateSettings(PatchModel { auto_update_minutes: Some(m as u64), ..no_change() })),
                ),
            }
        },
        InputGoal::MixedPort => match parse_unsigned_spec(text, u16::MAX as nat) {
            Some(port) if port >= 1024 => (
                with_status(c, "混合代理端口已设为 "@ + decimal_spec(port) + "（重启内核生效）"@),
                ActionModel::Send(CommandModel::UpdateSettings(PatchModel { mixed_port: Some(port as u16), ..no_change() })),
            ),
            _ => stay(with_status(c, "端口必须是 1024–65535 之间的整数"@)),
        },
        InputGoal::TestUrl => if text.len() == 0 {
            stay(with_status(c, "延迟测试地址不能为空"@))
        } else {
            (
                with_status(c, "延迟测试地址已保存"@),
                ActionModel::Send(CommandModel::UpdateSettings(PatchModel { test_url: Some(text), ..no_change() })),
            )
        },
        InputGoal::ConnFilter => stay(ViewModel {
            conn_filter: text,
            selected_connection_id: None,
            status: if text.len() == 0 {
                "已清除连接过滤"@
            } else {
                "连接过滤: "@ + text
            },
            ..c
        }),
        InputGoal::LogQuery => stay(ViewModel {
            log_query: text,
            status: if text.len() == 0 {
                "已清除日志关键字"@
            } else {
                "日志关键字: "@ + text
            },
            ..c
        }),
    }
}

/// Enter on the delay-test URL prompt saves the trimmed URL: a non-empty one
/// goes to the engine as a settings change that touches the test URL alone,
/// and only an empty one is refused, with nothing sent. Either way the
/// prompt closes.
pub proof fn committing_the_test_url_saves_it(v: ViewModel)
    ensures
        ({
            let r = commit_input_spec(v, InputGoal::TestUrl);
            let t = trim_spec(v.input_text);
            &&& r.0.input is None
            &&& r.0.input_text.len() == 0
            &&& t.len() > 0 ==> r.1 == ActionModel::Send(
                CommandModel::UpdateSettings(PatchModel { test_url: Some(t), ..no_change() }),
            )
            &&& t.len() > 0 ==> r.0.status == "延迟测试地址已保存"@
            &&& t.len() == 0 ==> r.1 == ActionModel::Nothing
            &&& t.len() == 0 ==> r.0.status == "延迟测试地址不能为空"@
        }),
{
}

/// Enter on the mirror prompt always saves the trimmed prefix (an empty one
/// clears the mirror), touching no other setting.
pub proof fn committing_the_mirror_saves_it(v: ViewModel)
    ensures
        commit_input_spec(v, InputGoal::Mirror).1 == ActionModel::Send(
            CommandModel::UpdateSettings(PatchModel { mirror: Some(trim_spec(v.input_text)), ..no_change() }),
        ),
{
}

/// Enter closes the prompt and forgets what was typed, except on the profile
/// name, which opens the prompt for the profile's link.
pub proof fn committing_closes_the_prompt(v: ViewModel, goal: InputGoal)
    ensures
        commit_input_spec(v, goal).0.input_text.len() == 0,
        goal == InputGoal::ProfileName ==> commit_input_spec(v, goal).0.input == Some(InputGoal::ProfileUrl),
        goal != InputGoal::ProfileName ==> commit_input_spec(v, goal).0.input is None,
{
}

/// A key while the input overlay is open: it edits the value, Enter
/// commits it, Esc drops it.
pub open spec fn input_key_spec(v: ViewModel, goal: InputGoal, key: Key) -> (ViewModel, ActionModel) {
    match key {
        Key::Esc => stay(ViewModel { input: None, input_text: Seq::empty(), ..v }),
        Key::Enter => commit_input_spec(v, goal),
        Key::Backspace => stay(ViewModel {
            input_text: if v.input_text.len() > 0 {
                v.input_text.drop_last()
            } else {
                v.input_text
            },
            ..v
        }),
        Key::Char(ch) => stay(ViewModel { input_text: v.input_text.push(ch), ..v }),
        _ => stay(v),
    }
}

/// Whether Control, Alt or Super is held: such a key is never a command
/// (a terminal reports Ctrl+S with the same code as `s`).
pub open spec fn chorded(m: Modifiers) -> bool {
    m.control || m.alt || m.super_key
}

/// The pending confirmations a key clears: every key cancels the quit
/// prompt, every key but `m` the mode prompt.
pub open spec fn clear_prompts(v: ViewModel, key: Key) -> ViewModel {
    ViewModel {
        confirm_quit: false,
        confirm_mode: if key == Key::Char('m') {
            v.confirm_mode
        } else {
            false
        },
        ..v
    }
}

/// What a key does that the loop did not take as a quit request.
pub open spec fn handle_key_spec(v: ViewModel, s: ClientSnapshot, key: Key, m: Modifiers) -> (ViewModel, ActionModel) {
    if chorded(m) {
        stay(v)
    } else if v.show_help {
        if key == Key::Esc || key == Key::Char('?') {
            stay(ViewModel { show_help: false, ..v })
        } else {
            stay(v)
        }
    } else if v.input is Some {
        input_key_spec(v, v.input->0, key)
    } else {
        page_key_spec(clear_prompts(v, key), s, key)
    }
}

/// Whether a key asks to quit: a bare `q` or Ctrl+C, outside the help and
/// input overlays (inside them `q` is a plain character).
pub open spec fn quit_requested(v: ViewModel, key: Key, m: Modifiers) -> bool {
    !v.show_help && v.input is None && ((key == Key::Char('q') && !m.control && !m.alt
        && !m.super_key && !m.shift) || (key == Key::Char('c') && m.control))
}

/// One key press: a quit request leaves at once unless the system proxy is
/// on and the user has not yet confirmed leaving it on, in which case the
/// first press asks; any other key goes to the key map.
pub open spec fn on_key_spec(v: ViewModel, s: ClientSnapshot, key: Key, m: Modifiers) -> (ViewModel, ActionModel) {
    if quit_requested(v, key, m) {
        if s.system_proxy_enabled && !v.confirm_quit {
            stay(ViewModel {
                confirm_quit: true,
                status: "系统代理仍开启：再按 q 退出并保留代理设置，或按 p 关闭后退出"@,
                ..v
            })
        } else {
            (v, ActionModel::Quit)
        }
    } else {
        handle_key_spec(v, s, key, m)
    }
}

/// Whether a key re-sorts the connection table: `S` on the Connections tab
/// with no overlay open.
pub open spec fn resorts(v: ViewModel, key: Key, m: Modifiers) -> bool {
    !quit_requested(v, key, m) && !chorded(m) && !v.show_help && v.input is None && key == Key::Char('S')
        && v.tab == Tab::Connections
}

/// Whether the key map proper re-sorts the connection table: `S` on the
/// Connections tab with no overlay open and no chord held.
pub open spec fn map_resorts(v: ViewModel, key: Key, m: Modifiers) -> bool {
    !chorded(m) && !v.show_help && v.input is None && key == Key::Char('S') && v.tab == Tab::Connections
}

/// `cur` moved and clamped, in machine integers.
pub fn step_index(cur: usize, down: bool, steps: usize, len: usize) -> (r: usize)
    requires
        len > 0,
    ensures
        r as int == clamp_step(cur as int, down, steps as int, len as int),
        r < len,
{
    if down {
        if steps >= len - 1 || cur >= len - 1 - steps {
            len - 1
        } else {
            cur + steps
        }
    } else if cur < steps {
        0
    } else {
        let x = cur - steps;
        if x > len - 1 {
            len - 1
        } else {
            x
        }
    }
}

/// The ids of the connections the table shows, in order.
pub fn visible_id_list(rows: &Vec<Connection>, filter: &str) -> (ids: Vec<String>)
    ensures
        views(ids@) == ids_of(visible_spec(rows@, filter@)),
{
    let visible = visible_connections(rows, filter);
    let ghost target = ids_of(visible_spec(rows@, filter@));
    let mut ids: Vec<String> = Vec::new();
    let mut k: usize = 0;
    while k < visible.len()
        invariant
            target == ids_of(visible_spec(rows@, filter@)),
            visible@.len() == visible_spec(rows@, filter@).len(),
            forall|j: int|
                0 <= j < visible@.len() ==> #[trigger] visible@[j] < rows@.len() && rows@[visible@[j] as int]
                    == visible_spec(rows@, filter@)[j],
            k <= visible@.len(),
            ids@.len() == k,
            target.len() == visible@.len(),
            views(ids@) == target.subrange(0, k as int),
        decreases visible@.len() - k,
    {
        let id = rows[visible[k]].id.clone();
        let ghost before = ids@;
        ids.push(id);
        proof {
            assert(ids@ == before.push(id));
            assert(target[k as int] == visible_spec(rows@, filter@)[k as int].id@);
            assert forall|j: int| 0 <= j < k + 1 implies #[trigger] views(ids@)[j] == target.subrange(0, k + 1)[j] by {
                if j < k {
                    assert(views(before)[j] == target.subrange(0, k as int)[j]);
                }
            }
        }
        k = k + 1;
        assert(views(ids@) =~= target.subrange(0, k as int));
    }
    assert(target.subrange(0, k as int) =~= target);
    ids
}

/// A copy of a list of lines.
pub fn copy_lines(lines: &Vec<String>) -> (out: Vec<String>)
    ensures
        views(out@) == views(lines@),
{
    let mut out: Vec<String> = Vec::new();
    let mut k: usize = 0;
    while k < lines.len()
        invariant
            k <= lines@.len(),
            out@.len() == k,
            views(out@) == views(lines@).subrange(0, k as int),
        decreases lines@.len() - k,
    {
        let ghost before = out@;
        let line = lines[k].clone();
        out.push(line);
        proof {
            assert(out@ == before.push(line));
            assert forall|j: int| 0 <= j < k + 1 implies #[trigger] views(out@)[j] == views(lines@).subrange(0, k + 1)[j] by {
                if j < k {
                    assert(views(before)[j] == views(lines@).subrange(0, k as int)[j]);
                }
            }
        }
        k = k + 1;
        assert(views(out@) =~= views(lines@).subrange(0, k as int));
    }
    assert(views(lines@).subrange(0, k as int) =~= views(lines@));
    out
}

/// Whether a group picks its own node.
pub fn is_auto(kind: &str) -> (r: bool)
    ensures
        r == is_auto_spec(kind@),
{
    str_eq(kind, "URLTest") || str_eq(kind, "urltest")
}

/// `text` without its leading `v`s.
pub fn without_leading_v(text: &str) -> (r: String)
    ensures
        r@ == drop_leading_v(text@),
{
    let chars = crate::text::chars_of(text);
    let n = chars.len();
    let mut k: usize = 0;
    assert(chars@.subrange(0, n as int) =~= chars@);
    while k < n && chars[k] == 'v'
        invariant
            chars@ == text@,
            n == chars@.len(),
            k <= n,
            drop_leading_v(text@) == drop_leading_v(chars@.subrange(k as int, n as int)),
        decreases n - k,
    {
        assert(chars@.subrange(k as int, n as int).drop_first() =~= chars@.subrange(k + 1, n as int));
        k = k + 1;
    }
    proof {
        if k < n {
            assert(chars@.subrange(k as int, n as int)[0] == chars@[k as int]);
        }
    }
    crate::text::string_of(&chars, k, n)
}

/// The newest line that passes both filters.
pub fn last_shown_line(lines: &Vec<String>, filter: LogFilter, query: &str) -> (r: Option<String>)
    ensures
        opt_view(r) == last_shown(views(lines@), filter, query@),
{
    let ghost all = views(lines@);
    let mut k = lines.len();
    assert(all.subrange(0, k as int) =~= all);
    while k > 0
        invariant
            all == views(lines@),
            k <= lines@.len(),
            last_shown(all, filter, query@) == last_shown(all.subrange(0, k as int), filter, query@),
        decreases k,
    {
        let line = lines[k - 1].as_str();
        let ghost pre = all.subrange(0, k as int);
        assert(pre.last() == line@);
        if filter.matches(line) && crate::tui_logs::log_query_matches(query, line) {
            return Some(lines[k - 1].clone());
        }
        assert(pre.drop_last() =~= all.subrange(0, k - 1));
        k = k - 1;
    }
    None
}

impl ViewState {
    fn set_status(&mut self, text: &str)
        ensures
            final(self)@ == with_status(old(self)@, text@),
    {
        self.status = text.to_owned();
    }

    /// Sends a request: the footer names it while it is under way.
    fn send(&mut self, command: ClientCommand) -> (a: Action)
        ensures
            (final(self)@, a@) == sent(old(self)@, command@),
    {
        let mut status = String::new();
        push_str(&mut status, command.label());
        push_str(&mut status, "…");
        self.status = status;
        Action::Send(command)
    }

    /// The arrow keys and `j`/`k`.
    pub fn move_cursor(&mut self, snapshot: &ClientSnapshot, down: bool, steps: usize)
        ensures
            final(self)@ == move_cursor_spec(old(self)@, *snapshot, down, steps as nat),
    {
        match self.tab {
            Tab::Proxies => {
                let count = if self.selected_group < snapshot.proxy_groups.len() {
                    snapshot.proxy_groups[self.selected_group].members.len()
                } else {
                    0
                };
                if count > 0 {
                    self.selected_member = step_index(self.selected_member, down, steps, count);
                }
            },
            Tab::Connections => {
                let ids = visible_id_list(&snapshot.connections.connections, self.conn_filter.as_str());
                if ids.len() == 0 {
                    self.selected_connection_id = None;
                } else {
                    let cur = selected_index(&ids, &self.selected_connection_id);
                    let next = step_index(cur, down, steps, ids.len());
                    self.selected_connection_id = Some(ids[next].clone());
                }
            },
            Tab::Logs => {
                if down {
                    self.log_scroll = if self.log_scroll >= steps {
                        self.log_scroll - steps
                    } else {
                        0
                    };
                } else {
                    self.log_scroll = if self.log_scroll <= usize::MAX - steps {
                        self.log_scroll + steps
                    } else {
                        usize::MAX
                    };
                }
            },
            Tab::Settings => {
                let len = snapshot.profiles.len();
                if len > 0 {
                    let cur = match self.selected_profile {
                        Some(i) => i,
                        None => 0,
                    };
                    self.selected_profile = Some(step_index(cur, down, steps, len));
                } else {
                    self.selected_profile = Some(0);
                }
            },
            _ => {},
        }
    }

    /// Page Up / Page Down on the Logs tab.
    pub fn page_logs(&mut self, snapshot: &ClientSnapshot, down: bool)
        ensures
            final(self)@ == page_logs_spec(old(self)@, *snapshot, down),
    {
        match self.tab {
            Tab::Logs => {
                let page: usize = if self.log_view_height > 0 {
                    self.log_view_height as usize
                } else {
                    1
                };
                self.move_cursor(snapshot, down, page);
            },
            _ => {},
        }
    }

    /// Left / Right on the Proxies tab.
    pub fn move_group(&mut self, snapshot: &ClientSnapshot, down: bool)
        ensures
            final(self)@ == move_group_spec(old(self)@, *snapshot, down),
    {
        let len = snapshot.proxy_groups.len();
        if len == 0 {
            return;
        }
        let next = step_index(self.selected_group, down, 1, len);
        let position = crate::tui_state::running_member(&snapshot.proxy_groups[next]);
        self.selected_group = next;
        self.selected_member = position;
        self.proxies_synced_group = Some(next);
    }

    fn profile_name(&self, snapshot: &ClientSnapshot) -> (r: Option<String>)
        ensures
            opt_view(r) == profile_at(self@, *snapshot),
    {
        match self.selected_profile {
            Some(i) => if i < snapshot.profiles.len() {
                Some(snapshot.profiles[i].name.clone())
            } else {
                None
            },
            None => None,
        }
    }

    fn member_name(&self, snapshot: &ClientSnapshot) -> (r: Option<String>)
        ensures
            opt_view(r) == member_at(self@, *snapshot),
    {
        if self.selected_group < snapshot.proxy_groups.len() {
            let group = &snapshot.proxy_groups[self.selected_group];
            if self.selected_member < group.members.len() {
                return Some(group.members[self.selected_member].clone());
            }
        }
        None
    }

    /// Enter with no overlay open.
    pub fn select_current(&mut self, snapshot: &ClientSnapshot) -> (a: Action)
        ensures
            (final(self)@, a@) == select_current_spec(old(self)@, *snapshot),
    {
        match self.tab {
            Tab::Settings => match self.profile_name(snapshot) {
                Some(name) => self.send(ClientCommand::SwitchProfile(name)),
                None => Action::Nothing,
            },
            Tab::Proxies => {
                if !snapshot.core_running {
                    return Action::Nothing;
                }
                match self.member_name(snapshot) {
                    None => Action::Nothing,
                    Some(node) => {
                        let group = &snapshot.proxy_groups[self.selected_group];
                        if is_auto(group.kind.as_str()) {
                            let mut status = String::new();
                            push_str(&mut status, "「");
                            push_str(&mut status, group.name.as_str());
                            push_str(&mut status, "」是自动选择组，不支持手动切换（按 t 可测速）");
                            self.status = status;
                            Action::Nothing
                        } else {
                            self.send(ClientCommand::SwitchNode { group: group.name.clone(), node })
                        }
                    },
                }
            },
            _ => Action::Nothing,
        }
    }

    /// `t` on the Proxies tab.
    pub fn test_node(&mut self, snapshot: &ClientSnapshot) -> (a: Action)
        ensures
            (final(self)@, a@) == test_node_spec(old(self)@, *snapshot),
    {
        if !snapshot.core_running {
            return Action::Nothing;
        }
        match self.member_name(snapshot) {
            Some(node) => self.send(ClientCommand::TestNode(node)),
            None => Action::Nothing,
        }
    }

    /// `T` on the Proxies tab.
    pub fn test_group(&mut self, snapshot: &ClientSnapshot) -> (a: Action)
        ensures
            (final(self)@, a@) == test_group_spec(old(self)@, *snapshot),
    {
        if !snapshot.core_running || self.selected_group >= snapshot.proxy_groups.len() {
            return Action::Nothing;
        }
        let name = snapshot.proxy_groups[self.selected_group].name.clone();
        self.send(ClientCommand::TestGroup(name))
    }

    /// `x` on the Connections tab.
    pub fn close_selected(&mut self, snapshot: &ClientSnapshot) -> (a: Action)
        ensures
            (final(self)@, a@) == close_selected_spec(old(self)@, *snapshot),
    {
        if !snapshot.core_running {
            return Action::Nothing;
        }
        let ids = visible_id_list(&snapshot.connections.connections, self.conn_filter.as_str());
        let index = selected_index(&ids, &self.selected_connection_id);
        if index < ids.len() {
            let id = ids[index].clone();
            self.send(ClientCommand::CloseConnection(id))
        } else {
            Action::Nothing
        }
    }

    /// `X` on the Connections tab.
    pub fn close_all(&mut self, snapshot: &ClientSnapshot) -> (a: Action)
        ensures
            (final(self)@, a@) == close_all_spec(old(self)@, *snapshot),
    {
        if !snapshot.core_running {
            return Action::Nothing;
        }
        if snapshot.connections.connections.len() == 0 {
            self.set_status("没有可关闭的连接");
            return Action::Nothing;
        }
        self.send(ClientCommand::CloseAllConnections)
    }

    /// Delete on the Settings tab.
    pub fn delete_profile(&mut self, snapshot: &ClientSnapshot) -> (a: Action)
        ensures
            (final(self)@, a@) == delete_profile_spec(old(self)@, *snapshot),
    {
        let name = match self.profile_name(snapshot) {
            Some(n) => n,
            None => return Action::Nothing,
        };
        let armed = match &self.confirm_delete {
            Some(pending) => str_eq(pending.as_str(), name.as_str()),
            None => false,
        };
        if !armed {
            let mut status = String::new();
            push_str(&mut status, "再按 Delete 确认删除档案 ");
            push_str(&mut status, name.as_str());
            push_str(&mut status, "（不可撤销）");
            self.confirm_delete = Some(name);
            self.status = status;
            return Action::Nothing;
        }
        self.confirm_delete = None;
        self.send(ClientCommand::RemoveProfile(name))
    }

    /// `m`.
    pub fn toggle_mode(&mut self, snapshot: &ClientSnapshot) -> (a: Action)
        ensures
            (final(self)@, a@) == toggle_mode_spec(old(self)@, *snapshot),
    {
        let target = snapshot.traffic_mode.other();
        if !self.confirm_mode {
            let mut status = String::new();
            push_str(&mut status, "再按 m 确认切换到 ");
            push_str(&mut status, target.label());
            push_str(&mut status, "（将重启内核；TUN 需要管理员/root 权限）");
            self.confirm_mode = true;
            self.status = status;
            return Action::Nothing;
        }
        self.confirm_mode = false;
        self.send(ClientCommand::SetTrafficMode { mode: target, restart: true })
    }

    /// The log lines on screen.
    pub fn current_log_lines(&self, snapshot: &ClientSnapshot) -> (lines: Vec<String>)
        ensures
            views(lines@) == current_log_lines_spec(self@, *snapshot),
    {
        match &self.paused_logs {
            Some(frozen) => copy_lines(frozen),
            None => copy_lines(&snapshot.core_logs),
        }
    }

    /// `c` on the Logs tab.
    pub fn copy_line(&mut self, snapshot: &ClientSnapshot) -> (a: Action)
        ensures
            (final(self)@, a@) == copy_line_spec(old(self)@, *snapshot),
    {
        let lines = self.current_log_lines(snapshot);
        let found = last_shown_line(&lines, self.log_filter, self.log_query.as_str());
        let line = match found {
            Some(l) => Some(l),
            None => {
                let n = snapshot.events.len();
                if n > 0 {
                    Some(snapshot.events[n - 1].clone())
                } else {
                    None
                }
            },
        };
        match line {
            Some(l) => {
                self.set_status("已复制当前行到剪贴板（OSC52）");
                Action::Copy(l)
            },
            None => {
                self.set_status("没有可复制的日志行");
                Action::Nothing
            },
        }
    }

    fn open_input(&mut self, goal: InputGoal, text: String)
        ensures
            final(self)@ == open_input(old(self)@, goal, text@),
    {
        self.input = Some(goal);
        self.input_text = text;
    }
}

impl ViewState {
    /// A character key with no overlay open.
    pub fn char_key(&mut self, snapshot: &ClientSnapshot, c: char) -> (a: Action)
        ensures
            (final(self)@, a@) == char_key_spec(old(self)@, *snapshot, c),
    {
        let tab = self.tab;
        let on_proxies = match tab {
            Tab::Proxies => true,
            _ => false,
        };
        let on_connections = match tab {
            Tab::Connections => true,
            _ => false,
        };
        let on_logs = match tab {
            Tab::Logs => true,
            _ => false,
        };
        let on_settings = match tab {
            Tab::Settings => true,
            _ => false,
        };
        let on_rules = match tab {
            Tab::Rules => true,
            _ => false,
        };
        if c == '?' {
            self.show_help = true;
            Action::Nothing
        } else if c == '1' {
            self.tab = Tab::Dashboard;
            Action::Nothing
        } else if c == '2' {
            self.tab = Tab::Proxies;
            Action::Nothing
        } else if c == '3' {
            self.tab = Tab::Connections;
            Action::Nothing
        } else if c == '4' {
            self.tab = Tab::Logs;
            Action::Nothing
        } else if c == '5' {
            self.tab = Tab::Settings;
            Action::Nothing
        } else if c == '6' {
            self.tab = Tab::Rules;
            Action::Nothing
        } else if c == '7' {
            self.tab = Tab::Override;
            Action::Nothing
        } else if c == 'j' {
            self.move_cursor(snapshot, true, 1);
            Action::Nothing
        } else if c == 'k' {
            self.move_cursor(snapshot, false, 1);
            Action::Nothing
        } else if c == 's' {
            if snapshot.core_running || snapshot.starting || snapshot.busy {
                self.send(ClientCommand::StopCore)
            } else {
                self.send(ClientCommand::StartCore)
            }
        } else if c == 'p' {
            self.send(ClientCommand::ToggleSystemProxy)
        } else if c == 'm' {
            self.toggle_mode(snapshot)
        } else if c == 't' && on_proxies {
            self.test_node(snapshot)
        } else if c == 'T' && on_proxies {
            self.test_group(snapshot)
        } else if c == 'u' {
            self.send(ClientCommand::UpdateSubscription)
        } else if c == 'x' && on_connections {
            self.close_selected(snapshot)
        } else if c == 'X' && on_connections {
            self.close_all(snapshot)
        } else if c == 'S' && on_connections {
            let sort = self.conn_sort.next();
            let mut status = String::new();
            push_str(&mut status, "连接排序: ");
            push_str(&mut status, sort.label());
            self.conn_sort = sort;
            self.status = status;
            Action::Nothing
        } else if c == 'f' && on_settings {
            self.open_input(InputGoal::ProfileFile, String::new());
            Action::Nothing
        } else if c == 'e' && on_settings {
            match self.profile_name(snapshot) {
                Some(name) => {
                    self.open_input(InputGoal::ProfileEditUrl, String::new());
                    self.pending_profile_name = Some(name);
                },
                None => {},
            }
            Action::Nothing
        } else if c == 'n' && on_settings {
            self.open_input(InputGoal::ProfileName, String::new());
            Action::Nothing
        } else if c == 'v' && on_settings {
            self.open_input(InputGoal::CoreVersion, snapshot.settings.core_version.clone());
            Action::Nothing
        } else if c == 'r' && on_settings {
            self.open_input(InputGoal::Mirror, snapshot.settings.mirror.clone());
            Action::Nothing
        } else if c == 'd' && on_settings {
            self.send(ClientCommand::DownloadCore)
        } else if c == 'r' && on_logs {
            self.tab = Tab::Rules;
            Action::Nothing
        } else if c == 'r' && on_rules {
            self.tab = Tab::Logs;
            Action::Nothing
        } else if c == 'o' {
            let next = snapshot.outbound_mode.next();
            self.send(ClientCommand::SetOutboundMode(next))
        } else if c == ' ' && on_logs {
            if self.paused_logs.is_some() {
                self.paused_logs = None;
                self.set_status("日志已恢复");
            } else {
                let lines = self.current_log_lines(snapshot);
                self.paused_logs = Some(lines);
                self.set_status("日志已暂停（Space 恢复）");
            }
            Action::Nothing
        } else if c == 'l' && on_logs {
            let filter = self.log_filter.next();
            let mut status = String::new();
            push_str(&mut status, "日志级别过滤: ");
            push_str(&mut status, filter.label());
            self.log_filter = filter;
            self.status = status;
            Action::Nothing
        } else if c == 'c' && on_logs {
            self.copy_line(snapshot)
        } else if c == '/' && on_connections {
            let text = self.conn_filter.clone();
            self.open_input(InputGoal::ConnFilter, text);
            self.set_status("输入连接过滤关键字（留空 = 显示全部）");
            Action::Nothing
        } else if c == '/' && on_logs {
            let text = self.log_query.clone();
            self.open_input(InputGoal::LogQuery, text);
            self.set_status("输入日志关键字（留空 = 不过滤）");
            Action::Nothing
        } else if c == 'a' && on_settings {
            self.open_input(InputGoal::AutoUpdate, decimal(snapshot.settings.auto_update_minutes));
            self.set_status("自动更新间隔（分钟，0 = 关闭）");
            Action::Nothing
        } else if c == 'P' && on_settings {
            self.open_input(InputGoal::MixedPort, decimal(snapshot.settings.mixed_port as u64));
            self.set_status("本地混合代理端口（1024–65535）");
            Action::Nothing
        } else if c == 'U' && on_settings {
            self.open_input(InputGoal::TestUrl, snapshot.settings.test_url.clone());
            self.set_status("延迟测试地址");
            Action::Nothing
        } else if c == 'g' && on_settings {
            let enabled = !snapshot.settings.auto_start;
            let mut patch = SettingsPatch::unchanged();
            patch.auto_start = Some(enabled);
            let mut status = String::new();
            push_str(&mut status, "启动时自动启动内核: ");
            push_str(&mut status, if enabled { "开" } else { "关" });
            self.status = status;
            Action::Send(ClientCommand::UpdateSettings(patch))
        } else if c == 'y' && on_settings {
            let enabled = !snapshot.settings.auto_system_proxy;
            let mut patch = SettingsPatch::unchanged();
            patch.auto_system_proxy = Some(enabled);
            let mut status = String::new();
            push_str(&mut status, "内核就绪后自动开启系统代理: ");
            push_str(&mut status, if enabled { "开" } else { "关" });
            self.status = status;
            Action::Send(ClientCommand::UpdateSettings(patch))
        } else {
            Action::Nothing
        }
    }

    /// A key with no overlay open, after the pending confirmations were
    /// cleared.
    pub fn page_key(&mut self, snapshot: &ClientSnapshot, key: Key) -> (a: Action)
        ensures
            (final(self)@, a@) == page_key_spec(old(self)@, *snapshot, key),
    {
        match key {
            Key::Char(c) => self.char_key(snapshot, c),
            Key::Tab => {
                self.tab = self.tab.next();
                Action::Nothing
            },
            Key::BackTab => {
                self.tab = self.tab.previous();
                Action::Nothing
            },
            Key::Left => {
                if let Tab::Proxies = self.tab {
                    self.move_group(snapshot, false);
                }
                Action::Nothing
            },
            Key::Right => {
                if let Tab::Proxies = self.tab {
                    self.move_group(snapshot, true);
                }
                Action::Nothing
            },
            Key::Down => {
                self.move_cursor(snapshot, true, 1);
                Action::Nothing
            },
            Key::Up => {
                self.move_cursor(snapshot, false, 1);
                Action::Nothing
            },
            Key::PageDown => {
                self.page_logs(snapshot, true);
                Action::Nothing
            },
            Key::PageUp => {
                self.page_logs(snapshot, false);
                Action::Nothing
            },
            Key::End => {
                self.log_scroll = 0;
                Action::Nothing
            },
            Key::Enter => self.select_current(snapshot),
            Key::Delete => {
                if let Tab::Settings = self.tab {
                    self.delete_profile(snapshot)
                } else {
                    Action::Nothing
                }
            },
            _ => Action::Nothing,
        }
    }

    /// Enter in the input overlay.
    pub fn commit_input(&mut self, goal: InputGoal) -> (a: Action)
        ensures
            (final(self)@, a@) == commit_input_spec(old(self)@, goal),
    {
        let text = trim(self.input_text.as_str());
        let name = match &self.pending_profile_name {
            Some(n) => n.clone(),
            None => String::new(),
        };
        self.input = None;
        self.input_text = String::new();
        match goal {
            InputGoal::ProfileName => {
                self.pending_profile_name = Some(text);
                self.input = Some(InputGoal::ProfileUrl);
                self.set_status("输入订阅链接（任意 sbctl 订阅后缀都会自动归一化）");
                Action::Nothing
            },
            InputGoal::ProfileUrl => {
                self.pending_profile_name = None;
                if name.unicode_len() == 0 || text.unicode_len() == 0 {
                    self.set_status("档案名与链接都不能为空");
                    return Action::Nothing;
                }
                self.send(ClientCommand::ImportSubscription { name: Some(name), url: text })
            },
            InputGoal::ProfileFile => self.send(ClientCommand::ImportProfileFile(text)),
            InputGoal::ProfileEditUrl => {
                self.pending_profile_name = None;
                if text.unicode_len() == 0 {
                    self.set_status("已取消编辑");
                    return Action::Nothing;
                }
                self.send(ClientCommand::SetProfileUrl { name, url: text })
            },
            InputGoal::CoreVersion => {
                let mut patch = SettingsPatch::unchanged();
                patch.core_version = Some(without_leading_v(text.as_str()));
                self.set_status("内核版本已保存；按 d 下载");
                Action::Send(ClientCommand::UpdateSettings(patch))
            },
            InputGoal::Mirror => {
                let mut patch = SettingsPatch::unchanged();
                patch.mirror = Some(text);
                self.set_status("镜像前缀已保存");
                Action::Send(ClientCommand::UpdateSettings(patch))
            },
            InputGoal::AutoUpdate => {
                let minutes: u64 = if text.unicode_len() == 0 {
                    0
                } else {
                    match parse_unsigned(text.as_str(), u64::MAX) {
                        Some(m) => m,
                        None => {
                            self.set_status("自动更新间隔必须是整数分钟");
                            return Action::Nothing;
                        },
                    }
                };
                let mut patch = SettingsPatch::unchanged();
                patch.auto_update_minutes = Some(minutes);
                if minutes == 0 {
                    self.set_status("已关闭订阅自动更新");
                } else {
                    let mut status = String::new();
                    push_str(&mut status, "订阅每 ");
                    let n = decimal(minutes);
                    push_str(&mut status, n.as_str());
                    push_str(&mut status, " 分钟自动更新");
                    self.status = status;
                }
                Action::Send(ClientCommand::UpdateSettings(patch))
            },
            InputGoal::MixedPort => match parse_unsigned(text.as_str(), 65535) {
                Some(port) if port >= 1024 => {
                    let mut patch = SettingsPatch::unchanged();
                    patch.mixed_port = Some(port as u16);
                    let mut status = String::new();
                    push_str(&mut status, "混合代理端口已设为 ");
                    let n = decimal(port);
                    push_str(&mut status, n.as_str());
                    push_str(&mut status, "（重启内核生效）");
                    self.status = status;
                    Action::Send(ClientCommand::UpdateSettings(patch))
                },
                _ => {
                    self.set_status("端口必须是 1024–65535 之间的整数");
                    Action::Nothing
                },
            },
            InputGoal::TestUrl => {
                if text.unicode_len() == 0 {
                    self.set_status("延迟测试地址不能为空");
                    return Action::Nothing;
                }
                let mut patch = SettingsPatch::unchanged();
                patch.test_url = Some(text);
                self.set_status("延迟测试地址已保存");
                Action::Send(ClientCommand::UpdateSettings(patch))
            },
            InputGoal::ConnFilter => {
                let empty = text.unicode_len() == 0;
                let mut status = String::new();
                if empty {
                    push_str(&mut status, "已清除连接过滤");
                } else {
                    push_str(&mut status, "连接过滤: ");
                    push_str(&mut status, text.as_str());
                }
                self.conn_filter = text;
                self.selected_connection_id = None;
                self.status = status;
                Action::Nothing
            },
            InputGoal::LogQuery => {
                let empty = text.unicode_len() == 0;
                let mut status = String::new();
                if empty {
                    push_str(&mut status, "已清除日志关键字");
                } else {
                    push_str(&mut status, "日志关键字: ");
                    push_str(&mut status, text.as_str());
                }
                self.log_query = text;
                self.status = status;
                Action::Nothing
            },
        }
    }

    /// A key while the input overlay is open.
    pub fn input_key(&mut self, goal: InputGoal, key: Key) -> (a: Action)
        ensures
            (final(self)@, a@) == input_key_spec(old(self)@, goal, key),
    {
        match key {
            Key::Esc => {
                self.input = None;
                self.input_text = String::new();
                Action::Nothing
            },
            Key::Enter => self.commit_input(goal),
            Key::Backspace => {
                let chars = crate::text::chars_of(self.input_text.as_str());
                let n = chars.len();
                if n > 0 {
                    self.input_text = crate::text::string_of(&chars, 0, n - 1);
                    assert(chars@.subrange(0, n - 1) =~= chars@.drop_last());
                }
                Action::Nothing
            },
            Key::Char(ch) => {
                self.input_text.push(ch);
                Action::Nothing
            },
            _ => Action::Nothing,
        }
    }

    /// The key map: what a key that is not a quit request does.
    pub fn handle_key(&mut self, snapshot: &mut ClientSnapshot, key: Key, modifiers: Modifiers) -> (a: Action)
        ensures
            (final(self)@, a@) == handle_key_spec(old(self)@, *old(snapshot), key, modifiers),
            final(snapshot).connections.connections@ == if map_resorts(old(self)@, key, modifiers) {
                sorted_spec(old(snapshot).connections.connections@, final(self).conn_sort)
            } else {
                old(snapshot).connections.connections@
            },
            *final(snapshot) == (ClientSnapshot {
                connections: crate::clash_api::ConnectionsSnapshot {
                    connections: final(snapshot).connections.connections,
                    ..old(snapshot).connections
                },
                ..*old(snapshot)
            }),
    {
        if modifiers.control || modifiers.alt || modifiers.super_key {
            return Action::Nothing;
        }
        if self.show_help {
            match key {
                Key::Esc => self.show_help = false,
                Key::Char(c) => if c == '?' {
                    self.show_help = false;
                },
                _ => {},
            }
            return Action::Nothing;
        }
        if let Some(goal) = self.input {
            return self.input_key(goal, key);
        }
        self.confirm_quit = false;
        let keeps_mode = match key {
            Key::Char(c) => c == 'm',
            _ => false,
        };
        if !keeps_mode {
            self.confirm_mode = false;
        }
        let resort = match (key, self.tab) {
            (Key::Char(c), Tab::Connections) => c == 'S',
            _ => false,
        };
        let action = self.page_key(snapshot, key);
        if resort {
            let mut rows: Vec<Connection> = Vec::new();
            std::mem::swap(&mut rows, &mut snapshot.connections.connections);
            snapshot.connections.connections = sort_connections(rows, self.conn_sort);
        }
        action
    }

    /// One key press as the event loop sees it: a quit request (a bare `q`
    /// or Ctrl+C outside the overlays) leaves, unless the system proxy is on
    /// and this is the first press, which asks instead; everything else goes
    /// to the key map.
    pub fn on_key(&mut self, snapshot: &mut ClientSnapshot, key: Key, modifiers: Modifiers) -> (a: Action)
        ensures
            (final(self)@, a@) == on_key_spec(old(self)@, *old(snapshot), key, modifiers),
            final(snapshot).connections.connections@ == if resorts(old(self)@, key, modifiers) {
                sorted_spec(old(snapshot).connections.connections@, final(self).conn_sort)
            } else {
                old(snapshot).connections.connections@
            },
            *final(snapshot) == (ClientSnapshot {
                connections: crate::clash_api::ConnectionsSnapshot {
                    connections: final(snapshot).connections.connections,
                    ..old(snapshot).connections
                },
                ..*old(snapshot)
            }),
    {
        let bare = !modifiers.control && !modifiers.alt && !modifiers.super_key && !modifiers.shift;
        let asks = match key {
            Key::Char(c) => (c == 'q' && bare) || (c == 'c' && modifiers.control),
            _ => false,
        };
        if !self.show_help && self.input.is_none() && asks {
            if snapshot.system_proxy_enabled && !self.confirm_quit {
                self.confirm_quit = true;
                self.set_status("系统代理仍开启：再按 q 退出并保留代理设置，或按 p 关闭后退出");
                return Action::Nothing;
            }
            return Action::Quit;
        }
        self.handle_key(snapshot, key, modifiers)
    }
}

/// A key held with Control, Alt or Super never changes anything: Ctrl+S is
/// not `s`.
pub proof fn chorded_keys_do_nothing(v: ViewModel, s: ClientSnapshot, key: Key, m: Modifiers)
    requires
        chorded(m),
    ensures
        handle_key_spec(v, s, key, m) == stay(v),
{
}

/// While the help overlay is open, keys only close it (Esc or `?`) and
/// nothing is sent.
pub proof fn the_help_overlay_swallows_keys(v: ViewModel, s: ClientSnapshot, key: Key, m: Modifiers)
    requires
        v.show_help,
    ensures
        on_key_spec(v, s, key, m).1 == ActionModel::Nothing,
        on_key_spec(v, s, key, m).0 == (ViewModel { show_help: on_key_spec(v, s, key, m).0.show_help, ..v }),
        !chorded(m) && (key == Key::Esc || key == Key::Char('?')) ==> !on_key_spec(v, s, key, m).0.show_help,
{
}

/// With the system proxy on, the first `q` only asks; a second `q` right
/// after it quits and keeps the proxy (the exit decision then leaves the
/// proxy on, see `signals::should_clear_proxy`). With the proxy off one `q`
/// quits.
pub proof fn leaving_with_the_proxy_on_takes_two_presses(v: ViewModel, s: ClientSnapshot)
    requires
        !v.show_help,
        v.input is None,
    ensures
        ({
            let bare = Modifiers { control: false, alt: false, super_key: false, shift: false };
            let first = on_key_spec(v, s, Key::Char('q'), bare);
            let second = on_key_spec(first.0, s, Key::Char('q'), bare);
            &&& s.system_proxy_enabled && !v.confirm_quit ==> first.1 == ActionModel::Nothing
                && first.0.confirm_quit && second.1 == ActionModel::Quit
            &&& !s.system_proxy_enabled ==> first.1 == ActionModel::Quit
        }),
{
}

/// Any key other than a quit request, with no overlay open, withdraws a
/// pending quit confirmation; any key but `m` withdraws a pending mode
/// switch.
pub proof fn other_keys_cancel_the_prompts(v: ViewModel, s: ClientSnapshot, key: Key, m: Modifiers)
    requires
        !chorded(m),
        !v.show_help,
        v.input is None,
        !quit_requested(v, key, m),
    ensures
        !on_key_spec(v, s, key, m).0.confirm_quit,
        key != Key::Char('m') ==> !on_key_spec(v, s, key, m).0.confirm_mode,
{
    let b = clear_prompts(v, key);
    lemma_page_key_keeps_prompts(b, s, key);
}

proof fn lemma_page_key_keeps_prompts(v: ViewModel, s: ClientSnapshot, key: Key)
    ensures
        page_key_spec(v, s, key).0.confirm_quit == v.confirm_quit,
        key != Key::Char('m') ==> page_key_spec(v, s, key).0.confirm_mode == v.confirm_mode,
{
}

/// Switching the traffic mode takes two presses of `m`: the first sends
/// nothing and asks, the second sends the switch to the other mode with a
/// restart.
pub proof fn the_mode_switch_asks_first(v: ViewModel, s: ClientSnapshot)
    requires
        !v.show_help,
        v.input is None,
        !v.confirm_mode,
    ensures
        ({
            let none = Modifiers { control: false, alt: false, super_key: false, shift: false };
            let first = on_key_spec(v, s, Key::Char('m'), none);
            let second = on_key_spec(first.0, s, Key::Char('m'), none);
            &&& first.1 == ActionModel::Nothing
            &&& first.0.confirm_mode
            &&& second.1 == ActionModel::Send(
                CommandModel::SetTrafficMode { mode: other_mode(s.traffic_mode), restart: true },
            )
            &&& !second.0.confirm_mode
        }),
{
}

/// Removing a profile takes two Delete presses on the same profile: the
/// first arms and sends nothing, the second sends the removal.
pub proof fn deleting_a_profile_asks_first(v: ViewModel, s: ClientSnapshot)
    requires
        !v.show_help,
        v.input is None,
        v.tab == Tab::Settings,
        profile_at(v, s) is Some,
        v.confirm_delete != profile_at(v, s),
    ensures
        ({
            let none = Modifiers { control: false, alt: false, super_key: false, shift: false };
            let first = on_key_spec(v, s, Key::Delete, none);
            let second = on_key_spec(first.0, s, Key::Delete, none);
            &&& first.1 == ActionModel::Nothing
            &&& second.1 == ActionModel::Send(CommandModel::RemoveProfile(profile_at(v, s)->0))
            &&& second.0.confirm_delete is None
        }),
{
}

/// The cursor never leaves the list it moves in: the member highlight stays
/// on a member, the connection highlight on a shown connection, the profile
/// highlight on a profile.
pub proof fn the_cursor_stays_in_its_list(v: ViewModel, s: ClientSnapshot, down: bool, steps: nat)
    ensures
        ({
            let w = move_cursor_spec(v, s, down, steps);
            &&& v.tab == Tab::Proxies && group_at(v, s) is Some && group_at(v, s)->0.members@.len() > 0
                ==> w.selected_member < group_at(v, s)->0.members@.len()
            &&& v.tab == Tab::Connections ==> match w.selected_connection_id {
                Some(id) => visible_ids(v, s).contains(id),
                None => visible_ids(v, s).len() == 0,
            }
            &&& v.tab == Tab::Settings && s.profiles@.len() > 0 ==> w.selected_profile is Some
                && w.selected_profile->0 < s.profiles@.len()
        }),
{
    if v.tab == Tab::Connections {
        let ids = visible_ids(v, s);
        if ids.len() > 0 {
            let cur = selected_index_spec(ids, v.selected_connection_id);
            let k = clamp_step(cur as int, down, steps as int, ids.len() as int);
            assert(ids.contains(ids[k]));
        }
    }
}

/// Esc in the input overlay drops what was typed and sends nothing.
pub proof fn escape_discards_the_input(v: ViewModel, s: ClientSnapshot, m: Modifiers)
    requires
        !chorded(m),
        !v.show_help,
        v.input is Some,
    ensures
        on_key_spec(v, s, Key::Esc, m) == stay((ViewModel { input: None, input_text: Seq::empty(), ..v })),
{
}

/// Every tab is reachable by its number key: the digit keys 1 to 7 jump to
/// the tab of that number.
pub proof fn digits_jump_to_their_tab(v: ViewModel, s: ClientSnapshot, d: nat)
    requires
        1 <= d <= 7,
        !v.show_help,
        v.input is None,
    ensures
        ({
            let none = Modifiers { control: false, alt: false, super_key: false, shift: false };
            let c = if d == 1 { '1' } else if d == 2 { '2' } else if d == 3 { '3' } else if d == 4 { '4' } else if d == 5 { '5' } else if d == 6 { '6' } else { '7' };
            on_key_spec(v, s, Key::Char(c), none).0.tab == crate::tui::tab_at_spec((d - 1) as nat)->0
        }),
{
}

} // verus!
