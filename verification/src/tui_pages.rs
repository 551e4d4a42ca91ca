//! The terminal client's chrome and its Dashboard, Proxies, Connections and
//! Settings pages as styled text: each line a list of pieces, each piece its
//! text, its ink and whether it is bold. Drawing them is left to the caller.

use vstd::prelude::*;

use crate::clash_api::{outbound_label_spec, Connection};
use crate::system_proxy::{platform_label, platform_label_spec, HostOs};
use crate::tui::{conn_sort_label_spec, input_label, input_label_spec, ConnSort, InputGoal};
use crate::tui_logs::{tail_within_width, tail_within_width_spec};
use crate::tui_override::{join, join_spec};
use crate::tui_views::{confirmation_spec, delay_of, help_keys, help_keys_spec};
use crate::format::{human_bytes, human_bytes_spec};
use crate::snapshot::{ClientSnapshot, ProfileSummary, ProxyGroupSnapshot, TrafficPoint};
use crate::style::{meter, meter_spec, short_label, short_label_spec, status_color, status_tone_spec, StatusTone};
use crate::system_proxy::{traffic_label_spec, TrafficMode};
use crate::text::{decimal, decimal_spec, push_str, str_eq, views};
use crate::tui::Tab;
use crate::tui_views::{core_state, core_state_spec, footer_hint, footer_hint_spec};

verus! {

/// The colour a piece of text is drawn in.
#[derive(Clone, Copy, Debug, PartialEq, Eq)]
pub enum Ink {
    /// The terminal's own colour.
    Plain,
    Text,
    Muted,
    Edge,
    Cyan,
    Mint,
    Amber,
    Danger,
    /// The colour the engine gives a measured delay (or the lack of one).
    Delay(Option<u64>),
}

/// A run of text in one ink.
#[derive(Clone, Debug)]
pub struct Piece {
    pub text: String,
    pub ink: Ink,
    pub bold: bool,
}

/// A piece as plain values.
pub open spec fn piece_view(p: Piece) -> (Seq<char>, Ink, bool) {
    (p.text@, p.ink, p.bold)
}

/// A line of pieces as plain values.
pub open spec fn line_view(line: Seq<Piece>) -> Seq<(Seq<char>, Ink, bool)> {
    line.map_values(|p: Piece| piece_view(p))
}

/// Lines of pieces as plain values.
pub open spec fn lines_view(lines: Seq<Vec<Piece>>) -> Seq<Seq<(Seq<char>, Ink, bool)>> {
    lines.map_values(|l: Vec<Piece>| line_view(l@))
}

/// The ink of a status line's tone.
pub open spec fn status_ink_spec(tone: StatusTone) -> Ink {
    match tone {
        StatusTone::Danger => Ink::Danger,
        StatusTone::Amber => Ink::Amber,
        StatusTone::Mint => Ink::Mint,
        StatusTone::Text => Ink::Text,
    }
}

fn status_ink(tone: StatusTone) -> (ink: Ink)
    ensures
        ink == status_ink_spec(tone),
{
    match tone {
        StatusTone::Danger => Ink::Danger,
        StatusTone::Amber => Ink::Amber,
        StatusTone::Mint => Ink::Mint,
        StatusTone::Text => Ink::Text,
    }
}

fn piece(text: &str, ink: Ink, bold: bool) -> (p: Piece)
    ensures
        piece_view(p) == (text@, ink, bold),
{
    Piece { text: text.to_string(), ink, bold }
}

fn owned(text: String, ink: Ink, bold: bool) -> (p: Piece)
    ensures
        piece_view(p) == (text@, ink, bold),
{
    Piece { text, ink, bold }
}

fn push_piece(line: &mut Vec<Piece>, p: Piece)
    ensures
        line_view(final(line)@) == line_view(old(line)@).push(piece_view(p)),
{
    line.push(p);
    assert(line_view(line@) =~= line_view(old(line)@).push(piece_view(p)));
}

fn push_line(lines: &mut Vec<Vec<Piece>>, line: Vec<Piece>)
    ensures
        lines_view(final(lines)@) == lines_view(old(lines)@).push(line_view(line@)),
{
    let ghost v = line_view(line@);
    lines.push(line);
    assert(lines_view(lines@) =~= lines_view(old(lines)@).push(v));
}

fn one(text: &str, ink: Ink, bold: bool) -> (line: Vec<Piece>)
    ensures
        line_view(line@) == seq![(text@, ink, bold)],
{
    let mut line: Vec<Piece> = Vec::new();
    push_piece(&mut line, piece(text, ink, bold));
    assert(line_view(line@) =~= seq![(text@, ink, bold)]);
    line
}

fn one_owned(text: String, ink: Ink, bold: bool) -> (line: Vec<Piece>)
    ensures
        line_view(line@) == seq![(text@, ink, bold)],
{
    let ghost t = text@;
    let mut line: Vec<Piece> = Vec::new();
    push_piece(&mut line, owned(text, ink, bold));
    assert(line_view(line@) =~= seq![(t, ink, bold)]);
    line
}

fn blank() -> (line: Vec<Piece>)
    ensures
        line_view(line@) == Seq::<(Seq<char>, Ink, bool)>::empty(),
{
    let line: Vec<Piece> = Vec::new();
    assert(line_view(line@) =~= Seq::<(Seq<char>, Ink, bool)>::empty());
    line
}

fn concat(a: &str, b: &str) -> (s: String)
    ensures
        s@ == a@ + b@,
{
    let mut s = String::new();
    push_str(&mut s, a);
    push_str(&mut s, b);
    s
}

fn concat3(a: &str, b: &str, c: &str) -> (s: String)
    ensures
        s@ == a@ + b@ + c@,
{
    let mut s = concat(a, b);
    push_str(&mut s, c);
    s
}

/// The current node of the first group named `selector`.
pub open spec fn selector_current(groups: Seq<ProxyGroupSnapshot>, selector: Seq<char>) -> Option<Seq<char>>
    decreases groups.len(),
{
    if groups.len() == 0 {
        None
    } else if groups[0].name@ == selector {
        Some(groups[0].current@)
    } else {
        selector_current(groups.drop_first(), selector)
    }
}

/// The node the rest of the interface names as current: the selection of the
/// selector group `selector`, else the node the engine reports, else a
/// placeholder.
pub open spec fn selected_node_spec(s: ClientSnapshot, selector: Seq<char>) -> Seq<char> {
    match selector_current(s.proxy_groups@, selector) {
        Some(current) => current,
        None => match s.current_node {
            Some(node) => node@,
            None => "等待选择节点"@,
        },
    }
}

/// The node the dashboard, header and compact view name as current.
pub fn selected_node(snapshot: &ClientSnapshot, selector: &str) -> (node: String)
    ensures
        node@ == selected_node_spec(*snapshot, selector@),
{
    let groups = &snapshot.proxy_groups;
    let mut g: usize = 0;
    assert(groups@.subrange(0, groups@.len() as int) =~= groups@);
    while g < groups.len()
        invariant
            groups@ == snapshot.proxy_groups@,
            g <= groups@.len(),
            selector_current(groups@, selector@) == selector_current(
                groups@.subrange(g as int, groups@.len() as int),
                selector@,
            ),
        decreases groups@.len() - g,
    {
        let ghost rest = groups@.subrange(g as int, groups@.len() as int);
        assert(rest[0] == groups@[g as int]);
        assert(rest.drop_first() =~= groups@.subrange(g + 1, groups@.len() as int));
        if str_eq(groups[g].name.as_str(), selector) {
            return groups[g].current.clone();
        }
        g = g + 1;
    }
    match &snapshot.current_node {
        Some(node) => node.clone(),
        None => "等待选择节点".to_string(),
    }
}

/// A measured delay as the dashboard words it.
pub open spec fn delay_text_spec(delay: Option<u64>) -> Seq<char> {
    match delay {
        Some(ms) => decimal_spec(ms as nat) + " ms"@,
        None => "待测"@,
    }
}

pub fn delay_text(delay: Option<u64>) -> (s: String)
    ensures
        s@ == delay_text_spec(delay),
{
    match delay {
        Some(ms) => {
            let mut s = decimal(ms);
            push_str(&mut s, " ms");
            s
        },
        None => "待测".to_string(),
    }
}

/// A rate in bytes per second.
pub open spec fn rate_spec(bytes: u64) -> Seq<char> {
    human_bytes_spec(bytes as nat) + "/s"@
}

fn rate(bytes: u64) -> (s: String)
    ensures
        s@ == rate_spec(bytes),
{
    let mut s = human_bytes(bytes);
    push_str(&mut s, "/s");
    s
}

/// The header's status line: the name, the core's state, the current node
/// and the two rates.
pub open spec fn header_spec(s: ClientSnapshot, current: Seq<char>) -> Seq<(Seq<char>, Ink, bool)> {
    seq![
        (" sbtui "@, Ink::Cyan, true),
        ("网络控制台"@, Ink::Muted, false),
        ("  /  "@, Ink::Edge, false),
        (core_state_spec(s.core_running, s.starting), if s.core_running || s.starting {
            Ink::Mint
        } else {
            Ink::Muted
        }, true),
        ("  ·  "@, Ink::Edge, false),
        (short_label_spec(current, 24), Ink::Text, false),
        ("  ·  "@, Ink::Edge, false),
        ("↓ "@ + rate_spec(s.download_speed), Ink::Cyan, false),
        ("  "@, Ink::Plain, false),
        ("↑ "@ + rate_spec(s.upload_speed), Ink::Mint, false),
    ]
}

pub fn header_line(snapshot: &ClientSnapshot, current: &str) -> (line: Vec<Piece>)
    ensures
        line_view(line@) == header_spec(*snapshot, current@),
{
    let mut line: Vec<Piece> = Vec::new();
    push_piece(&mut line, piece(" sbtui ", Ink::Cyan, true));
    push_piece(&mut line, piece("网络控制台", Ink::Muted, false));
    push_piece(&mut line, piece("  /  ", Ink::Edge, false));
    let lit = snapshot.core_running || snapshot.starting;
    push_piece(
        &mut line,
        piece(core_state(snapshot.core_running, snapshot.starting), if lit {
            Ink::Mint
        } else {
            Ink::Muted
        }, true),
    );
    push_piece(&mut line, piece("  ·  ", Ink::Edge, false));
    push_piece(&mut line, owned(short_label(current, 24), Ink::Text, false));
    push_piece(&mut line, piece("  ·  ", Ink::Edge, false));
    let down = rate(snapshot.download_speed);
    push_piece(&mut line, owned(concat("↓ ", down.as_str()), Ink::Cyan, false));
    push_piece(&mut line, piece("  ", Ink::Plain, false));
    let up = rate(snapshot.upload_speed);
    push_piece(&mut line, owned(concat("↑ ", up.as_str()), Ink::Mint, false));
    assert(line_view(line@) =~= header_spec(*snapshot, current@));
    line
}

/// The footer: the status line in its tone, the page's keys, and the keys
/// every page shares.
pub open spec fn footer_spec(status: Seq<char>, tab: Tab) -> Seq<(Seq<char>, Ink, bool)> {
    seq![
        (" "@, Ink::Plain, false),
        (status, status_ink_spec(status_tone_spec(status)), false),
        ("  │  "@, Ink::Edge, false),
        (footer_hint_spec(tab), Ink::Muted, false),
        ("  │  Tab 切换  ·  ? 帮助  ·  q 退出"@, Ink::Muted, false),
    ]
}

pub fn footer_line(status: &str, tab: Tab) -> (line: Vec<Piece>)
    ensures
        line_view(line@) == footer_spec(status@, tab),
{
    let mut line: Vec<Piece> = Vec::new();
    push_piece(&mut line, piece(" ", Ink::Plain, false));
    push_piece(&mut line, piece(status, status_ink(status_color(status)), false));
    push_piece(&mut line, piece("  │  ", Ink::Edge, false));
    push_piece(&mut line, piece(footer_hint(tab), Ink::Muted, false));
    push_piece(&mut line, piece("  │  Tab 切换  ·  ? 帮助  ·  q 退出", Ink::Muted, false));
    assert(line_view(line@) =~= footer_spec(status@, tab));
    line
}

/// The dashboard falls back to its compact view on a small terminal.
pub fn dashboard_is_compact(width: u16, height: u16) -> (compact: bool)
    ensures
        compact == (width < 100 || height < 28),
{
    width < 100 || height < 28
}

/// The "运行状态" panel: online or offline, the core, the system proxy, the
/// two modes, and the current node with its delay.
pub open spec fn health_spec(s: ClientSnapshot, current: Seq<char>, delay: Option<u64>) -> Seq<Seq<(Seq<char>, Ink, bool)>> {
    let running = s.core_running;
    let state_ink = if running {
        Ink::Mint
    } else {
        Ink::Muted
    };
    let proxy = s.system_proxy_enabled;
    seq![
        seq![(if running {
            "● 在线"@
        } else {
            "○ 离线"@
        }, state_ink, true)],
        Seq::empty(),
        seq![("内核  "@, Ink::Muted, false), (if running {
            "已启动"@
        } else {
            "未启动"@
        }, state_ink, false)],
        seq![("代理  "@, Ink::Muted, false), (if proxy {
            "已接管 127.0.0.1:"@ + decimal_spec(s.settings.mixed_port as nat)
        } else {
            "未接管系统网络"@
        }, if proxy {
            Ink::Mint
        } else {
            Ink::Muted
        }, false)],
        seq![("模式  "@, Ink::Muted, false), (traffic_label_spec(s.traffic_mode) + " · "@ + outbound_label_spec(s.outbound_mode), Ink::Text, false)],
        Seq::empty(),
        seq![("当前节点"@, Ink::Muted, false)],
        seq![(short_label_spec(current, 22), Ink::Cyan, true)],
        seq![("延迟 "@ + delay_text_spec(delay), Ink::Delay(delay), false)],
    ]
}

pub fn health_lines(snapshot: &ClientSnapshot, current: &str, delay: Option<u64>) -> (lines: Vec<Vec<Piece>>)
    ensures
        lines_view(lines@) == health_spec(*snapshot, current@, delay),
{
    let running = snapshot.core_running;
    let state_ink = if running {
        Ink::Mint
    } else {
        Ink::Muted
    };
    let proxy = snapshot.system_proxy_enabled;
    let mut lines: Vec<Vec<Piece>> = Vec::new();
    push_line(&mut lines, one(if running {
        "● 在线"
    } else {
        "○ 离线"
    }, state_ink, true));
    push_line(&mut lines, blank());
    let mut core: Vec<Piece> = Vec::new();
    push_piece(&mut core, piece("内核  ", Ink::Muted, false));
    push_piece(&mut core, piece(if running {
        "已启动"
    } else {
        "未启动"
    }, state_ink, false));
    assert(line_view(core@) =~= health_spec(*snapshot, current@, delay)[2]);
    push_line(&mut lines, core);
    let mut system: Vec<Piece> = Vec::new();
    push_piece(&mut system, piece("代理  ", Ink::Muted, false));
    if proxy {
        let port = decimal(snapshot.settings.mixed_port as u64);
        push_piece(&mut system, owned(concat("已接管 127.0.0.1:", port.as_str()), Ink::Mint, false));
    } else {
        push_piece(&mut system, piece("未接管系统网络", Ink::Muted, false));
    }
    assert(line_view(system@) =~= health_spec(*snapshot, current@, delay)[3]);
    push_line(&mut lines, system);
    let mut modes: Vec<Piece> = Vec::new();
    push_piece(&mut modes, piece("模式  ", Ink::Muted, false));
    push_piece(
        &mut modes,
        owned(concat3(snapshot.traffic_mode.label(), " · ", snapshot.outbound_mode.label()), Ink::Text, false),
    );
    assert(line_view(modes@) =~= health_spec(*snapshot, current@, delay)[4]);
    push_line(&mut lines, modes);
    push_line(&mut lines, blank());
    push_line(&mut lines, one("当前节点", Ink::Muted, false));
    push_line(&mut lines, one_owned(short_label(current, 22), Ink::Cyan, true));
    let d = delay_text(delay);
    push_line(&mut lines, one_owned(concat("延迟 ", d.as_str()), Ink::Delay(delay), false));
    assert(lines_view(lines@) =~= health_spec(*snapshot, current@, delay));
    lines
}

/// The "网络路径" panel: from this machine through the system proxy and the
/// current node to the internet, with the live connection count.
pub open spec fn network_spec(s: ClientSnapshot, current: Seq<char>) -> Seq<Seq<(Seq<char>, Ink, bool)>> {
    let proxy = s.system_proxy_enabled;
    seq![
        seq![("本机"@, Ink::Text, true)],
        seq![("  │"@, Ink::Edge, false)],
        seq![("  ├── 系统代理  "@ + if proxy {
            "已启用"@
        } else {
            "待启用"@
        }, if proxy {
            Ink::Mint
        } else {
            Ink::Muted
        }, false)],
        seq![("  │"@, Ink::Edge, false)],
        seq![("  ▼"@, Ink::Cyan, false)],
        seq![("  [ "@ + short_label_spec(current, 32) + " ]"@, Ink::Cyan, true)],
        seq![("  │  ├────────── 规则流量"@, Ink::Edge, false)],
        seq![("  │  └────────── 直连流量"@, Ink::Edge, false)],
        seq![("  ▼"@, Ink::Mint, false)],
        seq![("  公网出口  ·  "@ + decimal_spec(s.connections.connections@.len()) + " 个活动连接"@, Ink::Text, false)],
        Seq::empty(),
        seq![("路径说明：当前节点承载代理链路；规则可将流量直连。"@, Ink::Muted, false)],
    ]
}

pub fn network_lines(snapshot: &ClientSnapshot, current: &str) -> (lines: Vec<Vec<Piece>>)
    ensures
        lines_view(lines@) == network_spec(*snapshot, current@),
{
    let proxy = snapshot.system_proxy_enabled;
    let mut lines: Vec<Vec<Piece>> = Vec::new();
    push_line(&mut lines, one("本机", Ink::Text, true));
    push_line(&mut lines, one("  │", Ink::Edge, false));
    push_line(&mut lines, one_owned(concat("  ├── 系统代理  ", if proxy {
        "已启用"
    } else {
        "待启用"
    }), if proxy {
        Ink::Mint
    } else {
        Ink::Muted
    }, false));
    push_line(&mut lines, one("  │", Ink::Edge, false));
    push_line(&mut lines, one("  ▼", Ink::Cyan, false));
    let node = short_label(current, 32);
    push_line(&mut lines, one_owned(concat3("  [ ", node.as_str(), " ]"), Ink::Cyan, true));
    push_line(&mut lines, one("  │  ├────────── 规则流量", Ink::Edge, false));
    push_line(&mut lines, one("  │  └────────── 直连流量", Ink::Edge, false));
    push_line(&mut lines, one("  ▼", Ink::Mint, false));
    let count = decimal(snapshot.connections.connections.len() as u64);
    push_line(&mut lines, one_owned(concat3("  公网出口  ·  ", count.as_str(), " 个活动连接"), Ink::Text, false));
    push_line(&mut lines, blank());
    push_line(&mut lines, one("路径说明：当前节点承载代理链路；规则可将流量直连。", Ink::Muted, false));
    assert(lines_view(lines@) =~= network_spec(*snapshot, current@));
    lines
}


/// One line of the "最近事件" panel: the event shortened, in its status tone.
pub open spec fn activity_line_spec(event: Seq<char>) -> Seq<(Seq<char>, Ink, bool)> {
    seq![(short_label_spec(event, 38), status_ink_spec(status_tone_spec(event)), false)]
}

/// The newest `n` of `items`, oldest first.
pub open spec fn newest<T>(items: Seq<T>, n: nat) -> Seq<T> {
    if items.len() > n {
        items.subrange(items.len() - n, items.len() as int)
    } else {
        items
    }
}

/// The "最近事件" panel: the five newest events, or a waiting note.
pub open spec fn activity_spec(s: ClientSnapshot) -> Seq<Seq<(Seq<char>, Ink, bool)>> {
    let shown = newest(s.events@, 5);
    if shown.len() == 0 {
        seq![seq![("等待新的运行事件"@, Ink::Muted, false)]]
    } else {
        shown.map_values(|e: String| activity_line_spec(e@))
    }
}

pub fn activity_lines(snapshot: &ClientSnapshot) -> (lines: Vec<Vec<Piece>>)
    ensures
        lines_view(lines@) == activity_spec(*snapshot),
{
    let events = &snapshot.events;
    let n = events.len();
    let start: usize = if n > 5 {
        n - 5
    } else {
        0
    };
    let ghost shown = newest(events@, 5);
    assert(shown =~= events@.subrange(start as int, n as int));
    let mut lines: Vec<Vec<Piece>> = Vec::new();
    let mut i: usize = start;
    while i < n
        invariant
            start <= i <= n,
            n == events@.len(),
            events@ == snapshot.events@,
            shown == events@.subrange(start as int, n as int),
            lines_view(lines@) == shown.subrange(0, i - start).map_values(|e: String| activity_line_spec(e@)),
        decreases n - i,
    {
        let e = events[i].as_str();
        let line = one_owned(short_label(e, 38), status_ink(status_color(e)), false);
        push_line(&mut lines, line);
        proof {
            assert(shown.subrange(0, i + 1 - start) =~= shown.subrange(0, i - start).push(events@[i as int]));
            assert(lines_view(lines@) =~= shown.subrange(0, i + 1 - start).map_values(
                |e: String| activity_line_spec(e@),
            ));
        }
        i = i + 1;
    }
    assert(shown.subrange(0, n - start) =~= shown);
    if n == 0 {
        return vec![one("等待新的运行事件", Ink::Muted, false)];
    }
    lines
}

/// The "订阅与核心" panel: the current node, the outbound mode and the
/// connection count, the subscription's quota line `usage` as the engine
/// words it, and the core's version and memory.
pub open spec fn summary_spec(s: ClientSnapshot, current: Seq<char>, usage: Seq<char>) -> Seq<Seq<(Seq<char>, Ink, bool)>> {
    let installed = match s.core_version {
        Some(v) => v@,
        None => "未安装"@,
    };
    let runtime = match s.core_runtime_version {
        Some(v) => v@,
        None => "未知"@,
    };
    seq![
        seq![("节点摘要"@, Ink::Muted, false)],
        seq![(short_label_spec(current, 24), Ink::Cyan, true)],
        seq![(outbound_label_spec(s.outbound_mode) + " · "@ + decimal_spec(s.connections.connections@.len()) + " 个活动连接"@, Ink::Text, false)],
        Seq::empty(),
        seq![("订阅状态"@, Ink::Muted, false)],
        seq![(usage, Ink::Text, false)],
        Seq::empty(),
        seq![("内核 "@ + installed, Ink::Muted, false)],
        seq![(if s.core_running {
            "运行 "@ + runtime + "  ·  内存 "@ + human_bytes_spec(s.memory_used as nat)
        } else {
            "内存 "@ + human_bytes_spec(s.memory_used as nat)
        }, Ink::Muted, false)],
    ]
}

pub fn summary_lines(snapshot: &ClientSnapshot, current: &str, usage: &str) -> (lines: Vec<Vec<Piece>>)
    ensures
        lines_view(lines@) == summary_spec(*snapshot, current@, usage@),
{
    let mut lines: Vec<Vec<Piece>> = Vec::new();
    push_line(&mut lines, one("节点摘要", Ink::Muted, false));
    push_line(&mut lines, one_owned(short_label(current, 24), Ink::Cyan, true));
    let count = decimal(snapshot.connections.connections.len() as u64);
    let mut mode = concat3(snapshot.outbound_mode.label(), " · ", count.as_str());
    push_str(&mut mode, " 个活动连接");
    push_line(&mut lines, one_owned(mode, Ink::Text, false));
    push_line(&mut lines, blank());
    push_line(&mut lines, one("订阅状态", Ink::Muted, false));
    push_line(&mut lines, one(usage, Ink::Text, false));
    push_line(&mut lines, blank());
    let installed = match &snapshot.core_version {
        Some(v) => concat("内核 ", v.as_str()),
        None => concat("内核 ", "未安装"),
    };
    push_line(&mut lines, one_owned(installed, Ink::Muted, false));
    let memory = human_bytes(snapshot.memory_used);
    let run = if snapshot.core_running {
        let mut t = match &snapshot.core_runtime_version {
            Some(v) => concat("运行 ", v.as_str()),
            None => concat("运行 ", "未知"),
        };
        push_str(&mut t, "  ·  内存 ");
        push_str(&mut t, memory.as_str());
        t
    } else {
        concat("内存 ", memory.as_str())
    };
    push_line(&mut lines, one_owned(run, Ink::Muted, false));
    assert(lines_view(lines@) =~= summary_spec(*snapshot, current@, usage@));
    lines
}

/// The highest rate, either way, over the samples (0 for none).
pub open spec fn peak_spec(history: Seq<TrafficPoint>) -> nat
    decreases history.len(),
{
    if history.len() == 0 {
        0
    } else {
        let p = history.last();
        let here: nat = if p.up >= p.down {
            p.up as nat
        } else {
            p.down as nat
        };
        let rest = peak_spec(history.drop_last());
        if rest >= here {
            rest
        } else {
            here
        }
    }
}

proof fn lemma_peak_bound(history: Seq<TrafficPoint>)
    ensures
        peak_spec(history) <= u64::MAX,
    decreases history.len(),
{
    if history.len() > 0 {
        lemma_peak_bound(history.drop_last());
    }
}

/// The top of the traffic sparklines: the highest rate in the window, and
/// at least 1.
pub fn traffic_peak(history: &Vec<TrafficPoint>) -> (peak: u64)
    ensures
        peak == if peak_spec(history@) >= 1 {
            peak_spec(history@)
        } else {
            1
        },
{
    let mut best: u64 = 0;
    let mut i: usize = 0;
    while i < history.len()
        invariant
            i <= history@.len(),
            best == peak_spec(history@.subrange(0, i as int)),
        decreases history@.len() - i,
    {
        let p = history[i];
        let here = if p.up >= p.down {
            p.up
        } else {
            p.down
        };
        proof {
            assert(history@.subrange(0, i + 1).drop_last() =~= history@.subrange(0, i as int));
        }
        if here > best {
            best = here;
        }
        i = i + 1;
    }
    assert(history@.subrange(0, i as int) =~= history@);
    if best >= 1 {
        best
    } else {
        1
    }
}

/// The traffic panel's title: how many seconds the samples span, at one
/// sample every `every_secs` seconds.
pub fn traffic_title(samples: usize, every_secs: u64) -> (title: String)
    requires
        samples * every_secs <= u64::MAX,
    ensures
        title@ == "实时流量 · 近 "@ + decimal_spec((samples * every_secs) as nat) + " 秒"@,
{
    let span = decimal(samples as u64 * every_secs);
    concat3("实时流量 · 近 ", span.as_str(), " 秒")
}

/// Both rates on one line, for a panel too short for the sparklines.
pub open spec fn rates_spec(s: ClientSnapshot) -> Seq<char> {
    "↓ "@ + rate_spec(s.download_speed) + "   ↑ "@ + rate_spec(s.upload_speed)
}

pub fn rates_text(snapshot: &ClientSnapshot) -> (text: String)
    ensures
        text@ == rates_spec(*snapshot),
{
    let down = rate(snapshot.download_speed);
    let up = rate(snapshot.upload_speed);
    let mut text = concat3("↓ ", down.as_str(), "   ↑ ");
    push_str(&mut text, up.as_str());
    text
}

/// The label above one sparkline: the arrow and the rate, in the series'
/// ink, the rate in bold.
pub open spec fn rate_line_spec(download: bool, s: ClientSnapshot) -> Seq<(Seq<char>, Ink, bool)> {
    if download {
        seq![("↓ "@, Ink::Cyan, false), (rate_spec(s.download_speed), Ink::Cyan, true)]
    } else {
        seq![("↑ "@, Ink::Mint, false), (rate_spec(s.upload_speed), Ink::Mint, true)]
    }
}

pub fn rate_line(download: bool, snapshot: &ClientSnapshot) -> (line: Vec<Piece>)
    ensures
        line_view(line@) == rate_line_spec(download, *snapshot),
{
    let mut line: Vec<Piece> = Vec::new();
    if download {
        push_piece(&mut line, piece("↓ ", Ink::Cyan, false));
        push_piece(&mut line, owned(rate(snapshot.download_speed), Ink::Cyan, true));
    } else {
        push_piece(&mut line, piece("↑ ", Ink::Mint, false));
        push_piece(&mut line, owned(rate(snapshot.upload_speed), Ink::Mint, true));
    }
    assert(line_view(line@) =~= rate_line_spec(download, *snapshot));
    line
}

/// The line under the sparklines: the totals and the window's peak.
pub open spec fn totals_spec(s: ClientSnapshot, peak: u64) -> Seq<char> {
    "累计 ↓ "@ + human_bytes_spec(s.total_download as nat) + "   ↑ "@ + human_bytes_spec(s.total_upload as nat)
        + "   峰值 "@ + rate_spec(peak)
}

pub fn totals_text(snapshot: &ClientSnapshot, peak: u64) -> (text: String)
    ensures
        text@ == totals_spec(*snapshot, peak),
{
    let down = human_bytes(snapshot.total_download);
    let up = human_bytes(snapshot.total_upload);
    let top = rate(peak);
    let mut text = concat3("累计 ↓ ", down.as_str(), "   ↑ ");
    push_str(&mut text, up.as_str());
    push_str(&mut text, "   峰值 ");
    push_str(&mut text, top.as_str());
    text
}

/// The compact dashboard: state and system proxy, the path through the
/// current node, the mode, delay and connection count, and both rates with
/// their meters.
pub open spec fn compact_spec(s: ClientSnapshot, current: Seq<char>, delay: Option<u64>) -> Seq<Seq<(Seq<char>, Ink, bool)>> {
    let running = s.core_running;
    let proxy = s.system_proxy_enabled;
    seq![
        seq![
            ("状态  "@, Ink::Muted, false),
            (if running {
                "运行中"@
            } else {
                "已停止"@
            }, if running {
                Ink::Mint
            } else {
                Ink::Muted
            }, false),
            ("  ·  "@, Ink::Edge, false),
            (if proxy {
                "系统代理：已启用"@
            } else {
                "系统代理：未启用"@
            }, if proxy {
                Ink::Mint
            } else {
                Ink::Muted
            }, false),
        ],
        Seq::empty(),
        seq![("代理路径"@, Ink::Muted, false)],
        seq![("本机  →  "@ + short_label_spec(current, 36) + "  →  公网出口"@, Ink::Cyan, true)],
        seq![(outbound_label_spec(s.outbound_mode) + " · "@ + delay_text_spec(delay) + " · "@ + decimal_spec(
            s.connections.connections@.len(),
        ) + " 个活动连接"@, Ink::Text, false)],
        Seq::empty(),
        seq![
            ("↓ "@, Ink::Cyan, false),
            (rate_spec(s.download_speed), Ink::Cyan, false),
            ("  "@, Ink::Plain, false),
            (meter_spec(s.download_speed as nat, 12), Ink::Cyan, false),
            ("     ↑ "@, Ink::Mint, false),
            (rate_spec(s.upload_speed), Ink::Mint, false),
            ("  "@, Ink::Plain, false),
            (meter_spec(s.upload_speed as nat, 12), Ink::Mint, false),
        ],
        Seq::empty(),
        seq![("紧凑视图：放大终端可查看完整网络拓扑与事件。"@, Ink::Muted, false)],
    ]
}

pub fn compact_lines(snapshot: &ClientSnapshot, current: &str, delay: Option<u64>) -> (lines: Vec<Vec<Piece>>)
    ensures
        lines_view(lines@) == compact_spec(*snapshot, current@, delay),
{
    let running = snapshot.core_running;
    let proxy = snapshot.system_proxy_enabled;
    let mut lines: Vec<Vec<Piece>> = Vec::new();
    let mut state: Vec<Piece> = Vec::new();
    push_piece(&mut state, piece("状态  ", Ink::Muted, false));
    push_piece(&mut state, piece(if running {
        "运行中"
    } else {
        "已停止"
    }, if running {
        Ink::Mint
    } else {
        Ink::Muted
    }, false));
    push_piece(&mut state, piece("  ·  ", Ink::Edge, false));
    push_piece(&mut state, piece(if proxy {
        "系统代理：已启用"
    } else {
        "系统代理：未启用"
    }, if proxy {
        Ink::Mint
    } else {
        Ink::Muted
    }, false));
    assert(line_view(state@) =~= compact_spec(*snapshot, current@, delay)[0]);
    push_line(&mut lines, state);
    push_line(&mut lines, blank());
    push_line(&mut lines, one("代理路径", Ink::Muted, false));
    let node = short_label(current, 36);
    push_line(&mut lines, one_owned(concat3("本机  →  ", node.as_str(), "  →  公网出口"), Ink::Cyan, true));
    let d = delay_text(delay);
    let count = decimal(snapshot.connections.connections.len() as u64);
    let mut mode = concat3(snapshot.outbound_mode.label(), " · ", d.as_str());
    push_str(&mut mode, " · ");
    push_str(&mut mode, count.as_str());
    push_str(&mut mode, " 个活动连接");
    push_line(&mut lines, one_owned(mode, Ink::Text, false));
    push_line(&mut lines, blank());
    let mut rates: Vec<Piece> = Vec::new();
    push_piece(&mut rates, piece("↓ ", Ink::Cyan, false));
    push_piece(&mut rates, owned(rate(snapshot.download_speed), Ink::Cyan, false));
    push_piece(&mut rates, piece("  ", Ink::Plain, false));
    push_piece(&mut rates, owned(meter(snapshot.download_speed, 12), Ink::Cyan, false));
    push_piece(&mut rates, piece("     ↑ ", Ink::Mint, false));
    push_piece(&mut rates, owned(rate(snapshot.upload_speed), Ink::Mint, false));
    push_piece(&mut rates, piece("  ", Ink::Plain, false));
    push_piece(&mut rates, owned(meter(snapshot.upload_speed, 12), Ink::Mint, false));
    assert(line_view(rates@) =~= compact_spec(*snapshot, current@, delay)[6]);
    push_line(&mut lines, rates);
    push_line(&mut lines, blank());
    push_line(&mut lines, one("紧凑视图：放大终端可查看完整网络拓扑与事件。", Ink::Muted, false));
    assert(lines_view(lines@) =~= compact_spec(*snapshot, current@, delay));
    lines
}


/// One entry of the Proxies page's group list.
pub open spec fn group_item_spec(g: ProxyGroupSnapshot) -> Seq<char> {
    g.name@ + " ("@ + g.kind@ + ")"@
}

pub fn group_item(group: &ProxyGroupSnapshot) -> (s: String)
    ensures
        s@ == group_item_spec(*group),
{
    let mut s = concat3(group.name.as_str(), " (", group.kind.as_str());
    push_str(&mut s, ")");
    s
}

/// The delay the group itself measured for `member`.
pub fn member_delay(group: &ProxyGroupSnapshot, member: &str) -> (d: Option<u64>)
    ensures
        d == delay_of(group.delays@, member@),
{
    let delays = &group.delays;
    let mut k: usize = 0;
    assert(delays@.subrange(0, delays@.len() as int) =~= delays@);
    while k < delays.len()
        invariant
            k <= delays@.len(),
            delays@ == group.delays@,
            delay_of(delays@, member@) == delay_of(delays@.subrange(k as int, delays@.len() as int), member@),
        decreases delays@.len() - k,
    {
        let ghost rest = delays@.subrange(k as int, delays@.len() as int);
        assert(rest[0] == delays@[k as int]);
        assert(rest.drop_first() =~= delays@.subrange(k + 1, delays@.len() as int));
        if str_eq(delays[k].node.as_str(), member) {
            return Some(delays[k].millis);
        }
        k = k + 1;
    }
    assert(delays@.subrange(k as int, delays@.len() as int) =~= Seq::<crate::snapshot::NodeDelay>::empty());
    None
}

fn lists(items: &Vec<String>, item: &str) -> (r: bool)
    ensures
        r == views(items@).contains(item@),
{
    let ghost v = views(items@);
    let mut i: usize = 0;
    while i < items.len()
        invariant
            v == views(items@),
            i <= items@.len(),
            forall|k: int| 0 <= k < i ==> v[k] != item@,
        decreases items@.len() - i,
    {
        if str_eq(items[i].as_str(), item) {
            assert(v[i as int] == item@);
            return true;
        }
        i = i + 1;
    }
    false
}

/// One node of the selected group: a filled marker on the group's current
/// node, the name, and its delay as the group measured it (a timeout when
/// the last test failed), in the delay's ink or the danger ink on a timeout.
pub open spec fn member_line_spec(g: ProxyGroupSnapshot, member: Seq<char>) -> (Seq<char>, Ink, bool) {
    let failed = views(g.failed@).contains(member);
    let delay = delay_of(g.delays@, member);
    let marker = if member == g.current@ {
        "● "@
    } else {
        "○ "@
    };
    let delay_text = if failed {
        "超时"@
    } else {
        match delay {
            Some(ms) => decimal_spec(ms as nat) + "ms"@,
            None => "-"@,
        }
    };
    (marker + member + "  ["@ + delay_text + "]"@, if failed {
        Ink::Danger
    } else {
        Ink::Delay(delay)
    }, false)
}

pub fn member_line(group: &ProxyGroupSnapshot, member: &str) -> (p: Piece)
    ensures
        piece_view(p) == member_line_spec(*group, member@),
{
    let failed = lists(&group.failed, member);
    let delay = member_delay(group, member);
    let marker = if str_eq(member, group.current.as_str()) {
        "● "
    } else {
        "○ "
    };
    let delay_text = if failed {
        "超时".to_string()
    } else {
        match delay {
            Some(ms) => {
                let mut t = decimal(ms);
                push_str(&mut t, "ms");
                t
            },
            None => "-".to_string(),
        }
    };
    let mut text = concat3(marker, member, "  [");
    push_str(&mut text, delay_text.as_str());
    push_str(&mut text, "]");
    owned(text, if failed {
        Ink::Danger
    } else {
        Ink::Delay(delay)
    }, false)
}

/// The member list's title.
pub fn members_title(group: &ProxyGroupSnapshot) -> (s: String)
    ensures
        s@ == group.name@ + " 节点 · Enter 切换"@,
{
    concat(group.name.as_str(), " 节点 · Enter 切换")
}

/// What the member list says before the core has published any group.
pub fn members_placeholder() -> (s: &'static str)
    ensures
        s@ == "启动内核后，节点组与延迟将在这里出现。\n\n按 s 启动内核"@,
{
    "启动内核后，节点组与延迟将在这里出现。\n\n按 s 启动内核"
}

/// The Connections table's heading.
pub open spec fn connection_heading_spec() -> Seq<Seq<char>> {
    seq![""@, "目标"@, "主机"@, "网络"@, "规则"@, "链路"@, "上传"@, "下载"@]
}

pub fn connection_heading() -> (cells: Vec<&'static str>)
    ensures
        cells@.map_values(|c: &'static str| c@) == connection_heading_spec(),
{
    let cells = vec!["", "目标", "主机", "网络", "规则", "链路", "上传", "下载"];
    assert(cells@.map_values(|c: &'static str| c@) =~= connection_heading_spec());
    cells
}

/// One row of the Connections table: the selection marker, address and
/// port, host, network, rule, chain, and the two byte counts; an empty rule
/// or chain shows as `-`.
pub open spec fn connection_cells_spec(c: Connection, selected: bool) -> Seq<Seq<char>> {
    seq![
        if selected {
            "●"@
        } else {
            Seq::empty()
        },
        c.metadata.destination_ip@ + ":"@ + c.metadata.destination_port@,
        c.metadata.destination_host@,
        c.metadata.network@,
        if c.rule@.len() == 0 {
            "-"@
        } else {
            c.rule@
        },
        if c.chains@.len() == 0 {
            "-"@
        } else {
            join_spec(views(c.chains@), " → "@)
        },
        human_bytes_spec(c.upload as nat),
        human_bytes_spec(c.download as nat),
    ]
}

pub fn connection_cells(connection: &Connection, selected: bool) -> (cells: Vec<String>)
    ensures
        views(cells@) == connection_cells_spec(*connection, selected),
{
    let mut cells: Vec<String> = Vec::new();
    cells.push(if selected {
        "●".to_string()
    } else {
        String::new()
    });
    cells.push(concat3(
        connection.metadata.destination_ip.as_str(),
        ":",
        connection.metadata.destination_port.as_str(),
    ));
    cells.push(connection.metadata.destination_host.clone());
    cells.push(connection.metadata.network.clone());
    cells.push(if connection.rule.as_str().unicode_len() == 0 {
        "-".to_string()
    } else {
        connection.rule.clone()
    });
    cells.push(if connection.chains.len() == 0 {
        "-".to_string()
    } else {
        join(&connection.chains, " → ")
    });
    cells.push(human_bytes(connection.upload));
    cells.push(human_bytes(connection.download));
    assert(views(cells@) =~= connection_cells_spec(*connection, selected));
    cells
}

/// The Connections table's title: the sort order, how many rows are shown,
/// the filter when one is set, and a note when the filter hides every row.
pub open spec fn connections_title_spec(sort: ConnSort, shown: nat, filter: Seq<char>, total: nat) -> Seq<char> {
    "活动连接 · "@ + conn_sort_label_spec(sort) + " · "@ + decimal_spec(shown) + " 条"@ + if filter.len() == 0 {
        Seq::empty()
    } else {
        " · 过滤「"@ + filter + "」"@
    } + if shown == 0 && total > 0 {
        " · 无匹配"@
    } else {
        Seq::empty()
    }
}

pub fn connections_title(sort: ConnSort, shown: usize, filter: &str, total: usize) -> (s: String)
    ensures
        s@ == connections_title_spec(sort, shown as nat, filter@, total as nat),
{
    let count = decimal(shown as u64);
    let mut s = concat3("活动连接 · ", sort.label(), " · ");
    push_str(&mut s, count.as_str());
    push_str(&mut s, " 条");
    if filter.unicode_len() > 0 {
        push_str(&mut s, " · 过滤「");
        push_str(&mut s, filter);
        push_str(&mut s, "」");
    }
    if shown == 0 && total > 0 {
        push_str(&mut s, " · 无匹配");
    }
    s
}

/// One profile in the Settings page's list: a check on the active one, the
/// name, and `age`, how long ago it was updated as the engine words it.
pub open spec fn profile_item_spec(p: ProfileSummary, age: Seq<char>) -> Seq<char> {
    (if p.active {
        "✓ "@
    } else {
        "  "@
    }) + p.name@ + "（更新于 "@ + age + "）"@
}

pub fn profile_item(profile: &ProfileSummary, age: &str) -> (s: String)
    ensures
        s@ == profile_item_spec(*profile, age@),
{
    let mut s = concat3(if profile.active {
        "✓ "
    } else {
        "  "
    }, profile.name.as_str(), "（更新于 ");
    push_str(&mut s, age);
    push_str(&mut s, "）");
    s
}

fn on_off(b: bool) -> (s: &'static str)
    ensures
        s@ == if b {
            "开"@
        } else {
            "关"@
        },
{
    if b {
        "开"
    } else {
        "关"
    }
}

/// The Settings page's "运行环境" panel. `core_path` is where the core is
/// installed, `usage` the subscription's quota line as the engine words it.
pub open spec fn environment_spec(s: ClientSnapshot, core_path: Seq<char>, os: HostOs, usage: Seq<char>) -> Seq<Seq<char>> {
    let st = s.settings;
    seq![
        "内核: "@ + if s.core_installed {
            core_path
        } else {
            "未安装"@
        },
        "版本: "@ + match s.core_version {
            Some(v) => v@,
            None => "未检测"@,
        } + "   镜像: "@ + if st.mirror@.len() == 0 {
            "直连"@
        } else {
            st.mirror@
        },
        "运行版本: "@ + match s.core_runtime_version {
            Some(v) => v@,
            None => "未运行"@,
        } + "   内存: "@ + if s.core_running {
            human_bytes_spec(s.memory_used as nat)
        } else {
            "-"@
        },
        "模式: "@ + traffic_label_spec(s.traffic_mode) + "   混合端口: "@ + decimal_spec(st.mixed_port as nat)
            + "   延迟地址: "@ + st.test_url@,
        "自动更新: "@ + (if st.auto_update_minutes == 0 {
            "关"@
        } else {
            decimal_spec(st.auto_update_minutes as nat) + " 分钟"@
        }) + "   启动内核: "@ + (if st.auto_start {
            "开"@
        } else {
            "关"@
        }) + "   自动系统代理: "@ + (if st.auto_system_proxy {
            "开"@
        } else {
            "关"@
        }),
        "系统代理后端: "@ + platform_label_spec(os) + "   订阅用量: "@ + usage,
        Seq::empty(),
        "档案: n 新增 ｜ f 本地文件 ｜ e 改链接 ｜ Delete 删除 ｜ Enter 激活"@,
        "内核: v 改版本 ｜ r 改镜像 ｜ d 下载 ｜ u 更新订阅"@,
        "选项: a 自动更新 ｜ P 混合端口 ｜ U 延迟地址 ｜ g 启动内核 ｜ y 自动代理"@,
    ]
}

pub fn environment_lines(snapshot: &ClientSnapshot, core_path: &str, os: HostOs, usage: &str) -> (lines: Vec<String>)
    ensures
        views(lines@) == environment_spec(*snapshot, core_path@, os, usage@),
{
    let st = &snapshot.settings;
    let mut lines: Vec<String> = Vec::new();
    lines.push(concat("内核: ", if snapshot.core_installed {
        core_path
    } else {
        "未安装"
    }));
    let mut version = match &snapshot.core_version {
        Some(v) => concat("版本: ", v.as_str()),
        None => concat("版本: ", "未检测"),
    };
    push_str(&mut version, "   镜像: ");
    push_str(&mut version, if st.mirror.as_str().unicode_len() == 0 {
        "直连"
    } else {
        st.mirror.as_str()
    });
    assert(version@ =~= environment_spec(*snapshot, core_path@, os, usage@)[1]);
    lines.push(version);
    let mut runtime = match &snapshot.core_runtime_version {
        Some(v) => concat("运行版本: ", v.as_str()),
        None => concat("运行版本: ", "未运行"),
    };
    push_str(&mut runtime, "   内存: ");
    if snapshot.core_running {
        let m = human_bytes(snapshot.memory_used);
        push_str(&mut runtime, m.as_str());
    } else {
        push_str(&mut runtime, "-");
    }
    assert(runtime@ =~= environment_spec(*snapshot, core_path@, os, usage@)[2]);
    lines.push(runtime);
    let port = decimal(st.mixed_port as u64);
    let mut mode = concat3("模式: ", snapshot.traffic_mode.label(), "   混合端口: ");
    push_str(&mut mode, port.as_str());
    push_str(&mut mode, "   延迟地址: ");
    push_str(&mut mode, st.test_url.as_str());
    assert(mode@ =~= environment_spec(*snapshot, core_path@, os, usage@)[3]);
    lines.push(mode);
    let mut auto = String::new();
    push_str(&mut auto, "自动更新: ");
    if st.auto_update_minutes == 0 {
        push_str(&mut auto, "关");
    } else {
        let n = decimal(st.auto_update_minutes);
        push_str(&mut auto, n.as_str());
        push_str(&mut auto, " 分钟");
    }
    push_str(&mut auto, "   启动内核: ");
    push_str(&mut auto, on_off(st.auto_start));
    push_str(&mut auto, "   自动系统代理: ");
    push_str(&mut auto, on_off(st.auto_system_proxy));
    assert(auto@ =~= environment_spec(*snapshot, core_path@, os, usage@)[4]);
    lines.push(auto);
    let mut backend = concat3("系统代理后端: ", platform_label(os), "   订阅用量: ");
    push_str(&mut backend, usage);
    assert(backend@ =~= environment_spec(*snapshot, core_path@, os, usage@)[5]);
    lines.push(backend);
    lines.push(String::new());
    lines.push("档案: n 新增 ｜ f 本地文件 ｜ e 改链接 ｜ Delete 删除 ｜ Enter 激活".to_string());
    lines.push("内核: v 改版本 ｜ r 改镜像 ｜ d 下载 ｜ u 更新订阅".to_string());
    lines.push("选项: a 自动更新 ｜ P 混合端口 ｜ U 延迟地址 ｜ g 启动内核 ｜ y 自动代理".to_string());
    assert(views(lines@) =~= environment_spec(*snapshot, core_path@, os, usage@));
    lines
}

/// The help overlay: the keys every page shares, the current page's keys,
/// and the reminder that the two risky keys ask first.
pub open spec fn help_spec(tab: Tab) -> Seq<Seq<(Seq<char>, Ink, bool)>> {
    seq![
        seq![("键盘操作"@, Ink::Cyan, true)],
        Seq::empty(),
        seq![
            ("全局  "@, Ink::Muted, false),
            ("Tab / 1–"@ + decimal_spec(Tab::COUNT as nat), Ink::Text, false),
            (" 切换页面  ·  "@, Ink::Muted, false),
            ("o"@, Ink::Text, false),
            (" 切换出站  ·  "@, Ink::Muted, false),
            ("q"@, Ink::Text, false),
            (" 退出"@, Ink::Muted, false),
        ],
        seq![("当前页  "@, Ink::Muted, false), (help_keys_spec(tab), Ink::Text, false)],
        Seq::empty(),
        seq![("提示  "@, Ink::Amber, false), ("模式切换与保留系统代理退出，均需再次按对应按键确认。"@, Ink::Text, false)],
        Seq::empty(),
        seq![("Esc 或 ? 返回"@, Ink::Muted, false)],
    ]
}

pub fn help_lines(tab: Tab) -> (lines: Vec<Vec<Piece>>)
    ensures
        lines_view(lines@) == help_spec(tab),
{
    let mut lines: Vec<Vec<Piece>> = Vec::new();
    push_line(&mut lines, one("键盘操作", Ink::Cyan, true));
    push_line(&mut lines, blank());
    let count = decimal(Tab::COUNT as u64);
    let mut global: Vec<Piece> = Vec::new();
    push_piece(&mut global, piece("全局  ", Ink::Muted, false));
    push_piece(&mut global, owned(concat("Tab / 1–", count.as_str()), Ink::Text, false));
    push_piece(&mut global, piece(" 切换页面  ·  ", Ink::Muted, false));
    push_piece(&mut global, piece("o", Ink::Text, false));
    push_piece(&mut global, piece(" 切换出站  ·  ", Ink::Muted, false));
    push_piece(&mut global, piece("q", Ink::Text, false));
    push_piece(&mut global, piece(" 退出", Ink::Muted, false));
    assert(line_view(global@) =~= help_spec(tab)[2]);
    push_line(&mut lines, global);
    let mut page: Vec<Piece> = Vec::new();
    push_piece(&mut page, piece("当前页  ", Ink::Muted, false));
    push_piece(&mut page, piece(help_keys(tab), Ink::Text, false));
    assert(line_view(page@) =~= help_spec(tab)[3]);
    push_line(&mut lines, page);
    push_line(&mut lines, blank());
    let mut hint: Vec<Piece> = Vec::new();
    push_piece(&mut hint, piece("提示  ", Ink::Amber, false));
    push_piece(&mut hint, piece("模式切换与保留系统代理退出，均需再次按对应按键确认。", Ink::Text, false));
    assert(line_view(hint@) =~= help_spec(tab)[5]);
    push_line(&mut lines, hint);
    push_line(&mut lines, blank());
    push_line(&mut lines, one("Esc 或 ? 返回", Ink::Muted, false));
    assert(lines_view(lines@) =~= help_spec(tab));
    lines
}

/// The input overlay: what is being asked for, the end of the text that
/// fits in `room` columns, and the two keys.
pub open spec fn input_spec(goal: InputGoal, text: Seq<char>, room: nat) -> Seq<Seq<(Seq<char>, Ink, bool)>> {
    seq![
        seq![(input_label_spec(goal), Ink::Cyan, true)],
        Seq::empty(),
        seq![(tail_within_width_spec(text, room), Ink::Text, false)],
        Seq::empty(),
        seq![("Enter 保存  ·  Esc 取消"@, Ink::Muted, false)],
    ]
}

pub fn input_lines(goal: InputGoal, text: &str, room: usize) -> (lines: Vec<Vec<Piece>>)
    ensures
        lines_view(lines@) == input_spec(goal, text@, room as nat),
{
    let mut lines: Vec<Vec<Piece>> = Vec::new();
    push_line(&mut lines, one(input_label(goal), Ink::Cyan, true));
    push_line(&mut lines, blank());
    push_line(&mut lines, one_owned(tail_within_width(text, room), Ink::Text, false));
    push_line(&mut lines, blank());
    push_line(&mut lines, one("Enter 保存  ·  Esc 取消", Ink::Muted, false));
    assert(lines_view(lines@) =~= input_spec(goal, text@, room as nat));
    lines
}

/// The confirmation overlay's three lines: the question in bold amber, what
/// to press, and how to cancel.
pub open spec fn confirmation_lines_spec(confirm_quit: bool, mode: TrafficMode) -> Seq<Seq<(Seq<char>, Ink, bool)>> {
    let body = confirmation_spec(confirm_quit, mode).1;
    seq![
        seq![(body[0], Ink::Amber, true)],
        seq![(body[1], Ink::Plain, false)],
        seq![(body[2], Ink::Muted, false)],
    ]
}

pub fn confirmation_lines(confirm_quit: bool, mode: TrafficMode) -> (r: (&'static str, Vec<Vec<Piece>>))
    ensures
        r.0@ == confirmation_spec(confirm_quit, mode).0,
        lines_view(r.1@) == confirmation_lines_spec(confirm_quit, mode),
{
    let (title, body) = crate::tui_views::confirmation(confirm_quit, mode);
    proof {
        let spec_body = confirmation_spec(confirm_quit, mode).1;
        assert(spec_body.len() == 3);
        assert(views(body@).len() == body@.len());
        assert(views(body@)[0] == body@[0]@ && views(body@)[1] == body@[1]@ && views(body@)[2] == body@[2]@);
    }
    let mut lines: Vec<Vec<Piece>> = Vec::new();
    push_line(&mut lines, one(body[0].as_str(), Ink::Amber, true));
    push_line(&mut lines, one(body[1].as_str(), Ink::Plain, false));
    push_line(&mut lines, one(body[2].as_str(), Ink::Muted, false));
    assert(lines_view(lines@) =~= confirmation_lines_spec(confirm_quit, mode));
    (title, lines)
}

} // verus!
