//! The desktop dashboard's decisions: what its core button says and sends,
//! the headline naming the profile, node and group, the switches of its
//! quick controls, and how the live connections split between TCP and UDP.

use vstd::prelude::*;

use crate::clash_api::{outbound_label_spec, Connection, OutboundMode};
use crate::command::{no_change, ClientCommand, CommandModel, PatchModel, SettingsPatch};
use crate::connections::{clean_proxy_label, clean_proxy_label_spec};
use crate::gui_lang::{outbound_mode_label, outbound_mode_label_spec, tr, Locale};
use crate::gui_search::selected_group_index;
use crate::gui_state::{ascii_lowercase, ascii_lowercase_spec};
use crate::snapshot::ClientSnapshot;
use crate::system_proxy::TrafficMode;
use crate::text::{decimal, decimal_spec, push_str, str_eq};
use crate::tui_pages::member_delay;
use crate::tui_views::delay_of;

verus! {

/// The core button: cancelling while a long task runs, waiting while the
/// core starts, stopping a running core, starting a stopped one. Every state
/// but the last sends a stop.
pub open spec fn core_button_spec(busy: bool, starting: bool, running: bool, locale: Locale) -> (Seq<char>, CommandModel) {
    let en = locale == Locale::En;
    let label = if busy {
        if en { "Stop & cancel"@ } else { "停止并取消"@ }
    } else if starting {
        if en { "Starting"@ } else { "启动中"@ }
    } else if running {
        if en { "Stop core"@ } else { "停止内核"@ }
    } else {
        if en { "Start core"@ } else { "启动内核"@ }
    };
    (label, if busy || starting || running {
        CommandModel::StopCore
    } else {
        CommandModel::StartCore
    })
}

pub fn core_button(snapshot: &ClientSnapshot, locale: Locale) -> (r: (&'static str, ClientCommand))
    ensures
        (r.0@, r.1@) == core_button_spec(snapshot.busy, snapshot.starting, snapshot.core_running, locale),
{
    let label = if snapshot.busy {
        tr(locale, "停止并取消", "Stop & cancel")
    } else if snapshot.starting {
        tr(locale, "启动中", "Starting")
    } else if snapshot.core_running {
        tr(locale, "停止内核", "Stop core")
    } else {
        tr(locale, "启动内核", "Start core")
    };
    let command = if snapshot.busy || snapshot.starting || snapshot.core_running {
        ClientCommand::StopCore
    } else {
        ClientCommand::StartCore
    };
    (label, command)
}

/// The dashboard's headline: the active profile, the current node and the
/// shown group (both without their decoration), and the delay that group
/// measured for the current node.
pub open spec fn headline_spec(s: ClientSnapshot, chosen: usize, locale: Locale) -> (Seq<char>, Seq<char>, Seq<char>, Option<u64>) {
    let en = locale == Locale::En;
    let profile = match s.active_profile {
        Some(name) => name@,
        None => if en { "No subscription yet"@ } else { "尚未添加订阅"@ },
    };
    let current = clean_proxy_label_spec(match s.current_node {
        Some(node) => node@,
        None => if en { "No node selected"@ } else { "尚未选择节点"@ },
    });
    let groups = s.proxy_groups@;
    let shown: Option<int> = if chosen < groups.len() {
        Some(chosen as int)
    } else if groups.len() > 0 {
        Some(0)
    } else {
        None
    };
    let group = match shown {
        Some(i) => clean_proxy_label_spec(groups[i].name@),
        None => if en { "No policy group"@ } else { "无策略组"@ },
    };
    let delay = match shown {
        Some(i) => delay_of(groups[i].delays@, match s.current_node {
            Some(node) => node@,
            None => Seq::empty(),
        }),
        None => None,
    };
    (profile, current, group, delay)
}

pub fn headline(snapshot: &ClientSnapshot, chosen: usize, locale: Locale) -> (r: (String, String, String, Option<u64>))
    ensures
        (r.0@, r.1@, r.2@, r.3) == headline_spec(*snapshot, chosen, locale),
{
    let profile = match &snapshot.active_profile {
        Some(name) => name.clone(),
        None => tr(locale, "尚未添加订阅", "No subscription yet").to_string(),
    };
    let current = match &snapshot.current_node {
        Some(node) => clean_proxy_label(node.as_str()),
        None => clean_proxy_label(tr(locale, "尚未选择节点", "No node selected")),
    };
    let node: &str = match &snapshot.current_node {
        Some(node) => node.as_str(),
        None => "",
    };
    proof {
        reveal_strlit("");
        assert(node@ == match snapshot.current_node {
            Some(n) => n@,
            None => Seq::<char>::empty(),
        });
    }
    match selected_group_index(snapshot.proxy_groups.len(), chosen) {
        Some(i) => {
            let group = &snapshot.proxy_groups[i];
            (profile, current, clean_proxy_label(group.name.as_str()), member_delay(group, node))
        },
        None => (profile, current, tr(locale, "无策略组", "No policy group").to_string(), None),
    }
}

/// What the system-proxy control says: on with the local address, or off.
pub open spec fn proxy_control_spec(s: ClientSnapshot, locale: Locale) -> Seq<char> {
    let en = locale == Locale::En;
    if s.system_proxy_enabled {
        (if en { "Enabled · 127.0.0.1:"@ } else { "已开启 · 127.0.0.1:"@ }) + decimal_spec(s.settings.mixed_port as nat)
    } else {
        if en { "Disabled"@ } else { "已关闭"@ }
    }
}

pub fn proxy_control(snapshot: &ClientSnapshot, locale: Locale) -> (s: String)
    ensures
        s@ == proxy_control_spec(*snapshot, locale),
{
    if snapshot.system_proxy_enabled {
        let mut s = tr(locale, "已开启 · 127.0.0.1:", "Enabled · 127.0.0.1:").to_string();
        let port = decimal(snapshot.settings.mixed_port as u64);
        push_str(&mut s, port.as_str());
        s
    } else {
        tr(locale, "已关闭", "Disabled").to_string()
    }
}

/// The TUN control: whether TUN is on and, while the core runs, that a change
/// waits for a restart; the switch flips the traffic mode for the next start,
/// and does nothing while the core runs or starts.
pub open spec fn tun_control_spec(s: ClientSnapshot, locale: Locale) -> (Seq<char>, Option<CommandModel>) {
    let en = locale == Locale::En;
    let running = s.core_running || s.starting;
    let tun_on = s.traffic_mode == TrafficMode::Tun;
    let label = if tun_on {
        if running {
            if en { "Enabled · a core restart applies it"@ } else { "已启用 · 改动需重启内核"@ }
        } else {
            if en { "Enabled"@ } else { "已启用"@ }
        }
    } else if running {
        if en { "Disabled · a core restart applies it"@ } else { "已关闭 · 改动需重启内核"@ }
    } else {
        if en { "Disabled"@ } else { "已关闭"@ }
    };
    let command = if running {
        None
    } else {
        Some(CommandModel::UpdateSettings(PatchModel {
            traffic_mode: Some(if tun_on {
                TrafficMode::SystemProxy
            } else {
                TrafficMode::Tun
            }),
            ..no_change()
        }))
    };
    (label, command)
}

pub fn tun_control(snapshot: &ClientSnapshot, locale: Locale) -> (r: (&'static str, Option<ClientCommand>))
    ensures
        r.0@ == tun_control_spec(*snapshot, locale).0,
        match r.1 {
            Some(c) => tun_control_spec(*snapshot, locale).1 == Some(c@),
            None => tun_control_spec(*snapshot, locale).1 is None,
        },
{
    let running = snapshot.core_running || snapshot.starting;
    let tun_on = match snapshot.traffic_mode {
        TrafficMode::Tun => true,
        TrafficMode::SystemProxy => false,
    };
    let label = if tun_on {
        if running {
            tr(locale, "已启用 · 改动需重启内核", "Enabled · a core restart applies it")
        } else {
            tr(locale, "已启用", "Enabled")
        }
    } else if running {
        tr(locale, "已关闭 · 改动需重启内核", "Disabled · a core restart applies it")
    } else {
        tr(locale, "已关闭", "Disabled")
    };
    if running {
        return (label, None);
    }
    let mut patch = SettingsPatch::unchanged();
    patch.traffic_mode = Some(if tun_on {
        TrafficMode::SystemProxy
    } else {
        TrafficMode::Tun
    });
    (label, Some(ClientCommand::UpdateSettings(patch)))
}

/// What the outbound-mode control says of the current mode.
pub open spec fn outbound_control_spec(mode: OutboundMode, locale: Locale) -> Seq<char> {
    if locale == Locale::En {
        outbound_mode_label_spec(mode, Locale::En) + " takes matched traffic"@
    } else {
        outbound_label_spec(mode) + "接管匹配流量"@
    }
}

pub fn outbound_control(mode: OutboundMode, locale: Locale) -> (s: String)
    ensures
        s@ == outbound_control_spec(mode, locale),
{
    match locale {
        Locale::En => {
            let mut s = outbound_mode_label(mode, Locale::En).to_string();
            push_str(&mut s, " takes matched traffic");
            s
        },
        Locale::Zh => {
            let mut s = mode.label().to_string();
            push_str(&mut s, "接管匹配流量");
            s
        },
    }
}

/// Whether a connection runs over TCP, in any letter case.
pub open spec fn is_tcp_spec(c: Connection) -> bool {
    ascii_lowercase_spec(c.metadata.network@) == "tcp"@
}

/// How many of `conns` run over TCP.
pub open spec fn tcp_count_spec(conns: Seq<Connection>) -> nat
    decreases conns.len(),
{
    if conns.len() == 0 {
        0
    } else {
        tcp_count_spec(conns.drop_last()) + if is_tcp_spec(conns.last()) {
            1nat
        } else {
            0nat
        }
    }
}

/// The traffic card's split: the TCP connections in the table, and the rest
/// of the connections the core reports open (none below zero).
pub fn network_split(snapshot: &ClientSnapshot) -> (r: (usize, usize))
    ensures
        r.0 == tcp_count_spec(snapshot.connections.connections@),
        r.1 == if snapshot.active_connections >= r.0 {
            (snapshot.active_connections - r.0) as usize
        } else {
            0usize
        },
{
    let conns = &snapshot.connections.connections;
    let mut tcp: usize = 0;
    let mut i: usize = 0;
    while i < conns.len()
        invariant
            i <= conns@.len(),
            conns@ == snapshot.connections.connections@,
            tcp == tcp_count_spec(conns@.subrange(0, i as int)),
            tcp <= i,
        decreases conns@.len() - i,
    {
        let lowered = ascii_lowercase(conns[i].metadata.network.as_str());
        proof {
            assert(conns@.subrange(0, i + 1).drop_last() =~= conns@.subrange(0, i as int));
        }
        if str_eq(lowered.as_str(), "tcp") {
            tcp = tcp + 1;
        }
        i = i + 1;
    }
    assert(conns@.subrange(0, i as int) =~= conns@);
    (tcp, snapshot.active_connections.saturating_sub(tcp))
}

} // verus!
