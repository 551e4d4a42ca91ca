//! The desktop client's interface language. Chinese is the authored language;
//! English is supplied beside it at each site through [`tr`], so a missing
//! translation is a missing argument rather than a silent fallback.

use vstd::prelude::*;

use crate::clash_api::OutboundMode;
use crate::system_proxy::TrafficMode;
use crate::text::{decimal, decimal_spec, push_str, str_eq};

verus! {

#[derive(Clone, Copy, Debug, Default, PartialEq, Eq, Structural)]
pub enum Locale {
    #[default]
    Zh,
    En,
}

pub open spec fn locale_toggle_spec(locale: Locale) -> Locale {
    match locale {
        Locale::Zh => Locale::En,
        Locale::En => Locale::Zh,
    }
}

pub open spec fn next_label_spec(locale: Locale) -> Seq<char> {
    match locale {
        Locale::Zh => "English"@,
        Locale::En => "中文"@,
    }
}

impl Locale {
    /// The other language.
    pub fn toggle(self) -> (l: Locale)
        ensures
            l == locale_toggle_spec(self),
    {
        match self {
            Locale::Zh => Locale::En,
            Locale::En => Locale::Zh,
        }
    }

    /// The label of the button that switches away from this language: it
    /// names the language it will give you, not the one you are in.
    pub fn next_label(self) -> (s: &'static str)
        ensures
            s@ == next_label_spec(self),
    {
        match self {
            Locale::Zh => "English",
            Locale::En => "中文",
        }
    }
}

/// Toggling twice is the identity, and a toggle always changes the language.
pub proof fn toggling_round_trips(locale: Locale)
    ensures
        locale_toggle_spec(locale_toggle_spec(locale)) == locale,
        locale_toggle_spec(locale) != locale,
{
}

/// Picks the English text in an English interface and the Chinese one
/// otherwise.
pub fn tr<T>(locale: Locale, zh: T, en: T) -> (r: T)
    ensures
        r == (if locale == Locale::En {
            en
        } else {
            zh
        }),
{
    match locale {
        Locale::En => en,
        Locale::Zh => zh,
    }
}

pub open spec fn outbound_mode_label_spec(mode: OutboundMode, locale: Locale) -> Seq<char> {
    match (mode, locale) {
        (OutboundMode::Rule, Locale::Zh) => "规则"@,
        (OutboundMode::Rule, Locale::En) => "Rule"@,
        (OutboundMode::Global, Locale::Zh) => "全局"@,
        (OutboundMode::Global, Locale::En) => "Global"@,
        (OutboundMode::Direct, Locale::Zh) => "直连"@,
        (OutboundMode::Direct, Locale::En) => "Direct"@,
    }
}

/// The outbound mode's name in either language.
pub fn outbound_mode_label(mode: OutboundMode, locale: Locale) -> (s: &'static str)
    ensures
        s@ == outbound_mode_label_spec(mode, locale),
{
    match mode {
        OutboundMode::Rule => tr(locale, "规则", "Rule"),
        OutboundMode::Global => tr(locale, "全局", "Global"),
        OutboundMode::Direct => tr(locale, "直连", "Direct"),
    }
}

pub open spec fn traffic_mode_label_spec(mode: TrafficMode, locale: Locale) -> Seq<char> {
    match mode {
        TrafficMode::SystemProxy => if locale == Locale::En {
            "System proxy"@
        } else {
            "系统代理"@
        },
        TrafficMode::Tun => "TUN"@,
    }
}

/// The traffic mode's name in either language.
pub fn traffic_mode_label(mode: TrafficMode, locale: Locale) -> (s: &'static str)
    ensures
        s@ == traffic_mode_label_spec(mode, locale),
{
    match mode {
        TrafficMode::SystemProxy => tr(locale, "系统代理", "System proxy"),
        TrafficMode::Tun => "TUN",
    }
}

pub open spec fn reserved_reason_en_spec(path: Seq<char>) -> Seq<char> {
    if path == "/experimental/clash_api/external_controller"@ {
        "the client assigns the control-channel address"@
    } else if path == "/experimental/clash_api/secret"@ {
        "the client generates the control-channel secret"@
    } else if path == "/route/auto_detect_interface"@ {
        "running locally has to auto-detect the outbound interface"@
    } else if path == "/inbounds"@ {
        "the traffic mode owns the inbound list (system proxy or TUN)"@
    } else {
        "reserved by the client"@
    }
}

/// Why one field is reserved from an override, in English. An unknown path
/// falls back to the generic reason rather than to an empty string.
pub fn reserved_reason_en(path: &str) -> (s: &'static str)
    ensures
        s@ == reserved_reason_en_spec(path@),
{
    if str_eq(path, "/experimental/clash_api/external_controller") {
        "the client assigns the control-channel address"
    } else if str_eq(path, "/experimental/clash_api/secret") {
        "the client generates the control-channel secret"
    } else if str_eq(path, "/route/auto_detect_interface") {
        "running locally has to auto-detect the outbound interface"
    } else if str_eq(path, "/inbounds") {
        "the traffic mode owns the inbound list (system proxy or TUN)"
    } else {
        "reserved by the client"
    }
}

/// Every reserved path, known or not, has an English reason.
pub proof fn every_reserved_path_has_a_reason(path: Seq<char>)
    ensures
        reserved_reason_en_spec(path).len() > 0,
{
    reveal_strlit("the client assigns the control-channel address");
    reveal_strlit("the client generates the control-channel secret");
    reveal_strlit("running locally has to auto-detect the outbound interface");
    reveal_strlit("the traffic mode owns the inbound list (system proxy or TUN)");
    reveal_strlit("reserved by the client");
}

/// How long ago `epoch_seconds` was at `now`, in English: never for 0, then
/// whole minutes below an hour, whole hours below a day, and whole days.
pub open spec fn age_label_en_spec(epoch_seconds: nat, now: nat) -> Seq<char> {
    if epoch_seconds == 0 {
        "Never updated"@
    } else {
        let age: nat = if now >= epoch_seconds {
            (now - epoch_seconds) as nat
        } else {
            0
        };
        if age < 3600 {
            decimal_spec(age / 60) + " min ago"@
        } else if age < 86400 {
            decimal_spec(age / 3600) + " h ago"@
        } else {
            decimal_spec(age / 86400) + " d ago"@
        }
    }
}

/// The English relative-time label of an epoch timestamp, read at `now`.
pub fn age_label_en(epoch_seconds: u64, now: u64) -> (s: String)
    ensures
        s@ == age_label_en_spec(epoch_seconds as nat, now as nat),
{
    let mut s = String::new();
    if epoch_seconds == 0 {
        push_str(&mut s, "Never updated");
        return s;
    }
    let age = now.saturating_sub(epoch_seconds);
    if age < 3600 {
        let n = decimal(age / 60);
        push_str(&mut s, n.as_str());
        push_str(&mut s, " min ago");
    } else if age < 86400 {
        let n = decimal(age / 3600);
        push_str(&mut s, n.as_str());
        push_str(&mut s, " h ago");
    } else {
        let n = decimal(age / 86400);
        push_str(&mut s, n.as_str());
        push_str(&mut s, " d ago");
    }
    s
}

/// The English "started" column of a connection. `since` is how many seconds
/// ago the core's timestamp `start` lies, where it could be read: then the
/// column shows that age; an empty timestamp reads as just now, and one that
/// could not be read is shown as it came.
pub open spec fn established_label_en_spec(since: Option<u64>, start: Seq<char>, now: nat) -> Seq<char> {
    match since {
        Some(seconds) => age_label_en_spec(
            if now >= seconds { (now - seconds) as nat } else { 0 },
            now,
        ),
        None => if start.len() == 0 { "Just now"@ } else { start },
    }
}

/// The English label of a connection's start, given how long ago it was.
pub fn established_label_en(since: Option<u64>, start: &str, now: u64) -> (s: String)
    ensures
        s@ == established_label_en_spec(since, start@, now as nat),
{
    match since {
        Some(seconds) => age_label_en(now.saturating_sub(seconds), now),
        None => {
            if start.unicode_len() == 0 {
                let mut s = String::new();
                push_str(&mut s, "Just now");
                s
            } else {
                start.to_string()
            }
        },
    }
}


/// How long ago `epoch_seconds` was at `now`, in Chinese: never for 0, then
/// whole minutes below an hour, whole hours below a day, and whole days.
pub open spec fn age_label_zh_spec(epoch_seconds: nat, now: nat) -> Seq<char> {
    if epoch_seconds == 0 {
        "从未更新"@
    } else {
        let age: nat = if now >= epoch_seconds {
            (now - epoch_seconds) as nat
        } else {
            0
        };
        if age < 3600 {
            decimal_spec(age / 60) + " 分钟前"@
        } else if age < 86400 {
            decimal_spec(age / 3600) + " 小时前"@
        } else {
            decimal_spec(age / 86400) + " 天前"@
        }
    }
}

/// The Chinese relative-time label of an epoch timestamp, read at `now`.
pub fn age_label_zh(epoch_seconds: u64, now: u64) -> (s: String)
    ensures
        s@ == age_label_zh_spec(epoch_seconds as nat, now as nat),
{
    let mut s = String::new();
    if epoch_seconds == 0 {
        push_str(&mut s, "从未更新");
        return s;
    }
    let age = now.saturating_sub(epoch_seconds);
    if age < 3600 {
        let n = decimal(age / 60);
        push_str(&mut s, n.as_str());
        push_str(&mut s, " 分钟前");
    } else if age < 86400 {
        let n = decimal(age / 3600);
        push_str(&mut s, n.as_str());
        push_str(&mut s, " 小时前");
    } else {
        let n = decimal(age / 86400);
        push_str(&mut s, n.as_str());
        push_str(&mut s, " 天前");
    }
    s
}

} // verus!
