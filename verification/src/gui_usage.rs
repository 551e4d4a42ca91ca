//! The subscription quota as the desktop client words it: how much of it
//! is used, what is left, and when it resets or expires.

use vstd::prelude::*;

use crate::format::{human_bytes, human_bytes_spec};
use crate::gui_lang::Locale;
use crate::text::{decimal, decimal_spec, push_str};

verus! {

/// The quota a subscription reports, in bytes, with its expiry as epoch
/// seconds when it has one.
#[derive(Clone, Copy, Debug, Default, PartialEq, Eq, Structural)]
pub struct SubscriptionUsage {
    pub upload: u64,
    pub download: u64,
    /// 0 when the subscription sets no quota.
    pub total: u64,
    pub expire: Option<u64>,
}

/// Bytes used: upload and download together, saturating.
pub open spec fn used_spec(u: SubscriptionUsage) -> nat {
    if u.upload + u.download > u64::MAX {
        u64::MAX as nat
    } else {
        (u.upload + u.download) as nat
    }
}

/// Bytes left under a quota; none without a quota.
pub open spec fn remaining_spec(u: SubscriptionUsage) -> Option<nat> {
    if u.total == 0 {
        None
    } else if used_spec(u) >= u.total {
        Some(0)
    } else {
        Some((u.total - used_spec(u)) as nat)
    }
}

impl SubscriptionUsage {
    pub fn used(&self) -> (n: u64)
        ensures
            n == used_spec(*self),
    {
        self.upload.saturating_add(self.download)
    }

    pub fn remaining(&self) -> (r: Option<u64>)
        ensures
            match r {
                Some(n) => remaining_spec(*self) == Some(n as nat),
                None => remaining_spec(*self) is None,
            },
    {
        if self.total == 0 {
            None
        } else {
            Some(self.total.saturating_sub(self.used()))
        }
    }
}

/// The English quota line: used, total and left under a quota (or that
/// there is none), then the days to the reset or that it expired.
pub open spec fn usage_label_en_spec(usage: Option<SubscriptionUsage>, now: nat) -> Seq<char> {
    match usage {
        None => "Usage not reported yet"@,
        Some(u) => {
            let base = match remaining_spec(u) {
                Some(left) => "Used "@ + human_bytes_spec(used_spec(u)) + " / "@ + human_bytes_spec(u.total as nat)
                    + " · "@ + human_bytes_spec(left) + " left"@,
                None => "Used "@ + human_bytes_spec(used_spec(u)) + " · no quota set"@,
            };
            match u.expire {
                Some(e) => if e > now {
                    base + " · resets in "@ + decimal_spec(((e - now) / 86400) as nat) + " days"@
                } else {
                    base + " · expired"@
                },
                None => base,
            }
        },
    }
}

pub fn usage_label_en(usage: Option<SubscriptionUsage>, now: u64) -> (s: String)
    ensures
        s@ == usage_label_en_spec(usage, now as nat),
{
    let mut s = String::new();
    match usage {
        None => {
            push_str(&mut s, "Usage not reported yet");
        },
        Some(u) => {
            let used = human_bytes(u.used());
            push_str(&mut s, "Used ");
            push_str(&mut s, used.as_str());
            match u.remaining() {
                Some(left) => {
                    push_str(&mut s, " / ");
                    let total = human_bytes(u.total);
                    push_str(&mut s, total.as_str());
                    push_str(&mut s, " · ");
                    let rest = human_bytes(left);
                    push_str(&mut s, rest.as_str());
                    push_str(&mut s, " left");
                },
                None => push_str(&mut s, " · no quota set"),
            }
            match u.expire {
                Some(e) => if e > now {
                    push_str(&mut s, " · resets in ");
                    let days = decimal((e - now) / 86400);
                    push_str(&mut s, days.as_str());
                    push_str(&mut s, " days");
                } else {
                    push_str(&mut s, " · expired");
                },
                None => {},
            }
        },
    }
    assert(s@ =~= usage_label_en_spec(usage, now as nat));
    s
}

/// The overview's reset-or-expiry half of the usage line.
pub open spec fn expiry_text_spec(usage: Option<SubscriptionUsage>, locale: Locale, now: nat) -> Seq<char> {
    let en = locale == Locale::En;
    match usage {
        None => if en { "No expiry reported"@ } else { "无到期信息"@ },
        Some(u) => match u.expire {
            None => if en { "Quota without an expiry"@ } else { "配额不设到期"@ },
            Some(e) => if e > now {
                let days = decimal_spec(((e - now) / 86400) as nat);
                if en {
                    "resets or expires in "@ + days + " days"@
                } else {
                    "重置或到期 · "@ + days + " 天后"@
                }
            } else {
                if en { "expired"@ } else { "已到期"@ }
            },
        },
    }
}

pub fn expiry_text(usage: Option<SubscriptionUsage>, locale: Locale, now: u64) -> (s: String)
    ensures
        s@ == expiry_text_spec(usage, locale, now as nat),
{
    let en = match locale {
        Locale::En => true,
        Locale::Zh => false,
    };
    let mut s = String::new();
    match usage {
        None => push_str(&mut s, if en { "No expiry reported" } else { "无到期信息" }),
        Some(u) => match u.expire {
            None => push_str(&mut s, if en { "Quota without an expiry" } else { "配额不设到期" }),
            Some(e) => if e > now {
                let days = decimal((e - now) / 86400);
                if en {
                    push_str(&mut s, "resets or expires in ");
                    push_str(&mut s, days.as_str());
                    push_str(&mut s, " days");
                } else {
                    push_str(&mut s, "重置或到期 · ");
                    push_str(&mut s, days.as_str());
                    push_str(&mut s, " 天后");
                }
            } else {
                push_str(&mut s, if en { "expired" } else { "已到期" });
            },
        },
    }
    assert(s@ =~= expiry_text_spec(usage, locale, now as nat));
    s
}


/// The Chinese quota line, arranged as the English one.
pub open spec fn usage_label_zh_spec(usage: Option<SubscriptionUsage>, now: nat) -> Seq<char> {
    match usage {
        None => "尚未获取用量"@,
        Some(u) => {
            let base = match remaining_spec(u) {
                Some(left) => "已用 "@ + human_bytes_spec(used_spec(u)) + " / "@ + human_bytes_spec(u.total as nat)
                    + " · 剩余 "@ + human_bytes_spec(left),
                None => "已用 "@ + human_bytes_spec(used_spec(u)) + " · 未设配额"@,
            };
            match u.expire {
                Some(e) => if e > now {
                    base + " · "@ + decimal_spec(((e - now) / 86400) as nat) + " 天后重置"@
                } else {
                    base + " · 已到期"@
                },
                None => base,
            }
        },
    }
}

pub fn usage_label_zh(usage: Option<SubscriptionUsage>, now: u64) -> (s: String)
    ensures
        s@ == usage_label_zh_spec(usage, now as nat),
{
    let mut s = String::new();
    match usage {
        None => {
            push_str(&mut s, "尚未获取用量");
        },
        Some(u) => {
            let used = human_bytes(u.used());
            push_str(&mut s, "已用 ");
            push_str(&mut s, used.as_str());
            match u.remaining() {
                Some(left) => {
                    push_str(&mut s, " / ");
                    let total = human_bytes(u.total);
                    push_str(&mut s, total.as_str());
                    push_str(&mut s, " · 剩余 ");
                    let rest = human_bytes(left);
                    push_str(&mut s, rest.as_str());
                },
                None => push_str(&mut s, " · 未设配额"),
            }
            match u.expire {
                Some(e) => if e > now {
                    push_str(&mut s, " · ");
                    let days = decimal((e - now) / 86400);
                    push_str(&mut s, days.as_str());
                    push_str(&mut s, " 天后重置");
                } else {
                    push_str(&mut s, " · 已到期");
                },
                None => {},
            }
        },
    }
    assert(s@ =~= usage_label_zh_spec(usage, now as nat));
    s
}

} // verus!
