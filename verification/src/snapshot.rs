//! What the engine publishes to both user interfaces: one plain-value
//! snapshot of the core, the proxy groups, the connections, the profiles, the
//! settings and the configuration in force. The interfaces only read it.

use vstd::prelude::*;

use crate::clash_api::{ConnectionsSnapshot, OutboundMode};
use crate::system_proxy::TrafficMode;

verus! {

/// One proxy group as the interfaces list it.
#[derive(Clone, Debug, Default)]
pub struct ProxyGroupSnapshot {
    pub name: String,
    /// The clash_api type: `Selector`, `URLTest`, or their lower-case forms.
    pub kind: String,
    /// The member the group routes through now.
    pub current: String,
    pub members: Vec<String>,
    /// The last measured delay of each member that has one, in milliseconds.
    pub delays: Vec<NodeDelay>,
    /// Members whose last delay test failed.
    pub failed: Vec<String>,
}

/// A member's measured delay.
#[derive(Clone, Debug, Default)]
pub struct NodeDelay {
    pub node: String,
    pub millis: u64,
}

/// One subscription profile.
#[derive(Clone, Debug, Default)]
pub struct ProfileSummary {
    pub name: String,
    pub active: bool,
    /// Epoch seconds of the last update, 0 for never.
    pub last_updated: u64,
}

/// The persisted settings the interfaces show and edit.
#[derive(Clone, Debug, Default)]
pub struct SettingsSnapshot {
    pub core_version: String,
    pub mirror: String,
    pub auto_update_minutes: u64,
    pub mixed_port: u16,
    pub test_url: String,
    pub auto_start: bool,
    pub auto_system_proxy: bool,
}

/// One inbound of the configuration the core runs.
#[derive(Clone, Debug, Default)]
pub struct InboundInfo {
    pub kind: String,
    pub tag: String,
    pub listen: String,
    /// 0 when the inbound declares no port (a tun inbound).
    pub port: u16,
}

/// One rule set the configuration loads.
#[derive(Clone, Debug, Default)]
pub struct RuleSetSummary {
    pub tag: String,
    /// Empty for a local rule set.
    pub url: String,
    pub kind: String,
}

/// One routing rule, in match order.
#[derive(Clone, Debug, Default)]
pub struct RouteRuleSnapshot {
    /// What the rule matches, in words.
    pub matcher: String,
    /// The outbound the rule sends to; empty for an action rule.
    pub outbound: String,
}

/// One rule fragment of a profile's override file.
#[derive(Clone, Debug, Default)]
pub struct OverrideFragmentSummary {
    pub id: String,
    pub label: String,
    pub enabled: bool,
    /// How many routing rules the fragment adds.
    pub rules: u64,
    /// The JSON pointers the fragment changes, in the file's order.
    pub changes: Vec<String>,
    /// The pointers among them that the client owns and writes back.
    pub reserved: Vec<String>,
}

/// A reserved field some enabled fragment reaches for, with the engine's own
/// reason for reserving it.
#[derive(Clone, Debug, Default)]
pub struct ReservedField {
    /// The JSON pointer.
    pub path: String,
    /// Why the client owns the field, in the engine's Chinese wording.
    pub reason_zh: String,
}

/// A profile's override file as the engine read it.
#[derive(Clone, Debug, Default)]
pub struct OverrideSummary {
    pub profile: String,
    /// The file's name: the sha256 of the profile's name.
    pub file_name: String,
    /// The file's size in bytes.
    pub bytes: u64,
    /// A hand-written bare object: one implicit fragment, nothing to switch.
    pub implicit: bool,
    pub fragments: Vec<OverrideFragmentSummary>,
    /// The reserved fields the enabled fragments reach for, in total, each once.
    pub reserved: Vec<ReservedField>,
}

/// How many fragments of the summary are switched on.
pub open spec fn enabled_count_spec(fragments: Seq<OverrideFragmentSummary>) -> nat
    decreases fragments.len(),
{
    if fragments.len() == 0 {
        0
    } else {
        enabled_count_spec(fragments.drop_last()) + if fragments.last().enabled {
            1nat
        } else {
            0nat
        }
    }
}

proof fn lemma_enabled_count_bound(fragments: Seq<OverrideFragmentSummary>)
    ensures
        enabled_count_spec(fragments) <= fragments.len(),
    decreases fragments.len(),
{
    if fragments.len() > 0 {
        lemma_enabled_count_bound(fragments.drop_last());
    }
}

impl OverrideSummary {
    /// How many fragments merge into the configuration.
    pub fn enabled_count(&self) -> (n: usize)
        ensures
            n == enabled_count_spec(self.fragments@),
            n <= self.fragments@.len(),
    {
        let mut n: usize = 0;
        let mut i: usize = 0;
        while i < self.fragments.len()
            invariant
                i <= self.fragments@.len(),
                n == enabled_count_spec(self.fragments@.subrange(0, i as int)),
                n <= i,
            decreases self.fragments@.len() - i,
        {
            proof {
                assert(self.fragments@.subrange(0, i + 1).drop_last() =~= self.fragments@.subrange(
                    0,
                    i as int,
                ));
            }
            if self.fragments[i].enabled {
                n = n + 1;
            }
            i = i + 1;
        }
        assert(self.fragments@.subrange(0, i as int) =~= self.fragments@);
        n
    }
}

/// One sample of the traffic rates, in bytes per second.
#[derive(Clone, Copy, Debug, Default, PartialEq, Eq)]
pub struct TrafficPoint {
    pub up: u64,
    pub down: u64,
}

/// Everything the engine publishes.
#[derive(Clone, Debug, Default)]
pub struct ClientSnapshot {
    /// The engine's latest status line.
    pub status: String,
    /// The Chinese rendering of the newest event record, present when the
    /// current status came from a coded event rather than a bare string.
    pub latest_event_zh: Option<String>,
    pub core_running: bool,
    pub starting: bool,
    /// A long-running engine task is in progress.
    pub busy: bool,
    pub system_proxy_enabled: bool,
    pub traffic_mode: TrafficMode,
    pub outbound_mode: OutboundMode,
    pub current_node: Option<String>,
    pub proxy_groups: Vec<ProxyGroupSnapshot>,
    pub connections: ConnectionsSnapshot,
    pub profiles: Vec<ProfileSummary>,
    /// The active profile's name.
    pub active_profile: Option<String>,
    pub settings: SettingsSnapshot,
    /// The client's own event lines, oldest first.
    pub events: Vec<String>,
    /// The kernel log tail, oldest first.
    pub core_logs: Vec<String>,
    pub override_summary: Option<OverrideSummary>,
    /// Why the active profile's override file could not be used, verbatim.
    pub override_error: Option<String>,
    /// The redacted outline of the configuration in force, one line per field.
    pub effective_outline: Vec<String>,
    pub inbounds: Vec<InboundInfo>,
    pub rule_sets: Vec<RuleSetSummary>,
    pub rules: Vec<RouteRuleSnapshot>,
    /// The version of the installed core, where it could be detected.
    pub core_version: Option<String>,
    /// The version the running core reports over its control channel.
    pub core_runtime_version: Option<String>,
    pub core_installed: bool,
    /// The running core's memory use, in bytes.
    pub memory_used: u64,
    /// The current rates, in bytes per second.
    pub download_speed: u64,
    pub upload_speed: u64,
    /// The totals since the core started, in bytes.
    pub total_download: u64,
    pub total_upload: u64,
    /// The recent rate samples, oldest first, one per traffic poll.
    pub traffic_history: Vec<TrafficPoint>,
    /// How many connections the core reports open.
    pub active_connections: usize,
    /// The active subscription's quota, where its provider reports one.
    pub subscription_usage: Option<crate::gui_usage::SubscriptionUsage>,
}

/// The footer's status line for the engine's latest state: the newest event
/// record's Chinese rendering when the current status came from a code, and
/// the raw engine string otherwise.
pub fn engine_status(snapshot: &ClientSnapshot) -> (s: String)
    ensures
        s@ == match snapshot.latest_event_zh {
            Some(zh) => zh@,
            None => snapshot.status@,
        },
{
    match &snapshot.latest_event_zh {
        Some(zh) => zh.clone(),
        None => snapshot.status.clone(),
    }
}

} // verus!
