//! The engine's bookkeeping behind the snapshot: how a settings request
//! changes the settings, how a measured delay is recorded in the groups
//! that list the node, and how running byte totals become rate samples.

use vstd::prelude::*;

use crate::clash_api::{ProxyGroup, ProxyNode};
use crate::command::SettingsPatch;
use crate::snapshot::{NodeDelay, ProxyGroupSnapshot, SettingsSnapshot, TrafficPoint};
use crate::system_proxy::TrafficMode;
use crate::text::{str_eq, views};

verus! {

/// A field after a partial update: the new value where one was sent.
pub open spec fn patched<T>(new: Option<T>, old: T) -> T {
    match new {
        Some(v) => v,
        None => old,
    }
}

/// Applies a settings request: every field the request carries takes its
/// value, every other field keeps its own; the traffic mode likewise.
pub fn apply_patch(settings: SettingsSnapshot, mode: TrafficMode, patch: SettingsPatch) -> (r: (SettingsSnapshot, TrafficMode))
    ensures
        r.0.core_version == patched(patch.core_version, settings.core_version),
        r.0.mirror == patched(patch.mirror, settings.mirror),
        r.0.auto_update_minutes == patched(patch.auto_update_minutes, settings.auto_update_minutes),
        r.0.mixed_port == patched(patch.mixed_port, settings.mixed_port),
        r.0.test_url == patched(patch.test_url, settings.test_url),
        r.0.auto_start == patched(patch.auto_start, settings.auto_start),
        r.0.auto_system_proxy == patched(patch.auto_system_proxy, settings.auto_system_proxy),
        r.1 == patched(patch.traffic_mode, mode),
{
    let SettingsSnapshot {
        core_version,
        mirror,
        auto_update_minutes,
        mixed_port,
        test_url,
        auto_start,
        auto_system_proxy,
    } = settings;
    let SettingsPatch {
        core_version: new_version,
        mirror: new_mirror,
        auto_update_minutes: new_minutes,
        mixed_port: new_port,
        test_url: new_url,
        auto_start: new_auto_start,
        auto_system_proxy: new_auto_proxy,
        traffic_mode: new_mode,
    } = patch;
    let settings = SettingsSnapshot {
        core_version: match new_version {
            Some(v) => v,
            None => core_version,
        },
        mirror: match new_mirror {
            Some(v) => v,
            None => mirror,
        },
        auto_update_minutes: match new_minutes {
            Some(v) => v,
            None => auto_update_minutes,
        },
        mixed_port: match new_port {
            Some(v) => v,
            None => mixed_port,
        },
        test_url: match new_url {
            Some(v) => v,
            None => test_url,
        },
        auto_start: match new_auto_start {
            Some(v) => v,
            None => auto_start,
        },
        auto_system_proxy: match new_auto_proxy {
            Some(v) => v,
            None => auto_system_proxy,
        },
    };
    let mode = match new_mode {
        Some(m) => m,
        None => mode,
    };
    (settings, mode)
}

/// A group's delays after `node` was measured at `millis`: where the group
/// lists the node, its earlier entries for the node give way to the new one
/// at the end; a group that does not list it is left alone.
pub open spec fn recorded_spec(
    members: Seq<Seq<char>>,
    delays: Seq<(Seq<char>, u64)>,
    node: Seq<char>,
    millis: u64,
) -> Seq<(Seq<char>, u64)> {
    if members.contains(node) {
        delays.filter(|d: (Seq<char>, u64)| d.0 != node).push((node, millis))
    } else {
        delays
    }
}

/// A group's delays as plain values.
pub open spec fn delays_view(delays: Seq<NodeDelay>) -> Seq<(Seq<char>, u64)> {
    delays.map_values(|d: NodeDelay| (d.node@, d.millis))
}

fn lists(members: &Vec<String>, node: &str) -> (r: bool)
    ensures
        r == views(members@).contains(node@),
{
    let ghost v = views(members@);
    let mut i: usize = 0;
    while i < members.len()
        invariant
            v == views(members@),
            i <= members@.len(),
            forall|k: int| 0 <= k < i ==> v[k] != node@,
        decreases members@.len() - i,
    {
        if str_eq(members[i].as_str(), node) {
            assert(v[i as int] == node@);
            return true;
        }
        i = i + 1;
    }
    false
}

/// Records a measured delay in one group (see [`recorded_spec`]).
pub fn record_delay(group: &mut ProxyGroupSnapshot, node: &str, millis: u64)
    ensures
        delays_view(final(group).delays@) == recorded_spec(
            views(old(group).members@),
            delays_view(old(group).delays@),
            node@,
            millis,
        ),
        final(group).name == old(group).name,
        final(group).kind == old(group).kind,
        final(group).current == old(group).current,
        final(group).members == old(group).members,
        final(group).failed == old(group).failed,
{
    if !lists(&group.members, node) {
        return;
    }
    let ghost before = delays_view(group.delays@);
    let ghost keep = |d: (Seq<char>, u64)| d.0 != node@;
    proof {
        assert(before.subrange(0, before.len() as int) =~= before);
        assert(before.subrange(0, 0) + before.filter(keep) =~= before.filter(keep));
    }
    let mut i: usize = 0;
    while i < group.delays.len()
        invariant
            i <= group.delays@.len(),
            views(group.members@).contains(node@),
            before.filter(keep) == delays_view(group.delays@).subrange(0, i as int) + delays_view(
                group.delays@,
            ).subrange(i as int, group.delays@.len() as int).filter(keep),
            forall|k: int| 0 <= k < i ==> group.delays@[k].node@ != node@,
            group.name == old(group).name,
            group.kind == old(group).kind,
            group.current == old(group).current,
            group.members == old(group).members,
            group.failed == old(group).failed,
            keep == (|d: (Seq<char>, u64)| d.0 != node@),
        decreases group.delays@.len() - i,
    {
        let ghost v = delays_view(group.delays@);
        proof {
            let tail = v.subrange(i as int, v.len() as int);
            assert(tail =~= seq![v[i as int]] + v.subrange(i + 1, v.len() as int));
            Seq::filter_distributes_over_add(seq![v[i as int]], v.subrange(i + 1, v.len() as int), keep);
            reveal_with_fuel(Seq::filter, 2);
        }
        if str_eq(group.delays[i].node.as_str(), node) {
            let ghost old_delays = group.delays@;
            group.delays.remove(i);
            proof {
                let w = delays_view(group.delays@);
                assert(group.delays@ =~= old_delays.subrange(0, i as int) + old_delays.subrange(i + 1, old_delays.len() as int));
                assert(w.subrange(0, i as int) =~= v.subrange(0, i as int));
                assert(w.subrange(i as int, w.len() as int) =~= v.subrange(i + 1, v.len() as int));
                assert(seq![v[i as int]].filter(keep) =~= Seq::<(Seq<char>, u64)>::empty());
            }
        } else {
            proof {
                assert(seq![v[i as int]].filter(keep) =~= seq![v[i as int]]);
                assert(v.subrange(0, i + 1) =~= v.subrange(0, i as int).push(v[i as int]));
            }
            i = i + 1;
        }
    }
    proof {
        let v = delays_view(group.delays@);
        assert(v.subrange(i as int, v.len() as int) =~= Seq::<(Seq<char>, u64)>::empty());
        assert(v.subrange(0, i as int) =~= v);
    }
    let ghost kept = group.delays@;
    group.delays.push(NodeDelay { node: node.to_string(), millis });
    assert(delays_view(group.delays@) =~= delays_view(kept).push((node@, millis)));
}

/// The rate over a sampling interval: the bytes added since the last total
/// (none when the total went down, as after a restart of the core) per
/// second of the interval, counting at least one second.
pub open spec fn rate_spec(before: u64, after: u64, secs: u64) -> nat {
    let added: nat = if after >= before {
        (after - before) as nat
    } else {
        0
    };
    let per: nat = if secs >= 1 {
        secs as nat
    } else {
        1
    };
    added / per
}

pub fn rate(before: u64, after: u64, secs: u64) -> (r: u64)
    ensures
        r == rate_spec(before, after, secs),
{
    let added = after.saturating_sub(before);
    let per = if secs >= 1 {
        secs
    } else {
        1
    };
    added / per
}

/// The newest `cap` samples once `point` joins `history`.
pub open spec fn sampled_spec(history: Seq<TrafficPoint>, point: TrafficPoint, cap: nat) -> Seq<TrafficPoint> {
    let all = history.push(point);
    if all.len() > cap {
        all.subrange(all.len() - cap, all.len() as int)
    } else {
        all
    }
}

/// Adds a rate sample and keeps only the newest `cap` of them.
pub fn push_sample(history: &mut Vec<TrafficPoint>, point: TrafficPoint, cap: usize)
    ensures
        final(history)@ == sampled_spec(old(history)@, point, cap as nat),
{
    history.push(point);
    let ghost all = history@;
    while history.len() > cap
        invariant
            all.len() >= history@.len(),
            history@ == all.subrange(all.len() - history@.len(), all.len() as int),
            all.len() > cap ==> history@.len() >= cap,
            all.len() <= cap ==> history@.len() == all.len(),
        decreases history@.len(),
    {
        history.remove(0);
        assert(history@ =~= all.subrange(all.len() - history@.len(), all.len() as int));
    }
    proof {
        if all.len() <= cap {
            assert(history@ =~= all);
        }
    }
}


/// The first node named `name`.
pub open spec fn node_named(nodes: Seq<ProxyNode>, name: Seq<char>) -> Option<ProxyNode>
    decreases nodes.len(),
{
    if nodes.len() == 0 {
        None
    } else if nodes[0].name@ == name {
        Some(nodes[0])
    } else {
        node_named(nodes.drop_first(), name)
    }
}

/// A member's delay as its node's newest probe measured it; a failed probe
/// (delay 0) or no probe at all gives none.
pub open spec fn last_delay(nodes: Seq<ProxyNode>, member: Seq<char>) -> Option<u64> {
    match node_named(nodes, member) {
        Some(node) => if node.history@.len() > 0 && node.history@.last().delay > 0 {
            Some(node.history@.last().delay)
        } else {
            None
        },
        None => None,
    }
}

/// The measured delays of `members`, in member order.
pub open spec fn measured_spec(members: Seq<Seq<char>>, nodes: Seq<ProxyNode>) -> Seq<(Seq<char>, u64)>
    decreases members.len(),
{
    if members.len() == 0 {
        Seq::empty()
    } else {
        let rest = measured_spec(members.drop_last(), nodes);
        match last_delay(nodes, members.last()) {
            Some(d) => rest.push((members.last(), d)),
            None => rest,
        }
    }
}

fn member_last_delay(nodes: &Vec<ProxyNode>, member: &str) -> (d: Option<u64>)
    ensures
        d == last_delay(nodes@, member@),
{
    let mut k: usize = 0;
    assert(nodes@.subrange(0, nodes@.len() as int) =~= nodes@);
    while k < nodes.len()
        invariant
            k <= nodes@.len(),
            node_named(nodes@, member@) == node_named(nodes@.subrange(k as int, nodes@.len() as int), member@),
        decreases nodes@.len() - k,
    {
        let ghost rest = nodes@.subrange(k as int, nodes@.len() as int);
        assert(rest[0] == nodes@[k as int]);
        assert(rest.drop_first() =~= nodes@.subrange(k + 1, nodes@.len() as int));
        if str_eq(nodes[k].name.as_str(), member) {
            let history = &nodes[k].history;
            let n = history.len();
            if n > 0 && history[n - 1].delay > 0 {
                return Some(history[n - 1].delay);
            }
            return None;
        }
        k = k + 1;
    }
    None
}

/// A group as the pages list it: its name, kind, current node and members
/// as the core reports them, each member's delay as its node's newest probe
/// measured it, and no failed probes yet.
pub fn group_snapshot(group: ProxyGroup, nodes: &Vec<ProxyNode>) -> (g: ProxyGroupSnapshot)
    ensures
        g.name == group.name,
        g.kind == group.kind,
        g.current == group.now,
        g.members == group.all,
        delays_view(g.delays@) == measured_spec(views(group.all@), nodes@),
        g.failed@.len() == 0,
{
    let ProxyGroup { name, kind, now, all, history: _ } = group;
    let mut delays: Vec<NodeDelay> = Vec::new();
    let mut i: usize = 0;
    while i < all.len()
        invariant
            i <= all@.len(),
            delays_view(delays@) == measured_spec(views(all@.subrange(0, i as int)), nodes@),
        decreases all@.len() - i,
    {
        let found = member_last_delay(nodes, all[i].as_str());
        proof {
            let pre = views(all@.subrange(0, i + 1));
            assert(pre.drop_last() =~= views(all@.subrange(0, i as int)));
            assert(pre.last() == all@[i as int]@);
        }
        match found {
            Some(millis) => {
                let ghost before = delays@;
                delays.push(NodeDelay { node: all[i].clone(), millis });
                assert(delays_view(delays@) =~= delays_view(before).push((all@[i as int]@, millis)));
            },
            None => {},
        }
        i = i + 1;
    }
    assert(all@.subrange(0, i as int) =~= all@);
    ProxyGroupSnapshot { name, kind, current: now, members: all, delays, failed: Vec::new() }
}

} // verus!
