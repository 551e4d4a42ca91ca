//! The terminal client's view state: which tab is open, what is highlighted,
//! which filters and overlays are active, and the status line. Everything
//! the engine owns stays in the snapshot; this state only says how it is
//! looked at. On every tick the state takes in the newest snapshot and
//! clamps its highlights to what the snapshot still holds.

use vstd::prelude::*;
use crate::text::{opt_view, str_eq, views};

use crate::connections::{lemma_position, position_spec, sort_connections, sorted_spec};
use crate::snapshot::{ClientSnapshot, ProxyGroupSnapshot};
use crate::tui::{ConnSort, InputGoal, LogFilter, Tab};

verus! {

/// The view state of the terminal client.
pub struct ViewState {
    pub tab: Tab,
    /// The highlighted proxy group.
    pub selected_group: usize,
    /// The highlighted member inside the selected proxy group.
    pub selected_member: usize,
    /// The group whose member highlight was last snapped to its running
    /// node; while it is the selected group, ticks leave the highlight where
    /// the user put it.
    pub proxies_synced_group: Option<usize>,
    /// The highlighted connection, held by id so a re-sorted table keeps it.
    pub selected_connection_id: Option<String>,
    pub conn_sort: ConnSort,
    /// Case-insensitive keyword filter over the connection table.
    pub conn_filter: String,
    /// Rows scrolled back from the newest log line; 0 follows the tail.
    pub log_scroll: usize,
    /// Inner text height of the last drawn log panel, used to page.
    pub log_view_height: u16,
    /// The log tail frozen by Space.
    pub paused_logs: Option<Vec<String>>,
    pub log_filter: LogFilter,
    /// Case-insensitive keyword filter over the log lines.
    pub log_query: String,
    /// The highlighted profile row.
    pub selected_profile: Option<usize>,
    /// A profile name awaiting a second Delete press.
    pub confirm_delete: Option<String>,
    /// The highlighted rule fragment of the Override tab.
    pub selected_fragment: usize,
    /// The input overlay, when open.
    pub input: Option<InputGoal>,
    /// The profile name entered before its link.
    pub pending_profile_name: Option<String>,
    pub input_text: String,
    /// A pending `m`: the second press switches the traffic mode.
    pub confirm_mode: bool,
    /// A pending `q` with the system proxy on: the second press quits and
    /// keeps the proxy.
    pub confirm_quit: bool,
    pub show_help: bool,
    /// The footer's status line.
    pub status: String,
    /// The engine status last taken into `status`.
    pub last_engine_status: String,
}

/// The view state as plain values.
pub struct ViewModel {
    pub tab: Tab,
    pub selected_group: usize,
    pub selected_member: usize,
    pub proxies_synced_group: Option<usize>,
    pub selected_connection_id: Option<Seq<char>>,
    pub conn_sort: ConnSort,
    pub conn_filter: Seq<char>,
    pub log_scroll: usize,
    pub log_view_height: u16,
    pub paused_logs: Option<Seq<Seq<char>>>,
    pub log_filter: LogFilter,
    pub log_query: Seq<char>,
    pub selected_profile: Option<usize>,
    pub confirm_delete: Option<Seq<char>>,
    pub selected_fragment: usize,
    pub input: Option<InputGoal>,
    pub pending_profile_name: Option<Seq<char>>,
    pub input_text: Seq<char>,
    pub confirm_mode: bool,
    pub confirm_quit: bool,
    pub show_help: bool,
    pub status: Seq<char>,
    pub last_engine_status: Seq<char>,
}

pub open spec fn opt_lines_view(o: Option<Vec<String>>) -> Option<Seq<Seq<char>>> {
    match o {
        Some(v) => Some(views(v@)),
        None => None,
    }
}

impl View for ViewState {
    type V = ViewModel;

    open spec fn view(&self) -> ViewModel {
        ViewModel {
            tab: self.tab,
            selected_group: self.selected_group,
            selected_member: self.selected_member,
            proxies_synced_group: self.proxies_synced_group,
            selected_connection_id: opt_view(self.selected_connection_id),
            conn_sort: self.conn_sort,
            conn_filter: self.conn_filter@,
            log_scroll: self.log_scroll,
            log_view_height: self.log_view_height,
            paused_logs: opt_lines_view(self.paused_logs),
            log_filter: self.log_filter,
            log_query: self.log_query@,
            selected_profile: self.selected_profile,
            confirm_delete: opt_view(self.confirm_delete),
            selected_fragment: self.selected_fragment,
            input: self.input,
            pending_profile_name: opt_view(self.pending_profile_name),
            input_text: self.input_text@,
            confirm_mode: self.confirm_mode,
            confirm_quit: self.confirm_quit,
            show_help: self.show_help,
            status: self.status@,
            last_engine_status: self.last_engine_status@,
        }
    }
}

/// The footer's line for the engine's state: the newest event's Chinese
/// rendering when the status came from a coded event, the raw status
/// otherwise.
pub open spec fn engine_status_spec(s: ClientSnapshot) -> Seq<char> {
    match s.latest_event_zh {
        Some(zh) => zh@,
        None => s.status@,
    }
}

/// The state a fresh client starts in: the dashboard, nothing highlighted,
/// no filter, no overlay, the engine's status on the footer.
pub open spec fn initial_view(status: Seq<char>) -> ViewModel {
    ViewModel {
        tab: Tab::Dashboard,
        selected_group: 0,
        selected_member: 0,
        proxies_synced_group: None,
        selected_connection_id: None,
        conn_sort: ConnSort::Download,
        conn_filter: Seq::empty(),
        log_scroll: 0,
        log_view_height: 0,
        paused_logs: None,
        log_filter: LogFilter::All,
        log_query: Seq::empty(),
        selected_profile: None,
        confirm_delete: None,
        selected_fragment: 0,
        input: None,
        pending_profile_name: None,
        input_text: Seq::empty(),
        confirm_mode: false,
        confirm_quit: false,
        show_help: false,
        status,
        last_engine_status: Seq::empty(),
    }
}

/// The position of a group's running node among its members, or 0 when the
/// running node is not one of them.
pub open spec fn current_position(g: ProxyGroupSnapshot) -> nat {
    match position_spec(views(g.members@), g.current@) {
        Some(p) => p,
        None => 0,
    }
}

/// Mirrors the engine's proxy groups into the highlight: a selected group
/// that no longer exists falls back to the first; the first time a group is
/// shown (or right after switching to it) the member highlight snaps to the
/// running node; after that it stays where the user put it, clamped to the
/// last member.
pub open spec fn sync_proxy_spec(v: ViewModel, s: ClientSnapshot) -> ViewModel {
    let groups = s.proxy_groups@;
    let gone = v.selected_group >= groups.len();
    let v1 = if gone {
        ViewModel { selected_group: 0, proxies_synced_group: None, ..v }
    } else {
        v
    };
    if groups.len() == 0 {
        ViewModel { proxies_synced_group: None, selected_member: 0, ..v1 }
    } else {
        let g = groups[v1.selected_group as int];
        let count = g.members@.len();
        if v1.proxies_synced_group != Some(v1.selected_group) {
            ViewModel {
                selected_member: current_position(g) as usize,
                proxies_synced_group: Some(v1.selected_group),
                ..v1
            }
        } else if count == 0 {
            ViewModel { selected_member: 0, ..v1 }
        } else if v1.selected_member >= count {
            ViewModel { selected_member: (count - 1) as usize, ..v1 }
        } else {
            v1
        }
    }
}

/// How many fragments the override file lists.
pub open spec fn fragment_count(s: ClientSnapshot) -> nat {
    match s.override_summary {
        Some(summary) => summary.fragments@.len(),
        None => 0,
    }
}

/// Keeps the fragment highlight inside the published list.
pub open spec fn sync_override_spec(v: ViewModel, s: ClientSnapshot) -> ViewModel {
    let count = fragment_count(s);
    if v.selected_fragment >= count {
        ViewModel {
            selected_fragment: if count > 0 {
                (count - 1) as usize
            } else {
                0
            },
            ..v
        }
    } else {
        v
    }
}

/// What a tick does to the view: a changed engine status replaces the
/// footer line, then the highlights are clamped to the new snapshot.
pub open spec fn tick_spec(v: ViewModel, s: ClientSnapshot) -> ViewModel {
    sync_override_spec(sync_proxy_spec(status_step_spec(v, s), s), s)
}

/// A changed engine status replaces the footer line.
pub open spec fn status_step_spec(v: ViewModel, s: ClientSnapshot) -> ViewModel {
    if s.status@ != v.last_engine_status {
        ViewModel { last_engine_status: s.status@, status: engine_status_spec(s), ..v }
    } else {
        v
    }
}

/// The index of a group's running node among its members, or 0.
pub fn running_member(group: &ProxyGroupSnapshot) -> (p: usize)
    ensures
        p == current_position(*group),
        group.members@.len() > 0 ==> p < group.members@.len(),
{
    let ghost v = views(group.members@);
    let mut i: usize = 0;
    while i < group.members.len()
        invariant
            v == views(group.members@),
            i <= group.members@.len(),
            forall|k: int| 0 <= k < i ==> v[k] != group.current@,
        decreases group.members@.len() - i,
    {
        if str_eq(group.members[i].as_str(), group.current.as_str()) {
            proof {
                lemma_position(v, group.current@, i as int);
            }
            return i;
        }
        i = i + 1;
    }
    proof {
        lemma_position(v, group.current@, i as int);
    }
    0
}

impl ViewState {
    /// The state a fresh client starts in.
    pub fn new(snapshot: &ClientSnapshot) -> (v: ViewState)
        ensures
            v@ == initial_view(engine_status_spec(*snapshot)),
    {
        let status = match &snapshot.latest_event_zh {
            Some(zh) => zh.clone(),
            None => snapshot.status.clone(),
        };
        ViewState {
            tab: Tab::Dashboard,
            selected_group: 0,
            selected_member: 0,
            proxies_synced_group: None,
            selected_connection_id: None,
            conn_sort: ConnSort::Download,
            conn_filter: String::new(),
            log_scroll: 0,
            log_view_height: 0,
            paused_logs: None,
            log_filter: LogFilter::All,
            log_query: String::new(),
            selected_profile: None,
            confirm_delete: None,
            selected_fragment: 0,
            input: None,
            pending_profile_name: None,
            input_text: String::new(),
            confirm_mode: false,
            confirm_quit: false,
            show_help: false,
            status,
            last_engine_status: String::new(),
        }
    }

    /// Clamps the proxy highlights to the published groups.
    pub fn sync_proxy_selection(&mut self, snapshot: &ClientSnapshot)
        ensures
            final(self)@ == sync_proxy_spec(old(self)@, *snapshot),
    {
        let n = snapshot.proxy_groups.len();
        if self.selected_group >= n {
            self.selected_group = 0;
            self.proxies_synced_group = None;
        }
        if n == 0 {
            self.proxies_synced_group = None;
            self.selected_member = 0;
            return;
        }
        let selected = self.selected_group;
        let synced = match self.proxies_synced_group {
            Some(g) => g == selected,
            None => false,
        };
        let group = &snapshot.proxy_groups[selected];
        let count = group.members.len();
        if !synced {
            self.selected_member = running_member(group);
            self.proxies_synced_group = Some(selected);
        } else if count == 0 {
            self.selected_member = 0;
        } else if self.selected_member >= count {
            self.selected_member = count - 1;
        }
    }

    /// Keeps the fragment highlight inside the published list.
    pub fn sync_override_selection(&mut self, snapshot: &ClientSnapshot)
        ensures
            final(self)@ == sync_override_spec(old(self)@, *snapshot),
    {
        let count = match &snapshot.override_summary {
            Some(summary) => summary.fragments.len(),
            None => 0,
        };
        if self.selected_fragment >= count {
            self.selected_fragment = if count > 0 {
                count - 1
            } else {
                0
            };
        }
    }

    /// Takes in a freshly published snapshot: re-sorts its connection table
    /// into the chosen order (the engine publishes in the core's order),
    /// replaces the footer line when the engine's status changed, and clamps
    /// the highlights. Returns whether the engine's status changed.
    pub fn absorb(&mut self, snapshot: &mut ClientSnapshot) -> (changed: bool)
        ensures
            final(self)@ == tick_spec(old(self)@, *old(snapshot)),
            changed == (old(snapshot).status@ != old(self).last_engine_status@),
            final(snapshot).connections.connections@ == sorted_spec(
                old(snapshot).connections.connections@,
                old(self).conn_sort,
            ),
            *final(snapshot) == (ClientSnapshot {
                connections: crate::clash_api::ConnectionsSnapshot {
                    connections: final(snapshot).connections.connections,
                    ..old(snapshot).connections
                },
                ..*old(snapshot)
            }),
    {
        let changed = self.take_status(snapshot);
        self.sync_proxy_selection(snapshot);
        self.sync_override_selection(snapshot);
        let mut rows: Vec<crate::clash_api::Connection> = Vec::new();
        std::mem::swap(&mut rows, &mut snapshot.connections.connections);
        snapshot.connections.connections = sort_connections(rows, self.conn_sort);
        changed
    }

    fn take_status(&mut self, snapshot: &ClientSnapshot) -> (changed: bool)
        ensures
            final(self)@ == status_step_spec(old(self)@, *snapshot),
            changed == (snapshot.status@ != old(self).last_engine_status@),
    {
        let changed = !str_eq(snapshot.status.as_str(), self.last_engine_status.as_str());
        if changed {
            self.last_engine_status = snapshot.status.clone();
            self.status = match &snapshot.latest_event_zh {
                Some(zh) => zh.clone(),
                None => snapshot.status.clone(),
            };
        }
        changed
    }
}

/// After a tick every highlight points inside what the snapshot holds: the
/// selected group exists, the member highlight names one of its members,
/// and the fragment highlight one of the fragments.
pub proof fn highlights_stay_in_bounds(v: ViewModel, s: ClientSnapshot)
    ensures
        ({
            let t = tick_spec(v, s);
            &&& s.proxy_groups@.len() > 0 ==> t.selected_group < s.proxy_groups@.len()
            &&& s.proxy_groups@.len() > 0 && s.proxy_groups@[t.selected_group as int].members@.len()
                > 0 ==> t.selected_member < s.proxy_groups@[t.selected_group as int].members@.len()
            &&& s.proxy_groups@.len() == 0 ==> t.selected_member == 0
            &&& fragment_count(s) > 0 ==> t.selected_fragment < fragment_count(s)
            &&& s.proxy_groups@.len() > 0 ==> t.proxies_synced_group == Some(t.selected_group)
        }),
{
    let v1 = status_step_spec(v, s);
    let groups = s.proxy_groups@;
    if groups.len() > 0 {
        let g0 = if v1.selected_group >= groups.len() {
            0
        } else {
            v1.selected_group
        };
        lemma_current_position_bound(groups[g0 as int]);
    }
}

proof fn lemma_current_position_bound(g: ProxyGroupSnapshot)
    ensures
        g.members@.len() > 0 ==> current_position(g) < g.members@.len(),
{
    let v = views(g.members@);
    lemma_position_bound(v, g.current@);
}

proof fn lemma_position_bound(ids: Seq<Seq<char>>, id: Seq<char>)
    ensures
        position_spec(ids, id) matches Some(p) ==> p < ids.len(),
    decreases ids.len(),
{
    if ids.len() > 0 {
        lemma_position_bound(ids.drop_first(), id);
    }
}

} // verus!
