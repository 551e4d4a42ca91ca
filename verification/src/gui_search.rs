//! The desktop client's search boxes and level chips: which nodes, rules,
//! log lines, events and connections a page keeps for what was typed, the
//! text the Logs page's copy button puts on the clipboard, and the
//! Connections page's close-all and pause buttons.

use vstd::prelude::*;

use crate::clash_api::Connection;
use crate::connections::{
    match_positions_spec, ordered_spec, sort_rows, visible_connections, visible_spec, RowOrder,
};
use crate::command::{ClientCommand, CommandModel};
use crate::gui_lang::{tr, Locale};
use crate::gui_logs::{localised_event_line, localised_event_spec, EventLine};
use crate::gui_state::{level_filter_minimum_spec, LogLevelFilter};
use crate::text::{chars_of, contains_chars, contains_spec, lowercase, push_str, to_lowercase, trim, trim_spec, views};
use crate::tui::{log_level_shown, log_level_shown_spec};
use crate::tui_override::{join, join_spec};

verus! {

/// What a search box searches for: its text, trimmed, in lowercase.
pub open spec fn search_key_spec(typed: Seq<char>) -> Seq<char> {
    lowercase(trim_spec(typed))
}

/// The search key of a search box's text.
pub fn search_key(typed: &str) -> (k: String)
    ensures
        k@ == search_key_spec(typed@),
{
    let t = trim(typed);
    to_lowercase(t.as_str())
}

/// Whether `candidate` is found by the search key: an empty key finds
/// everything, otherwise the key has to occur in the lowercased candidate.
pub open spec fn hits_spec(key: Seq<char>, candidate: Seq<char>) -> bool {
    key.len() == 0 || contains_spec(lowercase(candidate), key)
}

/// Whether the search key finds `candidate`.
pub fn hits(key: &str, candidate: &str) -> (r: bool)
    ensures
        r == hits_spec(key@, candidate@),
{
    let k = chars_of(key);
    if k.len() == 0 {
        return true;
    }
    let l = to_lowercase(candidate);
    let c = chars_of(l.as_str());
    contains_chars(&c, &k)
}

/// The positions, in order, of the members that the search key finds.
pub open spec fn shown_members_spec(members: Seq<Seq<char>>, key: Seq<char>) -> Seq<usize>
    decreases members.len(),
{
    if members.len() == 0 {
        Seq::empty()
    } else {
        let rest = shown_members_spec(members.drop_last(), key);
        if hits_spec(key, members.last()) {
            rest.push((members.len() - 1) as usize)
        } else {
            rest
        }
    }
}

/// Which group the Proxies page shows: the chosen one while it exists, else
/// the first, else none.
pub fn selected_group_index(groups: usize, chosen: usize) -> (i: Option<usize>)
    ensures
        i == if chosen < groups {
            Some(chosen)
        } else if groups > 0 {
            Some(0usize)
        } else {
            None
        },
{
    if chosen < groups {
        Some(chosen)
    } else if groups > 0 {
        Some(0)
    } else {
        None
    }
}

/// Which nodes of a group the Proxies page lists for the text in its search
/// box, by their position in the group.
pub fn shown_members(members: &Vec<String>, typed: &str) -> (shown: Vec<usize>)
    ensures
        shown@ == shown_members_spec(views(members@), search_key_spec(typed@)),
{
    let key = search_key(typed);
    let mut shown: Vec<usize> = Vec::new();
    let mut i: usize = 0;
    while i < members.len()
        invariant
            i <= members@.len(),
            key@ == search_key_spec(typed@),
            shown@ == shown_members_spec(views(members@.subrange(0, i as int)), key@),
        decreases members@.len() - i,
    {
        let hit = hits(key.as_str(), members[i].as_str());
        proof {
            let pre = views(members@.subrange(0, i + 1));
            assert(pre.drop_last() =~= views(members@.subrange(0, i as int)));
            assert(pre.last() == members@[i as int]@);
        }
        if hit {
            shown.push(i);
        }
        i = i + 1;
    }
    assert(members@.subrange(0, i as int) =~= members@);
    shown
}

/// Whether the Logs page keeps a line: the search key finds it and its level
/// passes the chip.
pub open spec fn line_kept_spec(key: Seq<char>, filter: LogLevelFilter, line: Seq<char>) -> bool {
    hits_spec(key, line) && log_level_shown_spec(level_filter_minimum_spec(filter), line)
}

/// The lines of `lines` the Logs page keeps, in order.
pub open spec fn kept_lines_spec(lines: Seq<Seq<char>>, key: Seq<char>, filter: LogLevelFilter) -> Seq<Seq<char>>
    decreases lines.len(),
{
    if lines.len() == 0 {
        Seq::empty()
    } else {
        let rest = kept_lines_spec(lines.drop_last(), key, filter);
        if line_kept_spec(key, filter, lines.last()) {
            rest.push(lines.last())
        } else {
            rest
        }
    }
}

/// Whether the Logs page keeps one line.
pub fn line_kept(key: &str, filter: LogLevelFilter, line: &str) -> (r: bool)
    ensures
        r == line_kept_spec(key@, filter, line@),
{
    hits(key, line) && log_level_shown(filter.minimum(), line)
}

/// The kernel log lines the Logs page keeps for its search box and level
/// chip, oldest first.
pub fn kept_kernel_lines(lines: &Vec<String>, typed: &str, filter: LogLevelFilter) -> (kept: Vec<String>)
    ensures
        views(kept@) == kept_lines_spec(views(lines@), search_key_spec(typed@), filter),
{
    let key = search_key(typed);
    let mut kept: Vec<String> = Vec::new();
    let mut i: usize = 0;
    while i < lines.len()
        invariant
            i <= lines@.len(),
            key@ == search_key_spec(typed@),
            views(kept@) == kept_lines_spec(views(lines@.subrange(0, i as int)), key@, filter),
        decreases lines@.len() - i,
    {
        let keep = line_kept(key.as_str(), filter, lines[i].as_str());
        proof {
            let pre = views(lines@.subrange(0, i + 1));
            assert(pre.drop_last() =~= views(lines@.subrange(0, i as int)));
            assert(pre.last() == lines@[i as int]@);
        }
        if keep {
            let ghost before = kept@;
            kept.push(lines[i].clone());
            assert(views(kept@) =~= views(before).push(lines@[i as int]@));
        }
        i = i + 1;
    }
    assert(lines@.subrange(0, i as int) =~= lines@);
    kept
}

/// The events the Logs page keeps, judged by their raw text and shown in
/// the interface's language, oldest first.
pub open spec fn kept_events_spec(
    events: Seq<EventLine>,
    key: Seq<char>,
    filter: LogLevelFilter,
    locale: Locale,
) -> Seq<Seq<char>>
    decreases events.len(),
{
    if events.len() == 0 {
        Seq::empty()
    } else {
        let rest = kept_events_spec(events.drop_last(), key, filter, locale);
        if line_kept_spec(key, filter, events.last().text@) {
            rest.push(localised_event_spec(events.last(), locale))
        } else {
            rest
        }
    }
}

/// The client events the Logs page keeps for its search box and level chip,
/// each in the interface's language.
pub fn kept_events(events: &Vec<EventLine>, typed: &str, filter: LogLevelFilter, locale: Locale) -> (kept: Vec<String>)
    ensures
        views(kept@) == kept_events_spec(events@, search_key_spec(typed@), filter, locale),
{
    let key = search_key(typed);
    let mut kept: Vec<String> = Vec::new();
    let mut i: usize = 0;
    while i < events.len()
        invariant
            i <= events@.len(),
            key@ == search_key_spec(typed@),
            views(kept@) == kept_events_spec(events@.subrange(0, i as int), key@, filter, locale),
        decreases events@.len() - i,
    {
        let keep = line_kept(key.as_str(), filter, events[i].text.as_str());
        proof {
            let pre = events@.subrange(0, i + 1);
            assert(pre.drop_last() =~= events@.subrange(0, i as int));
            assert(pre.last() == events@[i as int]);
        }
        if keep {
            let ghost before = kept@;
            let shown = localised_event_line(&events[i], locale);
            kept.push(shown);
            assert(views(kept@) =~= views(before).push(localised_event_spec(events@[i as int], locale)));
        }
        i = i + 1;
    }
    assert(events@.subrange(0, i as int) =~= events@);
    kept
}

/// Each line behind its source in brackets: `[source] line`.
pub open spec fn tagged_spec(lines: Seq<Seq<char>>, source: Seq<char>) -> Seq<Seq<char>> {
    lines.map_values(|l: Seq<char>| "["@ + source + "] "@ + l)
}

/// What the Logs page's copy button copies: the kept kernel lines tagged
/// `[sing-box]`, then the kept events tagged with the client's name, one per
/// line.
pub open spec fn log_copy_text_spec(kernel: Seq<Seq<char>>, events: Seq<Seq<char>>, source: Seq<char>) -> Seq<char> {
    join_spec(tagged_spec(kernel, "sing-box"@) + tagged_spec(events, source), "\n"@)
}

fn tag_onto(out: &mut Vec<String>, lines: &Vec<String>, source: &str)
    ensures
        views(final(out)@) == views(old(out)@) + tagged_spec(views(lines@), source@),
{
    let ghost start = views(out@);
    let mut i: usize = 0;
    while i < lines.len()
        invariant
            i <= lines@.len(),
            views(out@) == start + tagged_spec(views(lines@.subrange(0, i as int)), source@),
        decreases lines@.len() - i,
    {
        let mut s = String::new();
        push_str(&mut s, "[");
        push_str(&mut s, source);
        push_str(&mut s, "] ");
        push_str(&mut s, lines[i].as_str());
        let ghost before = views(out@);
        out.push(s);
        proof {
            assert(views(out@) =~= before.push(s@));
            assert(views(lines@.subrange(0, i + 1)) =~= views(lines@.subrange(0, i as int)).push(lines@[i as int]@));
            assert(tagged_spec(views(lines@.subrange(0, i + 1)), source@) =~= tagged_spec(
                views(lines@.subrange(0, i as int)),
                source@,
            ).push(s@));
        }
        i = i + 1;
    }
    assert(lines@.subrange(0, i as int) =~= lines@);
}

/// The clipboard text of the Logs page's copy button.
pub fn log_copy_text(kernel: &Vec<String>, events: &Vec<String>, source: &str) -> (s: String)
    ensures
        s@ == log_copy_text_spec(views(kernel@), views(events@), source@),
{
    let mut tagged: Vec<String> = Vec::new();
    tag_onto(&mut tagged, kernel, "sing-box");
    tag_onto(&mut tagged, events, source);
    assert(views(Seq::<String>::empty()) =~= Seq::<Seq<char>>::empty());
    join(&tagged, "\n")
}


/// How many rows a long list shows before "show all" is pressed.
pub const LIST_PAGE: usize = 120;

/// Whether the Rules page's search finds a rule: an empty key finds every
/// rule; otherwise the key occurs in the lowercased matcher and rule kind
/// (as the row writes them, joined by a space) or in the lowercased
/// outbound.
pub open spec fn rule_hits_spec(matcher: Seq<char>, kind: Seq<char>, outbound: Seq<char>, key: Seq<char>) -> bool {
    key.len() == 0 || contains_spec(lowercase(matcher + " "@ + kind), key) || contains_spec(lowercase(outbound), key)
}

/// Whether the text in the Rules page's search box finds a rule with this
/// matcher, kind and outbound.
pub fn rule_hits(matcher: &str, kind: &str, outbound: &str, typed: &str) -> (r: bool)
    ensures
        r == rule_hits_spec(matcher@, kind@, outbound@, search_key_spec(typed@)),
{
    let key = search_key(typed);
    let k = chars_of(key.as_str());
    if k.len() == 0 {
        return true;
    }
    let mut row = matcher.to_string();
    push_str(&mut row, " ");
    push_str(&mut row, kind);
    let lowered = to_lowercase(row.as_str());
    if contains_chars(&chars_of(lowered.as_str()), &k) {
        return true;
    }
    let out = to_lowercase(outbound);
    contains_chars(&chars_of(out.as_str()), &k)
}

/// How many of `matched` rows a long list shows: one page, or every row
/// once "show all" is on.
pub fn page_rows(matched: usize, show_all: bool) -> (n: usize)
    ensures
        n == if show_all || matched <= LIST_PAGE {
            matched
        } else {
            LIST_PAGE
        },
{
    if show_all || matched <= LIST_PAGE {
        matched
    } else {
        LIST_PAGE
    }
}

/// The Connections page's table: the rows ordered by download, biggest
/// first (ties keep the engine's order), and the positions in that order of
/// the rows the filter text keeps, at most [`LIST_PAGE`] of them unless every
/// row is asked for.
pub fn desktop_connection_rows(rows: Vec<Connection>, typed: &str, show_all: bool) -> (r: (Vec<Connection>, Vec<usize>))
    ensures
        r.0@ == ordered_spec(rows@, RowOrder::Heaviest),
        r.1@ == if show_all || match_positions_spec(r.0@, trim_spec(typed@)).len() <= LIST_PAGE {
            match_positions_spec(r.0@, trim_spec(typed@))
        } else {
            match_positions_spec(r.0@, trim_spec(typed@)).take(LIST_PAGE as int)
        },
        r.1@.len() == if show_all || visible_spec(r.0@, trim_spec(typed@)).len() <= LIST_PAGE {
            visible_spec(r.0@, trim_spec(typed@)).len()
        } else {
            LIST_PAGE as nat
        },
        forall|k: int|
            0 <= k < r.1@.len() ==> #[trigger] r.1@[k] < r.0@.len() && r.0@[r.1@[k] as int] == visible_spec(
                r.0@,
                trim_spec(typed@),
            )[k],
        forall|a: int, b: int| 0 <= a < b < r.1@.len() ==> r.1@[a] < r.1@[b],
{
    let sorted = sort_rows(rows, RowOrder::Heaviest);
    let query = trim(typed);
    let mut shown = visible_connections(&sorted, query.as_str());
    if !show_all {
        shown.truncate(LIST_PAGE);
    }
    (sorted, shown)
}


/// With an empty search key, the "All" and "Debug" chips keep the whole
/// buffer, every line in its place.
pub proof fn an_empty_search_keeps_the_whole_buffer(lines: Seq<Seq<char>>)
    ensures
        kept_lines_spec(lines, Seq::empty(), LogLevelFilter::All) == lines,
        kept_lines_spec(lines, Seq::empty(), LogLevelFilter::Debug) == lines,
    decreases lines.len(),
{
    if lines.len() > 0 {
        an_empty_search_keeps_the_whole_buffer(lines.drop_last());
        assert(lines.drop_last().push(lines.last()) =~= lines);
    } else {
        assert(kept_lines_spec(lines, Seq::empty(), LogLevelFilter::All) =~= lines);
        assert(kept_lines_spec(lines, Seq::empty(), LogLevelFilter::Debug) =~= lines);
    }
}


/// What a click on the Connections page's "close all" button does: the first
/// click only arms it; a click on the armed button disarms it and sends the
/// request to close every connection.
pub open spec fn close_all_click_spec(armed: bool) -> (bool, Option<CommandModel>) {
    if armed {
        (false, Some(CommandModel::CloseAllConnections))
    } else {
        (true, None)
    }
}

pub fn close_all_click(armed: bool) -> (r: (bool, Option<ClientCommand>))
    ensures
        r.0 == close_all_click_spec(armed).0,
        match r.1 {
            Some(c) => close_all_click_spec(armed).1 == Some(c@),
            None => close_all_click_spec(armed).1 is None,
        },
{
    if armed {
        (false, Some(ClientCommand::CloseAllConnections))
    } else {
        (true, None)
    }
}

/// Closing every connection takes two clicks: an unarmed button sends
/// nothing, and the click after it sends the request and disarms again.
pub proof fn closing_all_takes_two_clicks()
    ensures
        close_all_click_spec(false) == (true, None::<CommandModel>),
        close_all_click_spec(close_all_click_spec(false).0) == (false, Some(CommandModel::CloseAllConnections)),
{
}

/// The "close all" button's label: the action, or the request to confirm.
pub fn close_all_label(armed: bool, locale: Locale) -> (s: &'static str)
    ensures
        s@ == if armed {
            if locale == Locale::En { "Click again to confirm"@ } else { "再次点击确认"@ }
        } else {
            if locale == Locale::En { "Close all"@ } else { "关闭全部"@ }
        },
{
    if armed {
        tr(locale, "再次点击确认", "Click again to confirm")
    } else {
        tr(locale, "关闭全部", "Close all")
    }
}

/// The pause toggle's label: resume while the table is frozen, pause while
/// it follows the core.
pub fn pause_label(paused: bool, locale: Locale) -> (s: &'static str)
    ensures
        s@ == if paused {
            if locale == Locale::En { "Resume"@ } else { "继续刷新"@ }
        } else {
            if locale == Locale::En { "Pause"@ } else { "暂停刷新"@ }
        },
{
    if paused {
        tr(locale, "继续刷新", "Resume")
    } else {
        tr(locale, "暂停刷新", "Pause")
    }
}

} // verus!
