//! The desktop log page: how its auto-scroll recognises a new line once the
//! painted row count has saturated, and which language an event line is
//! shown in.

use vstd::prelude::*;
use crate::text::{str_eq, views};

use crate::gui_lang::Locale;

verus! {

/// How many of the newest kernel lines the page paints.
pub const KERNEL_ROWS: usize = 180;

/// How many of the newest client events the page paints.
pub const EVENT_ROWS: usize = 60;

/// Which row the page pinned auto-scroll to: how many rows it painted, and
/// the last row's stream and text. The identity of the last row, not the
/// count, is what tells a new line from a repaint once the ring buffers are
/// full.
#[derive(Clone, Debug, PartialEq, Eq)]
pub struct LogTail {
    /// Rows the page paints, i.e. the index of the last one plus one.
    pub rows: usize,
    /// The stream the last row came from.
    pub source: String,
    /// The last row's text.
    pub line: String,
}

pub open spec fn min_nat(a: nat, b: nat) -> nat {
    if a < b {
        a
    } else {
        b
    }
}

/// The tail painted from `kernel` then `events`: events are painted after the
/// kernel rows, so the last row is the newest event whenever one shows, and
/// the newest kernel line otherwise.
pub open spec fn log_tail_spec(
    kernel: Seq<Seq<char>>,
    events: Seq<Seq<char>>,
    event_source: Seq<char>,
) -> (nat, Seq<char>, Seq<char>) {
    let rows = min_nat(kernel.len(), KERNEL_ROWS as nat) + min_nat(events.len(), EVENT_ROWS as nat);
    if events.len() > 0 {
        (rows, event_source, events.last())
    } else {
        (rows, "sing-box"@, if kernel.len() > 0 {
            kernel.last()
        } else {
            Seq::empty()
        })
    }
}

pub open spec fn tail_view(t: LogTail) -> (nat, Seq<char>, Seq<char>) {
    (t.rows as nat, t.source@, t.line@)
}

impl LogTail {
    /// The tail the page is about to paint from these two filtered streams.
    pub fn new(kernel: &[String], events: &[String], event_source: &str) -> (t: LogTail)
        ensures
            tail_view(t) == log_tail_spec(views(kernel@), views(events@), event_source@),
    {
        let shown_kernel = if kernel.len() < KERNEL_ROWS {
            kernel.len()
        } else {
            KERNEL_ROWS
        };
        let shown_events = if events.len() < EVENT_ROWS {
            events.len()
        } else {
            EVENT_ROWS
        };
        if events.len() > 0 {
            LogTail {
                rows: shown_kernel + shown_events,
                source: event_source.to_owned(),
                line: events[events.len() - 1].clone(),
            }
        } else {
            let line = if kernel.len() > 0 {
                kernel[kernel.len() - 1].clone()
            } else {
                String::new()
            };
            LogTail { rows: shown_kernel + shown_events, source: "sing-box".to_owned(), line }
        }
    }

    /// The row to pin the view to, or `None` while nothing is painted.
    pub fn last_row(&self) -> (r: Option<usize>)
        ensures
            self.rows == 0 ==> r is None,
            self.rows > 0 ==> r == Some((self.rows - 1) as usize),
    {
        if self.rows == 0 {
            None
        } else {
            Some(self.rows - 1)
        }
    }
}

/// Two tails describe the same painted last row.
pub fn same_tail(a: &LogTail, b: &LogTail) -> (r: bool)
    ensures
        r == (tail_view(*a) == tail_view(*b)),
{
    a.rows == b.rows && str_eq(a.source.as_str(), b.source.as_str()) && str_eq(
        a.line.as_str(),
        b.line.as_str(),
    )
}

/// The row auto-scroll jumps to on this paint: none when follow is off or the
/// last row is the one already pinned, otherwise the last painted row, if
/// any.
pub open spec fn follow_target_spec(seen: Option<(nat, Seq<char>, Seq<char>)>, tail: (
    nat,
    Seq<char>,
    Seq<char>,
), follow: bool) -> Option<nat> {
    if !follow || seen == Some(tail) || tail.0 == 0 {
        None
    } else {
        Some((tail.0 - 1) as nat)
    }
}

pub fn follow_target(seen: Option<&LogTail>, tail: &LogTail, follow: bool) -> (r: Option<usize>)
    ensures
        match r {
            Some(row) => follow_target_spec(
                match seen {
                    Some(s) => Some(tail_view(*s)),
                    None => None,
                },
                tail_view(*tail),
                follow,
            ) == Some(row as nat),
            None => follow_target_spec(
                match seen {
                    Some(s) => Some(tail_view(*s)),
                    None => None,
                },
                tail_view(*tail),
                follow,
            ) is None,
        },
{
    let repaint = match seen {
        Some(s) => same_tail(s, tail),
        None => false,
    };
    if !follow || repaint {
        return None;
    }
    tail.last_row()
}

/// A paint that brings a last row different from the pinned one always jumps
/// (while following and while anything is painted), even when the row count
/// did not change; a repaint of the same row never does.
pub proof fn follow_sees_new_lines_after_saturation(
    seen: (nat, Seq<char>, Seq<char>),
    tail: (nat, Seq<char>, Seq<char>),
)
    requires
        tail.0 > 0,
        seen.0 == tail.0,
        seen.2 != tail.2,
    ensures
        follow_target_spec(Some(seen), tail, true) == Some((tail.0 - 1) as nat),
        follow_target_spec(Some(tail), tail, true) is None,
        follow_target_spec(Some(seen), tail, false) is None,
{
}

/// One line of the event stream: its text, and the two renderings of the
/// coded event behind it when it has one.
#[derive(Clone, Debug)]
pub struct EventLine {
    pub text: String,
    /// The `(Chinese, English)` renderings of the line's coded event.
    pub rendered: Option<(String, String)>,
}

/// An event line as the interface shows it in `locale`.
pub open spec fn localised_event_spec(line: EventLine, locale: Locale) -> Seq<char> {
    match line.rendered {
        Some((zh, en)) => if locale == Locale::En {
            en@
        } else {
            zh@
        },
        None => line.text@,
    }
}

/// The one-line form of an event in the interface's language: a coded event
/// renders in that language, a bare line is shown verbatim.
pub fn localised_event_line(line: &EventLine, locale: Locale) -> (s: String)
    ensures
        s@ == localised_event_spec(*line, locale),
{
    match &line.rendered {
        Some((zh, en)) => match locale {
            Locale::En => en.clone(),
            Locale::Zh => zh.clone(),
        },
        None => line.text.clone(),
    }
}

} // verus!
