//! The terminal client's Logs tab: the keyword filter, the paged window over
//! the log tail, and the input box that keeps the end of a long value in view.

use vstd::prelude::*;

use crate::text::{
    char_columns, char_width, chars_of, contains_chars, contains_spec, lowercase, string_of,
    to_lowercase,
};

verus! {

/// Whether a log line contains the keyword filter, ignoring case; an empty
/// keyword keeps every line.
pub open spec fn log_query_matches_spec(query: Seq<char>, line: Seq<char>) -> bool {
    query.len() == 0 || contains_spec(lowercase(line), lowercase(query))
}

/// Whether a kernel log line contains the active keyword filter.
pub fn log_query_matches(query: &str, line: &str) -> (r: bool)
    ensures
        r == log_query_matches_spec(query@, line@),
{
    if query.unicode_len() == 0 {
        return true;
    }
    let l = to_lowercase(line);
    let q = to_lowercase(query);
    let lv = chars_of(l.as_str());
    let qv = chars_of(q.as_str());
    contains_chars(&lv, &qv)
}

/// The rows the Logs panel shows out of `len` lines, as `(start, end)`: the
/// newest `height` lines (at least one row), walked back `scroll` rows and
/// clamped at the oldest line; a list that fits is shown whole.
pub open spec fn log_window_spec(len: nat, height: nat, scroll: nat) -> (nat, nat) {
    let h = if height < len {
        height
    } else {
        len
    };
    let h = if h < 1 {
        1
    } else {
        h
    };
    if len <= h {
        (0, len)
    } else {
        let max_scroll = (len - h) as nat;
        let back = if scroll < max_scroll {
            scroll
        } else {
            max_scroll
        };
        let end = (len - back) as nat;
        ((end - h) as nat, end)
    }
}

/// The bounds of the window over `len` log lines.
pub fn log_window_bounds(len: usize, height: u16, scroll: usize) -> (r: (usize, usize))
    ensures
        (r.0 as nat, r.1 as nat) == log_window_spec(len as nat, height as nat, scroll as nat),
        r.0 <= r.1 <= len,
{
    let h0 = if (height as usize) < len {
        height as usize
    } else {
        len
    };
    let h = if h0 < 1 {
        1
    } else {
        h0
    };
    if len <= h {
        (0, len)
    } else {
        let max_scroll = len - h;
        let back = if scroll < max_scroll {
            scroll
        } else {
            max_scroll
        };
        let end = len - back;
        (end - h, end)
    }
}

/// The window of log rows shown by the Logs panel: the newest `height` lines
/// by default, walked back `scroll` rows at the user's request.
pub fn log_window(lines: &[String], height: u16, scroll: usize) -> (rows: Vec<String>)
    ensures
        rows@ == lines@.subrange(
            log_window_spec(lines@.len(), height as nat, scroll as nat).0 as int,
            log_window_spec(lines@.len(), height as nat, scroll as nat).1 as int,
        ),
{
    let (start, end) = log_window_bounds(lines.len(), height, scroll);
    let mut rows: Vec<String> = Vec::new();
    let mut i = start;
    while i < end
        invariant
            start <= i <= end <= lines@.len(),
            rows@ == lines@.subrange(start as int, i as int),
        decreases end - i,
    {
        rows.push(lines[i].clone());
        i = i + 1;
        assert(rows@ =~= lines@.subrange(start as int, i as int));
    }
    rows
}

/// Without scrolling the newest line is on screen; the window is exactly the
/// panel's height (at least one row) unless the list is shorter; and paging
/// never leaves the list.
pub proof fn log_window_keeps_the_newest(len: nat, height: nat, scroll: nat)
    ensures
        len > 0 && scroll == 0 ==> log_window_spec(len, height, scroll).1 == len,
        log_window_spec(len, height, scroll).0 <= log_window_spec(len, height, scroll).1 <= len,
        (log_window_spec(len, height, scroll).1 - log_window_spec(len, height, scroll).0) == if len
            <= (if height < 1 {
            1
        } else {
            height
        }) {
            len
        } else if height < 1 {
            1
        } else {
            height
        },
{
}

/// How many characters from the end of `s` fit in `width` columns, taking
/// characters from the end until the next one would not fit.
pub open spec fn tail_fit_len(s: Seq<char>, width: nat) -> nat
    decreases s.len(),
{
    if s.len() == 0 || char_width(s.last()) > width {
        0
    } else {
        1 + tail_fit_len(s.drop_last(), (width - char_width(s.last())) as nat)
    }
}

/// The columns a character sequence takes, one character at a time.
pub open spec fn columns_spec(s: Seq<char>) -> nat
    decreases s.len(),
{
    if s.len() == 0 {
        0
    } else {
        columns_spec(s.drop_last()) + char_width(s.last())
    }
}

/// The end of `s` that fits in `width` columns.
pub open spec fn tail_within_width_spec(s: Seq<char>, width: nat) -> Seq<char> {
    s.subrange(s.len() - tail_fit_len(s, width), s.len() as int)
}

proof fn lemma_tail_fit_len_bound(s: Seq<char>, width: nat)
    ensures
        tail_fit_len(s, width) <= s.len(),
    decreases s.len(),
{
    if s.len() > 0 && char_width(s.last()) <= width {
        lemma_tail_fit_len_bound(s.drop_last(), (width - char_width(s.last())) as nat);
    }
}

proof fn lemma_columns_append(a: Seq<char>, b: Seq<char>)
    ensures
        columns_spec(a + b) == columns_spec(a) + columns_spec(b),
    decreases b.len(),
{
    if b.len() > 0 {
        lemma_columns_append(a, b.drop_last());
        assert((a + b).drop_last() =~= a + b.drop_last());
    }
}

/// The kept tail never takes more columns than it was given.
pub proof fn tail_within_width_fits(s: Seq<char>, width: nat)
    ensures
        columns_spec(tail_within_width_spec(s, width)) <= width,
        tail_within_width_spec(s, width).is_suffix_of(s),
    decreases s.len(),
{
    lemma_tail_fit_len_bound(s, width);
    let t = tail_within_width_spec(s, width);
    if s.len() > 0 && char_width(s.last()) <= width {
        let rest = (width - char_width(s.last())) as nat;
        tail_within_width_fits(s.drop_last(), rest);
        let t0 = tail_within_width_spec(s.drop_last(), rest);
        assert(t =~= t0 + seq![s.last()]);
        lemma_columns_append(t0, seq![s.last()]);
        assert(columns_spec(seq![s.last()]) == char_width(s.last())) by {
            let one = seq![s.last()];
            assert(one.drop_last() =~= Seq::<char>::empty());
            assert(columns_spec(Seq::<char>::empty()) == 0);
            assert(one.last() == s.last());
        }
    } else {
        assert(t =~= Seq::<char>::empty());
    }
    assert(t =~= s.subrange(s.len() - t.len(), s.len() as int));
}

/// The end of `text` that fits in `width` display columns.
pub fn tail_within_width(text: &str, width: usize) -> (tail: String)
    ensures
        tail@ == tail_within_width_spec(text@, width as nat),
{
    let v = chars_of(text);
    let n = v.len();
    let mut used: usize = 0;
    let mut k: usize = 0;
    assert(v@.subrange(0, n as int) =~= v@);
    while k < n
        invariant
            n == v@.len(),
            k <= n,
            used <= width,
            tail_fit_len(v@, width as nat) == k + tail_fit_len(
                v@.subrange(0, n - k),
                (width - used) as nat,
            ),
        ensures
            k <= n,
            tail_fit_len(v@, width as nat) == k,
        decreases n - k,
    {
        let c = v[n - 1 - k];
        let columns = char_columns(c);
        proof {
            let s = v@.subrange(0, n - k);
            assert(s.last() == c);
            assert(s.drop_last() =~= v@.subrange(0, n - k - 1));
        }
        if columns > width - used {
            break;
        }
        proof {
            if k + 1 == n {
                assert(v@.subrange(0, n - k - 1) =~= Seq::<char>::empty());
            }
        }
        used = used + columns;
        k = k + 1;
    }
    string_of(&v, n - k, n)
}

} // verus!
