//! The connection table both clients draw: the keyword filter, the sort
//! orders the terminal client cycles through, and the target and chain
//! columns of the desktop table.

use vstd::prelude::*;
use crate::text::{
    chars_of,
    contains_chars,
    contains_spec,
    lowercase,
    opt_view,
    push_chars,
    push_str,
    string_of,
    to_lowercase,
    trim,
    trim_spec,
    views,
};

use crate::clash_api::Connection;
use crate::order::{compare_str, lemma_lex_antisym, lemma_lex_le_trans, lex_le, lex_order};
use crate::tui::ConnSort;
use std::cmp::Ordering;

verus! {

/// Whether `text`, lower-cased, contains the lower-cased keyword.
pub open spec fn field_matches(text: Seq<char>, keyword: Seq<char>) -> bool {
    contains_spec(lowercase(text), lowercase(keyword))
}

/// Whether a connection matches the table's keyword filter: an empty keyword
/// keeps every row; otherwise the keyword, ignoring case, has to occur in the
/// destination host or address, the network, the matched rule, or one of the
/// chain's outbounds.
pub open spec fn connection_matches_spec(c: Connection, keyword: Seq<char>) -> bool {
    ||| keyword.len() == 0
    ||| field_matches(c.metadata.destination_host@, keyword)
    ||| field_matches(c.metadata.destination_ip@, keyword)
    ||| field_matches(c.metadata.network@, keyword)
    ||| field_matches(c.rule@, keyword)
    ||| exists|i: int| 0 <= i < c.chains@.len() && field_matches(#[trigger] c.chains@[i]@, keyword)
}

/// The table filter searches every column it names: an empty keyword keeps
/// every connection, a keyword that occurs (ignoring case) in the
/// destination host, the destination address, the network, the rule or one
/// of the chain's outbounds keeps it, and a non-empty keyword found in none
/// of them drops it.
pub proof fn the_filter_searches_every_column(c: Connection, keyword: Seq<char>)
    ensures
        keyword.len() == 0 ==> connection_matches_spec(c, keyword),
        contains_spec(lowercase(c.metadata.destination_host@), lowercase(keyword))
            ==> connection_matches_spec(c, keyword),
        contains_spec(lowercase(c.metadata.destination_ip@), lowercase(keyword))
            ==> connection_matches_spec(c, keyword),
        contains_spec(lowercase(c.metadata.network@), lowercase(keyword))
            ==> connection_matches_spec(c, keyword),
        contains_spec(lowercase(c.rule@), lowercase(keyword)) ==> connection_matches_spec(c, keyword),
        forall|i: int|
            0 <= i < c.chains@.len() && contains_spec(lowercase(#[trigger] c.chains@[i]@), lowercase(keyword))
                ==> connection_matches_spec(c, keyword),
        connection_matches_spec(c, keyword) ==> {
            ||| keyword.len() == 0
            ||| contains_spec(lowercase(c.metadata.destination_host@), lowercase(keyword))
            ||| contains_spec(lowercase(c.metadata.destination_ip@), lowercase(keyword))
            ||| contains_spec(lowercase(c.metadata.network@), lowercase(keyword))
            ||| contains_spec(lowercase(c.rule@), lowercase(keyword))
            ||| exists|i: int|
                0 <= i < c.chains@.len() && contains_spec(lowercase(#[trigger] c.chains@[i]@), lowercase(keyword))
        },
{
    assert forall|i: int|
        0 <= i < c.chains@.len() && contains_spec(lowercase(#[trigger] c.chains@[i]@), lowercase(keyword))
            implies connection_matches_spec(c, keyword) by {
        assert(field_matches(c.chains@[i]@, keyword));
    }
}

fn field_contains(text: &String, lowered_keyword: &Vec<char>) -> (r: bool)
    ensures
        r == contains_spec(lowercase(text@), lowered_keyword@),
{
    let l = to_lowercase(text.as_str());
    let v = chars_of(l.as_str());
    contains_chars(&v, lowered_keyword)
}

impl Connection {
    /// The table filter.
    pub fn matches(&self, keyword: &str) -> (r: bool)
        ensures
            r == connection_matches_spec(*self, keyword@),
    {
        if keyword.unicode_len() == 0 {
            return true;
        }
        let lk = to_lowercase(keyword);
        let k = chars_of(lk.as_str());
        if field_contains(&self.metadata.destination_host, &k) || field_contains(
            &self.metadata.destination_ip,
            &k,
        ) || field_contains(&self.metadata.network, &k) || field_contains(&self.rule, &k) {
            return true;
        }
        let mut i: usize = 0;
        while i < self.chains.len()
            invariant
                k@ == lowercase(keyword@),
                i <= self.chains@.len(),
                forall|m: int| 0 <= m < i ==> !field_matches(#[trigger] self.chains@[m]@, keyword@),
            decreases self.chains@.len() - i,
        {
            if field_contains(&self.chains[i], &k) {
                return true;
            }
            i = i + 1;
        }
        false
    }
}

/// The connections after the keyword filter, in display order.
pub open spec fn visible_spec(rows: Seq<Connection>, keyword: Seq<char>) -> Seq<Connection> {
    rows.filter(|c: Connection| connection_matches_spec(c, keyword))
}

/// The positions in `rows` of the connections the filter keeps, in order.
pub open spec fn match_positions_spec(rows: Seq<Connection>, keyword: Seq<char>) -> Seq<usize>
    decreases rows.len(),
{
    if rows.len() == 0 {
        Seq::empty()
    } else {
        let rest = match_positions_spec(rows.drop_last(), keyword);
        if connection_matches_spec(rows.last(), keyword) {
            rest.push((rows.len() - 1) as usize)
        } else {
            rest
        }
    }
}

proof fn lemma_match_positions(rows: Seq<Connection>, keyword: Seq<char>)
    requires
        rows.len() <= usize::MAX,
    ensures
        forall|k: int|
            0 <= k < match_positions_spec(rows, keyword).len() ==> {
                &&& (#[trigger] match_positions_spec(rows, keyword)[k]) < rows.len()
                &&& connection_matches_spec(rows[match_positions_spec(rows, keyword)[k] as int], keyword)
            },
        forall|a: int, b: int|
            0 <= a < b < match_positions_spec(rows, keyword).len() ==> (#[trigger] match_positions_spec(
                rows,
                keyword,
            )[a]) < (#[trigger] match_positions_spec(rows, keyword)[b]),
        forall|p: int|
            0 <= p < rows.len() && connection_matches_spec(#[trigger] rows[p], keyword) ==> exists|k: int|
                0 <= k < match_positions_spec(rows, keyword).len() && match_positions_spec(rows, keyword)[k] == p,
    decreases rows.len(),
{
    if rows.len() > 0 {
        let pre = rows.drop_last();
        lemma_match_positions(pre, keyword);
        let m = match_positions_spec(pre, keyword);
        let r = match_positions_spec(rows, keyword);
        assert forall|k: int| 0 <= k < m.len() implies rows[m[k] as int] == pre[m[k] as int] by {}
        assert forall|p: int|
            0 <= p < rows.len() && connection_matches_spec(#[trigger] rows[p], keyword) implies exists|k: int|
                0 <= k < r.len() && r[k] == p by {
            if p < pre.len() {
                assert(pre[p] == rows[p]);
                let k = choose|k: int| 0 <= k < m.len() && m[k] == p;
                assert(r[k] == m[k]);
            } else {
                assert(rows.last() == rows[p]);
                assert(r == m.push((rows.len() - 1) as usize));
                assert(r[m.len() as int] == p);
            }
        }
        if connection_matches_spec(rows.last(), keyword) {
            assert forall|k: int| 0 <= k < m.len() implies r[k] == m[k] by {}
        }
    }
}

/// The filtered table lists, in increasing order, the position of each
/// connection the filter keeps and of no other.
pub proof fn the_filtered_table_lists_exactly_the_matches(rows: Seq<Connection>, keyword: Seq<char>)
    requires
        rows.len() <= usize::MAX,
    ensures
        forall|k: int|
            0 <= k < match_positions_spec(rows, keyword).len() ==> {
                &&& (#[trigger] match_positions_spec(rows, keyword)[k]) < rows.len()
                &&& connection_matches_spec(rows[match_positions_spec(rows, keyword)[k] as int], keyword)
            },
        forall|a: int, b: int|
            0 <= a < b < match_positions_spec(rows, keyword).len() ==> (#[trigger] match_positions_spec(
                rows,
                keyword,
            )[a]) < (#[trigger] match_positions_spec(rows, keyword)[b]),
        forall|p: int|
            0 <= p < rows.len() && connection_matches_spec(#[trigger] rows[p], keyword) ==> exists|k: int|
                0 <= k < match_positions_spec(rows, keyword).len() && match_positions_spec(rows, keyword)[k] == p,
{
    lemma_match_positions(rows, keyword);
}

/// The positions of the connections the filter keeps, in order.
pub fn visible_connections(rows: &Vec<Connection>, keyword: &str) -> (visible: Vec<usize>)
    ensures
        visible@ == match_positions_spec(rows@, keyword@),
        visible@.len() == visible_spec(rows@, keyword@).len(),
        forall|k: int|
            0 <= k < visible@.len() ==> #[trigger] visible@[k] < rows@.len() && rows@[visible@[k] as int]
                == visible_spec(rows@, keyword@)[k],
        forall|a: int, b: int| 0 <= a < b < visible@.len() ==> visible@[a] < visible@[b],
{
    let mut visible: Vec<usize> = Vec::new();
    let mut i: usize = 0;
    while i < rows.len()
        invariant
            i <= rows@.len(),
            visible@ == match_positions_spec(rows@.subrange(0, i as int), keyword@),
            visible@.len() == visible_spec(rows@.subrange(0, i as int), keyword@).len(),
            forall|k: int|
                0 <= k < visible@.len() ==> #[trigger] visible@[k] < i && rows@[visible@[k] as int]
                    == visible_spec(rows@.subrange(0, i as int), keyword@)[k],
            forall|a: int, b: int| 0 <= a < b < visible@.len() ==> visible@[a] < visible@[b],
        decreases rows@.len() - i,
    {
        let ghost pre = rows@.subrange(0, i as int);
        let ghost next = rows@.subrange(0, i + 1);
        assert(next.drop_last() =~= pre);
        assert(next.last() == rows@[i as int]);
        reveal_with_fuel(Seq::filter, 1);
        if rows[i].matches(keyword) {
            visible.push(i);
        }
        i = i + 1;
    }
    assert(rows@.subrange(0, rows@.len() as int) =~= rows@);
    visible
}

/// The first position of `id` in `ids`, if it occurs.
pub open spec fn position_spec(ids: Seq<Seq<char>>, id: Seq<char>) -> Option<nat>
    decreases ids.len(),
{
    if ids.len() == 0 {
        None
    } else if ids[0] == id {
        Some(0)
    } else {
        match position_spec(ids.drop_first(), id) {
            Some(p) => Some(p + 1),
            None => None,
        }
    }
}

pub proof fn lemma_position(ids: Seq<Seq<char>>, id: Seq<char>, i: int)
    requires
        0 <= i <= ids.len(),
        forall|k: int| 0 <= k < i ==> ids[k] != id,
    ensures
        i < ids.len() && ids[i] == id ==> position_spec(ids, id) == Some(i as nat),
        i == ids.len() ==> position_spec(ids, id) is None,
    decreases i,
{
    if i > 0 {
        lemma_position(ids.drop_first(), id, i - 1);
    }
}

/// The first position of the highlighted id among `ids`, or 0 when it is
/// not there (or nothing is highlighted).
pub open spec fn found_spec(ids: Seq<Seq<char>>, selected: Option<Seq<char>>) -> nat {
    match selected {
        Some(id) => match position_spec(ids, id) {
            Some(p) => p,
            None => 0,
        },
        None => 0,
    }
}

/// The row the connection highlight sits on: the highlighted connection's
/// first position among the visible rows, or the first row when it is gone
/// (or nothing is highlighted), never past the last row.
pub open spec fn selected_index_spec(ids: Seq<Seq<char>>, selected: Option<Seq<char>>) -> nat {
    let found = found_spec(ids, selected);
    let last: nat = if ids.len() > 0 {
        (ids.len() - 1) as nat
    } else {
        0
    };
    if found < last {
        found
    } else {
        last
    }
}

pub open spec fn ids_of(rows: Seq<Connection>) -> Seq<Seq<char>> {
    rows.map_values(|c: Connection| c.id@)
}

fn found_index(ids: &Vec<String>, id: &String) -> (r: usize)
    ensures
        r == found_spec(views(ids@), Some(id@)),
{
    let ghost v = views(ids@);
    let mut i: usize = 0;
    while i < ids.len()
        invariant
            v == views(ids@),
            i <= ids@.len(),
            forall|k: int| 0 <= k < i ==> v[k] != id@,
        decreases ids@.len() - i,
    {
        if crate::text::str_eq(ids[i].as_str(), id.as_str()) {
            proof {
                lemma_position(v, id@, i as int);
            }
            return i;
        }
        i = i + 1;
    }
    proof {
        lemma_position(v, id@, i as int);
    }
    0
}

/// Where the highlighted connection sits among `ids`.
pub fn selected_index(ids: &Vec<String>, selected: &Option<String>) -> (index: usize)
    ensures
        index == selected_index_spec(views(ids@), opt_view(*selected)),
{
    let found: usize = match selected {
        Some(id) => found_index(ids, id),
        None => 0,
    };
    let last = if ids.len() > 0 {
        ids.len() - 1
    } else {
        0
    };
    if found < last {
        found
    } else {
        last
    }
}

/// Whether a proxy-label character is kept at the front: an ASCII letter or
/// digit, or a CJK unified ideograph.
pub open spec fn is_label_start(c: char) -> bool {
    ('0' <= c && c <= '9') || ('A' <= c && c <= 'Z') || ('a' <= c && c <= 'z') || ('\u{4e00}'
        <= c && c <= '\u{9fff}')
}

/// How many decoration characters (flags, emoji, punctuation) open `s`.
pub open spec fn lead_decoration(s: Seq<char>) -> nat
    decreases s.len(),
{
    if s.len() == 0 || is_label_start(s[0]) {
        0
    } else {
        1 + lead_decoration(s.drop_first())
    }
}

proof fn lemma_lead_decoration(s: Seq<char>, i: int)
    requires
        0 <= i <= s.len(),
        forall|k: int| 0 <= k < i ==> !is_label_start(#[trigger] s[k]),
        i == s.len() || is_label_start(s[i]),
    ensures
        lead_decoration(s) == i,
    decreases i,
{
    if i > 0 {
        lemma_lead_decoration(s.drop_first(), i - 1);
    }
}

/// A proxy label without its leading decoration and surrounding whitespace.
pub open spec fn clean_proxy_label_spec(s: Seq<char>) -> Seq<char> {
    trim_spec(s.subrange(lead_decoration(s) as int, s.len() as int))
}

/// Strips a proxy name's leading flag, emoji or punctuation, so the name
/// reads from its first letter, digit or Chinese character.
pub fn clean_proxy_label(value: &str) -> (label: String)
    ensures
        label@ == clean_proxy_label_spec(value@),
{
    let v = chars_of(value);
    let n = v.len();
    let mut i: usize = 0;
    while i < n && !(('0' <= v[i] && v[i] <= '9') || ('A' <= v[i] && v[i] <= 'Z') || ('a' <= v[i]
        && v[i] <= 'z') || ('\u{4e00}' <= v[i] && v[i] <= '\u{9fff}'))
        invariant
            n == v@.len(),
            i <= n,
            forall|k: int| 0 <= k < i ==> !is_label_start(#[trigger] v@[k]),
        decreases n - i,
    {
        i = i + 1;
    }
    proof {
        lemma_lead_decoration(v@, i as int);
    }
    let rest = string_of(&v, i, n);
    trim(rest.as_str())
}

/// Where a connection goes, as the desktop table's target column shows it:
/// the host (or the address when there is no host), with the port when there
/// is one, and a dash when there is neither host nor address.
pub open spec fn connection_target_spec(c: Connection) -> Seq<char> {
    let host = if c.metadata.destination_host@.len() == 0 {
        c.metadata.destination_ip@
    } else {
        c.metadata.destination_host@
    };
    if host.len() == 0 {
        "—"@
    } else if c.metadata.destination_port@.len() == 0 {
        host
    } else {
        host + ":"@ + c.metadata.destination_port@
    }
}

pub fn connection_target(connection: &Connection) -> (target: String)
    ensures
        target@ == connection_target_spec(*connection),
{
    let host = if connection.metadata.destination_host.as_str().unicode_len() == 0 {
        connection.metadata.destination_ip.as_str()
    } else {
        connection.metadata.destination_host.as_str()
    };
    let mut target = String::new();
    if host.unicode_len() == 0 {
        push_str(&mut target, "—");
    } else if connection.metadata.destination_port.as_str().unicode_len() == 0 {
        push_str(&mut target, host);
    } else {
        push_str(&mut target, host);
        push_str(&mut target, ":");
        push_str(&mut target, connection.metadata.destination_port.as_str());
    }
    target
}

/// `parts` joined with `sep` between neighbours.
pub open spec fn join_spec(parts: Seq<Seq<char>>, sep: Seq<char>) -> Seq<char>
    decreases parts.len(),
{
    if parts.len() == 0 {
        Seq::empty()
    } else if parts.len() == 1 {
        parts[0]
    } else {
        join_spec(parts.drop_last(), sep) + sep + parts.last()
    }
}

pub open spec fn cleaned_chain(chains: Seq<String>) -> Seq<Seq<char>> {
    chains.map_values(|s: String| clean_proxy_label_spec(s@))
}

/// The outbound chain column: "直连" for a direct connection, otherwise each
/// hop's cleaned name joined by arrows.
pub open spec fn connection_chain_spec(c: Connection) -> Seq<char> {
    if c.chains@.len() == 0 {
        "直连"@
    } else {
        join_spec(cleaned_chain(c.chains@), " → "@)
    }
}

pub fn connection_chain(connection: &Connection) -> (chain: String)
    ensures
        chain@ == connection_chain_spec(*connection),
{
    let mut chain = String::new();
    if connection.chains.len() == 0 {
        push_str(&mut chain, "直连");
        return chain;
    }
    let ghost parts = cleaned_chain(connection.chains@);
    let mut i: usize = 0;
    while i < connection.chains.len()
        invariant
            parts == cleaned_chain(connection.chains@),
            i <= connection.chains@.len(),
            connection.chains@.len() > 0,
            i > 0 ==> chain@ == join_spec(parts.subrange(0, i as int), " → "@),
            i == 0 ==> chain@ == Seq::<char>::empty(),
        decreases connection.chains@.len() - i,
    {
        let label = clean_proxy_label(connection.chains[i].as_str());
        proof {
            let pre = parts.subrange(0, i + 1);
            assert(pre.drop_last() =~= parts.subrange(0, i as int));
            assert(pre.last() == label@);
        }
        if i > 0 {
            push_str(&mut chain, " → ");
        }
        push_str(&mut chain, label.as_str());
        proof {
            if i == 0 {
                assert(chain@ =~= join_spec(parts.subrange(0, 1), " → "@));
            }
        }
        i = i + 1;
    }
    assert(parts.subrange(0, i as int) =~= parts);
    chain
}

/// The destination address, then the port, ascending.
pub open spec fn target_order_spec(a: Connection, b: Connection) -> int {
    let first = lex_order(a.metadata.destination_ip@, b.metadata.destination_ip@);
    if first != 0 {
        first
    } else {
        lex_order(a.metadata.destination_port@, b.metadata.destination_port@)
    }
}

/// The larger count first.
pub open spec fn desc_spec(a: u64, b: u64) -> int {
    if b < a {
        -1
    } else if b > a {
        1
    } else {
        0
    }
}

/// The three-way order of the connection table under each sort: the larger
/// download first with equal downloads ordered by target, the larger upload
/// first, the host name ascending, and the destination address then port
/// ascending.
pub open spec fn conn_order_spec(a: Connection, b: Connection, sort: ConnSort) -> int {
    match sort {
        ConnSort::Download => if a.download != b.download {
            desc_spec(a.download, b.download)
        } else {
            target_order_spec(a, b)
        },
        ConnSort::Upload => desc_spec(a.upload, b.upload),
        ConnSort::Host => lex_order(a.metadata.destination_host@, b.metadata.destination_host@),
        ConnSort::Target => target_order_spec(a, b),
    }
}

/// The order a list of connections is sorted in: one of the terminal
/// table's sort orders, or the desktop table's heaviest download first,
/// where equal downloads keep the order they came in.
#[derive(Clone, Copy, Debug, PartialEq, Eq, Structural)]
pub enum RowOrder {
    Table(ConnSort),
    Heaviest,
}

pub open spec fn row_order_spec(a: Connection, b: Connection, order: RowOrder) -> int {
    match order {
        RowOrder::Table(sort) => conn_order_spec(a, b, sort),
        RowOrder::Heaviest => desc_spec(a.download, b.download),
    }
}

pub open spec fn ordering_of(c: int) -> Ordering {
    if c < 0 {
        Ordering::Less
    } else if c > 0 {
        Ordering::Greater
    } else {
        Ordering::Equal
    }
}

pub open spec fn ordering_of_small(c: i8) -> Ordering {
    if c < 0 {
        Ordering::Less
    } else if c > 0 {
        Ordering::Greater
    } else {
        Ordering::Equal
    }
}

fn ordering_from(c: i8) -> (o: Ordering)
    ensures
        o == ordering_of_small(c),
{
    if c < 0 {
        Ordering::Less
    } else if c > 0 {
        Ordering::Greater
    } else {
        Ordering::Equal
    }
}

fn three_way_desc(a: u64, b: u64) -> (c: i8)
    ensures
        c as int == (if b < a {
            -1int
        } else if b > a {
            1int
        } else {
            0int
        }),
{
    if b < a {
        -1
    } else if b > a {
        1
    } else {
        0
    }
}

fn target_order(a: &Connection, b: &Connection) -> (c: i8)
    ensures
        c as int == target_order_spec(*a, *b),
{
    let first = compare_str(a.metadata.destination_ip.as_str(), b.metadata.destination_ip.as_str());
    if first != 0 {
        first
    } else {
        compare_str(a.metadata.destination_port.as_str(), b.metadata.destination_port.as_str())
    }
}

fn order_of(a: &Connection, b: &Connection, sort: ConnSort) -> (c: i8)
    ensures
        c as int == conn_order_spec(*a, *b, sort),
{
    match sort {
        ConnSort::Download => {
            let by_bytes = three_way_desc(a.download, b.download);
            if by_bytes != 0 {
                by_bytes
            } else {
                target_order(a, b)
            }
        },
        ConnSort::Upload => three_way_desc(a.upload, b.upload),
        ConnSort::Host => compare_str(
            a.metadata.destination_host.as_str(),
            b.metadata.destination_host.as_str(),
        ),
        ConnSort::Target => target_order(a, b),
    }
}

fn row_order(a: &Connection, b: &Connection, order: RowOrder) -> (c: i8)
    ensures
        c as int == row_order_spec(*a, *b, order),
{
    match order {
        RowOrder::Table(sort) => order_of(a, b, sort),
        RowOrder::Heaviest => three_way_desc(a.download, b.download),
    }
}

/// The comparison behind the connection-table sort.
pub fn conn_sort_key(a: &Connection, b: &Connection, sort: ConnSort) -> (o: Ordering)
    ensures
        o == ordering_of(conn_order_spec(*a, *b, sort)),
{
    ordering_from(order_of(a, b, sort))
}

pub open spec fn conn_le(a: Connection, b: Connection, order: RowOrder) -> bool {
    row_order_spec(a, b, order) <= 0
}

proof fn lemma_target_antisym(a: Connection, b: Connection)
    ensures
        target_order_spec(a, b) == -target_order_spec(b, a),
{
    lemma_lex_antisym(a.metadata.destination_ip@, b.metadata.destination_ip@);
    lemma_lex_antisym(a.metadata.destination_port@, b.metadata.destination_port@);
}

proof fn lemma_target_le_trans(a: Connection, b: Connection, c: Connection)
    requires
        target_order_spec(a, b) <= 0,
        target_order_spec(b, c) <= 0,
    ensures
        target_order_spec(a, c) <= 0,
{
    let (ai, bi, ci) = (
        a.metadata.destination_ip@,
        b.metadata.destination_ip@,
        c.metadata.destination_ip@,
    );
    let (ap, bp, cp) = (
        a.metadata.destination_port@,
        b.metadata.destination_port@,
        c.metadata.destination_port@,
    );
    lemma_lex_antisym(ai, bi);
    lemma_lex_antisym(bi, ci);
    lemma_lex_antisym(ai, ci);
    if lex_order(ai, bi) == 0 && lex_order(bi, ci) == 0 {
        lemma_lex_le_trans(ap, bp, cp);
    } else if lex_order(ai, bi) == 0 {
        assert(ai == bi);
    } else if lex_order(bi, ci) == 0 {
        assert(bi == ci);
    } else {
        lemma_lex_le_trans(ai, bi, ci);
        if lex_order(ai, ci) == 0 {
            assert(ai == ci);
            lemma_lex_antisym(bi, ai);
        }
    }
}

proof fn lemma_conn_order_antisym(a: Connection, b: Connection, order: RowOrder)
    ensures
        row_order_spec(a, b, order) == -row_order_spec(b, a, order),
{
    lemma_lex_antisym(a.metadata.destination_host@, b.metadata.destination_host@);
    lemma_target_antisym(a, b);
}

proof fn lemma_conn_le_trans(a: Connection, b: Connection, c: Connection, order: RowOrder)
    requires
        conn_le(a, b, order),
        conn_le(b, c, order),
    ensures
        conn_le(a, c, order),
{
    match order {
        RowOrder::Heaviest => {},
        RowOrder::Table(sort) => match sort {
            ConnSort::Host => {
                lemma_lex_le_trans(
                    a.metadata.destination_host@,
                    b.metadata.destination_host@,
                    c.metadata.destination_host@,
                );
            },
            ConnSort::Target => {
                lemma_target_le_trans(a, b, c);
            },
            ConnSort::Download => {
                if a.download == b.download && b.download == c.download {
                    lemma_target_le_trans(a, b, c);
                }
            },
            ConnSort::Upload => {},
        },
    }
}

/// Where a stable insertion puts `x` into `sorted`: after every element it
/// does not precede.
pub open spec fn insert_pos(sorted: Seq<Connection>, x: Connection, order: RowOrder) -> nat
    decreases sorted.len(),
{
    if sorted.len() == 0 || row_order_spec(x, sorted.last(), order) >= 0 {
        sorted.len()
    } else {
        insert_pos(sorted.drop_last(), x, order)
    }
}

/// The stable sort of `rows` in an order (`slice::sort_by`): each row is
/// inserted after every earlier row it does not precede.
pub open spec fn ordered_spec(rows: Seq<Connection>, order: RowOrder) -> Seq<Connection>
    decreases rows.len(),
{
    if rows.len() == 0 {
        rows
    } else {
        let prefix = ordered_spec(rows.drop_last(), order);
        prefix.insert(insert_pos(prefix, rows.last(), order) as int, rows.last())
    }
}

proof fn lemma_insert_pos_bound(sorted: Seq<Connection>, x: Connection, order: RowOrder)
    ensures
        insert_pos(sorted, x, order) <= sorted.len(),
    decreases sorted.len(),
{
    if sorted.len() > 0 && row_order_spec(x, sorted.last(), order) < 0 {
        lemma_insert_pos_bound(sorted.drop_last(), x, order);
    }
}

/// Whether `rows` runs in `order`.
pub open spec fn conn_sorted(rows: Seq<Connection>, order: RowOrder) -> bool {
    forall|i: int, j: int| 0 <= i <= j < rows.len() ==> conn_le(#[trigger] rows[i], #[trigger] rows[j], order)
}

proof fn lemma_insert_pos_props(sorted: Seq<Connection>, x: Connection, order: RowOrder)
    ensures
        insert_pos(sorted, x, order) <= sorted.len(),
        forall|k: int|
            insert_pos(sorted, x, order) <= k < sorted.len() ==> row_order_spec(x, #[trigger] sorted[k], order) < 0,
        insert_pos(sorted, x, order) > 0 ==> row_order_spec(
            x,
            sorted[insert_pos(sorted, x, order) - 1],
            order,
        ) >= 0,
    decreases sorted.len(),
{
    if sorted.len() > 0 && row_order_spec(x, sorted.last(), order) < 0 {
        let rest = sorted.drop_last();
        lemma_insert_pos_props(rest, x, order);
        assert forall|k: int| insert_pos(sorted, x, order) <= k < sorted.len() implies row_order_spec(
            x,
            #[trigger] sorted[k],
            order,
        ) < 0 by {
            if k < rest.len() {
                assert(sorted[k] == rest[k]);
            }
        }
    }
}

proof fn lemma_insert_keeps_order(sorted: Seq<Connection>, x: Connection, order: RowOrder)
    requires
        conn_sorted(sorted, order),
    ensures
        conn_sorted(sorted.insert(insert_pos(sorted, x, order) as int, x), order),
{
    lemma_insert_pos_props(sorted, x, order);
    let p = insert_pos(sorted, x, order) as int;
    let r = sorted.insert(p, x);
    assert forall|a: int, b: int| 0 <= a <= b < r.len() implies conn_le(#[trigger] r[a], #[trigger] r[b], order) by {
        lemma_conn_order_antisym(r[a], r[b], order);
        if a == b {
        } else if b < p {
            assert(r[a] == sorted[a] && r[b] == sorted[b]);
        } else if a > p {
            assert(r[a] == sorted[a - 1] && r[b] == sorted[b - 1]);
        } else if a == p {
            assert(r[b] == sorted[b - 1]);
        } else {
            assert(r[a] == sorted[a]);
            lemma_conn_order_antisym(x, sorted[p - 1], order);
            assert(conn_le(sorted[a], sorted[p - 1], order));
            lemma_conn_le_trans(sorted[a], sorted[p - 1], x, order);
            if b > p {
                assert(r[b] == sorted[b - 1]);
                lemma_conn_le_trans(sorted[a], x, sorted[b - 1], order);
            }
        }
    }
}

/// Sorted connections run in the chosen order and hold every connection of
/// the snapshot, each as often as it occurred.
pub proof fn sorting_connections_orders_and_keeps_every_row(rows: Seq<Connection>, order: RowOrder)
    ensures
        conn_sorted(ordered_spec(rows, order), order),
        ordered_spec(rows, order).to_multiset() == rows.to_multiset(),
    decreases rows.len(),
{
    broadcast use vstd::seq_lib::group_to_multiset_ensures;

    if rows.len() == 0 {
        assert(ordered_spec(rows, order) =~= rows);
    } else {
        let prefix = ordered_spec(rows.drop_last(), order);
        sorting_connections_orders_and_keeps_every_row(rows.drop_last(), order);
        lemma_insert_keeps_order(prefix, rows.last(), order);
        lemma_insert_pos_props(prefix, rows.last(), order);
        vstd::seq_lib::to_multiset_insert(prefix, insert_pos(prefix, rows.last(), order) as int, rows.last());
        assert(rows =~= rows.drop_last().push(rows.last()));
    }
}

/// The terminal table's stable sort under `sort` (`slice::sort_by` with
/// [`conn_sort_key`]).
pub open spec fn sorted_spec(rows: Seq<Connection>, sort: ConnSort) -> Seq<Connection> {
    ordered_spec(rows, RowOrder::Table(sort))
}

/// Sorts the connection table in the terminal client's `sort`, stably.
pub fn sort_connections(rows: Vec<Connection>, sort: ConnSort) -> (out: Vec<Connection>)
    ensures
        out@ == sorted_spec(rows@, sort),
{
    sort_rows(rows, RowOrder::Table(sort))
}

/// Sorts connections in `order`, stably.
pub fn sort_rows(rows: Vec<Connection>, order: RowOrder) -> (out: Vec<Connection>)
    ensures
        out@ == ordered_spec(rows@, order),
{
    let mut out: Vec<Connection> = Vec::new();
    let mut rest = rows;
    let ghost original = rest@;
    let n = rest.len();
    let mut consumed: usize = 0;
    assert(original.subrange(0, 0) =~= Seq::<Connection>::empty());
    assert(original.subrange(0, n as int) =~= original);
    while consumed < n
        invariant
            n == original.len(),
            consumed <= n,
            rest@ == original.subrange(consumed as int, n as int),
            out@ == ordered_spec(original.subrange(0, consumed as int), order),
        decreases n - consumed,
    {
        let x = rest.remove(0);
        proof {
            assert(x == original[consumed as int]);
            assert(rest@ =~= original.subrange(consumed + 1, n as int));
        }
        let mut j: usize = out.len();
        assert(out@.subrange(0, j as int) =~= out@);
        while j > 0 && row_order(&x, &out[j - 1], order) < 0
            invariant
                j <= out@.len(),
                insert_pos(out@, x, order) == insert_pos(out@.subrange(0, j as int), x, order),
            ensures
                insert_pos(out@, x, order) == j,
            decreases j,
        {
            proof {
                assert(out@.subrange(0, j as int).drop_last() =~= out@.subrange(0, j - 1));
            }
            j = j - 1;
        }
        proof {
            let pre = original.subrange(0, consumed + 1);
            assert(pre.drop_last() =~= original.subrange(0, consumed as int));
            assert(pre.last() == x);
        }
        out.insert(j, x);
        consumed = consumed + 1;
    }
    out
}

} // verus!
