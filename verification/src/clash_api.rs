//! The data the clash_api control channel publishes, and the pure parts of
//! talking to it: the outbound modes, the path-segment encoding every request
//! applies to a group, node or connection name, and the readings of the
//! replies.

use vstd::prelude::*;

use crate::text::{chars_of, digit_char, str_eq, string_of};
use vstd::string::StringSliceAdditionalSpecFns;

verus! {

/// The controller the client's core exposes.
pub const DEFAULT_CONTROLLER: &'static str = "http://127.0.0.1:9090";

/// One delay probe the core remembers for a proxy.
#[derive(Clone, Debug, Default)]
pub struct HistoryEntry {
    pub time: String,
    pub delay: u64,
}

/// A selector or url-test group as the core reports it.
#[derive(Clone, Debug, Default)]
pub struct ProxyGroup {
    pub name: String,
    pub kind: String,
    pub now: String,
    pub all: Vec<String>,
    pub history: Vec<HistoryEntry>,
}

/// A proxy that is not a group.
#[derive(Clone, Debug, Default)]
pub struct ProxyNode {
    pub name: String,
    pub kind: String,
    pub now: String,
    pub history: Vec<HistoryEntry>,
}

/// Where a connection is going.
#[derive(Clone, Debug, Default)]
pub struct ConnectionMetadata {
    pub network: String,
    pub destination_host: String,
    pub destination_ip: String,
    pub destination_port: String,
    pub inbound_ip: String,
}

/// One live connection through the core.
#[derive(Clone, Debug, Default)]
pub struct Connection {
    pub id: String,
    pub upload: u64,
    pub download: u64,
    pub start: String,
    /// The routing rule that matched the connection.
    pub rule: String,
    /// The outbound chain the connection runs through, outermost first.
    pub chains: Vec<String>,
    pub metadata: ConnectionMetadata,
}

/// The connection table and its running totals.
#[derive(Clone, Debug, Default)]
pub struct ConnectionsSnapshot {
    pub upload_total: u64,
    pub download_total: u64,
    pub connections: Vec<Connection>,
}

/// How the core routes traffic that leaves it.
#[derive(Clone, Copy, Debug, Default, PartialEq, Eq, Structural)]
pub enum OutboundMode {
    #[default]
    Rule,
    Global,
    Direct,
}

pub open spec fn outbound_label_spec(mode: OutboundMode) -> Seq<char> {
    match mode {
        OutboundMode::Rule => "规则"@,
        OutboundMode::Global => "全局"@,
        OutboundMode::Direct => "直连"@,
    }
}

pub open spec fn outbound_wire_spec(mode: OutboundMode) -> Seq<char> {
    match mode {
        OutboundMode::Rule => "rule"@,
        OutboundMode::Global => "global"@,
        OutboundMode::Direct => "direct"@,
    }
}

pub open spec fn outbound_next_spec(mode: OutboundMode) -> OutboundMode {
    match mode {
        OutboundMode::Rule => OutboundMode::Global,
        OutboundMode::Global => OutboundMode::Direct,
        OutboundMode::Direct => OutboundMode::Rule,
    }
}

impl OutboundMode {
    /// The mode's name in the interface.
    pub fn label(self) -> (s: &'static str)
        ensures
            s@ == outbound_label_spec(self),
    {
        match self {
            OutboundMode::Rule => "规则",
            OutboundMode::Global => "全局",
            OutboundMode::Direct => "直连",
        }
    }

    /// The clash_api wire name for PATCH /configs.
    pub fn as_str(self) -> (s: &'static str)
        ensures
            s@ == outbound_wire_spec(self),
    {
        match self {
            OutboundMode::Rule => "rule",
            OutboundMode::Global => "global",
            OutboundMode::Direct => "direct",
        }
    }

    /// The mode the `o` key switches to: rule, global, direct, and round again.
    pub fn next(self) -> (m: OutboundMode)
        ensures
            m == outbound_next_spec(self),
    {
        match self {
            OutboundMode::Rule => OutboundMode::Global,
            OutboundMode::Global => OutboundMode::Direct,
            OutboundMode::Direct => OutboundMode::Rule,
        }
    }
}

/// Cycling the outbound mode comes back to where it started after three steps,
/// and visits every mode on the way.
pub proof fn outbound_mode_cycle(mode: OutboundMode)
    ensures
        outbound_next_spec(outbound_next_spec(outbound_next_spec(mode))) == mode,
        outbound_next_spec(mode) != mode,
        outbound_next_spec(outbound_next_spec(mode)) != mode,
{
}

/// The mode the `mode` field of GET /configs names: `global` and `direct`
/// are read as such, and anything else, or no field at all, as rule mode.
pub open spec fn mode_from_wire_spec(wire: Option<Seq<char>>) -> OutboundMode {
    match wire {
        Some(w) => if w == "global"@ {
            OutboundMode::Global
        } else if w == "direct"@ {
            OutboundMode::Direct
        } else {
            OutboundMode::Rule
        },
        None => OutboundMode::Rule,
    }
}

/// Reads the outbound mode from the `mode` field of a GET /configs reply.
pub fn mode_from_wire(wire: Option<&str>) -> (m: OutboundMode)
    ensures
        m == mode_from_wire_spec(
            match wire {
                Some(w) => Some(w@),
                None => None,
            },
        ),
{
    match wire {
        Some(w) => {
            if str_eq(w, "global") {
                OutboundMode::Global
            } else if str_eq(w, "direct") {
                OutboundMode::Direct
            } else {
                OutboundMode::Rule
            }
        },
        None => OutboundMode::Rule,
    }
}

/// Every mode's wire name reads back as that mode.
pub proof fn mode_wire_round_trip(mode: OutboundMode)
    ensures
        mode_from_wire_spec(Some(outbound_wire_spec(mode))) == mode,
{
    reveal_strlit("rule");
    reveal_strlit("global");
    reveal_strlit("direct");
    assert("rule"@.len() == 4);
    assert("global"@[0] != "direct"@[0]);
}

/// Whether a proxy of this clash_api type is a group the client lists as one.
pub open spec fn is_group_kind_spec(kind: Seq<char>) -> bool {
    kind == "Selector"@ || kind == "URLTest"@
}

/// Whether an entry of GET /proxies with this `type` is a group (a selector or
/// a url-test group) rather than a node.
pub fn is_group_kind(kind: &str) -> (r: bool)
    ensures
        r == is_group_kind_spec(kind@),
{
    str_eq(kind, "Selector") || str_eq(kind, "URLTest")
}

/// The base URL without its trailing slashes, as `ClashApi::new` keeps it.
pub open spec fn trim_slashes_spec(s: Seq<char>) -> Seq<char>
    decreases s.len(),
{
    if s.len() > 0 && s.last() == '/' {
        trim_slashes_spec(s.drop_last())
    } else {
        s
    }
}

/// `base.trim_end_matches('/')`.
pub fn controller_base(base: &str) -> (r: String)
    ensures
        r@ == trim_slashes_spec(base@),
{
    let v = chars_of(base);
    let mut j = v.len();
    assert(v@.subrange(0, j as int) =~= v@);
    while j > 0 && v[j - 1] == '/'
        invariant
            j <= v@.len(),
            trim_slashes_spec(v@) == trim_slashes_spec(v@.subrange(0, j as int)),
        decreases j,
    {
        proof {
            let s = v@.subrange(0, j as int);
            assert(s.drop_last() =~= v@.subrange(0, j - 1));
        }
        j = j - 1;
    }
    proof {
        let s = v@.subrange(0, j as int);
        assert(v@.subrange(0, v@.len() as int) =~= v@);
    }
    string_of(&v, 0, j)
}

/// Bytes a path segment may carry unescaped: ASCII letters, digits and
/// `-._~`.
pub open spec fn is_unreserved(b: u8) -> bool {
    ||| (65 <= b && b <= 90)
    ||| (97 <= b && b <= 122)
    ||| (48 <= b && b <= 57)
    ||| b == 45
    ||| b == 46
    ||| b == 95
    ||| b == 126
}

/// The upper-case hexadecimal digit for `d < 16`.
pub open spec fn hex_digit(d: nat) -> char {
    if d < 10 {
        digit_char(d)
    } else if d == 10 {
        'A'
    } else if d == 11 {
        'B'
    } else if d == 12 {
        'C'
    } else if d == 13 {
        'D'
    } else if d == 14 {
        'E'
    } else {
        'F'
    }
}

/// One byte of a path segment: itself when unreserved, `%XX` otherwise.
pub open spec fn encode_byte(b: u8) -> Seq<char> {
    if is_unreserved(b) {
        seq![b as char]
    } else {
        seq!['%', hex_digit((b / 16) as nat), hex_digit((b % 16) as nat)]
    }
}

/// The percent-encoding of a byte string.
pub open spec fn percent_encode(bytes: Seq<u8>) -> Seq<char>
    decreases bytes.len(),
{
    if bytes.len() == 0 {
        Seq::empty()
    } else {
        percent_encode(bytes.drop_last()) + encode_byte(bytes.last())
    }
}

/// The value of a hexadecimal digit character (either case); 0 for any
/// other character.
pub open spec fn hex_value(c: char) -> nat {
    if '0' <= c && c <= '9' {
        (c as int - '0' as int) as nat
    } else if 'A' <= c && c <= 'F' {
        (c as int - 'A' as int + 10) as nat
    } else if 'a' <= c && c <= 'f' {
        (c as int - 'a' as int + 10) as nat
    } else {
        0
    }
}

/// Percent-decoding: `%` and two hex digits give back the byte they write,
/// high digit first; any other character stands for its own code.
pub open spec fn percent_decode(s: Seq<char>) -> Seq<u8>
    decreases s.len(),
{
    if s.len() == 0 {
        Seq::empty()
    } else if s[0] == '%' && s.len() >= 3 {
        seq![(hex_value(s[1]) * 16 + hex_value(s[2])) as u8] + percent_decode(s.subrange(3, s.len() as int))
    } else {
        seq![s[0] as u8] + percent_decode(s.subrange(1, s.len() as int))
    }
}

/// Whether `c` is an upper-case hexadecimal digit.
pub open spec fn is_upper_hex(c: char) -> bool {
    ('0' <= c && c <= '9') || ('A' <= c && c <= 'F')
}

proof fn lemma_hex_digit_value(d: nat)
    requires
        d < 16,
    ensures
        hex_value(hex_digit(d)) == d,
        is_upper_hex(hex_digit(d)),
{
    if d < 10 {
        assert(d == 0 || d == 1 || d == 2 || d == 3 || d == 4 || d == 5 || d == 6 || d == 7 || d == 8
            || d == 9);
    }
}

/// How one byte is written: an unreserved byte as its own character, any
/// other as `%` followed by its two upper-case hex digits, high digit first.
pub proof fn a_byte_is_written_as_itself_or_its_hex_escape(b: u8)
    ensures
        is_unreserved(b) ==> encode_byte(b) == seq![b as char],
        !is_unreserved(b) ==> {
            let e = encode_byte(b);
            &&& e.len() == 3
            &&& e[0] == '%'
            &&& is_upper_hex(e[1])
            &&& is_upper_hex(e[2])
            &&& hex_value(e[1]) * 16 + hex_value(e[2]) == b
        },
{
    lemma_hex_digit_value((b / 16) as nat);
    lemma_hex_digit_value((b % 16) as nat);
}

proof fn lemma_percent_encode_front(bytes: Seq<u8>)
    requires
        bytes.len() > 0,
    ensures
        percent_encode(bytes) == encode_byte(bytes[0]) + percent_encode(bytes.drop_first()),
    decreases bytes.len(),
{
    if bytes.len() == 1 {
        assert(bytes.drop_last() =~= Seq::<u8>::empty());
        assert(bytes.drop_first() =~= Seq::<u8>::empty());
        assert(percent_encode(bytes) =~= encode_byte(bytes[0]) + percent_encode(bytes.drop_first()));
    } else {
        lemma_percent_encode_front(bytes.drop_last());
        assert(bytes.drop_last().drop_first() =~= bytes.drop_first().drop_last());
        assert(bytes.drop_first().last() == bytes.last());
        assert(percent_encode(bytes) =~= encode_byte(bytes[0]) + percent_encode(bytes.drop_first()));
    }
}

proof fn lemma_decode_byte_then(b: u8, rest: Seq<char>)
    ensures
        percent_decode(encode_byte(b) + rest) == seq![b] + percent_decode(rest),
{
    a_byte_is_written_as_itself_or_its_hex_escape(b);
    let s = encode_byte(b) + rest;
    if is_unreserved(b) {
        assert(s[0] == b as char);
        assert(s[0] != '%');
        assert(s.subrange(1, s.len() as int) =~= rest);
        assert((b as char) as u8 == b);
    } else {
        assert(s.subrange(3, s.len() as int) =~= rest);
        assert(s[1] == encode_byte(b)[1] && s[2] == encode_byte(b)[2]);
    }
}

/// Percent-decoding the encoding of a byte string gives the bytes back: the
/// core reads a path segment as the very name it was asked about.
pub proof fn decoding_an_encoded_segment_gives_its_bytes_back(bytes: Seq<u8>)
    ensures
        percent_decode(percent_encode(bytes)) == bytes,
    decreases bytes.len(),
{
    if bytes.len() == 0 {
    } else {
        lemma_percent_encode_front(bytes);
        decoding_an_encoded_segment_gives_its_bytes_back(bytes.drop_first());
        lemma_decode_byte_then(bytes[0], percent_encode(bytes.drop_first()));
        assert(seq![bytes[0]] + bytes.drop_first() =~= bytes);
    }
}

fn hex_of(d: u8) -> (c: char)
    requires
        d < 16,
    ensures
        c == hex_digit(d as nat),
{
    if d < 10 {
        if d == 0 {
            '0'
        } else if d == 1 {
            '1'
        } else if d == 2 {
            '2'
        } else if d == 3 {
            '3'
        } else if d == 4 {
            '4'
        } else if d == 5 {
            '5'
        } else if d == 6 {
            '6'
        } else if d == 7 {
            '7'
        } else if d == 8 {
            '8'
        } else {
            '9'
        }
    } else if d == 10 {
        'A'
    } else if d == 11 {
        'B'
    } else if d == 12 {
        'C'
    } else if d == 13 {
        'D'
    } else if d == 14 {
        'E'
    } else {
        'F'
    }
}

/// Percent-encodes the UTF-8 bytes of `value` for use as one path segment.
pub fn urlencoded(value: &str) -> (out: String)
    ensures
        out@ == percent_encode(value.spec_bytes()),
{
    let bytes = value.as_bytes();
    let mut out = String::new();
    let mut i: usize = 0;
    while i < bytes.len()
        invariant
            bytes@ == value.spec_bytes(),
            i <= bytes@.len(),
            out@ == percent_encode(bytes@.subrange(0, i as int)),
        decreases bytes@.len() - i,
    {
        let byte = bytes[i];
        proof {
            let pre = bytes@.subrange(0, i + 1);
            assert(pre.drop_last() =~= bytes@.subrange(0, i as int));
            assert(pre.last() == byte);
        }
        if (65 <= byte && byte <= 90) || (97 <= byte && byte <= 122) || (48 <= byte && byte <= 57)
            || byte == 45 || byte == 46 || byte == 95 || byte == 126 {
            out.push(byte as char);
            assert(out@ =~= percent_encode(bytes@.subrange(0, i + 1)));
        } else {
            out.push('%');
            out.push(hex_of(byte / 16));
            out.push(hex_of(byte % 16));
            assert(out@ =~= percent_encode(bytes@.subrange(0, i + 1)));
        }
        i = i + 1;
    }
    assert(bytes@.subrange(0, bytes@.len() as int) =~= bytes@);
    out
}

/// The characters a percent-encoded segment is made of: the unreserved ASCII
/// set, `%`, and upper-case hexadecimal digits.
pub open spec fn is_segment_char(c: char) -> bool {
    ||| ('A' <= c && c <= 'Z')
    ||| ('a' <= c && c <= 'z')
    ||| ('0' <= c && c <= '9')
    ||| c == '-'
    ||| c == '.'
    ||| c == '_'
    ||| c == '~'
    ||| c == '%'
}

proof fn lemma_hex_digit_is_segment_char(d: nat)
    requires
        d < 16,
    ensures
        is_segment_char(hex_digit(d)),
{
}

/// An encoded segment never carries a character that would end the segment
/// or start a query: only unreserved ASCII, `%` and hexadecimal digits.
pub proof fn percent_encode_is_segment_safe(bytes: Seq<u8>)
    ensures
        forall|k: int|
            0 <= k < percent_encode(bytes).len() ==> is_segment_char(
                #[trigger] percent_encode(bytes)[k],
            ),
    decreases bytes.len(),
{
    if bytes.len() > 0 {
        percent_encode_is_segment_safe(bytes.drop_last());
        let b = bytes.last();
        let pre = percent_encode(bytes.drop_last());
        let e = encode_byte(b);
        lemma_hex_digit_is_segment_char((b / 16) as nat);
        lemma_hex_digit_is_segment_char((b % 16) as nat);
        assert forall|k: int| 0 <= k < percent_encode(bytes).len() implies is_segment_char(
            #[trigger] percent_encode(bytes)[k],
        ) by {
            if k < pre.len() {
                assert(percent_encode(bytes)[k] == pre[k]);
            } else {
                assert(percent_encode(bytes)[k] == e[k - pre.len()]);
            }
        }
    }
}

/// One entry of the controller's GET /proxies map: its name (the map key)
/// and the fields the client reads.
#[derive(Clone, Debug, Default)]
pub struct ProxyEntry {
    pub name: String,
    pub kind: String,
    pub now: String,
    pub all: Vec<String>,
    pub history: Vec<HistoryEntry>,
}

pub open spec fn as_group(e: ProxyEntry) -> ProxyGroup {
    ProxyGroup { name: e.name, kind: e.kind, now: e.now, all: e.all, history: e.history }
}

pub open spec fn as_node(e: ProxyEntry) -> ProxyNode {
    ProxyNode { name: e.name, kind: e.kind, now: e.now, history: e.history }
}

/// The groups among the entries, in the order the map listed them.
pub open spec fn groups_of(entries: Seq<ProxyEntry>) -> Seq<ProxyGroup>
    decreases entries.len(),
{
    if entries.len() == 0 {
        Seq::empty()
    } else if is_group_kind_spec(entries.last().kind@) {
        groups_of(entries.drop_last()).push(as_group(entries.last()))
    } else {
        groups_of(entries.drop_last())
    }
}

/// The nodes among the entries, in the order the map listed them.
pub open spec fn nodes_of(entries: Seq<ProxyEntry>) -> Seq<ProxyNode>
    decreases entries.len(),
{
    if entries.len() == 0 {
        Seq::empty()
    } else if is_group_kind_spec(entries.last().kind@) {
        nodes_of(entries.drop_last())
    } else {
        nodes_of(entries.drop_last()).push(as_node(entries.last()))
    }
}

/// `x` placed into the name-sorted `s` after every node whose name does not
/// come after its own.
pub open spec fn insert_by_name(s: Seq<ProxyNode>, x: ProxyNode) -> Seq<ProxyNode>
    decreases s.len(),
{
    if s.len() == 0 {
        seq![x]
    } else if crate::order::lex_order(x.name@, s.last().name@) < 0 {
        insert_by_name(s.drop_last(), x).push(s.last())
    } else {
        s.push(x)
    }
}

/// The nodes in name order (a stable sort).
pub open spec fn sort_by_name(s: Seq<ProxyNode>) -> Seq<ProxyNode>
    decreases s.len(),
{
    if s.len() == 0 {
        s
    } else {
        insert_by_name(sort_by_name(s.drop_last()), s.last())
    }
}

proof fn lemma_insert_by_name_at(s: Seq<ProxyNode>, x: ProxyNode, j: int)
    requires
        0 <= j <= s.len(),
        forall|k: int| j <= k < s.len() ==> crate::order::lex_order(x.name@, #[trigger] s[k].name@) < 0,
        j > 0 ==> crate::order::lex_order(x.name@, s[j - 1].name@) >= 0,
    ensures
        insert_by_name(s, x) == s.insert(j, x),
    decreases s.len(),
{
    if s.len() == 0 {
        assert(s.insert(j, x) =~= seq![x]);
    } else if j == s.len() {
        assert(s.insert(j, x) =~= s.push(x));
    } else {
        assert(crate::order::lex_order(x.name@, s[s.len() - 1].name@) < 0);
        lemma_insert_by_name_at(s.drop_last(), x, j);
        assert(s.drop_last().insert(j, x).push(s.last()) =~= s.insert(j, x));
    }
}

/// Splits the controller's proxy map into the groups the client lists (the
/// selectors and url-test groups, in map order) and the plain nodes, sorted
/// by name.
pub fn split_proxies(entries: Vec<ProxyEntry>) -> (r: (Vec<ProxyGroup>, Vec<ProxyNode>))
    ensures
        r.0@ == groups_of(entries@),
        r.1@ == sort_by_name(nodes_of(entries@)),
{
    let ghost original = entries@;
    let n = entries.len();
    let mut rest = entries;
    let mut groups: Vec<ProxyGroup> = Vec::new();
    let mut nodes: Vec<ProxyNode> = Vec::new();
    let mut consumed: usize = 0;
    assert(original.subrange(0, 0) =~= Seq::<ProxyEntry>::empty());
    assert(original.subrange(0, n as int) =~= original);
    while consumed < n
        invariant
            n == original.len(),
            consumed <= n,
            rest@ == original.subrange(consumed as int, n as int),
            groups@ == groups_of(original.subrange(0, consumed as int)),
            nodes@ == sort_by_name(nodes_of(original.subrange(0, consumed as int))),
        decreases n - consumed,
    {
        let e = rest.remove(0);
        proof {
            assert(e == original[consumed as int]);
            assert(rest@ =~= original.subrange(consumed + 1, n as int));
            let pre = original.subrange(0, consumed + 1);
            assert(pre.drop_last() =~= original.subrange(0, consumed as int));
            assert(pre.last() == e);
        }
        if is_group_kind(e.kind.as_str()) {
            groups.push(ProxyGroup { name: e.name, kind: e.kind, now: e.now, all: e.all, history: e.history });
        } else {
            let x = ProxyNode { name: e.name, kind: e.kind, now: e.now, history: e.history };
            let mut j: usize = nodes.len();
            while j > 0 && crate::order::compare_str(x.name.as_str(), nodes[j - 1].name.as_str()) < 0
                invariant
                    j <= nodes@.len(),
                    forall|k: int| j <= k < nodes@.len() ==> crate::order::lex_order(x.name@, #[trigger] nodes@[k].name@) < 0,
                decreases j,
            {
                j = j - 1;
            }
            proof {
                lemma_insert_by_name_at(nodes@, x, j as int);
                let pre = original.subrange(0, consumed + 1);
                let s = nodes_of(pre);
                assert(x == as_node(pre.last()));
                assert(s == nodes_of(pre.drop_last()).push(x));
                assert(s.drop_last() =~= nodes_of(original.subrange(0, consumed as int)));
                assert(s.last() == x);
            }
            nodes.insert(j, x);
        }
        consumed = consumed + 1;
    }
    (groups, nodes)
}

/// The names of the nodes, in their order.
pub open spec fn node_names(s: Seq<ProxyNode>) -> Seq<Seq<char>> {
    s.map_values(|n: ProxyNode| n.name@)
}

proof fn lemma_insert_by_name_names(s: Seq<ProxyNode>, x: ProxyNode)
    ensures
        node_names(insert_by_name(s, x)) == crate::order::insert_sorted(node_names(s), x.name@),
        insert_by_name(s, x).len() == s.len() + 1,
    decreases s.len(),
{
    if s.len() == 0 {
        assert(node_names(seq![x]) =~= seq![x.name@]);
    } else {
        assert(node_names(s).last() == s.last().name@);
        assert(node_names(s).drop_last() =~= node_names(s.drop_last()));
        if crate::order::lex_order(x.name@, s.last().name@) < 0 {
            lemma_insert_by_name_names(s.drop_last(), x);
            let t = insert_by_name(s.drop_last(), x);
            assert(node_names(t.push(s.last())) =~= node_names(t).push(s.last().name@));
        } else {
            assert(node_names(s.push(x)) =~= node_names(s).push(x.name@));
        }
    }
}

proof fn lemma_sort_by_name_names(s: Seq<ProxyNode>)
    ensures
        node_names(sort_by_name(s)) == crate::order::sort_spec(node_names(s)),
        sort_by_name(s).len() == s.len(),
    decreases s.len(),
{
    if s.len() == 0 {
        assert(node_names(s) =~= Seq::<Seq<char>>::empty());
    } else {
        lemma_sort_by_name_names(s.drop_last());
        lemma_insert_by_name_names(sort_by_name(s.drop_last()), s.last());
        assert(node_names(s).drop_last() =~= node_names(s.drop_last()));
        assert(node_names(s).last() == s.last().name@);
    }
}

proof fn lemma_split_counts(entries: Seq<ProxyEntry>)
    ensures
        groups_of(entries).len() + nodes_of(entries).len() == entries.len(),
    decreases entries.len(),
{
    if entries.len() > 0 {
        lemma_split_counts(entries.drop_last());
    }
}

/// Splitting the proxy map loses no entry: each becomes a group or a node.
/// The nodes come out in name order, every node name kept as often as the
/// map had it.
pub proof fn splitting_keeps_every_entry_and_orders_the_nodes(entries: Seq<ProxyEntry>)
    ensures
        groups_of(entries).len() + sort_by_name(nodes_of(entries)).len() == entries.len(),
        crate::order::sorted_views(node_names(sort_by_name(nodes_of(entries)))),
        node_names(sort_by_name(nodes_of(entries))).to_multiset() == node_names(
            nodes_of(entries),
        ).to_multiset(),
{
    lemma_split_counts(entries);
    lemma_sort_by_name_names(nodes_of(entries));
    crate::order::sorting_orders_and_keeps_every_string(node_names(nodes_of(entries)));
}

} // verus!
