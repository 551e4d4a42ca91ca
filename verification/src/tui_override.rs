//! The terminal client's Override tab as plain rows: whose override file is
//! in force, what each fragment changes, which reserved fields it reaches
//! for, and the redacted outline of the merged configuration. Rows that must
//! fit one line are cut at the display width with a visible `…`.

use vstd::prelude::*;
use crate::text::{
    char_columns,
    char_width,
    chars_of,
    decimal,
    decimal_spec,
    display_width,
    line_width,
    push_chars,
    push_str,
    str_eq,
    views,
};

use crate::order::{sort_spec, sort_strings};
use crate::snapshot::{
    enabled_count_spec, ClientSnapshot, OverrideFragmentSummary, OverrideSummary, ReservedField,
};

verus! {

/// What a row means, so the colour is decided where the frame is drawn.
#[derive(Clone, Copy, Debug, PartialEq, Eq, Structural)]
pub enum Tone {
    Muted,
    Text,
    On,
    Alert,
    Danger,
}

/// One display row: text plus what it means.
#[derive(Clone, Debug, PartialEq, Eq)]
pub struct Row {
    pub text: String,
    pub tone: Tone,
}

impl Row {
    pub fn new(tone: Tone, text: String) -> (r: Row)
        ensures
            r.tone == tone,
            r.text@ == text@,
    {
        Row { text, tone }
    }
}

fn row_of(tone: Tone, text: &str) -> (r: Row)
    ensures
        r.tone == tone,
        r.text@ == text@,
{
    Row { text: text.to_owned(), tone }
}

/// How many leading characters of `s` fit in `budget` columns with one more
/// column kept free for the ellipsis.
pub open spec fn fit_count(s: Seq<char>, budget: nat) -> nat
    decreases s.len(),
{
    if s.len() == 0 || char_width(s[0]) + 1 > budget {
        0
    } else {
        1 + fit_count(s.drop_first(), (budget - char_width(s[0])) as nat)
    }
}

/// A row cut to a display width of at least four columns: the text itself
/// when it fits, otherwise as many leading characters as leave room for `…`,
/// then `…`.
pub open spec fn fit_spec(text: Seq<char>, width: nat) -> Seq<char> {
    let target = if width < 4 {
        4
    } else {
        width
    };
    if line_width(text) <= target {
        text
    } else {
        text.subrange(0, fit_count(text, target) as int) + seq!['…']
    }
}

proof fn lemma_fit_count_bound(s: Seq<char>, budget: nat)
    ensures
        fit_count(s, budget) <= s.len(),
    decreases s.len(),
{
    if s.len() > 0 && char_width(s[0]) + 1 <= budget {
        lemma_fit_count_bound(s.drop_first(), (budget - char_width(s[0])) as nat);
    }
}

/// Truncates `text` to a display width, marking the cut.
pub fn fit(text: &str, width: usize) -> (s: String)
    ensures
        s@ == fit_spec(text@, width as nat),
{
    let target = if width < 4 {
        4
    } else {
        width
    };
    if display_width(text) <= target {
        return text.to_owned();
    }
    let v = chars_of(text);
    let n = v.len();
    let mut used: usize = 0;
    let mut k: usize = 0;
    proof {
        lemma_fit_count_bound(v@, target as nat);
        assert(v@.subrange(0, n as int) =~= v@);
    }
    while k < n
        invariant
            n == v@.len(),
            k <= n,
            used <= target,
            fit_count(v@, target as nat) == k + fit_count(
                v@.subrange(k as int, n as int),
                (target - used) as nat,
            ),
        ensures
            k <= n,
            fit_count(v@, target as nat) == k,
        decreases n - k,
    {
        let wide = char_columns(v[k]);
        proof {
            let s = v@.subrange(k as int, n as int);
            assert(s[0] == v@[k as int]);
            assert(s.drop_first() =~= v@.subrange(k + 1, n as int));
        }
        if wide >= target - used {
            break;
        }
        used = used + wide;
        k = k + 1;
        proof {
            if k == n {
                assert(v@.subrange(k as int, n as int) =~= Seq::<char>::empty());
            }
        }
    }
    let mut s = String::new();
    push_chars(&mut s, &v, 0, k);
    s.push('…');
    s
}

/// A one-line row cut at the display width.
pub fn clipped(text: &str, tone: Tone, width: usize) -> (r: Row)
    ensures
        r.tone == tone,
        r.text@ == fit_spec(text@, width as nat),
{
    Row { text: fit(text, width), tone }
}

/// The panel title: what the page can do for this file.
pub open spec fn override_title_spec(s: ClientSnapshot) -> Seq<char> {
    if s.override_error is Some {
        "配置覆写 · 覆写无效"@
    } else {
        match s.override_summary {
            None => "配置覆写 · 无覆写文件"@,
            Some(summary) => if summary.implicit {
                "配置覆写 · 手写整份（无片段可开关）"@
            } else {
                "配置覆写 · "@ + decimal_spec(enabled_count_spec(summary.fragments@))
                    + "/"@ + decimal_spec(summary.fragments@.len()) + " 启用 · ↑↓ 选择 · Enter 开关"@
            },
        }
    }
}

pub fn override_title(snapshot: &ClientSnapshot) -> (title: String)
    ensures
        title@ == override_title_spec(*snapshot),
{
    let mut title = String::new();
    if snapshot.override_error.is_some() {
        push_str(&mut title, "配置覆写 · 覆写无效");
        return title;
    }
    match &snapshot.override_summary {
        None => push_str(&mut title, "配置覆写 · 无覆写文件"),
        Some(summary) => {
            if summary.implicit {
                push_str(&mut title, "配置覆写 · 手写整份（无片段可开关）");
            } else {
                push_str(&mut title, "配置覆写 · ");
                let on = decimal(summary.enabled_count() as u64);
                push_str(&mut title, on.as_str());
                push_str(&mut title, "/");
                let all = decimal(summary.fragments.len() as u64);
                push_str(&mut title, all.as_str());
                push_str(&mut title, " 启用 · ↑↓ 选择 · Enter 开关");
            }
        },
    }
    title
}

/// The outline panel's title states the redaction before the first line.
pub fn outline_title() -> (s: &'static str)
    ensures
        s@ == "生效配置 · 已脱敏 / redacted · 只读"@,
{
    "生效配置 · 已脱敏 / redacted · 只读"
}

pub open spec fn row_texts(rows: Seq<Row>) -> Seq<Seq<char>> {
    rows.map_values(|r: Row| r.text@)
}

pub open spec fn row_tones(rows: Seq<Row>) -> Seq<Tone> {
    rows.map_values(|r: Row| r.tone)
}

fn joined(a: &str, b: &str) -> (s: String)
    ensures
        s@ == a@ + b@,
{
    let mut s = String::new();
    push_str(&mut s, a);
    push_str(&mut s, b);
    s
}

/// The block above the fragment list: the refusal first when the file could
/// not be used, otherwise whose file is in force and how to read it.
pub open spec fn head_rows_spec(s: ClientSnapshot) -> Seq<(Tone, Seq<char>)> {
    match s.override_error {
        Some(error) => seq![
            (Tone::Danger, "覆写无效 · 内核不会启动"@),
            (Tone::Danger, error@),
            (Tone::Muted, "文件原样留在磁盘上，没有被改写，也没有被部分应用。"@),
        ],
        None => match s.override_summary {
            None => seq![
                (Tone::Text, "档案  "@ + match s.active_profile {
                    Some(p) => p@,
                    None => "（尚无档案：先导入订阅）"@,
                }),
                (Tone::Muted, "覆写  无覆写文件（数据目录的 overrides/ 下没有本档案的 JSON）"@),
                (Tone::Muted, "内核只用订阅原文，加上客户端自己写回的保留字段。"@),
            ],
            Some(summary) => {
                let rows = seq![
                    (Tone::Text, "档案  "@ + summary.profile@),
                    (Tone::Text, "覆写  "@ + decimal_spec(enabled_count_spec(summary.fragments@))
                        + "/"@ + decimal_spec(summary.fragments@.len()) + " 片段启用 · "@
                        + decimal_spec(summary.bytes as nat) + " 字节"@),
                    (Tone::Muted, "生效  开关只改这个文件，下次启动内核时才生效"@),
                    (Tone::Muted, "文件  数据目录/overrides/ 下本档案名的 sha256："@),
                    (Tone::Muted, summary.file_name@),
                ];
                if summary.implicit {
                    rows.push((Tone::Alert, "手写整份覆写：没有片段列表，无片段可开关。"@))
                } else {
                    rows
                }
            },
        },
    }
}

pub open spec fn rows_view(rows: Seq<Row>) -> Seq<(Tone, Seq<char>)> {
    rows.map_values(|r: Row| (r.tone, r.text@))
}

pub fn head_rows(snapshot: &ClientSnapshot) -> (rows: Vec<Row>)
    ensures
        rows_view(rows@) == head_rows_spec(*snapshot),
{
    let mut rows: Vec<Row> = Vec::new();
    match &snapshot.override_error {
        Some(error) => {
            rows.push(row_of(Tone::Danger, "覆写无效 · 内核不会启动"));
            rows.push(Row { text: error.clone(), tone: Tone::Danger });
            rows.push(row_of(Tone::Muted, "文件原样留在磁盘上，没有被改写，也没有被部分应用。"));
            assert(rows_view(rows@) =~= head_rows_spec(*snapshot));
            return rows;
        },
        None => {},
    }
    match &snapshot.override_summary {
        None => {
            let label = match &snapshot.active_profile {
                Some(p) => joined("档案  ", p.as_str()),
                None => joined("档案  ", "（尚无档案：先导入订阅）"),
            };
            rows.push(Row { text: label, tone: Tone::Text });
            rows.push(
                row_of(Tone::Muted, "覆写  无覆写文件（数据目录的 overrides/ 下没有本档案的 JSON）"),
            );
            rows.push(row_of(Tone::Muted, "内核只用订阅原文，加上客户端自己写回的保留字段。"));
        },
        Some(summary) => {
            rows.push(Row { text: joined("档案  ", summary.profile.as_str()), tone: Tone::Text });
            let mut line = String::new();
            push_str(&mut line, "覆写  ");
            let on = decimal(summary.enabled_count() as u64);
            push_str(&mut line, on.as_str());
            push_str(&mut line, "/");
            let all = decimal(summary.fragments.len() as u64);
            push_str(&mut line, all.as_str());
            push_str(&mut line, " 片段启用 · ");
            let bytes = decimal(summary.bytes);
            push_str(&mut line, bytes.as_str());
            push_str(&mut line, " 字节");
            rows.push(Row { text: line, tone: Tone::Text });
            rows.push(row_of(Tone::Muted, "生效  开关只改这个文件，下次启动内核时才生效"));
            rows.push(row_of(Tone::Muted, "文件  数据目录/overrides/ 下本档案名的 sha256："));
            rows.push(Row { text: summary.file_name.clone(), tone: Tone::Muted });
            if summary.implicit {
                rows.push(row_of(Tone::Alert, "手写整份覆写：没有片段列表，无片段可开关。"));
            }
        },
    }
    assert(rows_view(rows@) =~= head_rows_spec(*snapshot));
    rows
}

/// The note every state of the page ends with: the page reads and switches,
/// it never edits JSON.
pub open spec fn readonly_note_text() -> Seq<char> {
    "本页只读、不编辑 JSON：外部写好的文件按 f 装载，也可直接改数据目录 overrides/ 下的文件。"@
}

pub fn readonly_note() -> (r: Row)
    ensures
        r.tone == Tone::Muted,
        r.text@ == readonly_note_text(),
{
    row_of(
        Tone::Muted,
        "本页只读、不编辑 JSON：外部写好的文件按 f 装载，也可直接改数据目录 overrides/ 下的文件。",
    )
}

pub open spec fn reserved_banner() -> Seq<char> {
    "⚠ 保留字段被覆写改动 · 启动内核时客户端写回原值，并在事件行再次报告"@
}

/// One reserved field in the total: its path first, then why it is reserved.
pub open spec fn reserved_note_spec(f: ReservedField, width: nat) -> (Tone, Seq<char>) {
    (Tone::Alert, fit_spec("  "@ + f.path@ + " — "@ + f.reason_zh@, width))
}

/// The block under the fragment list: the reserved fields the enabled
/// fragments reach for, repeated in total, each line led by its path so a cut
/// reason still names the field; and the read-only note.
pub open spec fn note_rows_spec(s: ClientSnapshot, width: nat) -> Seq<(Tone, Seq<char>)> {
    match s.override_summary {
        None => seq![(Tone::Muted, readonly_note_text())],
        Some(summary) => {
            let body: Seq<(Tone, Seq<char>)> = if summary.reserved@.len() == 0 {
                seq![(Tone::Muted, "保留字段  没有启用中的片段改动它们"@)]
            } else {
                seq![(Tone::Danger, fit_spec(reserved_banner(), width))]
                    + summary.reserved@.map_values(
                    |f: ReservedField| reserved_note_spec(f, width),
                )
            };
            body.push((Tone::Muted, readonly_note_text()))
        },
    }
}

pub fn note_rows(snapshot: &ClientSnapshot, width: usize) -> (rows: Vec<Row>)
    ensures
        rows_view(rows@) == note_rows_spec(*snapshot, width as nat),
{
    let mut rows: Vec<Row> = Vec::new();
    match &snapshot.override_summary {
        None => {
            rows.push(readonly_note());
            assert(rows_view(rows@) =~= note_rows_spec(*snapshot, width as nat));
            rows
        },
        Some(summary) => {
            if summary.reserved.len() == 0 {
                rows.push(row_of(Tone::Muted, "保留字段  没有启用中的片段改动它们"));
            } else {
                let banner = "⚠ 保留字段被覆写改动 · 启动内核时客户端写回原值，并在事件行再次报告";
                proof {
                    reveal_strlit("⚠ 保留字段被覆写改动 · 启动内核时客户端写回原值，并在事件行再次报告");
                }
                rows.push(clipped(banner, Tone::Danger, width));
                let mut i: usize = 0;
                while i < summary.reserved.len()
                    invariant
                        i <= summary.reserved@.len(),
                        rows@.len() == i + 1,
                        rows_view(rows@)[0] == (Tone::Danger, fit_spec(reserved_banner(), width as nat)),
                        forall|k: int|
                            0 <= k < i ==> #[trigger] rows_view(rows@)[1 + k] == reserved_note_spec(
                                summary.reserved@[k],
                                width as nat,
                            ),
                    decreases summary.reserved@.len() - i,
                {
                    let field = &summary.reserved[i];
                    let mut text = String::new();
                    push_str(&mut text, "  ");
                    push_str(&mut text, field.path.as_str());
                    push_str(&mut text, " — ");
                    push_str(&mut text, field.reason_zh.as_str());
                    assert(text@ =~= "  "@ + field.path@ + " — "@ + field.reason_zh@);
                    let ghost before = rows@;
                    rows.push(clipped(text.as_str(), Tone::Alert, width));
                    proof {
                        assert forall|k: int| 0 <= k < i + 1 implies #[trigger] rows_view(rows@)[1
                            + k] == reserved_note_spec(summary.reserved@[k], width as nat) by {
                            if k < i {
                                assert(rows@[1 + k] == before[1 + k]);
                                assert(rows_view(before)[1 + k] == reserved_note_spec(
                                    summary.reserved@[k],
                                    width as nat,
                                ));
                            }
                        }
                        assert(rows@[0] == before[0]);
                    }
                    i = i + 1;
                }
                proof {
                    let body = seq![(Tone::Danger, fit_spec(reserved_banner(), width as nat))]
                        + summary.reserved@.map_values(
                        |f: ReservedField| reserved_note_spec(f, width as nat),
                    );
                    assert forall|k: int| 0 <= k < body.len() implies #[trigger] body[k]
                        == rows_view(rows@)[k] by {
                        if k > 0 {
                            assert(rows_view(rows@)[1 + (k - 1)] == reserved_note_spec(
                                summary.reserved@[k - 1],
                                width as nat,
                            ));
                        }
                    }
                    assert(rows_view(rows@) =~= body);
                }
            }
            rows.push(readonly_note());
            assert(rows_view(rows@) =~= note_rows_spec(*snapshot, width as nat));
            rows
        },
    }
}

/// The first row of a fragment's group: its switch state, its label (with
/// the id beside it when the two differ) and the rules it adds.
pub open spec fn fragment_head_spec(f: OverrideFragmentSummary) -> Seq<char> {
    let label = if f.label@ == f.id@ {
        f.id@
    } else {
        f.label@ + "（"@ + f.id@ + "）"@
    };
    let rules = if f.rules > 0 {
        " · +"@ + decimal_spec(f.rules as nat) + " 条规则"@
    } else {
        Seq::empty()
    };
    "["@ + (if f.enabled {
        "启用"@
    } else {
        "停用"@
    }) + "] "@ + label + rules
}

/// `parts` joined with `sep` between neighbours.
pub open spec fn join_spec(parts: Seq<Seq<char>>, sep: Seq<char>) -> Seq<char>
    decreases parts.len(),
{
    if parts.len() == 0 {
        Seq::empty()
    } else if parts.len() == 1 {
        parts[0]
    } else {
        join_spec(parts.drop_last(), sep) + sep + parts.last()
    }
}

/// The changed pointers, sorted, joined by `、`; a note when there are none.
pub open spec fn changes_text_spec(changes: Seq<Seq<char>>) -> Seq<char> {
    if changes.len() == 0 {
        "（空片段，不改动任何字段）"@
    } else {
        join_spec(sort_spec(changes), "、"@)
    }
}

/// Joins strings with a separator.
pub fn join(parts: &Vec<String>, sep: &str) -> (s: String)
    ensures
        s@ == join_spec(views(parts@), sep@),
{
    let mut s = String::new();
    let mut i: usize = 0;
    while i < parts.len()
        invariant
            i <= parts@.len(),
            s@ == join_spec(views(parts@.subrange(0, i as int)), sep@),
        decreases parts@.len() - i,
    {
        if i > 0 {
            push_str(&mut s, sep);
        }
        push_str(&mut s, parts[i].as_str());
        proof {
            let pre = views(parts@.subrange(0, i + 1));
            assert(pre.drop_last() =~= views(parts@.subrange(0, i as int)));
            assert(pre.last() == parts@[i as int]@);
            if i == 0 {
                assert(pre.len() == 1);
            }
        }
        i = i + 1;
    }
    assert(parts@.subrange(0, i as int) =~= parts@);
    s
}

/// One group of rows per fragment: the head, the changed paths in sorted
/// order, then one row per reserved path — a refusal for an enabled fragment,
/// a condition for a disabled one.
pub open spec fn fragment_rows_ok(f: OverrideFragmentSummary, width: nat, rows: Seq<(Tone, Seq<char>)>) -> bool {
    &&& rows.len() == 2 + f.reserved@.len()
    &&& rows[0] == (if f.enabled {
        Tone::On
    } else {
        Tone::Muted
    }, fit_spec(fragment_head_spec(f), width))
    &&& rows[1] == (Tone::Text, fit_spec("改动  "@ + changes_text_spec(views(f.changes@)), width))
    &&& forall|k: int|
        0 <= k < f.reserved@.len() ==> #[trigger] rows[2 + k] == reserved_row_spec(
            f.enabled,
            f.reserved@[k]@,
            width,
        )
}

/// A reserved path of a fragment: a refusal when the fragment is on, a
/// condition when it is off.
pub open spec fn reserved_row_spec(enabled: bool, path: Seq<char>, width: nat) -> (Tone, Seq<char>) {
    if enabled {
        (Tone::Danger, fit_spec("⚠ 保留  "@ + path + "（客户端写回，不生效）"@, width))
    } else {
        (Tone::Muted, fit_spec("保留字段  "@ + path + "（启用后会被客户端写回）"@, width))
    }
}

pub fn fragment_rows(fragment: &OverrideFragmentSummary, width: usize) -> (rows: Vec<Row>)
    ensures
        fragment_rows_ok(*fragment, width as nat, rows_view(rows@)),
{
    let label = if str_eq(fragment.label.as_str(), fragment.id.as_str()) {
        fragment.id.clone()
    } else {
        let mut l = String::new();
        push_str(&mut l, fragment.label.as_str());
        push_str(&mut l, "（");
        push_str(&mut l, fragment.id.as_str());
        push_str(&mut l, "）");
        l
    };
    let mut head = String::new();
    push_str(&mut head, "[");
    push_str(
        &mut head,
        if fragment.enabled {
            "启用"
        } else {
            "停用"
        },
    );
    push_str(&mut head, "] ");
    push_str(&mut head, label.as_str());
    if fragment.rules > 0 {
        push_str(&mut head, " · +");
        let n = decimal(fragment.rules);
        push_str(&mut head, n.as_str());
        push_str(&mut head, " 条规则");
    }
    assert(head@ =~= fragment_head_spec(*fragment));
    let mut rows: Vec<Row> = Vec::new();
    rows.push(
        clipped(
            head.as_str(),
            if fragment.enabled {
                Tone::On
            } else {
                Tone::Muted
            },
            width,
        ),
    );
    let sorted = sort_strings(fragment.changes.clone());
    let changes = if fragment.changes.len() == 0 {
        "（空片段，不改动任何字段）".to_owned()
    } else {
        join(&sorted, "、")
    };
    let mut line = String::new();
    push_str(&mut line, "改动  ");
    push_str(&mut line, changes.as_str());
    rows.push(clipped(line.as_str(), Tone::Text, width));
    let mut i: usize = 0;
    while i < fragment.reserved.len()
        invariant
            i <= fragment.reserved@.len(),
            rows@.len() == 2 + i,
            rows_view(rows@)[0] == (if fragment.enabled {
                Tone::On
            } else {
                Tone::Muted
            }, fit_spec(fragment_head_spec(*fragment), width as nat)),
            rows_view(rows@)[1] == (Tone::Text, fit_spec("改动  "@ + changes_text_spec(views(fragment.changes@)), width as nat)),
            forall|k: int|
                0 <= k < i ==> #[trigger] rows_view(rows@)[2 + k] == reserved_row_spec(
                    fragment.enabled,
                    fragment.reserved@[k]@,
                    width as nat,
                ),
        decreases fragment.reserved@.len() - i,
    {
        let path = fragment.reserved[i].as_str();
        let mut text = String::new();
        let ghost before = rows@;
        if fragment.enabled {
            push_str(&mut text, "⚠ 保留  ");
            push_str(&mut text, path);
            push_str(&mut text, "（客户端写回，不生效）");
            assert(text@ =~= "⚠ 保留  "@ + path@ + "（客户端写回，不生效）"@);
            rows.push(clipped(text.as_str(), Tone::Danger, width));
        } else {
            push_str(&mut text, "保留字段  ");
            push_str(&mut text, path);
            push_str(&mut text, "（启用后会被客户端写回）");
            assert(text@ =~= "保留字段  "@ + path@ + "（启用后会被客户端写回）"@);
            rows.push(clipped(text.as_str(), Tone::Muted, width));
        }
        proof {
            assert forall|k: int| 0 <= k < i + 1 implies #[trigger] rows_view(rows@)[2 + k]
                == reserved_row_spec(fragment.enabled, fragment.reserved@[k]@, width as nat) by {
                if k < i {
                    assert(rows@[2 + k] == before[2 + k]);
                    assert(rows_view(before)[2 + k] == reserved_row_spec(
                        fragment.enabled,
                        fragment.reserved@[k]@,
                        width as nat,
                    ));
                }
            }
            assert(rows@[0] == before[0]);
            assert(rows@[1] == before[1]);
        }
        i = i + 1;
    }
    rows
}

/// One group of rows per fragment, in the order the file lists them; none
/// when the profile has no override file.
pub fn fragment_groups(snapshot: &ClientSnapshot, width: usize) -> (groups: Vec<Vec<Row>>)
    ensures
        groups@.len() == match snapshot.override_summary {
            Some(summary) => summary.fragments@.len(),
            None => 0,
        },
        forall|k: int|
            0 <= k < groups@.len() ==> fragment_rows_ok(
                snapshot.override_summary->0.fragments@[k],
                width as nat,
                rows_view(#[trigger] groups@[k]@),
            ),
{
    let mut groups: Vec<Vec<Row>> = Vec::new();
    match &snapshot.override_summary {
        None => groups,
        Some(summary) => {
            let mut i: usize = 0;
            while i < summary.fragments.len()
                invariant
                    i <= summary.fragments@.len(),
                    groups@.len() == i,
                    forall|k: int|
                        0 <= k < i ==> fragment_rows_ok(
                            summary.fragments@[k],
                            width as nat,
                            rows_view(#[trigger] groups@[k]@),
                        ),
                decreases summary.fragments@.len() - i,
            {
                groups.push(fragment_rows(&summary.fragments[i], width));
                i = i + 1;
            }
            groups
        },
    }
}

pub open spec fn redacted_label() -> Seq<char> {
    "已脱敏 / redacted：密钥与订阅凭据不在此显示"@
}

/// The read-only outline: the redaction label, which configuration the lines
/// come from, a blank row, then the engine's lines in sorted order, each cut
/// to one line; or, before the first start, a line that says so.
pub open spec fn outline_rows_spec(s: ClientSnapshot, width: nat) -> Seq<(Tone, Seq<char>)> {
    if s.effective_outline@.len() == 0 {
        seq![
            (Tone::Alert, redacted_label()),
            (Tone::Muted, "（尚无生效配置；启动一次内核，这里会显示订阅 + 覆写 + 保留字段的合并结果）"@),
        ]
    } else {
        seq![
            (Tone::Alert, redacted_label()),
            (Tone::Muted, if s.core_running {
                "来源  运行中内核的配置（active-config.json）"@
            } else {
                "来源  上次启动写入的配置（active-config.json）"@
            }),
            (Tone::Muted, Seq::<char>::empty()),
        ] + sort_spec(views(s.effective_outline@)).map_values(
            |line: Seq<char>| (Tone::Text, fit_spec(line, width)),
        )
    }
}

pub fn outline_rows(snapshot: &ClientSnapshot, width: usize) -> (rows: Vec<Row>)
    ensures
        rows_view(rows@) == outline_rows_spec(*snapshot, width as nat),
{
    let mut rows: Vec<Row> = Vec::new();
    rows.push(row_of(Tone::Alert, "已脱敏 / redacted：密钥与订阅凭据不在此显示"));
    if snapshot.effective_outline.len() == 0 {
        rows.push(
            row_of(
                Tone::Muted,
                "（尚无生效配置；启动一次内核，这里会显示订阅 + 覆写 + 保留字段的合并结果）",
            ),
        );
        assert(rows_view(rows@) =~= outline_rows_spec(*snapshot, width as nat));
        return rows;
    }
    if snapshot.core_running {
        rows.push(row_of(Tone::Muted, "来源  运行中内核的配置（active-config.json）"));
    } else {
        rows.push(row_of(Tone::Muted, "来源  上次启动写入的配置（active-config.json）"));
    }
    rows.push(Row { text: String::new(), tone: Tone::Muted });
    let outline = sort_strings(snapshot.effective_outline.clone());
    let ghost sorted = sort_spec(views(snapshot.effective_outline@));
    let mut i: usize = 0;
    while i < outline.len()
        invariant
            views(outline@) == sorted,
            i <= outline@.len(),
            rows@.len() == 3 + i,
            rows_view(rows@).subrange(0, 3) == outline_rows_spec(*snapshot, width as nat).subrange(0, 3),
            forall|k: int|
                0 <= k < i ==> #[trigger] rows_view(rows@)[3 + k] == (Tone::Text, fit_spec(sorted[k], width as nat)),
        decreases outline@.len() - i,
    {
        let ghost before = rows@;
        rows.push(clipped(outline[i].as_str(), Tone::Text, width));
        proof {
            assert(sorted[i as int] == outline@[i as int]@);
            assert forall|k: int| 0 <= k < i + 1 implies #[trigger] rows_view(rows@)[3 + k] == (Tone::Text, fit_spec(sorted[k], width as nat)) by {
                if k < i {
                    assert(rows@[3 + k] == before[3 + k]);
                    assert(rows_view(before)[3 + k] == (Tone::Text, fit_spec(sorted[k], width as nat)));
                }
            }
            assert(rows_view(rows@).subrange(0, 3) =~= rows_view(before).subrange(0, 3));
        }
        i = i + 1;
    }
    proof {
        let spec = outline_rows_spec(*snapshot, width as nat);
        assert(sorted.len() == snapshot.effective_outline@.len()) by {
            crate::order::lemma_sort_len(views(snapshot.effective_outline@));
        }
        assert forall|k: int| 0 <= k < spec.len() implies #[trigger] spec[k] == rows_view(rows@)[k] by {
            if k < 3 {
                assert(spec[k] == spec.subrange(0, 3)[k]);
                assert(rows_view(rows@)[k] == rows_view(rows@).subrange(0, 3)[k]);
            } else {
                assert(rows_view(rows@)[3 + (k - 3)] == (Tone::Text, fit_spec(sorted[k - 3], width as nat)));
            }
        }
        assert(rows_view(rows@) =~= spec);
    }
    rows
}


/// The screen rows one line of `columns` display columns takes when wrapped
/// at `width`: at least one.
pub open spec fn wrapped_rows_spec(columns: nat, width: nat) -> nat {
    let c: nat = if columns >= 1 {
        columns
    } else {
        1
    };
    c / width + if c % width != 0 {
        1nat
    } else {
        0nat
    }
}

/// The screen rows a list of rows takes when each wraps at `width`.
pub open spec fn wrapped_height_spec(rows: Seq<Row>, width: nat) -> nat
    decreases rows.len(),
{
    if rows.len() == 0 {
        0
    } else {
        wrapped_height_spec(rows.drop_last(), width) + wrapped_rows_spec(line_width(rows.last().text@), width)
    }
}

proof fn lemma_wrapped_height_prefix(rows: Seq<Row>, width: nat, i: int)
    requires
        0 <= i <= rows.len(),
    ensures
        wrapped_height_spec(rows.subrange(0, i), width) <= wrapped_height_spec(rows, width),
    decreases rows.len(),
{
    if i < rows.len() {
        assert(rows.drop_last() =~= rows.subrange(0, rows.len() - 1));
        lemma_wrapped_height_prefix(rows.drop_last(), width, i);
        assert(rows.drop_last().subrange(0, i) =~= rows.subrange(0, i));
    } else {
        assert(rows.subrange(0, i) =~= rows);
    }
}

/// How many screen rows a block of rows gets in a column `width` wide: the
/// wrapped height of every row, capped at eight so a long error line cannot
/// squeeze the list below it out of the panel; with no width, one row each
/// (the count kept in 16 bits).
pub fn block_height(rows: &Vec<Row>, width: usize) -> (h: u16)
    ensures
        width == 0 ==> h == rows@.len() % 65536,
        width > 0 ==> h == if wrapped_height_spec(rows@, width as nat) < 8 {
            wrapped_height_spec(rows@, width as nat)
        } else {
            8
        },
{
    if width == 0 {
        return (rows.len() % 65536) as u16;
    }
    let mut total: u16 = 0;
    let mut i: usize = 0;
    while i < rows.len()
        invariant
            width > 0,
            i <= rows@.len(),
            total == wrapped_height_spec(rows@.subrange(0, i as int), width as nat),
            total < 8,
        decreases rows@.len() - i,
    {
        let columns = display_width(rows[i].text.as_str());
        let c = if columns >= 1 {
            columns
        } else {
            1
        };
        let whole = c / width;
        let here = if whole >= 8 {
            8
        } else if c % width != 0 {
            whole + 1
        } else {
            whole
        };
        proof {
            assert(rows@.subrange(0, i + 1).drop_last() =~= rows@.subrange(0, i as int));
        }
        if here >= 8 - total as usize {
            proof {
                lemma_wrapped_height_prefix(rows@, width as nat, i + 1);
            }
            return 8;
        }
        total = total + here as u16;
        i = i + 1;
    }
    assert(rows@.subrange(0, i as int) =~= rows@);
    total
}

} // verus!
