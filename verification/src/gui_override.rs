//! The desktop client's override page as plain values: whose override file
//! is in force and how big it is, one card per rule fragment with the switch
//! that flips it, the reserved fields the enabled fragments reach for, the
//! redacted outline of the merged configuration, and the armed confirmation
//! before the file is deleted. The page only paints what this builds.

use vstd::prelude::*;
use crate::text::{decimal, decimal_spec, opt_view, push_str, str_eq, views};

use crate::command::{ClientCommand, CommandModel};

use crate::format::{human_bytes, human_bytes_spec};
use crate::gui_lang::{reserved_reason_en, reserved_reason_en_spec, Locale};
use crate::order::{sort_spec, sort_strings};
use crate::snapshot::{
    enabled_count_spec, ClientSnapshot, OverrideFragmentSummary, OverrideSummary, ReservedField,
};
use crate::theme::{AMBER, DANGER, MUTED, TEXT};
use crate::tui_override::{changes_text_spec, join, join_spec};

verus! {

/// How loudly a line speaks.
#[derive(Clone, Copy, Debug, PartialEq, Eq, Structural)]
pub enum Shade {
    Muted,
    Text,
    Alert,
    Danger,
}

pub open spec fn shade_color_spec(shade: Shade) -> u32 {
    match shade {
        Shade::Muted => MUTED,
        Shade::Text => TEXT,
        Shade::Alert => AMBER,
        Shade::Danger => DANGER,
    }
}

impl Shade {
    /// The text colour of the shade.
    pub fn color(self) -> (c: u32)
        ensures
            c == shade_color_spec(self),
    {
        match self {
            Shade::Muted => MUTED,
            Shade::Text => TEXT,
            Shade::Alert => AMBER,
            Shade::Danger => DANGER,
        }
    }
}

/// One text line of the page.
pub struct Row {
    pub text: String,
    pub shade: Shade,
    /// A value that has to be read exactly (the file's 64-digit name) keeps a
    /// monospace face.
    pub mono: bool,
}

impl Row {
    pub fn new(shade: Shade, text: String) -> (r: Row)
        ensures
            r.shade == shade,
            r.text@ == text@,
            !r.mono,
    {
        Row { text, shade, mono: false }
    }

    /// The same line in a monospace face.
    pub fn mono(self) -> (r: Row)
        ensures
            r.shade == self.shade,
            r.text@ == self.text@,
            r.mono,
    {
        Row { text: self.text, shade: self.shade, mono: true }
    }
}

fn row(shade: Shade, text: &str) -> (r: Row)
    ensures
        r.shade == shade,
        r.text@ == text@,
        !r.mono,
{
    Row { text: text.to_owned(), shade, mono: false }
}

pub open spec fn row_view(r: Row) -> (Shade, Seq<char>, bool) {
    (r.shade, r.text@, r.mono)
}

pub open spec fn rows_view(rows: Seq<Row>) -> Seq<(Shade, Seq<char>, bool)> {
    rows.map_values(|r: Row| row_view(r))
}

/// One card per fragment.
pub struct Fragment {
    /// The fragment's label, with its id beside it when the two differ.
    pub title: String,
    /// On or off, in words.
    pub state: String,
    pub enabled: bool,
    /// The request the card's switch sends; none for a hand-written whole
    /// document, which the engine will not rewrite.
    pub command: Option<ClientCommand>,
    /// The changed paths and the reserved ones, one row each.
    pub details: Vec<Row>,
}

/// Everything the page draws, in order.
pub struct OverridePage {
    /// An unusable file owns the page.
    pub broken: bool,
    pub status: Vec<Row>,
    pub fragments: Vec<Fragment>,
    /// The reserved fields the enabled fragments reach for, in total.
    pub reserved: Vec<Row>,
    pub outline_head: Vec<Row>,
    pub outline_lines: Vec<String>,
    /// The profile whose file the clear button would delete.
    pub clear_profile: Option<String>,
    /// The armed confirmation's sentence.
    pub clear_warning: Option<String>,
}

pub open spec fn pick(locale: Locale, zh: Seq<char>, en: Seq<char>) -> Seq<char> {
    if locale == Locale::En {
        en
    } else {
        zh
    }
}

fn pick_str(locale: Locale, zh: &'static str, en: &'static str) -> (s: &'static str)
    ensures
        s@ == pick(locale, zh@, en@),
{
    match locale {
        Locale::En => en,
        Locale::Zh => zh,
    }
}

/// The size of the file: the byte count, and above a kibibyte the rounded
/// size first with the byte count after it.
pub open spec fn size_text_spec(bytes: nat, locale: Locale) -> Seq<char> {
    if bytes < 1024 {
        pick(locale, decimal_spec(bytes) + " 字节"@, decimal_spec(bytes) + " bytes"@)
    } else {
        pick(
            locale,
            human_bytes_spec(bytes) + "（"@ + decimal_spec(bytes) + " 字节）"@,
            human_bytes_spec(bytes) + " ("@ + decimal_spec(bytes) + " bytes)"@,
        )
    }
}

/// The block above the fragment cards: the refusal first when the file
/// could not be used, otherwise whose file is in force, how big it is, when
/// a switch takes effect and what the file is called.
pub open spec fn status_rows_spec(s: ClientSnapshot, locale: Locale) -> Seq<(Shade, Seq<char>, bool)> {
    match s.override_error {
        Some(error) => seq![
            (Shade::Danger, pick(locale, "覆写无效 · 内核不会启动"@, "Override refused · the core will not start"@), false),
            (Shade::Danger, error@, false),
            (Shade::Muted, pick(
                locale,
                "文件原样留在磁盘上，没有被改写，也没有被部分应用。"@,
                "The file is still on disk untouched: not rewritten, and not partly applied."@,
            ), false),
        ],
        None => match s.override_summary {
            None => {
                let profile = match s.active_profile {
                    Some(p) => p@,
                    None => pick(locale, "（尚无档案：先导入订阅）"@, "(no profile yet: import a subscription first)"@),
                };
                seq![
                    (Shade::Text, pick(locale, "档案"@, "Profile"@) + "  "@ + profile, false),
                    (Shade::Muted, pick(
                        locale,
                        "覆写  无覆写文件（数据目录的 overrides/ 下没有本档案的 JSON）"@,
                        "Override  no file for this profile under the data directory's overrides/"@,
                    ), false),
                    (Shade::Muted, pick(
                        locale,
                        "内核只用订阅原文，加上客户端自己写回的保留字段。"@,
                        "The core starts from the subscription alone, plus the reserved fields the client writes back."@,
                    ), false),
                ]
            },
            Some(summary) => {
                let counts = decimal_spec(enabled_count_spec(summary.fragments@)) + "/"@ + decimal_spec(summary.fragments@.len());
                let size = size_text_spec(summary.bytes as nat, locale);
                let rows = seq![
                    (Shade::Text, pick(locale, "档案"@, "Profile"@) + "  "@ + summary.profile@, false),
                    (Shade::Text, pick(
                        locale,
                        "覆写  "@ + counts + " 片段启用 · "@ + size,
                        "Override  "@ + counts + " fragments on · "@ + size,
                    ), false),
                    (Shade::Muted, pick(
                        locale,
                        "生效  开关只改这个文件，下次启动内核时才生效"@,
                        "When it applies  a switch only rewrites this file; the next core start reads it"@,
                    ), false),
                    (Shade::Muted, pick(
                        locale,
                        "文件  数据目录/overrides/ 下本档案名的 sha256："@,
                        "File  the sha256 of the profile's name, under the data directory's overrides/:"@,
                    ), false),
                    (Shade::Muted, summary.file_name@, true),
                ];
                if summary.implicit {
                    rows.push((Shade::Alert, pick(
                        locale,
                        "手写整份覆写：没有片段列表，无片段可开关。"@,
                        "A hand-written whole document: there is no fragment list, so nothing to switch."@,
                    ), false))
                } else {
                    rows
                }
            },
        },
    }
}

/// A card's detail lines: the changed paths (sorted, with the rule count
/// riding on the same line), then one line per reserved path, a refusal
/// when the fragment is on and a condition when it is off.
pub open spec fn details_spec(f: OverrideFragmentSummary, locale: Locale) -> Seq<(Shade, Seq<char>, bool)> {
    let changes = if f.changes@.len() == 0 {
        pick(locale, "（空片段，不改动任何字段）"@, "(an empty fragment: it changes no field)"@)
    } else {
        join_spec(sort_spec(views(f.changes@)), "、"@)
    };
    let rules = if f.rules > 0 {
        pick(locale, " · +"@ + decimal_spec(f.rules as nat) + " 条规则"@, " · +"@ + decimal_spec(f.rules as nat) + " rules"@)
    } else {
        Seq::empty()
    };
    seq![(Shade::Text, pick(locale, "改动"@, "Changes"@) + "  "@ + changes + rules, false)]
        + Seq::new(f.reserved@.len(), |k: int| reserved_detail_spec(f.enabled, f.reserved@[k]@, locale))
}

pub open spec fn reserved_detail_spec(enabled: bool, path: Seq<char>, locale: Locale) -> (Shade, Seq<char>, bool) {
    if enabled {
        (Shade::Danger, pick(
            locale,
            "⚠ 保留  "@ + path + "（客户端写回，不生效）"@,
            "⚠ Reserved  "@ + path + " (the client writes the original back; refused)"@,
        ), false)
    } else {
        (Shade::Muted, pick(
            locale,
            "保留字段  "@ + path + "（启用后会被客户端写回）"@,
            "Reserved  "@ + path + " (enabling this fragment would be refused)"@,
        ), false)
    }
}

pub open spec fn title_spec(f: OverrideFragmentSummary) -> Seq<char> {
    if f.label@ == f.id@ {
        f.id@
    } else {
        f.label@ + "（"@ + f.id@ + "）"@
    }
}

/// What a card says and does.
pub open spec fn fragment_ok(card: Fragment, summary: OverrideSummary, f: OverrideFragmentSummary, locale: Locale) -> bool {
    &&& card.title@ == title_spec(f)
    &&& card.state@ == pick(locale, if f.enabled { "启用"@ } else { "停用"@ }, if f.enabled { "On"@ } else { "Off"@ })
    &&& card.enabled == f.enabled
    &&& match card.command {
        Some(c) => !summary.implicit && c@ == CommandModel::ToggleOverrideFragment {
            profile: summary.profile@,
            id: f.id@,
            enabled: None,
        },
        None => summary.implicit,
    }
    &&& rows_view(card.details@) == details_spec(f, locale)
}

pub open spec fn readonly_note_spec(locale: Locale) -> Seq<char> {
    pick(
        locale,
        "本页只读，不编辑 JSON：要改覆写就在数据目录的 overrides/ 下改这个文件，下次启动内核时生效。"@,
        "This page is read-only and edits no JSON: to change an override, edit that file under the data directory's overrides/ and start the core again."@,
    )
}

pub open spec fn reserved_line_spec(f: ReservedField, locale: Locale) -> (Shade, Seq<char>, bool) {
    (Shade::Alert, f.path@ + " — "@ + pick(locale, f.reason_zh@, reserved_reason_en_spec(f.path@)), false)
}

/// The block under the cards: the reserved fields the enabled fragments
/// reach for, in total, each led by its path with the reason after it; and
/// the read-only note, which every state of the page ends with.
pub open spec fn reserved_rows_spec(s: ClientSnapshot, locale: Locale) -> Seq<(Shade, Seq<char>, bool)> {
    match s.override_summary {
        None => seq![(Shade::Muted, readonly_note_spec(locale), false)],
        Some(summary) => {
            let body = if summary.reserved@.len() == 0 {
                seq![(Shade::Muted, pick(locale, "保留字段  没有启用中的片段改动它们"@, "Reserved fields  no enabled fragment changes them"@), false)]
            } else {
                seq![(Shade::Danger, pick(
                    locale,
                    "⚠ 保留字段被覆写改动 · 启动内核时客户端写回原值，并在事件行再次报告"@,
                    "⚠ Reserved fields were overridden · the start writes the originals back and the event list reports them again"@,
                ), false)] + Seq::new(summary.reserved@.len(), |k: int| reserved_line_spec(summary.reserved@[k], locale))
            };
            body.push((Shade::Muted, readonly_note_spec(locale), false))
        },
    }
}

/// The outline's head: the redaction label, then where the lines come from
/// (or that there are none yet).
pub open spec fn outline_head_spec(s: ClientSnapshot, locale: Locale) -> Seq<(Shade, Seq<char>, bool)> {
    let label = (Shade::Alert, pick(locale, "已脱敏 / redacted：密钥与订阅凭据不在此显示"@, "Redacted: secrets and subscription credentials never appear here"@), false);
    if s.effective_outline@.len() == 0 {
        seq![label, (Shade::Muted, pick(
            locale,
            "（尚无生效配置；启动一次内核，这里会显示订阅 + 覆写 + 保留字段的合并结果）"@,
            "(no effective configuration yet: start the core once and the merge of subscription, override and reserved fields appears here)"@,
        ), false)]
    } else {
        seq![label, (Shade::Muted, if s.core_running {
            pick(locale, "来源  运行中内核的配置（active-config.json）"@, "Source  the configuration the running core started from (active-config.json)"@)
        } else {
            pick(locale, "来源  上次启动写入的配置（active-config.json）"@, "Source  the configuration the last start wrote (active-config.json)"@)
        }, false)]
    }
}

/// The profile the clear button names: the active one, when it has a file
/// or a refused one.
pub open spec fn clear_profile_spec(s: ClientSnapshot) -> Option<Seq<char>> {
    if s.override_summary is Some || s.override_error is Some {
        opt_view(s.active_profile)
    } else {
        None
    }
}

/// The armed confirmation names whose file would go and says it cannot be
/// undone; it only shows while armed and while there is a file to delete.
pub open spec fn clear_warning_spec(s: ClientSnapshot, locale: Locale, armed: bool) -> Option<Seq<char>> {
    match clear_profile_spec(s) {
        Some(name) => if armed {
            Some(pick(
                locale,
                "确认删除档案 "@ + name + " 的覆写文件？不可撤销。"@,
                "Delete the override file of profile "@ + name + "? This cannot be undone."@,
            ))
        } else {
            None
        },
        None => None,
    }
}

fn push_row(rows: &mut Vec<Row>, r: Row)
    ensures
        rows_view(final(rows)@) == rows_view(old(rows)@).push(row_view(r)),
{
    let ghost before = rows@;
    rows.push(r);
    assert(rows_view(rows@) =~= rows_view(before).push(row_view(r)));
}

fn joined(parts: &[&str]) -> (s: String)
    ensures
        s@ == concat_spec(parts@),
{
    let mut s = String::new();
    let mut i: usize = 0;
    while i < parts.len()
        invariant
            i <= parts@.len(),
            s@ == concat_spec(parts@.subrange(0, i as int)),
        decreases parts@.len() - i,
    {
        push_str(&mut s, parts[i]);
        i = i + 1;
        assert(parts@.subrange(0, i as int).drop_last() =~= parts@.subrange(0, i - 1));
    }
    assert(parts@.subrange(0, i as int) =~= parts@);
    s
}

pub open spec fn concat_spec(parts: Seq<&str>) -> Seq<char>
    decreases parts.len(),
{
    if parts.len() == 0 {
        Seq::empty()
    } else {
        concat_spec(parts.drop_last()) + parts.last()@
    }
}

fn size_text(bytes: u64, locale: Locale) -> (s: String)
    ensures
        s@ == size_text_spec(bytes as nat, locale),
{
    let count = decimal(bytes);
    let mut s = String::new();
    if bytes < 1024 {
        push_str(&mut s, count.as_str());
        push_str(&mut s, pick_str(locale, " 字节", " bytes"));
    } else {
        let rounded = human_bytes(bytes);
        push_str(&mut s, rounded.as_str());
        push_str(&mut s, pick_str(locale, "（", " ("));
        push_str(&mut s, count.as_str());
        push_str(&mut s, pick_str(locale, " 字节）", " bytes)"));
    }
    assert(s@ =~= size_text_spec(bytes as nat, locale));
    s
}

/// The block above the cards.
pub fn status_rows(snapshot: &ClientSnapshot, locale: Locale) -> (rows: Vec<Row>)
    ensures
        rows_view(rows@) == status_rows_spec(*snapshot, locale),
{
    let mut rows: Vec<Row> = Vec::new();
    if let Some(error) = &snapshot.override_error {
        push_row(&mut rows, row(Shade::Danger, pick_str(locale, "覆写无效 · 内核不会启动", "Override refused · the core will not start")));
        push_row(&mut rows, Row::new(Shade::Danger, error.clone()));
        push_row(&mut rows, row(Shade::Muted, pick_str(
            locale,
            "文件原样留在磁盘上，没有被改写，也没有被部分应用。",
            "The file is still on disk untouched: not rewritten, and not partly applied.",
        )));
        assert(rows_view(rows@) =~= status_rows_spec(*snapshot, locale));
        return rows;
    }
    match &snapshot.override_summary {
        None => {
            let mut first = String::new();
            push_str(&mut first, pick_str(locale, "档案", "Profile"));
            push_str(&mut first, "  ");
            match &snapshot.active_profile {
                Some(p) => push_str(&mut first, p.as_str()),
                None => push_str(&mut first, pick_str(locale, "（尚无档案：先导入订阅）", "(no profile yet: import a subscription first)")),
            }
            push_row(&mut rows, Row::new(Shade::Text, first));
            push_row(&mut rows, row(Shade::Muted, pick_str(
                locale,
                "覆写  无覆写文件（数据目录的 overrides/ 下没有本档案的 JSON）",
                "Override  no file for this profile under the data directory's overrides/",
            )));
            push_row(&mut rows, row(Shade::Muted, pick_str(
                locale,
                "内核只用订阅原文，加上客户端自己写回的保留字段。",
                "The core starts from the subscription alone, plus the reserved fields the client writes back.",
            )));
        },
        Some(summary) => {
            let mut first = String::new();
            push_str(&mut first, pick_str(locale, "档案", "Profile"));
            push_str(&mut first, "  ");
            push_str(&mut first, summary.profile.as_str());
            push_row(&mut rows, Row::new(Shade::Text, first));
            let on = decimal(summary.enabled_count() as u64);
            let all = decimal(summary.fragments.len() as u64);
            let size = size_text(summary.bytes, locale);
            let mut second = String::new();
            push_str(&mut second, pick_str(locale, "覆写  ", "Override  "));
            push_str(&mut second, on.as_str());
            push_str(&mut second, "/");
            push_str(&mut second, all.as_str());
            push_str(&mut second, pick_str(locale, " 片段启用 · ", " fragments on · "));
            push_str(&mut second, size.as_str());
            proof {
                let counts = decimal_spec(enabled_count_spec(summary.fragments@)) + "/"@ + decimal_spec(summary.fragments@.len());
                let sz = size_text_spec(summary.bytes as nat, locale);
                assert(second@ =~= pick(locale, "覆写  "@ + counts + " 片段启用 · "@ + sz, "Override  "@ + counts + " fragments on · "@ + sz));
            }
            push_row(&mut rows, Row::new(Shade::Text, second));
            push_row(&mut rows, row(Shade::Muted, pick_str(
                locale,
                "生效  开关只改这个文件，下次启动内核时才生效",
                "When it applies  a switch only rewrites this file; the next core start reads it",
            )));
            push_row(&mut rows, row(Shade::Muted, pick_str(
                locale,
                "文件  数据目录/overrides/ 下本档案名的 sha256：",
                "File  the sha256 of the profile's name, under the data directory's overrides/:",
            )));
            push_row(&mut rows, Row::new(Shade::Muted, summary.file_name.clone()).mono());
            if summary.implicit {
                push_row(&mut rows, row(Shade::Alert, pick_str(
                    locale,
                    "手写整份覆写：没有片段列表，无片段可开关。",
                    "A hand-written whole document: there is no fragment list, so nothing to switch.",
                )));
            }
        },
    }
    assert(rows_view(rows@) =~= status_rows_spec(*snapshot, locale));
    rows
}

/// A card's detail lines.
pub fn details(fragment: &OverrideFragmentSummary, locale: Locale) -> (rows: Vec<Row>)
    ensures
        rows_view(rows@) == details_spec(*fragment, locale),
{
    let mut first = String::new();
    push_str(&mut first, pick_str(locale, "改动", "Changes"));
    push_str(&mut first, "  ");
    if fragment.changes.len() == 0 {
        push_str(&mut first, pick_str(locale, "（空片段，不改动任何字段）", "(an empty fragment: it changes no field)"));
    } else {
        let sorted = sort_strings(fragment.changes.clone());
        let text = join(&sorted, "、");
        push_str(&mut first, text.as_str());
    }
    if fragment.rules > 0 {
        push_str(&mut first, " · +");
        let n = decimal(fragment.rules);
        push_str(&mut first, n.as_str());
        push_str(&mut first, pick_str(locale, " 条规则", " rules"));
    }
    proof {
        let changes = if fragment.changes@.len() == 0 {
            pick(locale, "（空片段，不改动任何字段）"@, "(an empty fragment: it changes no field)"@)
        } else {
            join_spec(sort_spec(views(fragment.changes@)), "、"@)
        };
        let rules = if fragment.rules > 0 {
            pick(locale, " · +"@ + decimal_spec(fragment.rules as nat) + " 条规则"@, " · +"@ + decimal_spec(fragment.rules as nat) + " rules"@)
        } else {
            Seq::empty()
        };
        assert(first@ =~= pick(locale, "改动"@, "Changes"@) + "  "@ + changes + rules);
    }
    let mut rows: Vec<Row> = Vec::new();
    push_row(&mut rows, Row::new(Shade::Text, first));
    let ghost reserved = Seq::new(fragment.reserved@.len(), |k: int| reserved_detail_spec(fragment.enabled, fragment.reserved@[k]@, locale));
    let mut i: usize = 0;
    while i < fragment.reserved.len()
        invariant
            reserved == Seq::new(fragment.reserved@.len(), |k: int| reserved_detail_spec(fragment.enabled, fragment.reserved@[k]@, locale)),
            i <= fragment.reserved@.len(),
            rows_view(rows@) == details_spec(*fragment, locale).subrange(0, 1 + i),
        decreases fragment.reserved@.len() - i,
    {
        let path = fragment.reserved[i].as_str();
        let mut text = String::new();
        if fragment.enabled {
            push_str(&mut text, pick_str(locale, "⚠ 保留  ", "⚠ Reserved  "));
            push_str(&mut text, path);
            push_str(&mut text, pick_str(locale, "（客户端写回，不生效）", " (the client writes the original back; refused)"));
            assert(text@ == reserved_detail_spec(fragment.enabled, path@, locale).1);
            push_row(&mut rows, Row::new(Shade::Danger, text));
        } else {
            push_str(&mut text, pick_str(locale, "保留字段  ", "Reserved  "));
            push_str(&mut text, path);
            push_str(&mut text, pick_str(locale, "（启用后会被客户端写回）", " (enabling this fragment would be refused)"));
            assert(text@ == reserved_detail_spec(fragment.enabled, path@, locale).1);
            push_row(&mut rows, Row::new(Shade::Muted, text));
        }
        assert(details_spec(*fragment, locale)[1 + i] == reserved[i as int]);
        i = i + 1;
        assert(details_spec(*fragment, locale).subrange(0, 1 + i) =~= details_spec(*fragment, locale).subrange(0, i as int).push(details_spec(*fragment, locale)[i as int]));
    }
    assert(details_spec(*fragment, locale).subrange(0, 1 + i) =~= details_spec(*fragment, locale));
    rows
}

/// One card.
pub fn fragment_card(summary: &OverrideSummary, fragment: &OverrideFragmentSummary, locale: Locale) -> (card: Fragment)
    ensures
        fragment_ok(card, *summary, *fragment, locale),
{
    let title = if str_eq(fragment.label.as_str(), fragment.id.as_str()) {
        fragment.id.clone()
    } else {
        let mut t = String::new();
        push_str(&mut t, fragment.label.as_str());
        push_str(&mut t, "（");
        push_str(&mut t, fragment.id.as_str());
        push_str(&mut t, "）");
        t
    };
    let state = if fragment.enabled {
        pick_str(locale, "启用", "On")
    } else {
        pick_str(locale, "停用", "Off")
    };
    let command = if summary.implicit {
        None
    } else {
        Some(ClientCommand::ToggleOverrideFragment {
            profile: summary.profile.clone(),
            id: fragment.id.clone(),
            enabled: None,
        })
    };
    Fragment {
        title,
        state: state.to_owned(),
        enabled: fragment.enabled,
        command,
        details: details(fragment, locale),
    }
}

/// The block under the cards.
pub fn reserved_rows(snapshot: &ClientSnapshot, locale: Locale) -> (rows: Vec<Row>)
    ensures
        rows_view(rows@) == reserved_rows_spec(*snapshot, locale),
{
    let mut rows: Vec<Row> = Vec::new();
    let note = pick_str(
        locale,
        "本页只读，不编辑 JSON：要改覆写就在数据目录的 overrides/ 下改这个文件，下次启动内核时生效。",
        "This page is read-only and edits no JSON: to change an override, edit that file under the data directory's overrides/ and start the core again.",
    );
    match &snapshot.override_summary {
        None => {
            push_row(&mut rows, row(Shade::Muted, note));
            assert(rows_view(rows@) =~= reserved_rows_spec(*snapshot, locale));
            rows
        },
        Some(summary) => {
            if summary.reserved.len() == 0 {
                push_row(&mut rows, row(Shade::Muted, pick_str(locale, "保留字段  没有启用中的片段改动它们", "Reserved fields  no enabled fragment changes them")));
            } else {
                push_row(&mut rows, row(Shade::Danger, pick_str(
                    locale,
                    "⚠ 保留字段被覆写改动 · 启动内核时客户端写回原值，并在事件行再次报告",
                    "⚠ Reserved fields were overridden · the start writes the originals back and the event list reports them again",
                )));
                let ghost lines = Seq::new(summary.reserved@.len(), |k: int| reserved_line_spec(summary.reserved@[k], locale));
                let ghost head = rows_view(rows@);
                let mut i: usize = 0;
                while i < summary.reserved.len()
                    invariant
                        lines == Seq::new(summary.reserved@.len(), |k: int| reserved_line_spec(summary.reserved@[k], locale)),
                        i <= summary.reserved@.len(),
                        rows_view(rows@) == head + lines.subrange(0, i as int),
                    decreases summary.reserved@.len() - i,
                {
                    let field = &summary.reserved[i];
                    let mut text = String::new();
                    push_str(&mut text, field.path.as_str());
                    push_str(&mut text, " — ");
                    match locale {
                        Locale::Zh => push_str(&mut text, field.reason_zh.as_str()),
                        Locale::En => push_str(&mut text, reserved_reason_en(field.path.as_str())),
                    }
                    assert(text@ == reserved_line_spec(*field, locale).1);
                    push_row(&mut rows, Row::new(Shade::Alert, text));
                    i = i + 1;
                    assert(lines.subrange(0, i as int) =~= lines.subrange(0, i - 1).push(lines[i - 1]));
                }
                assert(lines.subrange(0, i as int) =~= lines);
            }
            push_row(&mut rows, row(Shade::Muted, note));
            assert(rows_view(rows@) =~= reserved_rows_spec(*snapshot, locale));
            rows
        },
    }
}

/// The outline's head.
pub fn outline_head(snapshot: &ClientSnapshot, locale: Locale) -> (rows: Vec<Row>)
    ensures
        rows_view(rows@) == outline_head_spec(*snapshot, locale),
{
    let mut rows: Vec<Row> = Vec::new();
    push_row(&mut rows, row(Shade::Alert, pick_str(locale, "已脱敏 / redacted：密钥与订阅凭据不在此显示", "Redacted: secrets and subscription credentials never appear here")));
    if snapshot.effective_outline.len() == 0 {
        push_row(&mut rows, row(Shade::Muted, pick_str(
            locale,
            "（尚无生效配置；启动一次内核，这里会显示订阅 + 覆写 + 保留字段的合并结果）",
            "(no effective configuration yet: start the core once and the merge of subscription, override and reserved fields appears here)",
        )));
    } else if snapshot.core_running {
        push_row(&mut rows, row(Shade::Muted, pick_str(locale, "来源  运行中内核的配置（active-config.json）", "Source  the configuration the running core started from (active-config.json)")));
    } else {
        push_row(&mut rows, row(Shade::Muted, pick_str(locale, "来源  上次启动写入的配置（active-config.json）", "Source  the configuration the last start wrote (active-config.json)")));
    }
    assert(rows_view(rows@) =~= outline_head_spec(*snapshot, locale));
    rows
}

/// Builds the page from the snapshot; `armed` is the view's own "the clear
/// confirmation is showing".
pub fn build(snapshot: &ClientSnapshot, locale: Locale, armed: bool) -> (page: OverridePage)
    ensures
        page.broken == snapshot.override_error is Some,
        rows_view(page.status@) == status_rows_spec(*snapshot, locale),
        page.fragments@.len() == match snapshot.override_summary {
            Some(summary) => summary.fragments@.len(),
            None => 0,
        },
        forall|k: int|
            0 <= k < page.fragments@.len() ==> fragment_ok(
                #[trigger] page.fragments@[k],
                snapshot.override_summary->0,
                snapshot.override_summary->0.fragments@[k],
                locale,
            ),
        rows_view(page.reserved@) == reserved_rows_spec(*snapshot, locale),
        rows_view(page.outline_head@) == outline_head_spec(*snapshot, locale),
        views(page.outline_lines@) == sort_spec(views(snapshot.effective_outline@)),
        opt_view(page.clear_profile) == clear_profile_spec(*snapshot),
        opt_view(page.clear_warning) == clear_warning_spec(*snapshot, locale, armed),
{
    let broken = snapshot.override_error.is_some();
    let mut fragments: Vec<Fragment> = Vec::new();
    if let Some(summary) = &snapshot.override_summary {
        let mut i: usize = 0;
        while i < summary.fragments.len()
            invariant
                snapshot.override_summary == Some(*summary),
                i <= summary.fragments@.len(),
                fragments@.len() == i,
                forall|k: int|
                    0 <= k < i ==> fragment_ok(#[trigger] fragments@[k], *summary, summary.fragments@[k], locale),
            decreases summary.fragments@.len() - i,
        {
            fragments.push(fragment_card(summary, &summary.fragments[i], locale));
            i = i + 1;
        }
    }
    let outline = sort_strings(snapshot.effective_outline.clone());
    let has_file = snapshot.override_summary.is_some() || broken;
    let clear_profile = if has_file {
        match &snapshot.active_profile {
            Some(p) => Some(p.clone()),
            None => None,
        }
    } else {
        None
    };
    let clear_warning = match &clear_profile {
        Some(name) => if armed {
            let mut w = String::new();
            push_str(&mut w, pick_str(locale, "确认删除档案 ", "Delete the override file of profile "));
            push_str(&mut w, name.as_str());
            push_str(&mut w, pick_str(locale, " 的覆写文件？不可撤销。", "? This cannot be undone."));
            assert(w@ =~= clear_warning_spec(*snapshot, locale, armed)->0);
            Some(w)
        } else {
            None
        },
        None => None,
    };
    OverridePage {
        broken,
        status: status_rows(snapshot, locale),
        fragments,
        reserved: reserved_rows(snapshot, locale),
        outline_head: outline_head(snapshot, locale),
        outline_lines: outline,
        clear_profile,
        clear_warning,
    }
}

/// Every state of the page ends its notes with the read-only boundary, and a
/// page with no override file has nothing else to note.
pub proof fn the_readonly_note_closes_every_state(s: ClientSnapshot, locale: Locale)
    ensures
        reserved_rows_spec(s, locale).len() > 0,
        reserved_rows_spec(s, locale).last() == (Shade::Muted, readonly_note_spec(locale), false),
        s.override_summary is None ==> reserved_rows_spec(s, locale).len() == 1,
{
}

/// The delete confirmation only appears once armed, and only when there is a
/// file (or a refused one) to delete; it always names the profile.
pub proof fn clearing_asks_once_and_names_the_profile(s: ClientSnapshot, locale: Locale)
    ensures
        clear_warning_spec(s, locale, false) is None,
        clear_warning_spec(s, locale, true) is Some <==> clear_profile_spec(s) is Some,
        clear_profile_spec(s) is Some ==> crate::text::contains_spec(
            clear_warning_spec(s, locale, true)->0,
            clear_profile_spec(s)->0,
        ),
{
    if let Some(name) = clear_profile_spec(s) {
        let w = clear_warning_spec(s, locale, true)->0;
        let prefix = pick(locale, "确认删除档案 "@, "Delete the override file of profile "@);
        assert(w.subrange(prefix.len() as int, (prefix.len() + name.len()) as int) =~= name);
        assert(crate::text::occurs_at(w, name, prefix.len() as int));
    }
}

} // verus!
