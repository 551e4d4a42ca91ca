//! The text the terminal client's pages are made of, apart from the drawing:
//! the Rules page, the Logs page's lines and title, the footer and help
//! hints, the header's core state and the confirmation overlay.

use vstd::prelude::*;
use crate::text::{decimal, decimal_spec, push_str, views};

use crate::snapshot::{ClientSnapshot, InboundInfo, RouteRuleSnapshot, RuleSetSummary};
use crate::style::{short_label, short_label_spec};
use crate::system_proxy::{traffic_label_spec, TrafficMode};
use crate::tui::{log_filter_label_spec, log_filter_minimum_spec, log_level_shown_spec, LogFilter, Tab};
use crate::tui_keys::{current_log_lines_spec, other_mode};
use crate::tui_logs::{log_query_matches, log_query_matches_spec};
use crate::tui_state::{ViewModel, ViewState};

verus! {

/// One inbound: its type, port and listen address, and its tag.
pub open spec fn inbound_line_spec(ib: InboundInfo) -> Seq<char> {
    let port = if ib.port == 0 {
        Seq::empty()
    } else {
        ":"@ + decimal_spec(ib.port as nat)
    };
    let listen = if ib.listen@.len() == 0 {
        "全部地址"@
    } else {
        ib.listen@
    };
    let tag = if ib.tag@.len() == 0 {
        Seq::empty()
    } else {
        " · "@ + short_label_spec(ib.tag@, 24)
    };
    "• "@ + short_label_spec(ib.kind@, 16) + port + "（"@ + listen + "）"@ + tag
}

/// One rule set: its tag and type, and where it is loaded from.
pub open spec fn rule_set_line_spec(set: RuleSetSummary) -> Seq<char> {
    let source = if set.url@.len() == 0 {
        "（本地）"@
    } else {
        short_label_spec(set.url@, 64)
    };
    "• "@ + set.tag@ + "（"@ + set.kind@ + "） ← "@ + source
}

/// A number right-aligned in two columns.
pub open spec fn pad2(n: nat) -> Seq<char> {
    if n < 10 {
        " "@ + decimal_spec(n)
    } else {
        decimal_spec(n)
    }
}

/// The rule at `index` (counted from 0), numbered from 1.
pub open spec fn rule_line_spec(index: nat, rule: RouteRuleSnapshot) -> Seq<char> {
    pad2(index + 1) + ". "@ + rule.matcher@ + " → "@ + if rule.outbound@.len() == 0 {
        "（动作）"@
    } else {
        rule.outbound@
    }
}

pub open spec fn inbound_lines(v: Seq<InboundInfo>) -> Seq<Seq<char>> {
    Seq::new(v.len(), |i: int| inbound_line_spec(v[i]))
}

pub open spec fn rule_set_lines(v: Seq<RuleSetSummary>) -> Seq<Seq<char>> {
    Seq::new(v.len(), |i: int| rule_set_line_spec(v[i]))
}

pub open spec fn rule_lines(v: Seq<RouteRuleSnapshot>) -> Seq<Seq<char>> {
    Seq::new(v.len(), |i: int| rule_line_spec(i as nat, v[i]))
}

/// The Rules page: the inbounds of the configuration in use, the rule sets it
/// loads, then the routing rules in match order; or one line saying there is
/// no configuration yet.
pub open spec fn rules_lines_spec(s: ClientSnapshot) -> Seq<Seq<char>> {
    let inbounds = s.inbounds@;
    let sets = s.rule_sets@;
    let rules = s.rules@;
    if inbounds.len() == 0 && rules.len() == 0 && sets.len() == 0 {
        seq!["（尚无激活配置；先启动一次内核）"@]
    } else {
        let head = if inbounds.len() == 0 {
            Seq::empty()
        } else {
            seq!["── 入站（内核正在使用的配置）──"@] + inbound_lines(inbounds) + seq![Seq::<char>::empty()]
        };
        let middle = if sets.len() == 0 {
            Seq::empty()
        } else {
            seq!["── 规则集 ──"@] + rule_set_lines(sets) + seq![Seq::<char>::empty()]
        };
        head + middle + seq!["── 分流规则（自上而下匹配）──"@] + rule_lines(rules)
    }
}

fn inbound_line(ib: &InboundInfo) -> (s: String)
    ensures
        s@ == inbound_line_spec(*ib),
{
    let mut s = String::new();
    push_str(&mut s, "• ");
    let kind = short_label(ib.kind.as_str(), 16);
    push_str(&mut s, kind.as_str());
    if ib.port != 0 {
        push_str(&mut s, ":");
        let port = decimal(ib.port as u64);
        push_str(&mut s, port.as_str());
    }
    push_str(&mut s, "（");
    if ib.listen.unicode_len() == 0 {
        push_str(&mut s, "全部地址");
    } else {
        push_str(&mut s, ib.listen.as_str());
    }
    push_str(&mut s, "）");
    if ib.tag.unicode_len() != 0 {
        push_str(&mut s, " · ");
        let tag = short_label(ib.tag.as_str(), 24);
        push_str(&mut s, tag.as_str());
    }
    assert(s@ =~= inbound_line_spec(*ib));
    s
}

fn rule_set_line(set: &RuleSetSummary) -> (s: String)
    ensures
        s@ == rule_set_line_spec(*set),
{
    let mut s = String::new();
    push_str(&mut s, "• ");
    push_str(&mut s, set.tag.as_str());
    push_str(&mut s, "（");
    push_str(&mut s, set.kind.as_str());
    push_str(&mut s, "） ← ");
    if set.url.unicode_len() == 0 {
        push_str(&mut s, "（本地）");
    } else {
        let url = short_label(set.url.as_str(), 64);
        push_str(&mut s, url.as_str());
    }
    assert(s@ =~= rule_set_line_spec(*set));
    s
}

fn rule_line(index: usize, rule: &RouteRuleSnapshot) -> (s: String)
    requires
        index < u64::MAX,
    ensures
        s@ == rule_line_spec(index as nat, *rule),
{
    let mut s = String::new();
    let n = (index as u64) + 1;
    if n < 10 {
        push_str(&mut s, " ");
    }
    let digits = decimal(n);
    push_str(&mut s, digits.as_str());
    push_str(&mut s, ". ");
    push_str(&mut s, rule.matcher.as_str());
    push_str(&mut s, " → ");
    if rule.outbound.unicode_len() == 0 {
        push_str(&mut s, "（动作）");
    } else {
        push_str(&mut s, rule.outbound.as_str());
    }
    assert(s@ =~= rule_line_spec(index as nat, *rule));
    s
}

fn push_line(lines: &mut Vec<String>, line: String)
    ensures
        views(final(lines)@) == views(old(lines)@).push(line@),
{
    let ghost before = lines@;
    lines.push(line);
    assert(views(lines@) =~= views(before).push(line@));
}

fn push_text(lines: &mut Vec<String>, line: &str)
    ensures
        views(final(lines)@) == views(old(lines)@).push(line@),
{
    push_line(lines, line.to_owned());
}

/// The Rules page's lines.
pub fn rules_lines(snapshot: &ClientSnapshot) -> (lines: Vec<String>)
    ensures
        views(lines@) == rules_lines_spec(*snapshot),
{
    let mut lines: Vec<String> = Vec::new();
    if snapshot.inbounds.len() == 0 && snapshot.rules.len() == 0 && snapshot.rule_sets.len() == 0 {
        push_text(&mut lines, "（尚无激活配置；先启动一次内核）");
        assert(views(lines@) =~= rules_lines_spec(*snapshot));
        return lines;
    }
    let ghost inbounds = snapshot.inbounds@;
    let ghost sets = snapshot.rule_sets@;
    let ghost rules = snapshot.rules@;
    let ghost head: Seq<Seq<char>> = if inbounds.len() == 0 {
        Seq::empty()
    } else {
        seq!["── 入站（内核正在使用的配置）──"@] + inbound_lines(inbounds) + seq![Seq::<char>::empty()]
    };
    let ghost middle: Seq<Seq<char>> = if sets.len() == 0 {
        Seq::empty()
    } else {
        seq!["── 规则集 ──"@] + rule_set_lines(sets) + seq![Seq::<char>::empty()]
    };
    if snapshot.inbounds.len() > 0 {
        push_text(&mut lines, "── 入站（内核正在使用的配置）──");
        let mut i: usize = 0;
        while i < snapshot.inbounds.len()
            invariant
                inbounds == snapshot.inbounds@,
                i <= inbounds.len(),
                views(lines@) == seq!["── 入站（内核正在使用的配置）──"@] + inbound_lines(inbounds).subrange(0, i as int),
            decreases inbounds.len() - i,
        {
            let line = inbound_line(&snapshot.inbounds[i]);
            push_line(&mut lines, line);
            i = i + 1;
            assert(inbound_lines(inbounds).subrange(0, i as int) =~= inbound_lines(inbounds).subrange(0, i - 1).push(inbound_line_spec(inbounds[i - 1])));
        }
        assert(inbound_lines(inbounds).subrange(0, i as int) =~= inbound_lines(inbounds));
        push_line(&mut lines, String::new());
    }
    assert(views(lines@) =~= head);
    if snapshot.rule_sets.len() > 0 {
        push_text(&mut lines, "── 规则集 ──");
        let mut i: usize = 0;
        while i < snapshot.rule_sets.len()
            invariant
                sets == snapshot.rule_sets@,
                i <= sets.len(),
                views(lines@) == head + seq!["── 规则集 ──"@] + rule_set_lines(sets).subrange(0, i as int),
            decreases sets.len() - i,
        {
            let line = rule_set_line(&snapshot.rule_sets[i]);
            push_line(&mut lines, line);
            i = i + 1;
            assert(rule_set_lines(sets).subrange(0, i as int) =~= rule_set_lines(sets).subrange(0, i - 1).push(rule_set_line_spec(sets[i - 1])));
        }
        assert(rule_set_lines(sets).subrange(0, i as int) =~= rule_set_lines(sets));
        push_line(&mut lines, String::new());
    }
    assert(views(lines@) =~= head + middle);
    push_text(&mut lines, "── 分流规则（自上而下匹配）──");
    let mut i: usize = 0;
    while i < snapshot.rules.len()
        invariant
            rules == snapshot.rules@,
            i <= rules.len(),
            views(lines@) == head + middle + seq!["── 分流规则（自上而下匹配）──"@] + rule_lines(rules).subrange(0, i as int),
        decreases rules.len() - i,
    {
        let line = rule_line(i, &snapshot.rules[i]);
        push_line(&mut lines, line);
        i = i + 1;
        assert(rule_lines(rules).subrange(0, i as int) =~= rule_lines(rules).subrange(0, i - 1).push(rule_line_spec((i - 1) as nat, rules[i - 1])));
    }
    assert(rule_lines(rules).subrange(0, i as int) =~= rule_lines(rules));
    assert(views(lines@) =~= rules_lines_spec(*snapshot));
    lines
}

/// The lines that pass the level and keyword filters, in order.
pub open spec fn shown_lines(lines: Seq<Seq<char>>, filter: LogFilter, query: Seq<char>) -> Seq<Seq<char>>
    decreases lines.len(),
{
    if lines.len() == 0 {
        Seq::empty()
    } else {
        let rest = shown_lines(lines.drop_last(), filter, query);
        if log_level_shown_spec(log_filter_minimum_spec(filter), lines.last()) && log_query_matches_spec(query, lines.last()) {
            rest.push(lines.last())
        } else {
            rest
        }
    }
}

/// The lines that contain the keyword, in order.
pub open spec fn query_lines(lines: Seq<Seq<char>>, query: Seq<char>) -> Seq<Seq<char>>
    decreases lines.len(),
{
    if lines.len() == 0 {
        Seq::empty()
    } else {
        let rest = query_lines(lines.drop_last(), query);
        if log_query_matches_spec(query, lines.last()) {
            rest.push(lines.last())
        } else {
            rest
        }
    }
}

/// The Logs page's lines: the log lines that pass both filters, or, when
/// none does, the client's own events that contain the keyword.
pub open spec fn log_page_lines_spec(v: ViewModel, s: ClientSnapshot) -> Seq<Seq<char>> {
    let kept = shown_lines(current_log_lines_spec(v, s), v.log_filter, v.log_query);
    if kept.len() == 0 {
        query_lines(views(s.events@), v.log_query)
    } else {
        kept
    }
}

fn filter_lines(lines: &Vec<String>, filter: Option<LogFilter>, query: &str) -> (out: Vec<String>)
    ensures
        views(out@) == match filter {
            Some(f) => shown_lines(views(lines@), f, query@),
            None => query_lines(views(lines@), query@),
        },
{
    let ghost all = views(lines@);
    let mut out: Vec<String> = Vec::new();
    let mut i: usize = 0;
    while i < lines.len()
        invariant
            all == views(lines@),
            i <= lines@.len(),
            views(out@) == match filter {
                Some(f) => shown_lines(all.subrange(0, i as int), f, query@),
                None => query_lines(all.subrange(0, i as int), query@),
            },
        decreases lines@.len() - i,
    {
        let line = lines[i].as_str();
        let ghost pre = all.subrange(0, i + 1);
        assert(pre.drop_last() =~= all.subrange(0, i as int));
        assert(pre.last() == line@);
        let keep = match filter {
            Some(f) => f.matches(line) && log_query_matches(query, line),
            None => log_query_matches(query, line),
        };
        if keep {
            push_line(&mut out, lines[i].clone());
        }
        i = i + 1;
    }
    assert(all.subrange(0, i as int) =~= all);
    out
}

impl ViewState {
    /// The Logs page's lines.
    pub fn log_page_lines(&self, snapshot: &ClientSnapshot) -> (lines: Vec<String>)
        ensures
            views(lines@) == log_page_lines_spec(self@, *snapshot),
    {
        let current = self.current_log_lines(snapshot);
        let kept = filter_lines(&current, Some(self.log_filter), self.log_query.as_str());
        if kept.len() == 0 {
            filter_lines(&snapshot.events, None, self.log_query.as_str())
        } else {
            kept
        }
    }

    /// The Logs panel's title: the level filter, whether the tail is
    /// paused, how far it is scrolled back, and the keyword.
    pub fn log_title(&self) -> (title: String)
        ensures
            title@ == log_title_spec(self@),
    {
        let mut title = String::new();
        push_str(&mut title, "日志 [");
        push_str(&mut title, self.log_filter.label());
        push_str(&mut title, "]");
        if self.paused_logs.is_some() {
            push_str(&mut title, " · 已暂停");
        }
        push_str(&mut title, "（Space 暂停，l 级别，/ 关键字，c 复制，r 规则）");
        if self.log_scroll > 0 {
            push_str(&mut title, " · 已回看 ");
            let n = decimal(self.log_scroll as u64);
            push_str(&mut title, n.as_str());
            push_str(&mut title, " 行（End 回到最新）");
        }
        if self.log_query.unicode_len() > 0 {
            push_str(&mut title, " · 关键字「");
            push_str(&mut title, self.log_query.as_str());
            push_str(&mut title, "」");
        }
        assert(title@ =~= log_title_spec(self@));
        title
    }
}

pub open spec fn log_title_spec(v: ViewModel) -> Seq<char> {
    let base = "日志 ["@ + log_filter_label_spec(v.log_filter) + "]"@ + (if v.paused_logs is Some {
        " · 已暂停"@
    } else {
        Seq::empty()
    }) + "（Space 暂停，l 级别，/ 关键字，c 复制，r 规则）"@;
    let scrolled = if v.log_scroll > 0 {
        base + " · 已回看 "@ + decimal_spec(v.log_scroll as nat) + " 行（End 回到最新）"@
    } else {
        base
    };
    if v.log_query.len() > 0 {
        scrolled + " · 关键字「"@ + v.log_query + "」"@
    } else {
        scrolled
    }
}

/// The footer's key hint for a tab.
pub open spec fn footer_hint_spec(tab: Tab) -> Seq<char> {
    match tab {
        Tab::Dashboard => "s 启动/停止  ·  u 更新订阅  ·  p 系统代理  ·  m 切换模式"@,
        Tab::Proxies => "↑↓ 选节点  ·  ←→ 切组  ·  Enter 切换  ·  t 测当前  ·  T 测全组"@,
        Tab::Connections => "↑↓ 选择  ·  x 关闭连接  ·  X 关闭全部  ·  S 排序  ·  / 过滤"@,
        Tab::Logs => "↑↓/PgUp PgDn 回看  ·  End 回到最新  ·  Space 暂停  ·  l 级别  ·  / 关键字  ·  c 复制  ·  r 分流规则"@,
        Tab::Settings => "n 新增  ·  e 编辑  ·  Delete 删除  ·  d 下载内核  ·  a/P/U 选项"@,
        Tab::Rules => "入站与规则来自内核正在使用的配置  ·  r 返回日志"@,
        Tab::Override => "只读  ·  ↑↓ 选片段  ·  Enter 开/关片段（下次启动生效）"@,
    }
}

pub fn footer_hint(tab: Tab) -> (s: &'static str)
    ensures
        s@ == footer_hint_spec(tab),
{
    match tab {
        Tab::Dashboard => "s 启动/停止  ·  u 更新订阅  ·  p 系统代理  ·  m 切换模式",
        Tab::Proxies => "↑↓ 选节点  ·  ←→ 切组  ·  Enter 切换  ·  t 测当前  ·  T 测全组",
        Tab::Connections => "↑↓ 选择  ·  x 关闭连接  ·  X 关闭全部  ·  S 排序  ·  / 过滤",
        Tab::Logs => "↑↓/PgUp PgDn 回看  ·  End 回到最新  ·  Space 暂停  ·  l 级别  ·  / 关键字  ·  c 复制  ·  r 分流规则",
        Tab::Settings => "n 新增  ·  e 编辑  ·  Delete 删除  ·  d 下载内核  ·  a/P/U 选项",
        Tab::Rules => "入站与规则来自内核正在使用的配置  ·  r 返回日志",
        Tab::Override => "只读  ·  ↑↓ 选片段  ·  Enter 开/关片段（下次启动生效）",
    }
}

/// The help overlay's keys for the current page.
pub open spec fn help_keys_spec(tab: Tab) -> Seq<char> {
    match tab {
        Tab::Dashboard => "s 启动/停止 · u 更新订阅 · p 开/关系统代理 · m 切换模式"@,
        Tab::Proxies => "↑↓ 选节点 · ←→ 切组 · Enter 切换 · t 测当前 · T 测全组"@,
        Tab::Connections => "↑↓ 选择 · x 关闭连接 · X 关闭全部 · S 切换排序 · / 关键字过滤"@,
        Tab::Logs => "↑↓/PgUp PgDn 回看 · End 回到最新 · Space 暂停 · l 切换级别 · / 关键字过滤 · c 复制 · r 查看规则"@,
        Tab::Settings => "n 新增 · e 编辑 · Delete 删除 · d 下载内核 · a/P/U/g/y 选项"@,
        Tab::Rules => "只读视图 · r 返回日志"@,
        Tab::Override => "只读视图 · ↑↓ 选片段 · Enter 开/关片段 · 改文件请在数据目录 overrides/ 下"@,
    }
}

pub fn help_keys(tab: Tab) -> (s: &'static str)
    ensures
        s@ == help_keys_spec(tab),
{
    match tab {
        Tab::Dashboard => "s 启动/停止 · u 更新订阅 · p 开/关系统代理 · m 切换模式",
        Tab::Proxies => "↑↓ 选节点 · ←→ 切组 · Enter 切换 · t 测当前 · T 测全组",
        Tab::Connections => "↑↓ 选择 · x 关闭连接 · X 关闭全部 · S 切换排序 · / 关键字过滤",
        Tab::Logs => "↑↓/PgUp PgDn 回看 · End 回到最新 · Space 暂停 · l 切换级别 · / 关键字过滤 · c 复制 · r 查看规则",
        Tab::Settings => "n 新增 · e 编辑 · Delete 删除 · d 下载内核 · a/P/U/g/y 选项",
        Tab::Rules => "只读视图 · r 返回日志",
        Tab::Override => "只读视图 · ↑↓ 选片段 · Enter 开/关片段 · 改文件请在数据目录 overrides/ 下",
    }
}

/// The header's core state: running, starting, or stopped.
pub open spec fn core_state_spec(running: bool, starting: bool) -> Seq<char> {
    if running {
        "● 运行中"@
    } else if starting {
        "◐ 启动中"@
    } else {
        "○ 已停止"@
    }
}

pub fn core_state(running: bool, starting: bool) -> (s: &'static str)
    ensures
        s@ == core_state_spec(running, starting),
{
    if running {
        "● 运行中"
    } else if starting {
        "◐ 启动中"
    } else {
        "○ 已停止"
    }
}

/// The confirmation overlay: the quit prompt when it is pending, the mode
/// switch prompt otherwise, as a title and three lines.
pub open spec fn confirmation_spec(confirm_quit: bool, mode: TrafficMode) -> (Seq<char>, Seq<Seq<char>>) {
    if confirm_quit {
        (
            "退出确认"@,
            seq![
                "系统代理仍处于开启状态。"@,
                "再按 q 退出并保留代理；按 p 先关闭代理。"@,
                "Esc 或其它按键取消"@,
            ],
        )
    } else {
        (
            "模式切换确认"@,
            seq![
                "准备切换至 "@ + traffic_label_spec(other_mode(mode)) + " 模式"@,
                "再按 m 确认；下次启动内核时生效。"@,
                "Esc 或其它按键取消"@,
            ],
        )
    }
}

pub fn confirmation(confirm_quit: bool, mode: TrafficMode) -> (r: (&'static str, Vec<String>))
    ensures
        (r.0@, views(r.1@)) == confirmation_spec(confirm_quit, mode),
{
    let mut lines: Vec<String> = Vec::new();
    if confirm_quit {
        push_text(&mut lines, "系统代理仍处于开启状态。");
        push_text(&mut lines, "再按 q 退出并保留代理；按 p 先关闭代理。");
        push_text(&mut lines, "Esc 或其它按键取消");
        assert(views(lines@) =~= confirmation_spec(confirm_quit, mode).1);
        ("退出确认", lines)
    } else {
        let mut first = String::new();
        push_str(&mut first, "准备切换至 ");
        push_str(&mut first, mode.other().label());
        push_str(&mut first, " 模式");
        push_line(&mut lines, first);
        push_text(&mut lines, "再按 m 确认；下次启动内核时生效。");
        push_text(&mut lines, "Esc 或其它按键取消");
        assert(views(lines@) =~= confirmation_spec(confirm_quit, mode).1);
        ("模式切换确认", lines)
    }
}

/// The delay recorded for `node` among `delays`: the first entry for it.
pub open spec fn delay_of(delays: Seq<crate::snapshot::NodeDelay>, node: Seq<char>) -> Option<u64>
    decreases delays.len(),
{
    if delays.len() == 0 {
        None
    } else if delays[0].node@ == node {
        Some(delays[0].millis)
    } else {
        delay_of(delays.drop_first(), node)
    }
}

/// The first group that lists `node` among its members.
pub open spec fn group_with(groups: Seq<crate::snapshot::ProxyGroupSnapshot>, node: Seq<char>) -> Option<crate::snapshot::ProxyGroupSnapshot>
    decreases groups.len(),
{
    if groups.len() == 0 {
        None
    } else if views(groups[0].members@).contains(node) {
        Some(groups[0])
    } else {
        group_with(groups.drop_first(), node)
    }
}

/// The delay the dashboard shows for a node: from the first group that
/// lists it, if that group has measured it.
pub open spec fn node_delay_spec(s: ClientSnapshot, node: Seq<char>) -> Option<u64> {
    match group_with(s.proxy_groups@, node) {
        Some(g) => delay_of(g.delays@, node),
        None => None,
    }
}

fn lists_member(group: &crate::snapshot::ProxyGroupSnapshot, node: &str) -> (r: bool)
    ensures
        r == views(group.members@).contains(node@),
{
    let ghost v = views(group.members@);
    let mut i: usize = 0;
    while i < group.members.len()
        invariant
            v == views(group.members@),
            i <= group.members@.len(),
            forall|k: int| 0 <= k < i ==> v[k] != node@,
        decreases group.members@.len() - i,
    {
        if crate::text::str_eq(group.members[i].as_str(), node) {
            assert(v[i as int] == node@);
            return true;
        }
        i = i + 1;
    }
    false
}

/// The measured delay of `node`, if a group that lists it measured it.
pub fn node_delay(snapshot: &ClientSnapshot, node: &str) -> (d: Option<u64>)
    ensures
        d == node_delay_spec(*snapshot, node@),
{
    let groups = &snapshot.proxy_groups;
    let mut g: usize = 0;
    assert(groups@.subrange(0, groups@.len() as int) =~= groups@);
    while g < groups.len()
        invariant
            groups@ == snapshot.proxy_groups@,
            g <= groups@.len(),
            group_with(groups@, node@) == group_with(groups@.subrange(g as int, groups@.len() as int), node@),
        decreases groups@.len() - g,
    {
        let ghost rest = groups@.subrange(g as int, groups@.len() as int);
        assert(rest[0] == groups@[g as int]);
        assert(rest.drop_first() =~= groups@.subrange(g + 1, groups@.len() as int));
        if lists_member(&groups[g], node) {
            let delays = &groups[g].delays;
            let mut k: usize = 0;
            assert(node_delay_spec(*snapshot, node@) == delay_of(delays@, node@));
            assert(delays@.subrange(0, delays@.len() as int) =~= delays@);
            while k < delays.len()
                invariant
                    node_delay_spec(*snapshot, node@) == delay_of(delays@, node@),
                    k <= delays@.len(),
                    delay_of(delays@, node@) == delay_of(delays@.subrange(k as int, delays@.len() as int), node@),
                decreases delays@.len() - k,
            {
                let ghost dr = delays@.subrange(k as int, delays@.len() as int);
                assert(dr[0] == delays@[k as int]);
                assert(dr.drop_first() =~= delays@.subrange(k + 1, delays@.len() as int));
                if crate::text::str_eq(delays[k].node.as_str(), node) {
                    return Some(delays[k].millis);
                }
                k = k + 1;
            }
            assert(delays@.subrange(k as int, delays@.len() as int) =~= Seq::<crate::snapshot::NodeDelay>::empty());
            return None;
        }
        g = g + 1;
    }
    assert(groups@.subrange(g as int, groups@.len() as int) =~= Seq::<crate::snapshot::ProxyGroupSnapshot>::empty());
    None
}

} // verus!
