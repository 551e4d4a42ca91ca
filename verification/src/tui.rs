//! The terminal client's own vocabulary: its tabs, the connection sort, the
//! log-level threshold, and the input overlay's goals, with the labels they
//! are drawn with.

use vstd::prelude::*;

use crate::text::{contains_spec, contains_str};

verus! {

/// The terminal client's pages, in header order.
#[derive(Clone, Copy, Debug, PartialEq, Eq, Structural)]
pub enum Tab {
    Dashboard,
    Proxies,
    Connections,
    Logs,
    Settings,
    /// The inbounds and routing rules of the configuration the core uses.
    Rules,
    /// The active profile's override file, its switchable rule fragments, and
    /// the redacted outline of the merged configuration.
    Override,
}

pub open spec fn tab_index_spec(tab: Tab) -> nat {
    match tab {
        Tab::Dashboard => 0,
        Tab::Proxies => 1,
        Tab::Connections => 2,
        Tab::Logs => 3,
        Tab::Settings => 4,
        Tab::Rules => 5,
        Tab::Override => 6,
    }
}

pub open spec fn tab_at_spec(index: nat) -> Option<Tab> {
    if index == 0 {
        Some(Tab::Dashboard)
    } else if index == 1 {
        Some(Tab::Proxies)
    } else if index == 2 {
        Some(Tab::Connections)
    } else if index == 3 {
        Some(Tab::Logs)
    } else if index == 4 {
        Some(Tab::Settings)
    } else if index == 5 {
        Some(Tab::Rules)
    } else if index == 6 {
        Some(Tab::Override)
    } else {
        None
    }
}

/// The tab after `tab`, wrapping from the last back to the first.
pub open spec fn tab_next_spec(tab: Tab) -> Tab {
    tab_at_spec((tab_index_spec(tab) + 1) % 7).unwrap()
}

/// The tab before `tab`, wrapping from the first back to the last.
pub open spec fn tab_previous_spec(tab: Tab) -> Tab {
    tab_at_spec((tab_index_spec(tab) + 6) % 7).unwrap()
}

impl Tab {
    /// How many pages there are.
    pub const COUNT: usize = 7;

    pub fn next(self) -> (t: Tab)
        ensures
            t == tab_next_spec(self),
    {
        match self {
            Tab::Dashboard => Tab::Proxies,
            Tab::Proxies => Tab::Connections,
            Tab::Connections => Tab::Logs,
            Tab::Logs => Tab::Settings,
            Tab::Settings => Tab::Rules,
            Tab::Rules => Tab::Override,
            Tab::Override => Tab::Dashboard,
        }
    }

    pub fn previous(self) -> (t: Tab)
        ensures
            t == tab_previous_spec(self),
    {
        match self {
            Tab::Dashboard => Tab::Override,
            Tab::Proxies => Tab::Dashboard,
            Tab::Connections => Tab::Proxies,
            Tab::Logs => Tab::Connections,
            Tab::Settings => Tab::Logs,
            Tab::Rules => Tab::Settings,
            Tab::Override => Tab::Rules,
        }
    }

    /// The tab a number key (counted from 0) jumps to.
    pub fn from_index(index: usize) -> (t: Option<Tab>)
        ensures
            t == tab_at_spec(index as nat),
    {
        if index == 0 {
            Some(Tab::Dashboard)
        } else if index == 1 {
            Some(Tab::Proxies)
        } else if index == 2 {
            Some(Tab::Connections)
        } else if index == 3 {
            Some(Tab::Logs)
        } else if index == 4 {
            Some(Tab::Settings)
        } else if index == 5 {
            Some(Tab::Rules)
        } else if index == 6 {
            Some(Tab::Override)
        } else {
            None
        }
    }

    pub fn index(self) -> (i: usize)
        ensures
            i == tab_index_spec(self),
    {
        match self {
            Tab::Dashboard => 0,
            Tab::Proxies => 1,
            Tab::Connections => 2,
            Tab::Logs => 3,
            Tab::Settings => 4,
            Tab::Rules => 5,
            Tab::Override => 6,
        }
    }
}

/// Moving forward and back are inverse, every tab's index leads back to it,
/// indices are exactly `0..COUNT`, and `COUNT` forward steps close the cycle.
pub proof fn tabs_cycle(tab: Tab)
    ensures
        tab_previous_spec(tab_next_spec(tab)) == tab,
        tab_next_spec(tab_previous_spec(tab)) == tab,
        tab_at_spec(tab_index_spec(tab)) == Some(tab),
        tab_index_spec(tab) < 7,
        tab_next_spec(
            tab_next_spec(
                tab_next_spec(tab_next_spec(tab_next_spec(tab_next_spec(tab_next_spec(tab))))),
            ),
        ) == tab,
{
}

/// No index past the last tab names one.
pub proof fn tab_indices_are_dense(index: nat)
    ensures
        tab_at_spec(index) is Some <==> index < 7,
        index < 7 ==> tab_index_spec(tab_at_spec(index).unwrap()) == index,
{
}

/// The header's label bar, in `Tab::index` order.
pub const TAB_TITLES: [&'static str; 7] = ["概览", "节点", "连接", "日志", "设置", "入站", "覆写"];

/// The title the header draws for a tab.
pub fn tab_title(tab: Tab) -> (s: &'static str)
    ensures
        s@ == tab_title_spec(tab),
{
    match tab {
        Tab::Dashboard => "概览",
        Tab::Proxies => "节点",
        Tab::Connections => "连接",
        Tab::Logs => "日志",
        Tab::Settings => "设置",
        Tab::Rules => "入站",
        Tab::Override => "覆写",
    }
}

pub open spec fn tab_title_spec(tab: Tab) -> Seq<char> {
    match tab {
        Tab::Dashboard => "概览"@,
        Tab::Proxies => "节点"@,
        Tab::Connections => "连接"@,
        Tab::Logs => "日志"@,
        Tab::Settings => "设置"@,
        Tab::Rules => "入站"@,
        Tab::Override => "覆写"@,
    }
}

/// Connection-table sort order, cycled with `S`.
#[derive(Clone, Copy, Debug, PartialEq, Eq, Structural)]
pub enum ConnSort {
    Download,
    Upload,
    Host,
    Target,
}

pub open spec fn conn_sort_next_spec(sort: ConnSort) -> ConnSort {
    match sort {
        ConnSort::Download => ConnSort::Upload,
        ConnSort::Upload => ConnSort::Host,
        ConnSort::Host => ConnSort::Target,
        ConnSort::Target => ConnSort::Download,
    }
}

pub open spec fn conn_sort_label_spec(sort: ConnSort) -> Seq<char> {
    match sort {
        ConnSort::Download => "下载"@,
        ConnSort::Upload => "上传"@,
        ConnSort::Host => "主机"@,
        ConnSort::Target => "目标"@,
    }
}

impl ConnSort {
    pub fn next(self) -> (s: ConnSort)
        ensures
            s == conn_sort_next_spec(self),
    {
        match self {
            ConnSort::Download => ConnSort::Upload,
            ConnSort::Upload => ConnSort::Host,
            ConnSort::Host => ConnSort::Target,
            ConnSort::Target => ConnSort::Download,
        }
    }

    pub fn label(self) -> (s: &'static str)
        ensures
            s@ == conn_sort_label_spec(self),
    {
        match self {
            ConnSort::Download => "下载",
            ConnSort::Upload => "上传",
            ConnSort::Host => "主机",
            ConnSort::Target => "目标",
        }
    }
}

/// The four sort orders form one cycle.
pub proof fn conn_sort_cycle(sort: ConnSort)
    ensures
        conn_sort_next_spec(conn_sort_next_spec(conn_sort_next_spec(conn_sort_next_spec(sort))))
            == sort,
        conn_sort_next_spec(sort) != sort,
{
}

/// How severe a log line is.
#[derive(Clone, Copy, Debug, PartialEq, Eq, Structural)]
pub enum LogLevel {
    Debug,
    Info,
    Warn,
    Error,
}

pub open spec fn level_rank(level: LogLevel) -> nat {
    match level {
        LogLevel::Debug => 0,
        LogLevel::Info => 1,
        LogLevel::Warn => 2,
        LogLevel::Error => 3,
    }
}

/// The severity a log line announces. A kernel line carries its level in
/// upper case (`FATAL`, `PANIC` and `ERROR` are errors, `WARN` a warning,
/// `INFO` information, `DEBUG` and `TRACE` detail); a line with no level is
/// one of the client's own events, an error when it reports a failure
/// (`失败`, `错误`) and information otherwise.
pub open spec fn log_level_spec(line: Seq<char>) -> LogLevel {
    if contains_spec(line, "FATAL"@) || contains_spec(line, "PANIC"@) || contains_spec(
        line,
        "ERROR"@,
    ) {
        LogLevel::Error
    } else if contains_spec(line, "WARN"@) {
        LogLevel::Warn
    } else if contains_spec(line, "INFO"@) {
        LogLevel::Info
    } else if contains_spec(line, "DEBUG"@) || contains_spec(line, "TRACE"@) {
        LogLevel::Debug
    } else if contains_spec(line, "失败"@) || contains_spec(line, "错误"@) {
        LogLevel::Error
    } else {
        LogLevel::Info
    }
}

/// Reads the severity of a log line.
pub fn log_level_of(line: &str) -> (level: LogLevel)
    ensures
        level == log_level_spec(line@),
{
    if contains_str(line, "FATAL") || contains_str(line, "PANIC") || contains_str(line, "ERROR") {
        LogLevel::Error
    } else if contains_str(line, "WARN") {
        LogLevel::Warn
    } else if contains_str(line, "INFO") {
        LogLevel::Info
    } else if contains_str(line, "DEBUG") || contains_str(line, "TRACE") {
        LogLevel::Debug
    } else if contains_str(line, "失败") || contains_str(line, "错误") {
        LogLevel::Error
    } else {
        LogLevel::Info
    }
}

/// Whether a line passes a level threshold: everything passes no threshold,
/// and a threshold keeps the lines at least as severe as it.
pub open spec fn log_level_shown_spec(minimum: Option<LogLevel>, line: Seq<char>) -> bool {
    match minimum {
        None => true,
        Some(m) => level_rank(log_level_spec(line)) >= level_rank(m),
    }
}

/// Whether a line names one of the error levels.
pub open spec fn names_an_error(line: Seq<char>) -> bool {
    contains_spec(line, "FATAL"@) || contains_spec(line, "PANIC"@) || contains_spec(line, "ERROR"@)
}

/// Each kernel line is read at the most severe level it names: `FATAL`,
/// `PANIC` or `ERROR` make an error; otherwise `WARN` a warning, `INFO`
/// information, `DEBUG` or `TRACE` detail. A line naming no level is an
/// error when it reports a failure and information otherwise.
pub proof fn a_line_is_read_at_the_level_it_names(line: Seq<char>)
    ensures
        names_an_error(line) ==> log_level_spec(line) == LogLevel::Error,
        !names_an_error(line) && contains_spec(line, "WARN"@) ==> log_level_spec(line) == LogLevel::Warn,
        !names_an_error(line) && !contains_spec(line, "WARN"@) && contains_spec(line, "INFO"@)
            ==> log_level_spec(line) == LogLevel::Info,
        !names_an_error(line) && !contains_spec(line, "WARN"@) && !contains_spec(line, "INFO"@) && (
        contains_spec(line, "DEBUG"@) || contains_spec(line, "TRACE"@)) ==> log_level_spec(line)
            == LogLevel::Debug,
        !names_an_error(line) && !contains_spec(line, "WARN"@) && !contains_spec(line, "INFO"@)
            && !contains_spec(line, "DEBUG"@) && !contains_spec(line, "TRACE"@) ==> log_level_spec(line) == (
        if contains_spec(line, "失败"@) || contains_spec(line, "错误"@) {
            LogLevel::Error
        } else {
            LogLevel::Info
        }),
{
}

/// The level filter: no threshold shows every line; the `warn+` threshold
/// shows the warnings and errors and hides the rest; the error threshold
/// shows only errors; the info threshold hides only detail; and a line
/// shown at a threshold is shown at every lower one.
pub proof fn thresholds_keep_the_lines_at_least_as_severe(line: Seq<char>)
    ensures
        log_level_shown_spec(None, line),
        log_level_shown_spec(Some(LogLevel::Debug), line),
        log_level_shown_spec(Some(LogLevel::Info), line) <==> log_level_spec(line) != LogLevel::Debug,
        log_level_shown_spec(Some(LogLevel::Warn), line) <==> (log_level_spec(line) == LogLevel::Warn
            || log_level_spec(line) == LogLevel::Error),
        log_level_shown_spec(Some(LogLevel::Error), line) <==> log_level_spec(line) == LogLevel::Error,
        log_level_shown_spec(Some(log_level_spec(line)), line),
{
}

fn rank(level: LogLevel) -> (r: u8)
    ensures
        r == level_rank(level),
{
    match level {
        LogLevel::Debug => 0,
        LogLevel::Info => 1,
        LogLevel::Warn => 2,
        LogLevel::Error => 3,
    }
}

/// The level filter both clients share.
pub fn log_level_shown(minimum: Option<LogLevel>, line: &str) -> (shown: bool)
    ensures
        shown == log_level_shown_spec(minimum, line@),
{
    match minimum {
        None => true,
        Some(m) => rank(log_level_of(line)) >= rank(m),
    }
}

/// A higher threshold never shows a line a lower one hides.
pub proof fn log_threshold_is_monotone(low: LogLevel, high: LogLevel, line: Seq<char>)
    requires
        level_rank(low) <= level_rank(high),
    ensures
        log_level_shown_spec(Some(high), line) ==> log_level_shown_spec(Some(low), line),
        log_level_shown_spec(Some(low), line) ==> log_level_shown_spec(None, line),
{
}

/// Log level filter, cycled with `l` on the Logs tab.
#[derive(Clone, Copy, Debug, PartialEq, Eq, Structural)]
pub enum LogFilter {
    All,
    Debug,
    Info,
    Warn,
    Error,
}

pub open spec fn log_filter_next_spec(filter: LogFilter) -> LogFilter {
    match filter {
        LogFilter::All => LogFilter::Debug,
        LogFilter::Debug => LogFilter::Info,
        LogFilter::Info => LogFilter::Warn,
        LogFilter::Warn => LogFilter::Error,
        LogFilter::Error => LogFilter::All,
    }
}

pub open spec fn log_filter_label_spec(filter: LogFilter) -> Seq<char> {
    match filter {
        LogFilter::All => "全部"@,
        LogFilter::Debug => "debug+"@,
        LogFilter::Info => "info+"@,
        LogFilter::Warn => "warn+"@,
        LogFilter::Error => "error"@,
    }
}

pub open spec fn log_filter_minimum_spec(filter: LogFilter) -> Option<LogLevel> {
    match filter {
        LogFilter::All => None,
        LogFilter::Debug => Some(LogLevel::Debug),
        LogFilter::Info => Some(LogLevel::Info),
        LogFilter::Warn => Some(LogLevel::Warn),
        LogFilter::Error => Some(LogLevel::Error),
    }
}

impl LogFilter {
    pub fn next(self) -> (f: LogFilter)
        ensures
            f == log_filter_next_spec(self),
    {
        match self {
            LogFilter::All => LogFilter::Debug,
            LogFilter::Debug => LogFilter::Info,
            LogFilter::Info => LogFilter::Warn,
            LogFilter::Warn => LogFilter::Error,
            LogFilter::Error => LogFilter::All,
        }
    }

    pub fn label(self) -> (s: &'static str)
        ensures
            s@ == log_filter_label_spec(self),
    {
        match self {
            LogFilter::All => "全部",
            LogFilter::Debug => "debug+",
            LogFilter::Info => "info+",
            LogFilter::Warn => "warn+",
            LogFilter::Error => "error",
        }
    }

    /// The threshold the filter stands for.
    pub fn minimum(self) -> (m: Option<LogLevel>)
        ensures
            m == log_filter_minimum_spec(self),
    {
        match self {
            LogFilter::All => None,
            LogFilter::Debug => Some(LogLevel::Debug),
            LogFilter::Info => Some(LogLevel::Info),
            LogFilter::Warn => Some(LogLevel::Warn),
            LogFilter::Error => Some(LogLevel::Error),
        }
    }

    /// Whether a line passes the filter.
    pub fn matches(self, line: &str) -> (shown: bool)
        ensures
            shown == log_level_shown_spec(log_filter_minimum_spec(self), line@),
    {
        log_level_shown(self.minimum(), line)
    }
}

/// What the input overlay is collecting.
#[derive(Clone, Copy, Debug, PartialEq, Eq, Structural)]
pub enum InputGoal {
    ProfileName,
    ProfileUrl,
    ProfileFile,
    ProfileEditUrl,
    CoreVersion,
    Mirror,
    AutoUpdate,
    MixedPort,
    TestUrl,
    /// A substring filter over the connection table.
    ConnFilter,
    /// A substring filter over the kernel log tail.
    LogQuery,
}

pub open spec fn input_label_spec(goal: InputGoal) -> Seq<char> {
    match goal {
        InputGoal::ProfileName => "档案名"@,
        InputGoal::ProfileUrl => "订阅链接"@,
        InputGoal::ProfileFile => "本地订阅文件路径"@,
        InputGoal::ProfileEditUrl => "新的订阅链接（留空取消）"@,
        InputGoal::CoreVersion => "内核版本（留空 = 最新）"@,
        InputGoal::Mirror => "镜像前缀（留空 = 直连）"@,
        InputGoal::AutoUpdate => "自动更新间隔（分钟，0 = 关闭）"@,
        InputGoal::MixedPort => "混合代理端口"@,
        InputGoal::TestUrl => "延迟测试地址"@,
        InputGoal::ConnFilter => "连接过滤关键字（留空 = 全部）"@,
        InputGoal::LogQuery => "日志关键字（留空 = 不过滤）"@,
    }
}

/// The prompt the input overlay shows for a goal.
pub fn input_label(goal: InputGoal) -> (s: &'static str)
    ensures
        s@ == input_label_spec(goal),
{
    match goal {
        InputGoal::ProfileName => "档案名",
        InputGoal::ProfileUrl => "订阅链接",
        InputGoal::ProfileFile => "本地订阅文件路径",
        InputGoal::ProfileEditUrl => "新的订阅链接（留空取消）",
        InputGoal::CoreVersion => "内核版本（留空 = 最新）",
        InputGoal::Mirror => "镜像前缀（留空 = 直连）",
        InputGoal::AutoUpdate => "自动更新间隔（分钟，0 = 关闭）",
        InputGoal::MixedPort => "混合代理端口",
        InputGoal::TestUrl => "延迟测试地址",
        InputGoal::ConnFilter => "连接过滤关键字（留空 = 全部）",
        InputGoal::LogQuery => "日志关键字（留空 = 不过滤）",
    }
}

} // verus!
