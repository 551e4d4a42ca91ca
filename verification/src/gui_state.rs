//! The desktop window's view vocabulary: its pages, its text fields, the log
//! chips and settings sections, and the rule that switching the language
//! keeps everything else where it was.

use vstd::prelude::*;

use crate::gui_lang::{locale_toggle_spec, tr, Locale};
use crate::text::{chars_of, str_eq, string_of};
use crate::tui::LogLevel;

verus! {

#[derive(Clone, Copy, Debug, PartialEq, Eq, Structural)]
pub enum Page {
    Dashboard,
    Subscriptions,
    Proxies,
    Rules,
    /// The active profile's override file, its switchable rule fragments, and
    /// the redacted outline of the merged configuration.
    Overrides,
    Connections,
    Logs,
    Settings,
    About,
}

pub open spec fn page_title_spec(page: Page, locale: Locale) -> Seq<char> {
    let en = locale == Locale::En;
    match page {
        Page::Dashboard => if en {
            "Overview"@
        } else {
            "概览"@
        },
        Page::Subscriptions => if en {
            "Subscriptions"@
        } else {
            "订阅"@
        },
        Page::Proxies => if en {
            "Nodes"@
        } else {
            "节点"@
        },
        Page::Rules => if en {
            "Rules"@
        } else {
            "规则"@
        },
        Page::Overrides => if en {
            "Overrides"@
        } else {
            "覆写"@
        },
        Page::Connections => if en {
            "Connections"@
        } else {
            "连接"@
        },
        Page::Logs => if en {
            "Logs"@
        } else {
            "日志"@
        },
        Page::Settings => if en {
            "Settings"@
        } else {
            "设置"@
        },
        Page::About => if en {
            "About"@
        } else {
            "关于"@
        },
    }
}

impl Page {
    /// The navigation label in the interface's language.
    pub fn title(self, locale: Locale) -> (s: &'static str)
        ensures
            s@ == page_title_spec(self, locale),
    {
        match self {
            Page::Dashboard => tr(locale, "概览", "Overview"),
            Page::Subscriptions => tr(locale, "订阅", "Subscriptions"),
            Page::Proxies => tr(locale, "节点", "Nodes"),
            Page::Rules => tr(locale, "规则", "Rules"),
            Page::Overrides => tr(locale, "覆写", "Overrides"),
            Page::Connections => tr(locale, "连接", "Connections"),
            Page::Logs => tr(locale, "日志", "Logs"),
            Page::Settings => tr(locale, "设置", "Settings"),
            Page::About => tr(locale, "关于", "About"),
        }
    }

    /// Every page, in navigation order.
    pub fn all() -> (pages: [Page; 9])
        ensures
            pages@ == seq![
                Page::Dashboard,
                Page::Subscriptions,
                Page::Proxies,
                Page::Rules,
                Page::Overrides,
                Page::Connections,
                Page::Logs,
                Page::Settings,
                Page::About,
            ],
    {
        let pages = [
            Page::Dashboard,
            Page::Subscriptions,
            Page::Proxies,
            Page::Rules,
            Page::Overrides,
            Page::Connections,
            Page::Logs,
            Page::Settings,
            Page::About,
        ];
        assert(pages@ =~= seq![
            Page::Dashboard,
            Page::Subscriptions,
            Page::Proxies,
            Page::Rules,
            Page::Overrides,
            Page::Connections,
            Page::Logs,
            Page::Settings,
            Page::About,
        ]);
        pages
    }
}

/// What the title-bar language control does: the page the user was on, and
/// the other language.
pub fn switch_language(locale: Locale, page: Page) -> (r: (Page, Locale))
    ensures
        r == (page, locale_toggle_spec(locale)),
{
    (page, locale.toggle())
}

/// Switching the language twice comes back to the same page and language.
pub proof fn switching_twice_restores(locale: Locale, page: Page)
    ensures
        ({
            let (p1, l1) = (page, locale_toggle_spec(locale));
            let (p2, l2) = (p1, locale_toggle_spec(l1));
            p1 == page && p2 == page && l2 == locale && l1 != locale
        }),
{
}

/// A control's emphasis.
#[derive(Clone, Copy, Debug, PartialEq, Eq, Structural)]
pub enum Tone {
    Accent,
    Neutral,
    Warning,
    /// A control that destroys something.
    Danger,
}

/// What the user chose to do with the OS proxy when closing the window.
#[derive(Clone, Copy, Debug, PartialEq, Eq, Structural)]
pub enum ExitChoice {
    /// Leave the OS proxy pointing at the local port.
    Keep,
    /// Restore the captured pre-install proxy state, then close.
    Restore,
}

/// The text fields the window renders, each with its own slot of text.
#[derive(Clone, Copy, Debug, PartialEq, Eq, Structural)]
pub enum InputField {
    ConnFilter,
    LogQuery,
    ProxySearch,
    RuleSearch,
    SubUrl,
    /// The optional name the add click gives the new profile.
    SubName,
    /// A local sing-box JSON file the import click reads.
    SubFile,
    /// One profile's link, opened by that row's link editor.
    SubEditUrl,
    Mirror,
    MixedPort,
    TestUrl,
    AutoUpdateMinutes,
    CoreVersion,
}

/// Every field, in slot order.
pub const INPUT_FIELDS: [InputField; 13] = [
    InputField::ConnFilter,
    InputField::LogQuery,
    InputField::ProxySearch,
    InputField::RuleSearch,
    InputField::SubUrl,
    InputField::SubName,
    InputField::SubFile,
    InputField::SubEditUrl,
    InputField::Mirror,
    InputField::MixedPort,
    InputField::TestUrl,
    InputField::AutoUpdateMinutes,
    InputField::CoreVersion,
];

pub open spec fn slot_spec(field: InputField) -> nat {
    match field {
        InputField::ConnFilter => 0,
        InputField::LogQuery => 1,
        InputField::ProxySearch => 2,
        InputField::RuleSearch => 3,
        InputField::SubUrl => 4,
        InputField::SubName => 5,
        InputField::SubFile => 6,
        InputField::SubEditUrl => 7,
        InputField::Mirror => 8,
        InputField::MixedPort => 9,
        InputField::TestUrl => 10,
        InputField::AutoUpdateMinutes => 11,
        InputField::CoreVersion => 12,
    }
}

impl InputField {
    /// The index of this field's text in the window's field array.
    pub fn slot(self) -> (i: usize)
        ensures
            i == slot_spec(self),
            i < 13,
    {
        match self {
            InputField::ConnFilter => 0,
            InputField::LogQuery => 1,
            InputField::ProxySearch => 2,
            InputField::RuleSearch => 3,
            InputField::SubUrl => 4,
            InputField::SubName => 5,
            InputField::SubFile => 6,
            InputField::SubEditUrl => 7,
            InputField::Mirror => 8,
            InputField::MixedPort => 9,
            InputField::TestUrl => 10,
            InputField::AutoUpdateMinutes => 11,
            InputField::CoreVersion => 12,
        }
    }
}

/// Two fields never share a slot, so no field edits another's text.
pub proof fn slots_are_distinct(a: InputField, b: InputField)
    ensures
        slot_spec(a) == slot_spec(b) ==> a == b,
        slot_spec(a) < 13,
{
}

/// The logs-page level chip.
#[derive(Clone, Copy, Debug, Default, PartialEq, Eq, Structural)]
pub enum LogLevelFilter {
    #[default]
    All,
    Debug,
    Info,
    Warn,
    Error,
}

/// The threshold a level chip stands for.
pub open spec fn level_filter_minimum_spec(filter: LogLevelFilter) -> Option<LogLevel> {
    match filter {
        LogLevelFilter::All => None,
        LogLevelFilter::Debug => Some(LogLevel::Debug),
        LogLevelFilter::Info => Some(LogLevel::Info),
        LogLevelFilter::Warn => Some(LogLevel::Warn),
        LogLevelFilter::Error => Some(LogLevel::Error),
    }
}

pub open spec fn level_filter_label_spec(filter: LogLevelFilter, locale: Locale) -> Seq<char> {
    match filter {
        LogLevelFilter::All => if locale == Locale::En {
            "All"@
        } else {
            "全部"@
        },
        LogLevelFilter::Debug => "Debug+"@,
        LogLevelFilter::Info => "Info+"@,
        LogLevelFilter::Warn => "Warn+"@,
        LogLevelFilter::Error => "Error"@,
    }
}

impl LogLevelFilter {
    /// The chip's text; the four thresholds are level names, so only the
    /// first needs both languages.
    pub fn label(self, locale: Locale) -> (s: &'static str)
        ensures
            s@ == level_filter_label_spec(self, locale),
    {
        match self {
            LogLevelFilter::All => tr(locale, "全部", "All"),
            LogLevelFilter::Debug => "Debug+",
            LogLevelFilter::Info => "Info+",
            LogLevelFilter::Warn => "Warn+",
            LogLevelFilter::Error => "Error",
        }
    }

    /// The threshold the chip stands for, shared with the terminal client.
    pub fn minimum(self) -> (m: Option<LogLevel>)
        ensures
            m == level_filter_minimum_spec(self),
    {
        match self {
            LogLevelFilter::All => None,
            LogLevelFilter::Debug => Some(LogLevel::Debug),
            LogLevelFilter::Info => Some(LogLevel::Info),
            LogLevelFilter::Warn => Some(LogLevel::Warn),
            LogLevelFilter::Error => Some(LogLevel::Error),
        }
    }
}

#[derive(Clone, Copy, Debug, Default, PartialEq, Eq, Structural)]
pub enum SettingsSection {
    #[default]
    General,
    Network,
    Core,
    Tun,
    Automation,
    Appearance,
    Advanced,
}

pub open spec fn section_label_spec(section: SettingsSection, locale: Locale) -> Seq<char> {
    let en = locale == Locale::En;
    match section {
        SettingsSection::General => if en {
            "General"@
        } else {
            "常规"@
        },
        SettingsSection::Network => if en {
            "Network & ports"@
        } else {
            "网络与端口"@
        },
        SettingsSection::Core => if en {
            "Core"@
        } else {
            "内核"@
        },
        SettingsSection::Tun => "TUN"@,
        SettingsSection::Automation => if en {
            "Automation"@
        } else {
            "自动化"@
        },
        SettingsSection::Appearance => if en {
            "Appearance"@
        } else {
            "外观"@
        },
        SettingsSection::Advanced => if en {
            "Advanced"@
        } else {
            "高级"@
        },
    }
}

pub open spec fn section_blurb_spec(section: SettingsSection, locale: Locale) -> Seq<char> {
    let en = locale == Locale::En;
    match section {
        SettingsSection::General => if en {
            "Subscriptions and local profiles"@
        } else {
            "订阅与本地配置档案"@
        },
        SettingsSection::Network => if en {
            "Traffic mode, ports and the test address"@
        } else {
            "流量模式、端口与测试地址"@
        },
        SettingsSection::Core => if en {
            "sing-box version, mirror and updates"@
        } else {
            "sing-box 版本、镜像与更新"@
        },
        SettingsSection::Tun => if en {
            "Virtual adapter and system routes"@
        } else {
            "虚拟网卡与系统路由"@
        },
        SettingsSection::Automation => if en {
            "Auto start and auto update"@
        } else {
            "自动启动与自动更新"@
        },
        SettingsSection::Appearance => if en {
            "Theme and fonts"@
        } else {
            "主题与字体"@
        },
        SettingsSection::Advanced => if en {
            "Data directory and config safety"@
        } else {
            "数据目录与配置安全"@
        },
    }
}

pub open spec fn section_glyph_spec(section: SettingsSection) -> Seq<char> {
    match section {
        SettingsSection::General => "stack"@,
        SettingsSection::Network => "network"@,
        SettingsSection::Core => "power"@,
        SettingsSection::Tun => "globe"@,
        SettingsSection::Automation => "clock"@,
        SettingsSection::Appearance => "home"@,
        SettingsSection::Advanced => "settings"@,
    }
}

impl SettingsSection {
    /// Every section, in rail order.
    pub fn all() -> (sections: [SettingsSection; 7])
        ensures
            sections@ == seq![
                SettingsSection::General,
                SettingsSection::Network,
                SettingsSection::Core,
                SettingsSection::Tun,
                SettingsSection::Automation,
                SettingsSection::Appearance,
                SettingsSection::Advanced,
            ],
    {
        let sections = [
            SettingsSection::General,
            SettingsSection::Network,
            SettingsSection::Core,
            SettingsSection::Tun,
            SettingsSection::Automation,
            SettingsSection::Appearance,
            SettingsSection::Advanced,
        ];
        assert(sections@ =~= seq![
            SettingsSection::General,
            SettingsSection::Network,
            SettingsSection::Core,
            SettingsSection::Tun,
            SettingsSection::Automation,
            SettingsSection::Appearance,
            SettingsSection::Advanced,
        ]);
        sections
    }

    pub fn label(self, locale: Locale) -> (s: &'static str)
        ensures
            s@ == section_label_spec(self, locale),
    {
        match self {
            SettingsSection::General => tr(locale, "常规", "General"),
            SettingsSection::Network => tr(locale, "网络与端口", "Network & ports"),
            SettingsSection::Core => tr(locale, "内核", "Core"),
            SettingsSection::Tun => "TUN",
            SettingsSection::Automation => tr(locale, "自动化", "Automation"),
            SettingsSection::Appearance => tr(locale, "外观", "Appearance"),
            SettingsSection::Advanced => tr(locale, "高级", "Advanced"),
        }
    }

    /// Why the section exists, shown under its name in the settings rail.
    pub fn blurb(self, locale: Locale) -> (s: &'static str)
        ensures
            s@ == section_blurb_spec(self, locale),
    {
        match self {
            SettingsSection::General => tr(
                locale,
                "订阅与本地配置档案",
                "Subscriptions and local profiles",
            ),
            SettingsSection::Network => tr(
                locale,
                "流量模式、端口与测试地址",
                "Traffic mode, ports and the test address",
            ),
            SettingsSection::Core => tr(
                locale,
                "sing-box 版本、镜像与更新",
                "sing-box version, mirror and updates",
            ),
            SettingsSection::Tun => tr(
                locale,
                "虚拟网卡与系统路由",
                "Virtual adapter and system routes",
            ),
            SettingsSection::Automation => tr(
                locale,
                "自动启动与自动更新",
                "Auto start and auto update",
            ),
            SettingsSection::Appearance => tr(locale, "主题与字体", "Theme and fonts"),
            SettingsSection::Advanced => tr(
                locale,
                "数据目录与配置安全",
                "Data directory and config safety",
            ),
        }
    }

    /// The rail icon's name.
    pub fn glyph(self) -> (s: &'static str)
        ensures
            s@ == section_glyph_spec(self),
    {
        match self {
            SettingsSection::General => "stack",
            SettingsSection::Network => "network",
            SettingsSection::Core => "power",
            SettingsSection::Tun => "globe",
            SettingsSection::Automation => "clock",
            SettingsSection::Appearance => "home",
            SettingsSection::Advanced => "settings",
        }
    }
}

/// ASCII case folding of one character.
pub open spec fn ascii_lower_char(c: char) -> char {
    if 'A' <= c && c <= 'Z' {
        ((c as u32) + 32) as char
    } else {
        c
    }
}

/// `str::to_ascii_lowercase`.
pub open spec fn ascii_lowercase_spec(s: Seq<char>) -> Seq<char> {
    s.map_values(|c: char| ascii_lower_char(c))
}

/// ASCII-lowercases a string, leaving every other character alone.
pub fn ascii_lowercase(s: &str) -> (r: String)
    ensures
        r@ == ascii_lowercase_spec(s@),
{
    let v = chars_of(s);
    let mut r = String::new();
    let mut i: usize = 0;
    while i < v.len()
        invariant
            i <= v@.len(),
            r@ == ascii_lowercase_spec(v@.subrange(0, i as int)),
        decreases v@.len() - i,
    {
        let c = v[i];
        let l = if 'A' <= c && c <= 'Z' {
            let b = (c as u8) + 32;
            b as char
        } else {
            c
        };
        r.push(l);
        i = i + 1;
        assert(r@ =~= ascii_lowercase_spec(v@.subrange(0, i as int)));
    }
    assert(v@.subrange(0, v@.len() as int) =~= v@);
    r
}

pub open spec fn page_from_name_spec(name: Seq<char>) -> Option<Page> {
    let n = ascii_lowercase_spec(name);
    if n == "dashboard"@ || n == "概览"@ {
        Some(Page::Dashboard)
    } else if n == "subscriptions"@ || n == "订阅"@ {
        Some(Page::Subscriptions)
    } else if n == "proxies"@ || n == "节点"@ {
        Some(Page::Proxies)
    } else if n == "rules"@ || n == "规则"@ {
        Some(Page::Rules)
    } else if n == "overrides"@ || n == "覆写"@ {
        Some(Page::Overrides)
    } else if n == "connections"@ || n == "连接"@ {
        Some(Page::Connections)
    } else if n == "logs"@ || n == "日志"@ {
        Some(Page::Logs)
    } else if n == "settings"@ || n == "设置"@ {
        Some(Page::Settings)
    } else if n == "about"@ || n == "关于"@ {
        Some(Page::About)
    } else {
        None
    }
}

/// The page a review seam names, in English (any ASCII case) or Chinese.
pub fn page_from_name(name: &str) -> (page: Option<Page>)
    ensures
        page == page_from_name_spec(name@),
{
    let l = ascii_lowercase(name);
    let n = l.as_str();
    if str_eq(n, "dashboard") || str_eq(n, "概览") {
        Some(Page::Dashboard)
    } else if str_eq(n, "subscriptions") || str_eq(n, "订阅") {
        Some(Page::Subscriptions)
    } else if str_eq(n, "proxies") || str_eq(n, "节点") {
        Some(Page::Proxies)
    } else if str_eq(n, "rules") || str_eq(n, "规则") {
        Some(Page::Rules)
    } else if str_eq(n, "overrides") || str_eq(n, "覆写") {
        Some(Page::Overrides)
    } else if str_eq(n, "connections") || str_eq(n, "连接") {
        Some(Page::Connections)
    } else if str_eq(n, "logs") || str_eq(n, "日志") {
        Some(Page::Logs)
    } else if str_eq(n, "settings") || str_eq(n, "设置") {
        Some(Page::Settings)
    } else if str_eq(n, "about") || str_eq(n, "关于") {
        Some(Page::About)
    } else {
        None
    }
}

pub open spec fn section_from_name_spec(name: Seq<char>) -> Option<SettingsSection> {
    let n = ascii_lowercase_spec(name);
    if n == "general"@ {
        Some(SettingsSection::General)
    } else if n == "network"@ {
        Some(SettingsSection::Network)
    } else if n == "core"@ {
        Some(SettingsSection::Core)
    } else if n == "tun"@ {
        Some(SettingsSection::Tun)
    } else if n == "automation"@ {
        Some(SettingsSection::Automation)
    } else if n == "appearance"@ {
        Some(SettingsSection::Appearance)
    } else if n == "advanced"@ {
        Some(SettingsSection::Advanced)
    } else {
        None
    }
}

/// The settings section a review seam names, in any ASCII case.
pub fn section_from_name(name: &str) -> (section: Option<SettingsSection>)
    ensures
        section == section_from_name_spec(name@),
{
    let l = ascii_lowercase(name);
    let n = l.as_str();
    if str_eq(n, "general") {
        Some(SettingsSection::General)
    } else if str_eq(n, "network") {
        Some(SettingsSection::Network)
    } else if str_eq(n, "core") {
        Some(SettingsSection::Core)
    } else if str_eq(n, "tun") {
        Some(SettingsSection::Tun)
    } else if str_eq(n, "automation") {
        Some(SettingsSection::Automation)
    } else if str_eq(n, "appearance") {
        Some(SettingsSection::Appearance)
    } else if str_eq(n, "advanced") {
        Some(SettingsSection::Advanced)
    } else {
        None
    }
}

} // verus!
