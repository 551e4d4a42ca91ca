//! The desktop client's launch reporting: the lines its trace file carries,
//! and which launch outcomes still get a sentence inside the window.

use vstd::prelude::*;

use crate::gui_lang::Locale;
use crate::text::{decimal, decimal_spec, push_str};

verus! {

/// The trace file's name inside the data directory.
pub const TRACE_FILE: &'static str = "serein-startup.log";

pub open spec fn trace_line_spec(now: nat, pid: nat, message: Seq<char>) -> Seq<char> {
    "["@ + decimal_spec(now) + "] pid="@ + decimal_spec(pid) + " "@ + message + "\n"@
}

/// One trace line: the epoch stamp, the process, and what happened.
pub fn trace_line(now: u64, pid: u32, message: &str) -> (line: String)
    ensures
        line@ == trace_line_spec(now as nat, pid as nat, message@),
{
    let mut line = String::new();
    push_str(&mut line, "[");
    let n = decimal(now);
    push_str(&mut line, n.as_str());
    push_str(&mut line, "] pid=");
    let p = decimal(pid as u64);
    push_str(&mut line, p.as_str());
    push_str(&mut line, " ");
    push_str(&mut line, message);
    push_str(&mut line, "\n");
    line
}

pub open spec fn panic_line_spec(payload: Seq<char>, file: Seq<char>, line: nat) -> Seq<char> {
    "panic: "@ + payload + " at "@ + file + ":"@ + decimal_spec(line)
}

/// The line a panic leaves behind: what unwound, and from where.
pub fn panic_line(payload: &str, file: &str, line: u32) -> (text: String)
    ensures
        text@ == panic_line_spec(payload@, file@, line as nat),
{
    let mut text = String::new();
    push_str(&mut text, "panic: ");
    push_str(&mut text, payload);
    push_str(&mut text, " at ");
    push_str(&mut text, file);
    push_str(&mut text, ":");
    let l = decimal(line as u64);
    push_str(&mut text, l.as_str());
    text
}

/// What the launch path decided before it had a window to say it in.
#[derive(Clone, Debug, PartialEq, Eq)]
pub enum Launch {
    /// The instance lock is ours; nothing to report.
    Proceed,
    /// Another instance holds the data directory, so this one leaves.
    AlreadyRunning,
    /// The lock file could not be taken at all.
    LockFailed(String),
    /// The data directory itself could not be resolved.
    NoDataDir(String),
    /// A persisted file could not be read and the client starts on defaults.
    DefaultsInstead(String),
}

/// The outcome in Chinese and English, or none for a clean start.
pub open spec fn launch_reason_spec(outcome: Launch) -> Option<(Seq<char>, Seq<char>)> {
    match outcome {
        Launch::Proceed => None,
        Launch::AlreadyRunning => Some(
            (
                "已有另一个实例在运行，本进程退出"@,
                "another instance is already running, this process is exiting"@,
            ),
        ),
        Launch::LockFailed(e) => Some(
            (
                "无法锁定数据目录，本进程退出: "@ + e@,
                "could not lock the data directory, this process is exiting: "@ + e@,
            ),
        ),
        Launch::NoDataDir(e) => Some(
            (
                "无法打开数据目录，本进程退出: "@ + e@,
                "could not open the data directory, this process is exiting: "@ + e@,
            ),
        ),
        Launch::DefaultsInstead(what) => Some(
            (
                "未能读取 "@ + what@ + "，已按默认值启动"@,
                "could not read "@ + what@ + ", starting with the defaults"@,
            ),
        ),
    }
}

pub open spec fn launch_fatal_spec(outcome: Launch) -> bool {
    match outcome {
        Launch::AlreadyRunning | Launch::LockFailed(_) | Launch::NoDataDir(_) => true,
        _ => false,
    }
}

fn joined(a: &str, b: &str) -> (s: String)
    ensures
        s@ == a@ + b@,
{
    let mut s = String::new();
    push_str(&mut s, a);
    push_str(&mut s, b);
    s
}

fn joined3(a: &str, b: &str, c: &str) -> (s: String)
    ensures
        s@ == a@ + b@ + c@,
{
    let mut s = String::new();
    push_str(&mut s, a);
    push_str(&mut s, b);
    push_str(&mut s, c);
    s
}

impl Launch {
    /// The outcome in both languages, or `None` when the start was clean.
    pub fn reason(&self) -> (r: Option<(String, String)>)
        ensures
            match launch_reason_spec(*self) {
                None => r is None,
                Some((zh, en)) => r matches Some((z, e)) && z@ == zh && e@ == en,
            },
    {
        match self {
            Launch::Proceed => None,
            Launch::AlreadyRunning => Some(
                (
                    "已有另一个实例在运行，本进程退出".to_owned(),
                    "another instance is already running, this process is exiting".to_owned(),
                ),
            ),
            Launch::LockFailed(error) => Some(
                (
                    joined("无法锁定数据目录，本进程退出: ", error.as_str()),
                    joined(
                        "could not lock the data directory, this process is exiting: ",
                        error.as_str(),
                    ),
                ),
            ),
            Launch::NoDataDir(error) => Some(
                (
                    joined("无法打开数据目录，本进程退出: ", error.as_str()),
                    joined(
                        "could not open the data directory, this process is exiting: ",
                        error.as_str(),
                    ),
                ),
            ),
            Launch::DefaultsInstead(what) => Some(
                (
                    joined3("未能读取 ", what.as_str(), "，已按默认值启动"),
                    joined3("could not read ", what.as_str(), ", starting with the defaults"),
                ),
            ),
        }
    }

    /// The line for the trace file: both halves, joined by ` / `.
    pub fn trace(&self) -> (t: Option<String>)
        ensures
            match launch_reason_spec(*self) {
                None => t is None,
                Some((zh, en)) => t matches Some(line) && line@ == zh + " / "@ + en,
            },
    {
        match self.reason() {
            Some((zh, en)) => Some(joined3(zh.as_str(), " / ", en.as_str())),
            None => None,
        }
    }

    /// Whether the process stops before it can open a window.
    pub fn fatal(&self) -> (f: bool)
        ensures
            f == launch_fatal_spec(*self),
    {
        match self {
            Launch::AlreadyRunning | Launch::LockFailed(_) | Launch::NoDataDir(_) => true,
            _ => false,
        }
    }

    /// The sentence for the window, in its language; only an outcome that
    /// still opens a window has one.
    pub fn notice(&self, locale: Locale) -> (n: Option<String>)
        ensures
            launch_fatal_spec(*self) ==> n is None,
            !launch_fatal_spec(*self) ==> match launch_reason_spec(*self) {
                None => n is None,
                Some((zh, en)) => n matches Some(s) && s@ == (if locale == Locale::En {
                    en
                } else {
                    zh
                }),
            },
    {
        if self.fatal() {
            return None;
        }
        match self.reason() {
            Some((zh, en)) => Some(
                if locale == Locale::En {
                    en
                } else {
                    zh
                },
            ),
            None => None,
        }
    }
}

/// Every outcome but a clean start explains itself, and its two halves are
/// different texts.
pub proof fn every_outcome_explains_itself(outcome: Launch)
    ensures
        outcome != Launch::Proceed ==> launch_reason_spec(outcome) is Some,
        launch_reason_spec(outcome) matches Some((zh, en)) ==> zh.len() > 0 && en.len() > 0 && zh
            != en,
{
    reveal_strlit("已有另一个实例在运行，本进程退出");
    reveal_strlit("another instance is already running, this process is exiting");
    reveal_strlit("无法锁定数据目录，本进程退出: ");
    reveal_strlit("could not lock the data directory, this process is exiting: ");
    reveal_strlit("无法打开数据目录，本进程退出: ");
    reveal_strlit("could not open the data directory, this process is exiting: ");
    reveal_strlit("未能读取 ");
    reveal_strlit("could not read ");
    match outcome {
        Launch::LockFailed(e) => {
            let zh = "无法锁定数据目录，本进程退出: "@ + e@;
            let en = "could not lock the data directory, this process is exiting: "@ + e@;
            assert(zh[0] != en[0]);
        },
        Launch::NoDataDir(e) => {
            let zh = "无法打开数据目录，本进程退出: "@ + e@;
            let en = "could not open the data directory, this process is exiting: "@ + e@;
            assert(zh[0] != en[0]);
        },
        Launch::DefaultsInstead(what) => {
            let zh = "未能读取 "@ + what@ + "，已按默认值启动"@;
            let en = "could not read "@ + what@ + ", starting with the defaults"@;
            assert(zh[0] != en[0]);
        },
        Launch::AlreadyRunning => {
            assert("已有另一个实例在运行，本进程退出"@[0] != "another instance is already running, this process is exiting"@[0]);
        },
        Launch::Proceed => {},
    }
}

/// An outcome that stops the process never leaves a notice for a window that
/// will not open, and one that opens a window always has its notice.
pub proof fn a_notice_only_where_a_window_opens(outcome: Launch)
    ensures
        launch_fatal_spec(outcome) ==> launch_reason_spec(outcome) is Some,
        !launch_fatal_spec(outcome) && outcome != Launch::Proceed ==> launch_reason_spec(
            outcome,
        ) is Some,
{
}

/// What reporting one launch outcome produces: the trace file's line, and the
/// notice the window will show.
pub fn report(outcome: &Launch, locale: Locale) -> (r: (Option<String>, Option<String>))
    ensures
        match launch_reason_spec(*outcome) {
            None => r.0 is None,
            Some((zh, en)) => r.0 matches Some(line) && line@ == zh + " / "@ + en,
        },
        launch_fatal_spec(*outcome) ==> r.1 is None,
        !launch_fatal_spec(*outcome) ==> match launch_reason_spec(*outcome) {
            None => r.1 is None,
            Some((zh, en)) => r.1 matches Some(s) && s@ == (if locale == Locale::En {
                en
            } else {
                zh
            }),
        },
{
    (outcome.trace(), outcome.notice(locale))
}

} // verus!
