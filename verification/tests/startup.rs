use sbtui::gui_lang::Locale;
use sbtui::gui_startup::{panic_line, report, trace_line, Launch, TRACE_FILE};

#[test]
fn a_trace_line_names_its_moment_its_process_and_its_reason() {
    let line = trace_line(1_761_234_567, 4242, "已有另一个实例在运行");
    assert!(line.starts_with("[1761234567] "), "{line}");
    assert!(line.contains("pid=4242"), "{line}");
    assert!(line.ends_with("已有另一个实例在运行\n"), "{line}");
}

#[test]
fn a_panic_line_names_the_payload_and_the_place() {
    let line = panic_line("data directory", "crates/sbgui/src/main.rs", 104);
    assert!(line.contains("data directory"), "{line}");
    assert!(
        line.ends_with("crates/sbgui/src/main.rs:104"),
        "a panic line with no place in it is not actionable: {line}"
    );
}

#[test]
fn every_outcome_the_process_leaves_on_explains_itself_in_both_languages() {
    assert_eq!(Launch::Proceed.trace(), None, "a good start has nothing to say");
    for outcome in [
        Launch::AlreadyRunning,
        Launch::LockFailed("PermissionDenied".to_owned()),
        Launch::NoDataDir("no config dir".to_owned()),
        Launch::DefaultsInstead("settings.toml".to_owned()),
    ] {
        let (zh, en) = outcome
            .reason()
            .unwrap_or_else(|| panic!("{outcome:?} leaves the user with no reason"));
        assert!(!zh.is_empty() && !en.is_empty(), "{outcome:?} is mute");
        assert_ne!(zh, en, "{outcome:?} has no English half");
        let trace = outcome.trace().expect("a trace line for a fatal outcome");
        assert!(trace.contains(" / "), "the file carries both languages: {trace}");
    }
}

#[test]
fn a_notice_only_survives_outcomes_that_still_open_a_window() {
    for outcome in [
        Launch::AlreadyRunning,
        Launch::LockFailed("boom".to_owned()),
        Launch::NoDataDir("boom".to_owned()),
    ] {
        assert!(outcome.fatal(), "{outcome:?} must stop the process");
        assert_eq!(
            outcome.notice(Locale::Zh),
            None,
            "{outcome:?} exits, so nothing would render the notice"
        );
    }
    let degraded = Launch::DefaultsInstead("settings.toml".to_owned());
    assert!(!degraded.fatal(), "starting on defaults still opens a window");
    assert_eq!(
        degraded.notice(Locale::Zh),
        Some("未能读取 settings.toml，已按默认值启动".to_owned())
    );
    assert_eq!(
        degraded.notice(Locale::En),
        Some("could not read settings.toml, starting with the defaults".to_owned()),
        "an English window never inherits Chinese from the record"
    );
}

#[test]
fn a_report_pairs_the_trace_with_the_notice_of_the_same_outcome() {
    let (trace, notice) = report(&Launch::Proceed, Locale::Zh);
    assert_eq!((trace, notice), (None, None));
    let (trace, notice) = report(&Launch::AlreadyRunning, Locale::En);
    assert!(trace.is_some());
    assert_eq!(notice, None);
    assert!(!TRACE_FILE.is_empty());
}
