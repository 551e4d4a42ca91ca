use sbtui::gui_lang::Locale;
use sbtui::tui::{log_level_shown, LogLevel};
use sbtui::gui_logs::{follow_target, localised_event_line, EventLine, LogTail, KERNEL_ROWS};

/// The panel's window over a saturated kernel ring: exactly `KERNEL_ROWS`
/// lines, the newest one being `newest`.
fn full_kernel(newest: usize) -> Vec<String> {
    (newest - KERNEL_ROWS + 1..=newest)
        .map(|number| format!("INFO line {number}"))
        .collect()
}

#[test]
fn following_keeps_working_after_the_row_count_saturates() {
    let seen = LogTail::new(&full_kernel(500), &[], "Client");
    assert_eq!(seen.rows, KERNEL_ROWS);

    let tail = LogTail::new(&full_kernel(501), &[], "Client");
    assert_eq!(
        tail.rows, seen.rows,
        "the whole point: a saturated window cannot report growth by count"
    );
    assert_eq!(
        follow_target(Some(&seen), &tail, true),
        Some(KERNEL_ROWS - 1),
        "a new last row is a new line, so the view pins to it"
    );

    let next = LogTail::new(&full_kernel(502), &[], "Client");
    assert_eq!(
        follow_target(Some(&tail), &next, true),
        Some(KERNEL_ROWS - 1)
    );
}

#[test]
fn a_repaint_of_an_unchanged_tail_leaves_the_scroll_alone() {
    let kernel = full_kernel(500);
    let seen = LogTail::new(&kernel, &[], "Client");
    let tail = LogTail::new(&kernel, &[], "Client");
    assert_eq!(
        follow_target(Some(&seen), &tail, true),
        None,
        "scrolling on a paint that brought nothing new fights the wheel"
    );
    assert_eq!(follow_target(Some(&seen), &tail, false), None);
}

#[test]
fn follow_switches_off_and_an_empty_panel_stop_the_jump() {
    let kernel = ["INFO one".to_owned(), "INFO two".to_owned()];
    let tail = LogTail::new(&kernel, &[], "Client");
    assert_eq!(follow_target(None, &tail, true), Some(1));
    assert_eq!(
        follow_target(None, &tail, false),
        None,
        "自动滚动 off means off, even on a first paint"
    );
    assert_eq!(
        follow_target(None, &LogTail::new(&[], &[], "Client"), true),
        None,
        "an empty panel has no row to pin to; the old code underflowed here"
    );
}

#[test]
fn the_newest_event_is_the_tail_even_when_the_kernel_ring_is_full() {
    let kernel = full_kernel(500);
    let events = vec!["节点已切换".to_owned()];
    let tail = LogTail::new(&kernel, &events, "Client");
    assert_eq!(tail.rows, KERNEL_ROWS + 1);
    assert_eq!(follow_target(None, &tail, true), Some(KERNEL_ROWS));

    let kernel_last = LogTail::new(&kernel, &[], "Client");
    let trimmed: Vec<String> = kernel.iter().take(KERNEL_ROWS - 1).cloned().collect();
    let event_last = LogTail::new(&trimmed, &["INFO line 500".to_owned()], "Client");
    assert_eq!(kernel_last.rows, event_last.rows);
    assert_eq!(kernel_last.line, event_last.line);
    assert_ne!(
        kernel_last, event_last,
        "the source column is part of the last row's identity"
    );
}

#[test]
fn coded_events_render_in_the_interface_language_and_bare_lines_verbatim() {
    let coded = EventLine {
        text: "就绪。先下载 sing-box 内核，再导入订阅。".to_owned(),
        rendered: Some((
            "就绪。先下载 sing-box 内核，再导入订阅。".to_owned(),
            "Ready. Download the sing-box core first, then import a subscription.".to_owned(),
        )),
    };
    assert_eq!(
        localised_event_line(&coded, Locale::En),
        "Ready. Download the sing-box core first, then import a subscription."
    );
    assert_eq!(
        localised_event_line(&coded, Locale::Zh),
        "就绪。先下载 sing-box 内核，再导入订阅。"
    );
    let bare = EventLine {
        text: "尚未迁移的普通事件".to_owned(),
        rendered: None,
    };
    assert_eq!(localised_event_line(&bare, Locale::En), "尚未迁移的普通事件");
    assert_eq!(localised_event_line(&bare, Locale::Zh), "尚未迁移的普通事件");
}

#[test]
fn the_info_chip_keeps_unmarked_client_events() {
    assert!(log_level_shown(Some(LogLevel::Info), "内核已启动"));
    assert!(!log_level_shown(Some(LogLevel::Info), "TRACE detail"));
    assert!(log_level_shown(Some(LogLevel::Error), "导入订阅失败: timeout"));
}
