use sbtui::tui::LogFilter;
use sbtui::tui_logs::{log_query_matches, log_window, tail_within_width};

#[test]
fn log_query_matches_are_case_insensitive() {
    assert!(log_query_matches("DNS", "[123] inbound/dns: lookup"));
    assert!(!log_query_matches("DNS", "[123] outbound/tcp: connect"));
    assert!(log_query_matches("", "anything"));
}

#[test]
fn the_log_filter_keeps_unmarked_client_events_at_info_and_above() {
    assert!(
        LogFilter::Info.matches("内核已启动"),
        "the client's own events are informational, not debug"
    );
    assert!(LogFilter::Info.matches("ERROR boom"));
    assert!(!LogFilter::Info.matches("DEBUG detail"));
    assert!(LogFilter::Error.matches("导入订阅失败: timeout"));
    assert!(LogFilter::All.matches("DEBUG detail"));
}

#[test]
fn the_input_box_keeps_the_tail_of_a_long_value() {
    let url = "https://sub.example.test/sub/credential-that-is-quite-long/sing-box.json";
    assert_eq!(tail_within_width(url, 20), &url[url.len() - 20..]);
    assert_eq!(tail_within_width("short", 40), "short");
    assert!(tail_within_width("", 10).is_empty());
    assert_eq!(
        tail_within_width("节点节点节点", 4),
        "节点",
        "wide characters take two columns each"
    );
}

#[test]
fn the_log_window_keeps_the_newest_rows_and_pages_backwards() {
    fn first(rows: &[String]) -> Option<&str> {
        rows.first().map(String::as_str)
    }
    fn last(rows: &[String]) -> Option<&str> {
        rows.last().map(String::as_str)
    }

    let lines: Vec<String> = (1..=500).map(|number| format!("line {number}")).collect();
    assert_eq!(
        last(&log_window(&lines, 10, 0)),
        Some("line 500"),
        "the newest line has to be on screen without any scrolling"
    );
    assert_eq!(first(&log_window(&lines, 10, 0)), Some("line 491"));
    assert_eq!(last(&log_window(&lines, 10, 5)), Some("line 495"));
    assert_eq!(
        first(&log_window(&lines, 10, 10_000)),
        Some("line 1"),
        "paging past the top clamps at the oldest line"
    );

    let few: Vec<String> = (1..=3).map(|number| format!("line {number}")).collect();
    assert_eq!(log_window(&few, 10, 0).len(), 3, "a short list shows whole");
    assert!(log_window(&[], 10, 0).is_empty());
}
