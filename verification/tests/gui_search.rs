use sbtui::gui_lang::Locale;
use sbtui::gui_logs::EventLine;
use sbtui::clash_api::Connection;
use sbtui::command::ClientCommand;
use sbtui::gui_search::{close_all_click, close_all_label, pause_label, desktop_connection_rows, hits, page_rows, rule_hits, selected_group_index, kept_events, kept_kernel_lines, log_copy_text, search_key, shown_members, LIST_PAGE};
use sbtui::gui_state::LogLevelFilter;

fn strings(items: &[&str]) -> Vec<String> {
    items.iter().map(|s| s.to_string()).collect()
}

#[test]
fn the_search_key_is_trimmed_and_lowercased() {
    assert_eq!(search_key("  HongKong 01 "), "hongkong 01");
    assert_eq!(search_key("   "), "");
}

#[test]
fn an_empty_key_finds_everything_and_case_is_ignored() {
    assert!(hits("", "anything"));
    assert!(hits("hk", "🇭🇰 HK-01"));
    assert!(!hits("jp", "🇭🇰 HK-01"));
}

#[test]
fn the_node_search_keeps_positions_in_the_group() {
    let members = strings(&["HK-01", "JP-01", "hk-02", "US-01"]);
    assert_eq!(shown_members(&members, " Hk "), vec![0, 2]);
    assert_eq!(shown_members(&members, ""), vec![0, 1, 2, 3]);
    assert!(shown_members(&members, "sg").is_empty());
}

#[test]
fn the_log_page_keeps_lines_by_keyword_and_level() {
    let lines = strings(&[
        "INFO[0000] dns: exchanged example.com",
        "ERROR[0001] outbound/proxy: dial tcp: timeout",
        "WARN[0002] dns: slow upstream",
    ]);
    assert_eq!(kept_kernel_lines(&lines, "DNS", LogLevelFilter::All), strings(&[
        "INFO[0000] dns: exchanged example.com",
        "WARN[0002] dns: slow upstream",
    ]));
    assert_eq!(kept_kernel_lines(&lines, "", LogLevelFilter::Error), strings(&[
        "ERROR[0001] outbound/proxy: dial tcp: timeout",
    ]));
}

#[test]
fn kept_events_are_judged_by_their_text_and_shown_in_the_locale() {
    let events = vec![
        EventLine { text: "内核已启动".to_owned(), rendered: Some(("内核已启动".to_owned(), "Core started".to_owned())) },
        EventLine { text: "订阅已更新".to_owned(), rendered: None },
    ];
    assert_eq!(kept_events(&events, "内核", LogLevelFilter::All, Locale::En), strings(&["Core started"]));
    assert_eq!(kept_events(&events, "", LogLevelFilter::All, Locale::Zh), strings(&["内核已启动", "订阅已更新"]));
}

#[test]
fn the_copy_button_tags_each_line_with_its_source() {
    let kernel = strings(&["a", "b"]);
    let events = strings(&["c"]);
    assert_eq!(log_copy_text(&kernel, &events, "Client"), "[sing-box] a\n[sing-box] b\n[Client] c");
    assert_eq!(log_copy_text(&Vec::new(), &Vec::new(), "Client"), "");
}

fn conn(id: &str, host: &str, download: u64) -> Connection {
    let mut c = Connection { id: id.to_owned(), download, ..Default::default() };
    c.metadata.destination_host = host.to_owned();
    c
}

#[test]
fn the_desktop_table_leads_with_the_biggest_downloads_and_filters_after() {
    let rows = vec![conn("a", "a.example", 10), conn("b", "b.test", 500), conn("c", "c.example", 500)];
    let (sorted, shown) = desktop_connection_rows(rows, "  EXAMPLE ", false);
    let order: Vec<&str> = sorted.iter().map(|c| c.id.as_str()).collect();
    assert_eq!(order, vec!["b", "c", "a"]);
    let kept: Vec<&str> = shown.iter().map(|&i| sorted[i].id.as_str()).collect();
    assert_eq!(kept, vec!["c", "a"]);
}

#[test]
fn a_long_table_shows_one_page_until_all_are_asked_for() {
    let rows: Vec<Connection> = (0..130).map(|i| conn(&i.to_string(), "h", 0)).collect();
    let (_, shown) = desktop_connection_rows(rows.clone(), "", false);
    assert_eq!(shown.len(), LIST_PAGE);
    let (_, all) = desktop_connection_rows(rows, "", true);
    assert_eq!(all.len(), 130);
}

#[test]
fn identical_rows_keep_their_own_positions_across_the_page_cut() {
    let rows: Vec<Connection> = (0..LIST_PAGE + 5).map(|_| conn("same", "h", 7)).collect();
    let (_, shown) = desktop_connection_rows(rows, "", false);
    assert_eq!(shown, (0..LIST_PAGE).collect::<Vec<usize>>());
}

#[test]
fn the_proxies_page_falls_back_to_the_first_group() {
    assert_eq!(selected_group_index(3, 1), Some(1));
    assert_eq!(selected_group_index(3, 7), Some(0));
    assert_eq!(selected_group_index(0, 0), None);
}

#[test]
fn the_rules_search_reads_matcher_kind_and_outbound() {
    assert!(rule_hits("规则集 · geoip-cn", "Rule set", "DIRECT", ""));
    assert!(rule_hits("规则集 · geoip-cn", "Rule set", "DIRECT", " GEOIP "));
    assert!(rule_hits("规则集 · geoip-cn", "Rule set", "DIRECT", "set"));
    assert!(rule_hits("规则集 · geoip-cn", "Rule set", "DIRECT", "direct"));
    assert!(!rule_hits("规则集 · geoip-cn", "Rule set", "DIRECT", "proxy"));
    assert_eq!(page_rows(130, false), LIST_PAGE);
    assert_eq!(page_rows(130, true), 130);
    assert_eq!(page_rows(7, false), 7);
}

#[test]
fn equal_downloads_keep_their_order_in_the_desktop_table() {
    let rows = vec![conn("z", "z.example", 5), conn("a", "a.example", 5)];
    let (sorted, _) = desktop_connection_rows(rows, "", false);
    let order: Vec<&str> = sorted.iter().map(|c| c.id.as_str()).collect();
    assert_eq!(order, vec!["z", "a"]);
}

#[test]
fn closing_every_connection_asks_for_a_second_click() {
    assert_eq!(close_all_click(false), (true, None));
    assert_eq!(close_all_click(true), (false, Some(ClientCommand::CloseAllConnections)));
    assert_eq!(close_all_label(true, Locale::Zh), "再次点击确认");
    assert_eq!(close_all_label(false, Locale::En), "Close all");
    assert_eq!(pause_label(true, Locale::En), "Resume");
    assert_eq!(pause_label(false, Locale::Zh), "暂停刷新");
}
