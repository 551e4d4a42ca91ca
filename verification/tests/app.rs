use sbtui::snapshot::{engine_status, ClientSnapshot};
use sbtui::tui::{tab_title, Tab, TAB_TITLES};
use sbtui::tui_state::ViewState;

#[test]
fn tabs_cycle_in_both_directions() {
    assert_eq!(Tab::Dashboard.next(), Tab::Proxies);
    assert_eq!(Tab::Settings.next(), Tab::Rules);
    assert_eq!(Tab::Rules.next(), Tab::Override);
    assert_eq!(Tab::Override.next(), Tab::Dashboard);
    assert_eq!(Tab::Dashboard.previous(), Tab::Override);
    assert_eq!(Tab::Override.previous(), Tab::Rules);
    assert_eq!(Tab::from_index(2), Some(Tab::Connections));
    assert_eq!(Tab::from_index(6), Some(Tab::Override));
    assert_eq!(Tab::from_index(9), None);
    let mut tab = Tab::Dashboard;
    for index in 1..=Tab::COUNT {
        tab = tab.next();
        assert_eq!(Tab::from_index(tab.index()), Some(tab), "cycle step {index}");
    }
    assert_eq!(
        tab,
        Tab::Dashboard,
        "{} tabs, so the cycle closes at {}",
        Tab::COUNT,
        Tab::COUNT
    );
    for (index, title) in TAB_TITLES.iter().enumerate() {
        let tab = Tab::from_index(index).unwrap_or_else(|| panic!("no tab at {index}"));
        assert_eq!(tab.index(), index, "title {title:?} is out of step");
        assert!(!title.is_empty(), "tab {index} has no title to draw");
        assert_eq!(tab_title(tab), *title);
        let digit = char::from(b'1' + index as u8);
        assert!(
            digit.is_ascii_digit(),
            "the key map routes 1–9 to tabs; {title:?} is past that range"
        );
        assert_eq!(Tab::from_index(digit as usize - '1' as usize), Some(tab));
    }
}

#[test]
fn an_uncoded_status_keeps_the_raw_string() {
    let snapshot = ClientSnapshot {
        status: "尚未迁移的状态".to_owned(),
        ..ClientSnapshot::default()
    };
    assert_eq!(engine_status(&snapshot), "尚未迁移的状态");
}

#[test]
fn the_footer_status_renders_the_records_chinese() {
    let snapshot = ClientSnapshot {
        status: "内核已就绪".to_owned(),
        latest_event_zh: Some("内核已就绪，可以启动".to_owned()),
        ..ClientSnapshot::default()
    };
    assert_eq!(engine_status(&snapshot), "内核已就绪，可以启动");
    let view = ViewState::new(&snapshot);
    assert_eq!(view.status, "内核已就绪，可以启动");
    assert_eq!(view.tab, Tab::Dashboard);
}
