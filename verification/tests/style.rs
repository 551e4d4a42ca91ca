use sbtui::style::{delay_level, meter, short_label, status_color, DelayLevel, StatusTone};

#[test]
fn meter_keeps_the_requested_visual_width() {
    assert_eq!(meter(0, 12).chars().count(), 12);
    assert_eq!(meter(1024 * 1024, 12).chars().count(), 12);
}

#[test]
fn meter_fills_one_tenth_per_decimal_digit() {
    assert_eq!(meter(0, 10), "░░░░░░░░░░");
    assert_eq!(meter(5, 10), "█░░░░░░░░░");
    assert_eq!(meter(1024 * 1024, 10), "███████░░░");
    assert_eq!(meter(9, 3), "█░░");
    assert_eq!(meter(u64::MAX, 10), "██████████");
}

#[test]
fn a_short_label_marks_its_cut() {
    assert_eq!(short_label("节点选择", 10), "节点选择");
    assert_eq!(short_label("abcdefgh", 4), "abc…");
    assert_eq!(short_label("abc", 0), "…");
}

#[test]
fn a_failure_is_painted_as_danger() {
    assert_eq!(status_color("导入订阅失败"), StatusTone::Danger);
}

#[test]
fn delays_are_graded_fast_slow_and_timed_out() {
    assert_eq!(delay_level(None), DelayLevel::Unknown);
    assert_eq!(delay_level(Some(0)), DelayLevel::Unknown);
    assert_eq!(delay_level(Some(1)), DelayLevel::Fast);
    assert_eq!(delay_level(Some(299)), DelayLevel::Fast);
    assert_eq!(delay_level(Some(300)), DelayLevel::Slow);
    assert_eq!(delay_level(Some(999)), DelayLevel::Slow);
    assert_eq!(delay_level(Some(1000)), DelayLevel::Timeout);
    assert_eq!(delay_level(Some(u64::MAX)), DelayLevel::Timeout);
}
