use sbtui::gui_lang::{age_label_en, age_label_zh, established_label_en, reserved_reason_en, tr, Locale};
use sbtui::gui_usage::{usage_label_en, usage_label_zh, SubscriptionUsage};

#[test]
fn the_button_names_the_language_it_switches_to() {
    assert_eq!(Locale::Zh.next_label(), "English");
    assert_eq!(Locale::En.next_label(), "中文");
}

#[test]
fn toggling_round_trips() {
    assert_eq!(Locale::default(), Locale::Zh);
    assert_eq!(Locale::Zh.toggle().toggle(), Locale::Zh);
    assert_eq!(Locale::En.toggle(), Locale::Zh);
}

#[test]
fn tr_selects_by_locale_and_keeps_interpolation_on_both_sides() {
    for locale in [Locale::Zh, Locale::En] {
        let plain = tr(locale, "概览", "Overview");
        let counted = tr(
            locale,
            format!("{n} 个代理组", n = 2),
            format!("{n} groups", n = 2),
        );
        if locale == Locale::Zh {
            assert_eq!((plain, counted), ("概览", "2 个代理组".to_owned()));
        } else {
            assert_eq!((plain, counted), ("Overview", "2 groups".to_owned()));
        }
    }
}

#[test]
fn a_reserved_field_explains_itself_in_english() {
    for path in [
        "/experimental/clash_api/external_controller",
        "/experimental/clash_api/secret",
        "/route/auto_detect_interface",
        "/inbounds",
        "/something/new",
    ] {
        assert!(
            !reserved_reason_en(path).is_empty(),
            "the English half has to answer for every path too"
        );
    }
    assert_eq!(
        reserved_reason_en("/inbounds"),
        "the traffic mode owns the inbound list (system proxy or TUN)"
    );
    assert_eq!(
        reserved_reason_en("/route/auto_detect_interface"),
        "running locally has to auto-detect the outbound interface"
    );
    assert_eq!(reserved_reason_en("/something/new"), "reserved by the client");
}

#[test]
fn the_engine_helpers_have_an_english_half() {
    let now = 1_800_000_000u64;
    assert_eq!(age_label_en(0, now), "Never updated");
    assert_eq!(age_label_en(now - 180, now), "3 min ago");
    assert_eq!(age_label_en(now - 7_200, now), "2 h ago");
    assert_eq!(age_label_en(now - 172_800, now), "2 d ago");
    assert_eq!(usage_label_en(None, now), "Usage not reported yet");
    let quota = SubscriptionUsage { upload: 0, download: 1024, total: 2048, expire: None };
    assert_eq!(usage_label_en(Some(quota), now), "Used 1.0 KiB / 2.0 KiB · 1.0 KiB left");
    let uncapped = SubscriptionUsage { total: 0, ..quota };
    assert_eq!(usage_label_en(Some(uncapped), now), "Used 1.0 KiB · no quota set");
}

#[test]
fn the_started_column_shows_an_age_or_what_the_core_sent() {
    let now = 1_800_000_000;
    assert_eq!(established_label_en(Some(120), "2026-09-23T01:02:03Z", now), "2 min ago");
    assert_eq!(established_label_en(Some(7_200), "x", now), "2 h ago");
    assert_eq!(established_label_en(None, "", now), "Just now");
    assert_eq!(established_label_en(None, "yesterday-ish", now), "yesterday-ish");
}

#[test]
fn the_chinese_labels_follow_the_english_arrangement() {
    let now = 1_800_000_000u64;
    assert_eq!(age_label_zh(0, now), "从未更新");
    assert_eq!(age_label_zh(now - 180, now), "3 分钟前");
    assert_eq!(age_label_zh(now - 7_200, now), "2 小时前");
    assert_eq!(age_label_zh(now - 172_800, now), "2 天前");
    assert_eq!(usage_label_zh(None, now), "尚未获取用量");
    let quota = SubscriptionUsage { upload: 0, download: 1024, total: 2048, expire: Some(now + 3 * 86_400) };
    assert_eq!(usage_label_zh(Some(quota), now), "已用 1.0 KiB / 2.0 KiB · 剩余 1.0 KiB · 3 天后重置");
    let uncapped = SubscriptionUsage { total: 0, expire: Some(now - 1), ..quota };
    assert_eq!(usage_label_zh(Some(uncapped), now), "已用 1.0 KiB · 未设配额 · 已到期");
}
