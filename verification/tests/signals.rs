use sbtui::signals::should_clear_proxy;

#[test]
fn only_an_explicit_choice_leaves_the_proxy_on() {
    assert!(
        should_clear_proxy(true, false),
        "a proxy that is on must come off unless the user said otherwise"
    );
    assert!(!should_clear_proxy(true, true), "the user chose to keep it");
    assert!(
        !should_clear_proxy(false, false),
        "nothing to clear when the proxy was never enabled"
    );
}

#[test]
fn the_proxy_decision_has_three_cases_and_no_other() {
    assert!(should_clear_proxy(true, false));
    assert!(!should_clear_proxy(true, true));
    assert!(!should_clear_proxy(false, false));
    assert!(!should_clear_proxy(false, true));
}
