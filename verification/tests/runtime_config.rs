use sbtui::runtime_config::{adapt_config, adapt_inbounds, config_kind, local_inbounds, AdaptError, JsonKind};
use sbtui::system_proxy::TrafficMode;

#[test]
fn adapt_inbounds_switches_between_mixed_and_tun() {
    let config = r#"{"inbounds":[{"type":"tun","tag":"tun-in"}],"route":{"rules":[],"auto_detect_interface":false},"outbounds":[]}"#;

    let mixed = adapt_inbounds(config, TrafficMode::SystemProxy).expect("mixed adaptation");
    let value: serde_json::Value = serde_json::from_str(&mixed).expect("JSON");
    assert_eq!(value["inbounds"][0]["type"], "mixed");
    assert_eq!(value["inbounds"][0]["listen_port"], 2080);
    assert_eq!(value["route"]["auto_detect_interface"], true);

    let tun = adapt_inbounds(config, TrafficMode::Tun).expect("tun adaptation");
    let value: serde_json::Value = serde_json::from_str(&tun).expect("JSON");
    assert_eq!(value["inbounds"][0]["type"], "tun");
    assert_eq!(value["inbounds"][0]["auto_route"], true);
}

#[test]
fn a_configuration_that_is_not_json_is_refused() {
    assert_eq!(adapt_inbounds("{not json", TrafficMode::Tun), Err(AdaptError::NotJson));
    assert_eq!(config_kind("{not json"), JsonKind::Invalid);
    assert_eq!(config_kind("[1, 2]"), JsonKind::Other);
    assert_eq!(adapt_config("[1, 2]", TrafficMode::Tun), None);
    assert_eq!(config_kind("null"), JsonKind::ObjectOrNull);
    assert!(matches!(adapt_config("null", TrafficMode::SystemProxy), Some(Ok(_))));
}

#[test]
fn everything_but_the_inbounds_and_the_route_flag_is_kept() {
    let config = r#"{"log":{"level":"warn"},"route":{"final":"proxy","rules":[{"outbound":"direct"}]},"outbounds":[{"type":"direct","tag":"direct"}]}"#;
    let adapted = adapt_inbounds(config, TrafficMode::SystemProxy).expect("adaptation");
    let before: serde_json::Value = serde_json::from_str(config).expect("JSON");
    let after: serde_json::Value = serde_json::from_str(&adapted).expect("JSON");
    assert_eq!(after["log"], before["log"]);
    assert_eq!(after["outbounds"], before["outbounds"]);
    assert_eq!(after["route"]["final"], "proxy");
    assert_eq!(after["route"]["rules"], before["route"]["rules"]);
    assert_eq!(after["route"]["auto_detect_interface"], true);
    assert_eq!(after["inbounds"], local_inbounds(TrafficMode::SystemProxy));
    assert_eq!(after.as_object().map(|o| o.len()), Some(4));
    assert_eq!(adapted, serde_json::to_string_pretty(&after).expect("printable"));
}

#[test]
fn a_route_that_is_not_an_object_is_left_alone_and_null_gains_inbounds() {
    let adapted = adapt_inbounds(r#"{"route":"none"}"#, TrafficMode::Tun).expect("adaptation");
    let after: serde_json::Value = serde_json::from_str(&adapted).expect("JSON");
    assert_eq!(after["route"], "none");
    let from_null = adapt_inbounds("null", TrafficMode::Tun).expect("adaptation");
    let after: serde_json::Value = serde_json::from_str(&from_null).expect("JSON");
    assert_eq!(after.as_object().map(|o| o.len()), Some(1));
    assert_eq!(after["inbounds"], local_inbounds(TrafficMode::Tun));
    assert!(after.get("route").is_none());
}

#[test]
fn the_local_inbounds_are_the_runtime_s_own() {
    let mixed: serde_json::Value =
        serde_json::from_str(r#"[{"type":"mixed","tag":"mixed-in","listen":"127.0.0.1","listen_port":2080}]"#).unwrap();
    assert_eq!(local_inbounds(TrafficMode::SystemProxy), mixed);
    let tun: serde_json::Value = serde_json::from_str(
        r#"[{"type":"tun","tag":"tun-in","address":["172.19.0.1/30","fdfe:dcba:9876::1/126"],"mtu":9000,"auto_route":true,"strict_route":true,"stack":"mixed"}]"#,
    )
    .unwrap();
    assert_eq!(local_inbounds(TrafficMode::Tun), tun);
}
