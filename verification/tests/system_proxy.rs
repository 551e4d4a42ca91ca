use sbtui::system_proxy::{
    disable, enable, gsettings_steps, host_port, manual_proxy_hint, networksetup_args,
    platform_label, port_arg, registry_writes, HostOs, RegistryValue, RegistryWrite, TrafficMode,
    LOCAL_MIXED_PORT,
};

#[test]
fn traffic_mode_labels_are_distinct() {
    assert_ne!(TrafficMode::SystemProxy.label(), TrafficMode::Tun.label());
}

#[test]
fn the_proxy_server_is_the_local_mixed_port() {
    assert_eq!(enable(LOCAL_MIXED_PORT), "127.0.0.1:2080");
    assert_eq!(disable(), "");
    assert_eq!(port_arg("127.0.0.1:2080"), "2080");
    assert_eq!(
        host_port("127.0.0.1:2080"),
        ("127.0.0.1".to_owned(), "2080".to_owned())
    );
}

#[test]
fn every_platform_names_its_backend() {
    for os in [HostOs::Windows, HostOs::MacOs, HostOs::Linux] {
        assert!(!platform_label(os).is_empty());
    }
}

#[test]
fn the_platform_commands_carry_the_server() {
    let args = networksetup_args("Wi-Fi", "127.0.0.1:2080");
    assert!(args.iter().any(|a| a == "Wi-Fi"));
    assert!(args.iter().any(|a| a == "2080"));
    let steps = gsettings_steps("127.0.0.1:2080");
    assert!(!steps.is_empty());
    assert!(manual_proxy_hint("127.0.0.1:2080").contains("127.0.0.1"));
}

#[test]
fn windows_is_told_to_switch_point_and_bypass_or_only_to_switch_off() {
    assert_eq!(
        registry_writes(&enable(2080)),
        vec![
            RegistryWrite { name: "ProxyEnable".to_owned(), value: RegistryValue::Dword(1) },
            RegistryWrite { name: "ProxyServer".to_owned(), value: RegistryValue::Text("127.0.0.1:2080".to_owned()) },
            RegistryWrite { name: "ProxyOverride".to_owned(), value: RegistryValue::Text("<local>".to_owned()) },
        ]
    );
    assert_eq!(
        registry_writes(&disable()),
        vec![RegistryWrite { name: "ProxyEnable".to_owned(), value: RegistryValue::Dword(0) }]
    );
}
