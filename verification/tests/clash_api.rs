use sbtui::clash_api::{split_proxies, ProxyEntry};

fn entry(name: &str, kind: &str) -> ProxyEntry {
    ProxyEntry {
        name: name.to_string(),
        kind: kind.to_string(),
        now: String::new(),
        all: Vec::new(),
        history: Vec::new(),
    }
}

#[test]
fn the_proxy_split_keeps_groups_in_map_order_and_sorts_nodes_by_name() {
    let entries = vec![
        entry("zeta", "Shadowsocks"),
        entry("节点选择", "Selector"),
        entry("alpha", "VMess"),
        entry("auto", "URLTest"),
        entry("alpha", "Trojan"),
        entry("DIRECT", "Direct"),
    ];
    let (groups, nodes) = split_proxies(entries);
    assert_eq!(groups.len() + nodes.len(), 6);
    let group_names: Vec<&str> = groups.iter().map(|g| g.name.as_str()).collect();
    assert_eq!(group_names, vec!["节点选择", "auto"]);
    let node_names: Vec<(&str, &str)> = nodes.iter().map(|n| (n.name.as_str(), n.kind.as_str())).collect();
    assert_eq!(
        node_names,
        vec![("DIRECT", "Direct"), ("alpha", "VMess"), ("alpha", "Trojan"), ("zeta", "Shadowsocks")]
    );
}
