//! The traffic-mode model and the words the operating-system proxy is set
//! with: the proxy server address, the per-platform command arguments, and the
//! readings of the platform tools' output. Running the tools is the caller's.

use vstd::prelude::*;
use crate::text::{
    chars_of,
    contains_str,
    decimal,
    decimal_spec,
    push_chars,
    push_str,
    str_eq,
    string_of,
    trim,
    trim_spec,
    views,
};


verus! {

/// How the core receives traffic: a local mixed inbound paired with the OS
/// proxy, or the tun inbound that takes over routing globally.
#[derive(Clone, Copy, Debug, Default, PartialEq, Eq, Structural)]
pub enum TrafficMode {
    #[default]
    SystemProxy,
    Tun,
}

pub open spec fn traffic_label_spec(mode: TrafficMode) -> Seq<char> {
    match mode {
        TrafficMode::SystemProxy => "系统代理"@,
        TrafficMode::Tun => "TUN"@,
    }
}

impl TrafficMode {
    pub fn label(self) -> (s: &'static str)
        ensures
            s@ == traffic_label_spec(self),
    {
        match self {
            TrafficMode::SystemProxy => "系统代理",
            TrafficMode::Tun => "TUN",
        }
    }

    /// The other mode: what the `m` key offers to switch to.
    pub fn other(self) -> (m: TrafficMode)
        ensures
            m != self,
    {
        match self {
            TrafficMode::SystemProxy => TrafficMode::Tun,
            TrafficMode::Tun => TrafficMode::SystemProxy,
        }
    }
}

/// The two traffic modes never share a label.
pub proof fn traffic_labels_are_distinct()
    ensures
        traffic_label_spec(TrafficMode::SystemProxy) != traffic_label_spec(TrafficMode::Tun),
{
    reveal_strlit("TUN");
    reveal_strlit("系统代理");
    assert(traffic_label_spec(TrafficMode::SystemProxy)[0] != traffic_label_spec(
        TrafficMode::Tun,
    )[0]);
}

/// The mixed inbound port the system proxy points at.
pub const LOCAL_MIXED_PORT: u16 = 2080;

/// The address the OS proxy is set to.
pub const PROXY_SERVER: &'static str = "127.0.0.1";

/// The proxy server that points the OS at the local mixed inbound on `port`.
pub fn enable(port: u16) -> (server: String)
    ensures
        server@ == "127.0.0.1:"@ + decimal_spec(port as nat),
{
    let mut server = String::new();
    push_str(&mut server, "127.0.0.1:");
    let p = decimal(port as u64);
    push_str(&mut server, p.as_str());
    server
}

/// The proxy server that clears the OS proxy: none at all.
pub fn disable() -> (server: String)
    ensures
        server@ == Seq::<char>::empty(),
{
    String::new()
}

/// A value under the per-user Internet Settings registry key.
#[derive(Clone, Debug, PartialEq, Eq)]
pub enum RegistryValue {
    Dword(u32),
    Text(String),
}

/// One registry value Windows is told to hold.
#[derive(Clone, Debug, PartialEq, Eq)]
pub struct RegistryWrite {
    pub name: String,
    pub value: RegistryValue,
}

/// A registry value as plain values.
pub enum RegistryValueModel {
    Dword(u32),
    Text(Seq<char>),
}

pub open spec fn registry_write_view(w: RegistryWrite) -> (Seq<char>, RegistryValueModel) {
    (w.name@, match w.value {
        RegistryValue::Dword(n) => RegistryValueModel::Dword(n),
        RegistryValue::Text(t) => RegistryValueModel::Text(t@),
    })
}

/// What Windows is told for a proxy server: with a server, the proxy is
/// switched on, pointed at the server, and local addresses bypass it; with
/// none, only the switch is turned off and the server and bypass list stay
/// as they were.
pub open spec fn registry_writes_spec(server: Seq<char>) -> Seq<(Seq<char>, RegistryValueModel)> {
    if server.len() == 0 {
        seq![("ProxyEnable"@, RegistryValueModel::Dword(0))]
    } else {
        seq![
            ("ProxyEnable"@, RegistryValueModel::Dword(1)),
            ("ProxyServer"@, RegistryValueModel::Text(server)),
            ("ProxyOverride"@, RegistryValueModel::Text("<local>"@)),
        ]
    }
}

/// The registry values written on Windows for `server` (as [`enable`] or
/// [`disable`] gives it), in the order they are written.
pub fn registry_writes(server: &str) -> (writes: Vec<RegistryWrite>)
    ensures
        writes@.map_values(|w: RegistryWrite| registry_write_view(w)) == registry_writes_spec(server@),
{
    let mut writes: Vec<RegistryWrite> = Vec::new();
    if server.unicode_len() == 0 {
        writes.push(RegistryWrite { name: "ProxyEnable".to_string(), value: RegistryValue::Dword(0) });
    } else {
        writes.push(RegistryWrite { name: "ProxyEnable".to_string(), value: RegistryValue::Dword(1) });
        writes.push(RegistryWrite { name: "ProxyServer".to_string(), value: RegistryValue::Text(server.to_string()) });
        writes.push(RegistryWrite { name: "ProxyOverride".to_string(), value: RegistryValue::Text("<local>".to_string()) });
    }
    assert(writes@.map_values(|w: RegistryWrite| registry_write_view(w)) =~= registry_writes_spec(server@));
    writes
}

/// The operating systems the client sets a proxy on.
#[derive(Clone, Copy, Debug, PartialEq, Eq, Structural)]
pub enum HostOs {
    Windows,
    MacOs,
    Linux,
}

pub open spec fn platform_label_spec(os: HostOs) -> Seq<char> {
    match os {
        HostOs::Windows => "Windows 注册表 + WinINET 刷新"@,
        HostOs::MacOs => "macOS networksetup"@,
        HostOs::Linux => "Linux gsettings / 环境变量"@,
    }
}

/// The backend that applies the OS proxy on `os`.
pub fn platform_label(os: HostOs) -> (s: &'static str)
    ensures
        s@ == platform_label_spec(os),
{
    match os {
        HostOs::Windows => "Windows 注册表 + WinINET 刷新",
        HostOs::MacOs => "macOS networksetup",
        HostOs::Linux => "Linux gsettings / 环境变量",
    }
}

/// The index of the last `':'` in `s`, if any.
pub open spec fn last_colon(s: Seq<char>) -> Option<int>
    decreases s.len(),
{
    if s.len() == 0 {
        None
    } else if s.last() == ':' {
        Some(s.len() - 1)
    } else {
        last_colon(s.drop_last())
    }
}

proof fn lemma_last_colon(s: Seq<char>)
    ensures
        match last_colon(s) {
            Some(i) => 0 <= i < s.len() && s[i] == ':' && forall|k: int|
                i < k < s.len() ==> #[trigger] s[k] != ':',
            None => forall|k: int| 0 <= k < s.len() ==> #[trigger] s[k] != ':',
        },
    decreases s.len(),
{
    if s.len() > 0 && s.last() != ':' {
        lemma_last_colon(s.drop_last());
        assert forall|k: int| 0 <= k < s.len() - 1 implies s.drop_last()[k] == #[trigger] s[k] by {}
    }
}

fn find_last_colon(v: &Vec<char>) -> (r: Option<usize>)
    ensures
        match r {
            Some(i) => i < v@.len() && last_colon(v@) == Some(i as int),
            None => last_colon(v@) is None,
        },
{
    let mut j = v.len();
    assert(v@.subrange(0, j as int) =~= v@);
    while j > 0
        invariant
            j <= v@.len(),
            last_colon(v@) == last_colon(v@.subrange(0, j as int)),
        decreases j,
    {
        let ghost s = v@.subrange(0, j as int);
        if v[j - 1] == ':' {
            return Some(j - 1);
        }
        assert(s.drop_last() =~= v@.subrange(0, j - 1));
        j = j - 1;
    }
    None
}

/// `server.rsplit(':').next()`: what follows the last `':'`, or all of
/// `server` when it has none.
pub open spec fn port_arg_spec(server: Seq<char>) -> Seq<char> {
    match last_colon(server) {
        Some(i) => server.subrange(i + 1, server.len() as int),
        None => server,
    }
}

/// The port argument `networksetup` takes, cut from a `host:port` server.
pub fn port_arg(server: &str) -> (port: String)
    ensures
        port@ == port_arg_spec(server@),
{
    let v = chars_of(server);
    proof {
        lemma_last_colon(v@);
    }
    let n = v.len();
    match find_last_colon(&v) {
        Some(i) => string_of(&v, i + 1, n),
        None => {
            assert(v@.subrange(0, v@.len() as int) =~= v@);
            string_of(&v, 0, v.len())
        },
    }
}

/// `server.rsplit_once(':')`, with `("", "")` for a server without a colon.
pub open spec fn host_port_spec(server: Seq<char>) -> (Seq<char>, Seq<char>) {
    match last_colon(server) {
        Some(i) => (server.subrange(0, i), server.subrange(i + 1, server.len() as int)),
        None => (Seq::empty(), Seq::empty()),
    }
}

/// Splits a `host:port` server at its last colon.
pub fn host_port(server: &str) -> (r: (String, String))
    ensures
        (r.0@, r.1@) == host_port_spec(server@),
{
    let v = chars_of(server);
    let n = v.len();
    match find_last_colon(&v) {
        Some(i) => (string_of(&v, 0, i), string_of(&v, i + 1, n)),
        None => (String::new(), String::new()),
    }
}

fn owned(s: &str) -> (r: String)
    ensures
        r@ == s@,
{
    s.to_owned()
}

/// The `networksetup` arguments that point `service` at `server`, or clear
/// its web proxies when `server` is empty.
pub open spec fn networksetup_args_spec(service: Seq<char>, server: Seq<char>) -> Seq<Seq<char>> {
    if server.len() > 0 {
        seq![
            "-setwebproxy"@,
            service,
            "127.0.0.1"@,
            port_arg_spec(server),
            "-setsecurewebproxy"@,
            service,
            "127.0.0.1"@,
            port_arg_spec(server),
        ]
    } else {
        seq![
            "-setwebproxystate"@,
            service,
            "off"@,
            "-setsecurewebproxystate"@,
            service,
            "off"@,
        ]
    }
}

/// The argument list macOS `networksetup` is run with.
pub fn networksetup_args(service: &str, server: &str) -> (args: Vec<String>)
    ensures
        views(args@) == networksetup_args_spec(service@, server@),
{
    let enabled = server.unicode_len() > 0;
    let mut args: Vec<String> = Vec::new();
    if enabled {
        args.push(owned("-setwebproxy"));
        args.push(owned(service));
        args.push(owned(PROXY_SERVER));
        args.push(port_arg(server));
        args.push(owned("-setsecurewebproxy"));
        args.push(owned(service));
        args.push(owned(PROXY_SERVER));
        args.push(port_arg(server));
    } else {
        args.push(owned("-setwebproxystate"));
        args.push(owned(service));
        args.push(owned("off"));
        args.push(owned("-setsecurewebproxystate"));
        args.push(owned(service));
        args.push(owned("off"));
    }
    assert(views(args@) =~= networksetup_args_spec(service@, server@));
    args
}

proof fn lemma_last_colon_after(a: Seq<char>, b: Seq<char>)
    requires
        a.len() > 0,
        a.last() == ':',
        forall|k: int| 0 <= k < b.len() ==> #[trigger] b[k] != ':',
    ensures
        last_colon(a + b) == Some(a.len() - 1),
    decreases b.len(),
{
    if b.len() == 0 {
        assert(a + b =~= a);
    } else {
        assert((a + b).drop_last() =~= a + b.drop_last());
        assert((a + b).last() == b[b.len() - 1]);
        lemma_last_colon_after(a, b.drop_last());
    }
}

/// A `host:port` server whose port has no colon is cut at that colon: the
/// port argument is the port, and the host and port come apart as they were
/// joined (the host may itself hold colons).
pub proof fn a_server_splits_into_its_host_and_port(host: Seq<char>, port: Seq<char>)
    requires
        forall|k: int| 0 <= k < port.len() ==> #[trigger] port[k] != ':',
    ensures
        port_arg_spec(host + ":"@ + port) == port,
        host_port_spec(host + ":"@ + port) == (host, port),
{
    reveal_strlit(":");
    let a = host + ":"@;
    assert(a.last() == ':');
    lemma_last_colon_after(a, port);
    assert(a + port == host + ":"@ + port);
    assert((a + port).subrange(a.len() as int, (a + port).len() as int) =~= port);
    assert((a + port).subrange(0, a.len() - 1) =~= host);
}

/// Whether `step` occurs in `args` starting at position `i`.
pub open spec fn step_at(args: Seq<Seq<char>>, i: int, step: Seq<Seq<char>>) -> bool {
    0 <= i && i + step.len() <= args.len() && args.subrange(i, i + step.len()) == step
}

/// Whether `step` occurs somewhere in `args`.
pub open spec fn has_step(args: Seq<Seq<char>>, step: Seq<Seq<char>>) -> bool {
    exists|i: int| #[trigger] step_at(args, i, step)
}

/// On macOS, turning the proxy on points both the web proxy and the secure
/// web proxy of the service at 127.0.0.1 and the server's port; turning it
/// off switches both of them off.
pub proof fn networksetup_sets_both_proxies(service: Seq<char>, server: Seq<char>)
    ensures
        server.len() > 0 ==> has_step(
            networksetup_args_spec(service, server),
            seq!["-setwebproxy"@, service, "127.0.0.1"@, port_arg_spec(server)],
        ),
        server.len() > 0 ==> has_step(
            networksetup_args_spec(service, server),
            seq!["-setsecurewebproxy"@, service, "127.0.0.1"@, port_arg_spec(server)],
        ),
        server.len() == 0 ==> has_step(
            networksetup_args_spec(service, server),
            seq!["-setwebproxystate"@, service, "off"@],
        ),
        server.len() == 0 ==> has_step(
            networksetup_args_spec(service, server),
            seq!["-setsecurewebproxystate"@, service, "off"@],
        ),
{
    let args = networksetup_args_spec(service, server);
    if server.len() > 0 {
        let web = seq!["-setwebproxy"@, service, "127.0.0.1"@, port_arg_spec(server)];
        let secure = seq!["-setsecurewebproxy"@, service, "127.0.0.1"@, port_arg_spec(server)];
        assert(args.subrange(0, 4) =~= web);
        assert(args.subrange(4, 8) =~= secure);
        assert(step_at(args, 0, web));
        assert(step_at(args, 4, secure));
    } else {
        let web = seq!["-setwebproxystate"@, service, "off"@];
        let secure = seq!["-setsecurewebproxystate"@, service, "off"@];
        assert(args.subrange(0, 3) =~= web);
        assert(args.subrange(3, 6) =~= secure);
        assert(step_at(args, 0, web));
        assert(step_at(args, 3, secure));
    }
}

/// One `gsettings` invocation's arguments.
pub open spec fn gsettings_steps_spec(server: Seq<char>) -> Seq<Seq<Seq<char>>> {
    let (host, port) = host_port_spec(server);
    if server.len() > 0 {
        seq![
            seq!["set"@, "org.gnome.system.proxy"@, "mode"@, "'manual'"@],
            seq!["set"@, "org.gnome.system.proxy.http"@, "host"@, "'"@ + host + "'"@],
            seq!["set"@, "org.gnome.system.proxy.http"@, "port"@, port],
        ]
    } else {
        seq![seq!["set"@, "org.gnome.system.proxy"@, "mode"@, "'none'"@]]
    }
}

pub open spec fn nested_views(v: Seq<Vec<String>>) -> Seq<Seq<Seq<char>>> {
    v.map_values(|a: Vec<String>| views(a@))
}

fn args4(a: &str, b: &str, c: &str, d: String) -> (r: Vec<String>)
    ensures
        views(r@) == seq![a@, b@, c@, d@],
{
    let mut r: Vec<String> = Vec::new();
    r.push(owned(a));
    r.push(owned(b));
    r.push(owned(c));
    r.push(d);
    assert(views(r@) =~= seq![a@, b@, c@, d@]);
    r
}

/// The `gsettings` invocations, in order, that apply `server` as the GNOME
/// proxy, or switch it off when `server` is empty. Every step has to succeed
/// for the desktop proxy to count as applied.
pub fn gsettings_steps(server: &str) -> (steps: Vec<Vec<String>>)
    ensures
        nested_views(steps@) == gsettings_steps_spec(server@),
{
    let mut steps: Vec<Vec<String>> = Vec::new();
    if server.unicode_len() > 0 {
        let (host, port) = host_port(server);
        let mut quoted = String::new();
        push_str(&mut quoted, "'");
        push_str(&mut quoted, host.as_str());
        push_str(&mut quoted, "'");
        steps.push(args4("set", "org.gnome.system.proxy", "mode", owned("'manual'")));
        steps.push(args4("set", "org.gnome.system.proxy.http", "host", quoted));
        steps.push(args4("set", "org.gnome.system.proxy.http", "port", port));
    } else {
        steps.push(args4("set", "org.gnome.system.proxy", "mode", owned("'none'")));
    }
    assert(nested_views(steps@) =~= gsettings_steps_spec(server@));
    steps
}

/// The instruction shown when no desktop proxy could be applied.
pub open spec fn manual_proxy_hint_spec(server: Seq<char>) -> Seq<char> {
    "此桌面环境未自动应用系统代理；请手动设置环境变量：export http_proxy=http://"@ + server
        + " https_proxy=http://"@ + server + " all_proxy=socks5://"@ + server
}

/// The environment-variable commands a Linux desktop without gsettings needs.
pub fn manual_proxy_hint(server: &str) -> (hint: String)
    ensures
        hint@ == manual_proxy_hint_spec(server@),
{
    let mut hint = String::new();
    push_str(
        &mut hint,
        "此桌面环境未自动应用系统代理；请手动设置环境变量：export http_proxy=http://",
    );
    push_str(&mut hint, server);
    push_str(&mut hint, " https_proxy=http://");
    push_str(&mut hint, server);
    push_str(&mut hint, " all_proxy=socks5://");
    push_str(&mut hint, server);
    hint
}

/// Whether the output of `id -u` names the root user.
pub fn is_root_uid(stdout: &str) -> (root: bool)
    ensures
        root == (trim_spec(stdout@) == "0"@),
{
    let t = trim(stdout);
    str_eq(t.as_str(), "0")
}

/// Where the first line break of `s` is, or its length when it has none.
pub open spec fn line_end(s: Seq<char>) -> nat
    decreases s.len(),
{
    if s.len() == 0 || s[0] == '\n' {
        0
    } else {
        1 + line_end(s.drop_first())
    }
}

/// A line without the carriage return a CRLF ending leaves on it.
pub open spec fn without_cr(line: Seq<char>) -> Seq<char> {
    if line.len() > 0 && line.last() == '\r' {
        line.drop_last()
    } else {
        line
    }
}

/// `str::lines`: the text cut at each line feed, each line without a
/// trailing carriage return, and no empty line after a final line feed.
pub open spec fn lines_spec(s: Seq<char>) -> Seq<Seq<char>>
    decreases s.len(),
{
    if s.len() == 0 {
        Seq::empty()
    } else {
        let end = line_end(s);
        let rest = if end < s.len() {
            s.subrange((end + 1) as int, s.len() as int)
        } else {
            Seq::empty()
        };
        seq![without_cr(s.subrange(0, end as int))] + lines_spec(rest)
    }
}

proof fn lemma_line_end(s: Seq<char>, i: int)
    requires
        0 <= i <= s.len(),
        forall|k: int| 0 <= k < i ==> #[trigger] s[k] != '\n',
        i == s.len() || s[i] == '\n',
    ensures
        line_end(s) == i,
    decreases i,
{
    if i > 0 {
        lemma_line_end(s.drop_first(), i - 1);
    }
}

proof fn lemma_line_end_bound(s: Seq<char>)
    ensures
        line_end(s) <= s.len(),
    decreases s.len(),
{
    if s.len() > 0 && s[0] != '\n' {
        lemma_line_end_bound(s.drop_first());
    }
}

/// The first of `lines` that names a Wi-Fi or Ethernet service.
pub open spec fn first_service(lines: Seq<Seq<char>>) -> Option<Seq<char>>
    decreases lines.len(),
{
    if lines.len() == 0 {
        None
    } else if crate::text::contains_spec(lines[0], "Wi-Fi"@) || crate::text::contains_spec(lines[0], "Ethernet"@) {
        Some(lines[0])
    } else {
        first_service(lines.drop_first())
    }
}

/// The network service macOS `networksetup -listallnetworkservices`
/// reports first among the Wi-Fi and Ethernet ones (its first line is a
/// notice, not a service), trimmed; Wi-Fi when there is none.
pub open spec fn default_network_service_spec(listing: Seq<char>) -> Seq<char> {
    let lines = lines_spec(listing);
    let services = if lines.len() > 0 {
        lines.drop_first()
    } else {
        lines
    };
    match first_service(services) {
        Some(line) => trim_spec(line),
        None => "Wi-Fi"@,
    }
}

/// The lines of a text.
pub fn lines(text: &str) -> (out: Vec<String>)
    ensures
        views(out@) == lines_spec(text@),
{
    let chars = chars_of(text);
    let n = chars.len();
    let mut out: Vec<String> = Vec::new();
    let mut start: usize = 0;
    assert(chars@.subrange(0, n as int) =~= chars@);
    while start < n
        invariant
            chars@ == text@,
            n == chars@.len(),
            start <= n,
            lines_spec(text@) == views(out@) + lines_spec(chars@.subrange(start as int, n as int)),
        decreases n - start,
    {
        let ghost s = chars@.subrange(start as int, n as int);
        let mut end = start;
        while end < n && chars[end] != '\n'
            invariant
                start <= end <= n,
                n == chars@.len(),
                forall|k: int| start <= k < end ==> #[trigger] chars@[k] != '\n',
            decreases n - end,
        {
            end = end + 1;
        }
        proof {
            lemma_line_end(s, end - start);
        }
        let mut stop = end;
        if stop > start && chars[stop - 1] == '\r' {
            stop = stop - 1;
        }
        let line = string_of(&chars, start, stop);
        proof {
            let raw = s.subrange(0, (end - start) as int);
            assert(raw =~= chars@.subrange(start as int, end as int));
            if end > start {
                assert(raw.last() == chars@[end - 1]);
            }
            assert(line@ =~= without_cr(raw));
        }
        let ghost before = out@;
        out.push(line);
        proof {
            assert(views(out@) =~= views(before).push(line@));
        }
        if end < n {
            proof {
                assert(s.subrange((end - start) + 1, s.len() as int) =~= chars@.subrange(end + 1, n as int));
                assert(views(out@) + lines_spec(chars@.subrange(end + 1, n as int)) =~= views(before) + (seq![line@] + lines_spec(chars@.subrange(end + 1, n as int))));
            }
            start = end + 1;
        } else {
            proof {
                assert(chars@.subrange(n as int, n as int) =~= Seq::<char>::empty());
                assert(views(out@) + lines_spec(Seq::<char>::empty()) =~= views(before) + (seq![line@] + lines_spec(Seq::<char>::empty())));
            }
            start = n;
        }
    }
    assert(chars@.subrange(start as int, n as int) =~= Seq::<char>::empty());
    assert(views(out@) + Seq::<Seq<char>>::empty() =~= views(out@));
    out
}

/// Picks the network service the macOS proxy is set on.
pub fn default_network_service(listing: &str) -> (service: String)
    ensures
        service@ == default_network_service_spec(listing@),
{
    let all = lines(listing);
    let mut i: usize = 1;
    let ghost services = if views(all@).len() > 0 { views(all@).drop_first() } else { views(all@) };
    if all.len() == 0 {
        return owned("Wi-Fi");
    }
    assert(views(all@).subrange(1, all@.len() as int) =~= services);
    while i < all.len()
        invariant
            1 <= i <= all@.len(),
            views(all@) == lines_spec(listing@),
            services == views(all@).drop_first(),
            first_service(services) == first_service(views(all@).subrange(i as int, all@.len() as int)),
        decreases all@.len() - i,
    {
        let ghost rest = views(all@).subrange(i as int, all@.len() as int);
        assert(rest[0] == all@[i as int]@);
        assert(rest.drop_first() =~= views(all@).subrange(i + 1, all@.len() as int));
        let line = all[i].as_str();
        if contains_str(line, "Wi-Fi") || contains_str(line, "Ethernet") {
            assert(first_service(rest) == Some(line@));
            assert(first_service(services) == Some(line@));
            assert(default_network_service_spec(listing@) == trim_spec(line@));
            return trim(line);
        }
        i = i + 1;
    }
    assert(views(all@).subrange(i as int, all@.len() as int) =~= Seq::<Seq<char>>::empty());
    owned("Wi-Fi")
}

} // verus!
