//! The containers the platform runs for itself: the reverse proxy and the
//! Cloudflare tunnel, described as plain data for the runtime.
use vstd::prelude::*;
use crate::json::{pair_views, views};
use crate::text::{chars_of, push_str, string_of};

verus! {

/// A published port: `container_port` (with protocol) on `host_ip:host_port`.
#[derive(Debug)]
pub struct PortBindingSpec {
    pub container_port: String,
    pub host_ip: String,
    pub host_port: String,
}

/// A container to create.
#[derive(Debug)]
pub struct ContainerSpec {
    pub name: String,
    pub image: String,
    pub cmd: Vec<String>,
    pub exposed_ports: Vec<String>,
    pub network_mode: String,
    pub port_bindings: Vec<PortBindingSpec>,
    pub extra_hosts: Vec<String>,
    pub binds: Vec<String>,
    pub restart_policy: String,
    pub labels: Vec<(String, String)>,
}

/// The plain view of a port binding.
pub open spec fn binding_view(b: PortBindingSpec) -> (Seq<char>, Seq<char>, Seq<char>) {
    (b.container_port@, b.host_ip@, b.host_port@)
}

/// The plain views of port bindings.
pub open spec fn binding_views(bs: Seq<PortBindingSpec>) -> Seq<(Seq<char>, Seq<char>, Seq<char>)> {
    bs.map_values(|b: PortBindingSpec| binding_view(b))
}

/// The name of the proxy container.
pub open spec fn caddy_container_name() -> Seq<char> {
    "labuh-caddy"@
}

/// The image of the proxy.
pub open spec fn caddy_image() -> Seq<char> {
    "caddy:2-alpine"@
}

/// The proxy container: Caddy running the Caddyfile mounted from the working
/// directory `cwd`, on the bridge network, publishing HTTP and HTTPS on all
/// interfaces and, with `admin_port`, its admin API on the loopback address;
/// the platform and its frontend are reached through the host gateway.
pub open spec fn caddy_container_ok(s: ContainerSpec, cwd: Seq<char>, admin_port: bool) -> bool {
    &&& s.name@ == caddy_container_name()
    &&& s.image@ == caddy_image()
    &&& views(s.cmd@) == seq![
        "caddy"@,
        "run"@,
        "--config"@,
        "/etc/caddy/Caddyfile"@,
        "--adapter"@,
        "caddyfile"@,
    ]
    &&& views(s.exposed_ports@) == if admin_port {
        seq!["80/tcp"@, "443/tcp"@, "2019/tcp"@]
    } else {
        seq!["80/tcp"@, "443/tcp"@]
    }
    &&& s.network_mode@ == "bridge"@
    &&& binding_views(s.port_bindings@) == if admin_port {
        seq![
            ("80/tcp"@, "0.0.0.0"@, "80"@),
            ("443/tcp"@, "0.0.0.0"@, "443"@),
            ("2019/tcp"@, "127.0.0.1"@, "2019"@),
        ]
    } else {
        seq![("80/tcp"@, "0.0.0.0"@, "80"@), ("443/tcp"@, "0.0.0.0"@, "443"@)]
    }
    &&& views(s.extra_hosts@) == seq!["labuh:host-gateway"@, "frontend:host-gateway"@]
    &&& views(s.binds@) == seq![
        cwd + "/Caddyfile:/etc/caddy/Caddyfile"@,
        "caddy_data:/data"@,
        "caddy_config:/config"@,
    ]
    &&& s.restart_policy@ == "unless-stopped"@
    &&& s.labels@.len() == 0
}

fn binding(container_port: &str, host_ip: &str, host_port: &str) -> (b: PortBindingSpec)
    ensures
        binding_view(b) == (container_port@, host_ip@, host_port@),
{
    PortBindingSpec {
        container_port: container_port.to_owned(),
        host_ip: host_ip.to_owned(),
        host_port: host_port.to_owned(),
    }
}

/// The proxy container for working directory `cwd`, with or without its
/// admin port published.
pub fn caddy_container(cwd: &str, admin_port: bool) -> (s: ContainerSpec)
    ensures
        caddy_container_ok(s, cwd@, admin_port),
{
    let cmd = vec![
        "caddy".to_owned(),
        "run".to_owned(),
        "--config".to_owned(),
        "/etc/caddy/Caddyfile".to_owned(),
        "--adapter".to_owned(),
        "caddyfile".to_owned(),
    ];
    let mut exposed_ports = vec!["80/tcp".to_owned(), "443/tcp".to_owned()];
    let mut port_bindings = vec![
        binding("80/tcp", "0.0.0.0", "80"),
        binding("443/tcp", "0.0.0.0", "443"),
    ];
    if admin_port {
        exposed_ports.push("2019/tcp".to_owned());
        port_bindings.push(binding("2019/tcp", "127.0.0.1", "2019"));
    }
    let extra_hosts = vec!["labuh:host-gateway".to_owned(), "frontend:host-gateway".to_owned()];
    let mut mount = chars_of(cwd);
    push_str(&mut mount, "/Caddyfile:/etc/caddy/Caddyfile");
    let binds = vec![string_of(&mount), "caddy_data:/data".to_owned(), "caddy_config:/config".to_owned()];
    let s = ContainerSpec {
        name: "labuh-caddy".to_owned(),
        image: "caddy:2-alpine".to_owned(),
        cmd,
        exposed_ports,
        network_mode: "bridge".to_owned(),
        port_bindings,
        extra_hosts,
        binds,
        restart_policy: "unless-stopped".to_owned(),
        labels: Vec::new(),
    };
    proof {
        assert(views(s.cmd@) =~= seq![
            "caddy"@,
            "run"@,
            "--config"@,
            "/etc/caddy/Caddyfile"@,
            "--adapter"@,
            "caddyfile"@,
        ]);
        if admin_port {
            assert(views(s.exposed_ports@) =~= seq!["80/tcp"@, "443/tcp"@, "2019/tcp"@]);
            assert(binding_views(s.port_bindings@) =~= seq![
                ("80/tcp"@, "0.0.0.0"@, "80"@),
                ("443/tcp"@, "0.0.0.0"@, "443"@),
                ("2019/tcp"@, "127.0.0.1"@, "2019"@),
            ]);
        } else {
            assert(views(s.exposed_ports@) =~= seq!["80/tcp"@, "443/tcp"@]);
            assert(binding_views(s.port_bindings@) =~= seq![
                ("80/tcp"@, "0.0.0.0"@, "80"@),
                ("443/tcp"@, "0.0.0.0"@, "443"@),
            ]);
        }
        assert(views(s.extra_hosts@) =~= seq!["labuh:host-gateway"@, "frontend:host-gateway"@]);
        assert(views(s.binds@) =~= seq![
            cwd@ + "/Caddyfile:/etc/caddy/Caddyfile"@,
            "caddy_data:/data"@,
            "caddy_config:/config"@,
        ]);
    }
    s
}

/// The name of the tunnel container.
pub open spec fn tunnel_container_name() -> Seq<char> {
    "labuh-tunnel"@
}

/// The network the platform's containers share.
pub open spec fn labuh_network() -> Seq<char> {
    "labuh-network"@
}

/// The tunnel container: `cloudflared` running the tunnel of `token` on the
/// platform network, always restarted, labelled as the platform's tunnel.
pub open spec fn tunnel_container_ok(s: ContainerSpec, token: Seq<char>) -> bool {
    &&& s.name@ == tunnel_container_name()
    &&& s.image@ == "cloudflare/cloudflared:latest"@
    &&& views(s.cmd@) == seq!["tunnel"@, "run"@, "--token"@, token]
    &&& s.exposed_ports@.len() == 0
    &&& s.network_mode@ == labuh_network()
    &&& s.port_bindings@.len() == 0
    &&& s.extra_hosts@.len() == 0
    &&& s.binds@.len() == 0
    &&& s.restart_policy@ == "always"@
    &&& pair_views(s.labels@) == seq![("labuh.managed"@, "true"@), ("labuh.service"@, "tunnel"@)]
}

/// The tunnel container for `token`.
pub fn tunnel_container(token: &str) -> (s: ContainerSpec)
    ensures
        tunnel_container_ok(s, token@),
{
    let s = ContainerSpec {
        name: "labuh-tunnel".to_owned(),
        image: "cloudflare/cloudflared:latest".to_owned(),
        cmd: vec!["tunnel".to_owned(), "run".to_owned(), "--token".to_owned(), token.to_owned()],
        exposed_ports: Vec::new(),
        network_mode: "labuh-network".to_owned(),
        port_bindings: Vec::new(),
        extra_hosts: Vec::new(),
        binds: Vec::new(),
        restart_policy: "always".to_owned(),
        labels: vec![
            ("labuh.managed".to_owned(), "true".to_owned()),
            ("labuh.service".to_owned(), "tunnel".to_owned()),
        ],
    };
    proof {
        assert(views(s.cmd@) =~= seq!["tunnel"@, "run"@, "--token"@, token@]);
        assert(pair_views(s.labels@) =~= seq![
            ("labuh.managed"@, "true"@),
            ("labuh.service"@, "tunnel"@),
        ]);
    }
    s
}

} // verus!
