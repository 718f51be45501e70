//! The capability matrix: config paths, command lines, PID files, and
//! rendered configuration text for each implementation and role.

use dns_test::{Config, Implementation, Role};

fn hickory() -> Implementation {
    let repo = dns_test::Repository(String::from("https://github.com/hickory-dns/hickory-dns"))
        .unwrap();
    Implementation::Hickory(repo)
}

#[test]
fn conf_file_path_matches_the_table() {
    assert_eq!(
        Implementation::Bind.conf_file_path(Role::NameServer),
        "/etc/bind/named.conf"
    );
    assert_eq!(
        Implementation::Bind.conf_file_path(Role::Resolver),
        "/etc/bind/named.conf"
    );
    assert_eq!(hickory().conf_file_path(Role::NameServer), "/etc/named.toml");
    assert_eq!(hickory().conf_file_path(Role::Resolver), "/etc/named.toml");
    assert_eq!(
        Implementation::Unbound.conf_file_path(Role::NameServer),
        "/etc/nsd/nsd.conf"
    );
    assert_eq!(
        Implementation::Unbound.conf_file_path(Role::Resolver),
        "/etc/unbound/unbound.conf"
    );
}

#[test]
fn cmd_args_matches_the_table() {
    assert_eq!(
        Implementation::Bind.cmd_args(Role::NameServer).unwrap(),
        vec!["named", "-g", "-d5"]
    );
    assert_eq!(
        Implementation::Bind.cmd_args(Role::Resolver).unwrap(),
        vec!["named", "-g", "-d5"]
    );
    assert_eq!(
        hickory().cmd_args(Role::Resolver).unwrap(),
        vec!["hickory-dns", "-d"]
    );
    assert_eq!(
        Implementation::Unbound.cmd_args(Role::NameServer).unwrap(),
        vec!["nsd", "-d"]
    );
    assert_eq!(
        Implementation::Unbound.cmd_args(Role::Resolver).unwrap(),
        vec!["unbound", "-d"]
    );
}

#[test]
fn cmd_args_rejects_hickory_as_name_server() {
    let err = hickory().cmd_args(Role::NameServer).unwrap_err();
    assert_eq!(
        err.message(),
        "the implementation does not support acting in the requested role"
    );
}

#[test]
fn pidfile_matches_the_table() {
    assert_eq!(
        Implementation::Bind.pidfile(Role::NameServer).unwrap(),
        "/tmp/named.pid"
    );
    assert_eq!(
        Implementation::Bind.pidfile(Role::Resolver).unwrap(),
        "/tmp/named.pid"
    );
    assert_eq!(
        Implementation::Unbound.pidfile(Role::NameServer).unwrap(),
        "/tmp/nsd.pid"
    );
    assert_eq!(
        Implementation::Unbound.pidfile(Role::Resolver).unwrap(),
        "/tmp/unbound.pid"
    );
}

#[test]
fn pidfile_rejects_hickory_in_either_role() {
    assert!(hickory().pidfile(Role::NameServer).is_err());
    assert!(hickory().pidfile(Role::Resolver).is_err());
}

fn resolver_config() -> Config {
    Config::Resolver {
        use_dnssec: true,
        netmask: String::from("0.0.0.0/0"),
    }
}

#[test]
fn format_config_substitutes_resolver_parameters() {
    let bind = Implementation::Bind
        .format_config(resolver_config())
        .unwrap();
    assert!(bind.contains("allow-recursion { 0.0.0.0/0; };"));
    assert!(bind.contains("dnssec-validation auto;"));

    let hickory = hickory().format_config(resolver_config()).unwrap();
    assert!(hickory.contains("allow_networks = [\"0.0.0.0/0\"]"));
    assert!(hickory.contains("dnssec = true"));

    let unbound = Implementation::Unbound
        .format_config(resolver_config())
        .unwrap();
    assert!(unbound.contains("access-control: 0.0.0.0/0 allow"));
    assert!(unbound.contains("module-config: \"validator iterator\""));
}

#[test]
fn format_config_renders_disabled_dnssec() {
    let config = Config::Resolver {
        use_dnssec: false,
        netmask: String::from("10.0.0.0/8"),
    };
    let bind = Implementation::Bind.format_config(config.clone()).unwrap();
    assert!(bind.contains("allow-recursion { 10.0.0.0/8; };"));
    assert!(bind.contains("dnssec-validation no;"));
    let unbound = Implementation::Unbound.format_config(config).unwrap();
    assert!(unbound.contains("module-config: \"iterator\""));
}

#[test]
fn format_config_renders_the_exact_resolver_text() {
    let bind = Implementation::Bind
        .format_config(resolver_config())
        .unwrap();
    assert_eq!(
        bind,
        "options {\n    recursion yes;\n    listen-on port 53 { any; };\n    allow-recursion { 0.0.0.0/0; };\n    dnssec-validation auto;\n};"
    );

    let hickory = hickory().format_config(resolver_config()).unwrap();
    assert_eq!(
        hickory,
        "listen_addrs_ipv4 = [\"0.0.0.0\"]\nallow_networks = [\"0.0.0.0/0\"]\n\n[[zones]]\nzone = \".\"\nzone_type = \"Hint\"\nstored = { type = \"recursor\", roots = \"/etc/root.hints\", dnssec = true }"
    );

    let unbound = Implementation::Unbound
        .format_config(Config::Resolver {
            use_dnssec: false,
            netmask: String::from("10.0.0.0/8"),
        })
        .unwrap();
    assert_eq!(
        unbound,
        "server:\n    interface: 0.0.0.0\n    access-control: 10.0.0.0/8 allow\n    module-config: \"iterator\""
    );
}

#[test]
fn format_config_renders_the_exact_name_server_text() {
    let config = Config::NameServer {
        origin: String::from("example.com."),
    };
    let bind = Implementation::Bind.format_config(config.clone()).unwrap();
    assert_eq!(
        bind,
        "options {\n    recursion no;\n    listen-on port 53 { any; };\n};\n\nzone \"example.com.\" {\n    type master;\n    file \"/etc/zones/main.zone\";\n};"
    );
    let nsd = Implementation::Unbound.format_config(config).unwrap();
    assert_eq!(
        nsd,
        "server:\n    ip-address: 0.0.0.0\n\nzone:\n    name: example.com.\n    zonefile: main.zone"
    );
}

#[test]
fn format_config_is_idempotent() {
    for implementation in [Implementation::Bind, hickory(), Implementation::Unbound] {
        let first = implementation.format_config(resolver_config()).unwrap();
        let second = implementation.format_config(resolver_config()).unwrap();
        assert_eq!(first, second);
    }
}

#[test]
fn format_config_embeds_the_origin_verbatim() {
    let config = Config::NameServer {
        origin: String::from("example.com."),
    };
    let bind = Implementation::Bind.format_config(config.clone()).unwrap();
    assert!(bind.contains("zone \"example.com.\""));
    let nsd = Implementation::Unbound.format_config(config).unwrap();
    assert!(nsd.contains("name: example.com."));
}

#[test]
fn format_config_rejects_hickory_as_name_server() {
    let config = Config::NameServer {
        origin: String::from("example.com."),
    };
    assert!(hickory().format_config(config).is_err());
}

#[test]
fn config_fixes_the_role() {
    let name_server = Config::NameServer {
        origin: String::from("example.com."),
    };
    let resolver = resolver_config();
    assert!(matches!(name_server.role(), Role::NameServer));
    assert!(matches!(resolver.role(), Role::Resolver));
    assert!(!name_server.role().is_resolver());
    assert!(resolver.role().is_resolver());
}

#[test]
fn default_implementation_is_unbound() {
    assert!(matches!(Implementation::default(), Implementation::Unbound));
}

#[test]
fn implementation_names_are_lowercase() {
    assert_eq!(Implementation::Bind.name(), "bind");
    assert_eq!(hickory().name(), "hickory");
    assert_eq!(Implementation::Unbound.name(), "unbound");
}

#[test]
fn is_bind_marks_only_bind() {
    assert!(Implementation::Bind.is_bind());
    assert!(!hickory().is_bind());
    assert!(!Implementation::Unbound.is_bind());
}
