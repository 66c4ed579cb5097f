use machlist::decimal::u16_dec;
use machlist::errors::MachError;
use machlist::inventory::EnvironmentDef;
use machlist::inventory::Resource;
use machlist::inventory::ResourceDef;
use machlist::inventory::ServerDef;
use machlist::plan::copy_from_args;
use machlist::plan::copy_to_args;
use machlist::plan::forward_arg;
use machlist::plan::machlist_local;
use machlist::plan::shell_args;
use machlist::plan::ssh_dir;
use machlist::plan::ssh_login;
use machlist::plan::tunnel_args;
use machlist::plan::user_host;
use machlist::strmap::StrMap;

fn server(
    ip: Option<&str>,
    name: Option<&str>,
    jump: Option<&str>,
    proxy: Option<bool>,
) -> ServerDef {
    ServerDef {
        ip: ip.map(|s| s.to_string()),
        name: name.map(|s| s.to_string()),
        jump: jump.map(|s| s.to_string()),
        proxy,
    }
}

fn inventory(
    username: Option<&str>,
    servers: Vec<(&str, Vec<(&str, ServerDef)>)>,
    resources: Vec<(&str, Vec<(&str, ResourceDef)>)>,
) -> Resource {
    let mut sm: StrMap<EnvironmentDef<ServerDef>> = StrMap::new();
    for (env, entries) in servers {
        let mut m: StrMap<ServerDef> = StrMap::new();
        for (k, v) in entries {
            assert!(!m.contains_key(k));
            m.insert(k.to_string(), v);
        }
        assert!(!sm.contains_key(env));
        sm.insert(env.to_string(), EnvironmentDef(m));
    }
    let mut rm: StrMap<EnvironmentDef<ResourceDef>> = StrMap::new();
    for (env, entries) in resources {
        let mut m: StrMap<ResourceDef> = StrMap::new();
        for (k, v) in entries {
            assert!(!m.contains_key(k));
            m.insert(k.to_string(), v);
        }
        assert!(!rm.contains_key(env));
        rm.insert(env.to_string(), EnvironmentDef(m));
    }
    Resource { username: username.map(|s| s.to_string()), server: sm, resource: rm }
}

#[test]
fn user_host_with_and_without_user() {
    assert_eq!(user_host(Some("bob"), "10.0.0.5"), "bob@10.0.0.5");
    assert_eq!(user_host(None, "10.0.0.5"), "10.0.0.5");
}

#[test]
fn ssh_dir_and_default_inventory_path() {
    assert_eq!(ssh_dir("/home/u"), "/home/u/.ssh");
    assert_eq!(machlist_local("/home/u"), "/home/u/.machlist/resources.toml");
}

#[test]
fn known_hosts_file_is_per_environment() {
    let inv = inventory(
        None,
        vec![("alpha", vec![("web", server(Some("10.0.0.5"), None, None, None))])],
        vec![],
    );
    let ssh = ssh_login(None, &inv, "alpha", "web", "/home/u").unwrap();
    assert_eq!(
        ssh.args,
        vec!["-oUserKnownHostsFile=/home/u/.ssh/known_hosts_machlist_alpha".to_string()]
    );
    assert_eq!(ssh.dest, "10.0.0.5");
}

#[test]
fn destination_prefers_ip_over_name() {
    let inv = inventory(
        None,
        vec![("alpha", vec![("web", server(Some("1.2.3.4"), Some("host"), None, None))])],
        vec![],
    );
    let ssh = ssh_login(None, &inv, "alpha", "web", "/home/u").unwrap();
    assert_eq!(ssh.dest, "1.2.3.4");
}

#[test]
fn destination_falls_back_to_name() {
    let inv = inventory(
        Some("bob"),
        vec![("alpha", vec![("web", server(None, Some("host.internal"), None, None))])],
        vec![],
    );
    let user = inv.get_username(None).unwrap();
    let ssh = ssh_login(user.as_deref(), &inv, "alpha", "web", "/home/u").unwrap();
    assert_eq!(ssh.dest, "bob@host.internal");
}

#[test]
fn destination_missing_is_an_error() {
    let inv = inventory(
        None,
        vec![("alpha", vec![("ghost", server(None, None, None, None))])],
        vec![],
    );
    let err = ssh_login(None, &inv, "alpha", "ghost", "/home/u").unwrap_err();
    assert_eq!(err, MachError::DestinationMissing);
}

#[test]
fn jump_option_uses_jump_ip() {
    let inv = inventory(
        None,
        vec![(
            "alpha",
            vec![
                ("web", server(Some("10.0.0.5"), None, Some("gw"), None)),
                ("gw", server(Some("10.0.0.1"), Some("gw.internal"), None, Some(true))),
            ],
        )],
        vec![],
    );
    let ssh = ssh_login(Some("bob"), &inv, "alpha", "web", "/home/u").unwrap();
    assert_eq!(
        ssh.args,
        vec![
            "-oUserKnownHostsFile=/home/u/.ssh/known_hosts_machlist_alpha".to_string(),
            "-J".to_string(),
            "bob@10.0.0.1".to_string(),
        ]
    );
    assert_eq!(ssh.dest, "bob@10.0.0.5");
}

#[test]
fn jump_target_not_found() {
    let inv = inventory(
        None,
        vec![("alpha", vec![("web", server(Some("10.0.0.5"), None, Some("gw"), None))])],
        vec![],
    );
    let err = ssh_login(None, &inv, "alpha", "web", "/home/u").unwrap_err();
    assert_eq!(err, MachError::JumpTargetNotFound("gw".to_string()));
}

#[test]
fn jump_without_ip_is_an_error() {
    let inv = inventory(
        None,
        vec![(
            "alpha",
            vec![
                ("web", server(Some("10.0.0.5"), None, Some("gw"), None)),
                ("gw", server(None, Some("gw.internal"), None, Some(true))),
            ],
        )],
        vec![],
    );
    let err = ssh_login(None, &inv, "alpha", "web", "/home/u").unwrap_err();
    assert_eq!(err, MachError::JumpMissingIp);
}

#[test]
fn proxy_entries_still_resolve_as_targets() {
    let inv = inventory(
        None,
        vec![("alpha", vec![("gw", server(Some("10.0.0.1"), None, None, Some(true)))])],
        vec![],
    );
    let ssh = ssh_login(None, &inv, "alpha", "gw", "/home/u").unwrap();
    assert_eq!(ssh.dest, "10.0.0.1");
}

#[test]
fn forwarding_spec_defaults_local_port() {
    assert_eq!(forward_arg(None, "127.0.0.1", 5432), "5432:127.0.0.1:5432");
}

#[test]
fn forwarding_spec_with_override() {
    assert_eq!(forward_arg(Some(9999), "127.0.0.1", 5432), "9999:127.0.0.1:5432");
}

#[test]
fn decimal_rendering() {
    assert_eq!(u16_dec(0), "0");
    assert_eq!(u16_dec(7), "7");
    assert_eq!(u16_dec(10), "10");
    assert_eq!(u16_dec(5432), "5432");
    assert_eq!(u16_dec(65535), "65535");
}

#[test]
fn shell_args_order() {
    let inv = inventory(
        Some("bob"),
        vec![("alpha", vec![("web", server(Some("10.0.0.5"), None, None, None))])],
        vec![],
    );
    let user = inv.get_username(None).unwrap();
    let args = shell_args(false, user.as_deref(), &inv, "alpha", "web", "/home/u").unwrap();
    assert_eq!(
        args,
        vec![
            "-oUserKnownHostsFile=/home/u/.ssh/known_hosts_machlist_alpha".to_string(),
            "bob@10.0.0.5".to_string(),
        ]
    );
    let args = shell_args(true, user.as_deref(), &inv, "alpha", "web", "/home/u").unwrap();
    assert_eq!(
        args,
        vec![
            "-v".to_string(),
            "-oUserKnownHostsFile=/home/u/.ssh/known_hosts_machlist_alpha".to_string(),
            "bob@10.0.0.5".to_string(),
        ]
    );
}

#[test]
fn copy_from_args_order() {
    let inv = inventory(
        None,
        vec![("alpha", vec![("web", server(Some("10.0.0.5"), None, None, None))])],
        vec![],
    );
    let args = copy_from_args(false, None, &inv, "alpha", "web", "/home/u", "/var/log/syslog")
        .unwrap();
    assert_eq!(
        args,
        vec![
            "-oUserKnownHostsFile=/home/u/.ssh/known_hosts_machlist_alpha".to_string(),
            "10.0.0.5:/var/log/syslog".to_string(),
            "./".to_string(),
        ]
    );
}

#[test]
fn copy_to_args_order() {
    let inv = inventory(
        None,
        vec![("alpha", vec![("web", server(Some("10.0.0.5"), None, None, None))])],
        vec![],
    );
    let args = copy_to_args(false, None, &inv, "alpha", "web", "/home/u", "notes.txt").unwrap();
    assert_eq!(
        args,
        vec![
            "-oUserKnownHostsFile=/home/u/.ssh/known_hosts_machlist_alpha".to_string(),
            "notes.txt".to_string(),
            "10.0.0.5:".to_string(),
        ]
    );
}

#[test]
fn tunnel_args_order() {
    let rd = ResourceDef { server: "db".to_string(), at: "127.0.0.1".to_string(), port: 5432 };
    let inv = inventory(
        None,
        vec![("alpha", vec![("db", server(Some("10.0.0.9"), None, None, None))])],
        vec![("alpha", vec![("pg", rd)])],
    );
    let args = tunnel_args(false, None, &inv, "alpha", "pg", None, "/home/u").unwrap();
    assert_eq!(
        args,
        vec![
            "-oUserKnownHostsFile=/home/u/.ssh/known_hosts_machlist_alpha".to_string(),
            "-N".to_string(),
            "-L".to_string(),
            "5432:127.0.0.1:5432".to_string(),
            "10.0.0.9".to_string(),
        ]
    );
    let args = tunnel_args(false, None, &inv, "alpha", "pg", Some(9999), "/home/u").unwrap();
    assert_eq!(args[3], "9999:127.0.0.1:5432");
}

#[test]
fn tunnel_errors() {
    let rd = ResourceDef { server: "db".to_string(), at: "127.0.0.1".to_string(), port: 5432 };
    let inv = inventory(
        None,
        vec![("alpha", vec![("web", server(Some("10.0.0.5"), None, None, None))])],
        vec![("alpha", vec![("pg", rd)])],
    );
    let err = tunnel_args(false, None, &inv, "prod", "pg", None, "/home/u").unwrap_err();
    assert_eq!(err, MachError::EnvironmentNotFound("prod".to_string()));
    let err = tunnel_args(false, None, &inv, "alpha", "redis", None, "/home/u").unwrap_err();
    assert_eq!(err, MachError::ResourceNotFound("redis".to_string()));
    let err = tunnel_args(false, None, &inv, "alpha", "pg", None, "/home/u").unwrap_err();
    assert_eq!(err, MachError::MachineNotFound("db".to_string()));
}
