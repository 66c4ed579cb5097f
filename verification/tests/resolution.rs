use machlist::errors::MachError;
use machlist::inventory::EnvironmentDef;
use machlist::inventory::Resource;
use machlist::inventory::ResourceDef;
use machlist::inventory::ServerDef;
use machlist::strmap::StrMap;

fn server(
    ip: Option<&str>,
    name: Option<&str>,
    jump: Option<&str>,
    proxy: Option<bool>,
) -> ServerDef {
    ServerDef {
        ip: ip.map(|s| s.to_string()),
        name: name.map(|s| s.to_string()),
        jump: jump.map(|s| s.to_string()),
        proxy,
    }
}

fn server_env(entries: Vec<(&str, ServerDef)>) -> EnvironmentDef<ServerDef> {
    let mut m: StrMap<ServerDef> = StrMap::new();
    for (k, v) in entries {
        assert!(!m.contains_key(k));
        m.insert(k.to_string(), v);
    }
    EnvironmentDef(m)
}

fn resource_env(entries: Vec<(&str, ResourceDef)>) -> EnvironmentDef<ResourceDef> {
    let mut m: StrMap<ResourceDef> = StrMap::new();
    for (k, v) in entries {
        assert!(!m.contains_key(k));
        m.insert(k.to_string(), v);
    }
    EnvironmentDef(m)
}

fn inventory(
    username: Option<&str>,
    servers: Vec<(&str, EnvironmentDef<ServerDef>)>,
    resources: Vec<(&str, EnvironmentDef<ResourceDef>)>,
) -> Resource {
    let mut sm: StrMap<EnvironmentDef<ServerDef>> = StrMap::new();
    for (k, v) in servers {
        assert!(!sm.contains_key(k));
        sm.insert(k.to_string(), v);
    }
    let mut rm: StrMap<EnvironmentDef<ResourceDef>> = StrMap::new();
    for (k, v) in resources {
        assert!(!rm.contains_key(k));
        rm.insert(k.to_string(), v);
    }
    Resource { username: username.map(|s| s.to_string()), server: sm, resource: rm }
}

#[test]
fn resolve_server_returns_exact_entry() {
    let entry = server(Some("10.0.0.5"), Some("host.internal"), Some("gw"), Some(false));
    let env = server_env(vec![
        ("web", entry),
        ("gw", server(Some("10.0.0.1"), None, None, Some(true))),
    ]);
    let inv = inventory(None, vec![("alpha", env)], vec![]);
    let envdef = inv.get_target_env("alpha").unwrap();
    let got = envdef.get_machine("web").unwrap();
    let expected = server(Some("10.0.0.5"), Some("host.internal"), Some("gw"), Some(false));
    assert_eq!(*got, expected);
}

#[test]
fn environment_not_found() {
    let inv = inventory(None, vec![("alpha", server_env(vec![]))], vec![]);
    let err = inv.get_target_env("prod").unwrap_err();
    assert_eq!(err, MachError::EnvironmentNotFound("prod".to_string()));
}

#[test]
fn machine_not_found() {
    let env = server_env(vec![("web", server(Some("10.0.0.5"), None, None, None))]);
    let inv = inventory(None, vec![("alpha", env)], vec![]);
    let envdef = inv.get_target_env("alpha").unwrap();
    let err = envdef.get_machine("db").unwrap_err();
    assert_eq!(err, MachError::MachineNotFound("db".to_string()));
}

#[test]
fn resource_environment_not_found() {
    let inv = inventory(None, vec![("alpha", server_env(vec![]))], vec![]);
    let err = inv.get_target_env_resources("alpha").unwrap_err();
    assert_eq!(err, MachError::EnvironmentNotFound("alpha".to_string()));
}

#[test]
fn resolve_resource_returns_exact_entry() {
    let rd = ResourceDef { server: "db".to_string(), at: "127.0.0.1".to_string(), port: 5432 };
    let renv = resource_env(vec![("pg", rd)]);
    let inv = inventory(None, vec![], vec![("alpha", renv)]);
    let defs = inv.get_target_env_resources("alpha").unwrap();
    let got = defs.get_resource("pg").unwrap();
    let expected =
        ResourceDef { server: "db".to_string(), at: "127.0.0.1".to_string(), port: 5432 };
    assert_eq!(*got, expected);
}

#[test]
fn resource_not_found() {
    let renv = resource_env(vec![]);
    let inv = inventory(None, vec![], vec![("alpha", renv)]);
    let defs = inv.get_target_env_resources("alpha").unwrap();
    let err = defs.get_resource("pg").unwrap_err();
    assert_eq!(err, MachError::ResourceNotFound("pg".to_string()));
}

#[test]
fn strmap_basic_operations() {
    let mut m: StrMap<u32> = StrMap::new();
    assert!(!m.contains_key("a"));
    assert_eq!(m.get("a"), None);
    m.insert("a".to_string(), 1);
    m.insert("b".to_string(), 2);
    assert!(m.contains_key("a"));
    assert!(m.contains_key("b"));
    assert!(!m.contains_key("c"));
    assert_eq!(m.get("a"), Some(&1));
    assert_eq!(m.get("b"), Some(&2));
    let mut ks = m.keys();
    ks.sort();
    assert_eq!(ks, vec!["a".to_string(), "b".to_string()]);
}
