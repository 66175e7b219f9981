use ech_workers_client::config::{
    config_dir_name, config_file_name, generate_server_id, server_id_for, Config, FileModel,
    LastState, ProxyConfig, Server,
};
use ech_workers_client::reconcile::StateChange;

fn server(id: &str, name: &str, address: &str) -> Server {
    Server {
        id: id.to_string(),
        name: name.to_string(),
        server: address.to_string(),
        listen: "127.0.0.1:30000".to_string(),
        token: String::new(),
        ip: String::new(),
        dns: "dns.alidns.com/dns-query".to_string(),
        ech: "cloudflare-ech.com".to_string(),
        routing_mode: "global".to_string(),
    }
}

fn store_with(servers: Vec<Server>, current: &str) -> Config {
    Config::from_model(FileModel {
        servers,
        current_server_id: current.to_string(),
        last_state: LastState::default(),
    })
}

#[test]
fn last_state_default_is_all_off() {
    let state = LastState::default();
    assert!(!state.was_running);
    assert!(!state.system_proxy_enabled);
    assert!(!state.auto_start_checked);
    assert_eq!(state.preferred_mode, 0);
}

#[test]
fn proxy_config_default_values() {
    let config = ProxyConfig::default();
    assert_eq!(config.listen_addr, "127.0.0.1:30000");
    assert_eq!(config.server_addr, "example.workers.dev:443");
    assert_eq!(config.server_ip, "");
    assert_eq!(config.token, "");
    assert_eq!(config.dns_server, "dns.alidns.com/dns-query");
    assert_eq!(config.ech_domain, "cloudflare-ech.com");
    assert_eq!(config.routing_mode, "global");
}

#[test]
fn file_model_default_is_empty() {
    let model = FileModel::default();
    assert!(model.servers.is_empty());
    assert_eq!(model.current_server_id, "");
    assert_eq!(model.last_state, LastState::default());
}

#[test]
fn empty_store_gives_default_settings() {
    let config = Config::default();
    assert!(config.get_servers().is_empty());
    assert_eq!(config.get_current_server(), None);
    assert_eq!(config.get_proxy_config(), ProxyConfig::default());
}

#[test]
fn set_proxy_config_on_an_empty_store_adds_a_server() {
    let mut config = Config::default();
    let mut wanted = ProxyConfig::default();
    wanted.server_addr = "other.example:443".to_string();
    wanted.token = "s3cret".to_string();
    config.set_proxy_config(wanted.clone());
    assert_eq!(config.get_proxy_config(), wanted);
    let servers = config.get_servers();
    assert_eq!(servers.len(), 1);
    assert!(servers[0].id.starts_with("server_"));
    assert_eq!(servers[0].name, "默认服务器");
    assert_eq!(servers[0].server, "other.example:443");
    assert_eq!(config.model().current_server_id, servers[0].id);
}

#[test]
fn set_proxy_config_with_names_the_added_server() {
    let mut config = Config::default();
    let wanted = ProxyConfig {
        listen_addr: "127.0.0.1:1080".to_string(),
        server_addr: "edge.example:8443".to_string(),
        server_ip: "203.0.113.7".to_string(),
        token: "s3cret".to_string(),
        dns_server: "dns.example/dns-query".to_string(),
        ech_domain: "ech.example".to_string(),
        routing_mode: "bypass_cn".to_string(),
    };
    config.set_proxy_config_with(wanted.clone(), "server_7f".to_string());
    assert_eq!(config.get_proxy_config(), wanted);
    assert_eq!(
        config.get_servers(),
        vec![Server {
            id: "server_7f".to_string(),
            name: "默认服务器".to_string(),
            server: "edge.example:8443".to_string(),
            listen: "127.0.0.1:1080".to_string(),
            token: "s3cret".to_string(),
            ip: "203.0.113.7".to_string(),
            dns: "dns.example/dns-query".to_string(),
            ech: "ech.example".to_string(),
            routing_mode: "bypass_cn".to_string(),
        }]
    );
    assert_eq!(config.model().current_server_id, "server_7f");
}

#[test]
fn set_proxy_config_with_leaves_the_id_unused_where_a_server_exists() {
    let mut config = store_with(vec![server("a", "first", "a.example:443")], "a");
    let mut wanted = ProxyConfig::default();
    wanted.server_addr = "edge.example:8443".to_string();
    config.set_proxy_config_with(wanted.clone(), "server_7f".to_string());
    assert_eq!(config.get_proxy_config(), wanted);
    let servers = config.get_servers();
    assert_eq!(servers.len(), 1);
    assert_eq!(servers[0].id, "a");
    assert_eq!(servers[0].name, "first");
}

#[test]
fn proxy_config_round_trip_after_the_last_server_was_deleted() {
    let mut config = store_with(vec![server("a", "first", "a.example:443")], "a");
    config.delete_server("a");
    let mut wanted = ProxyConfig::default();
    wanted.listen_addr = "127.0.0.1:1081".to_string();
    config.set_proxy_config(wanted.clone());
    assert_eq!(config.get_proxy_config(), wanted);
    assert_eq!(config.get_servers().len(), 1);
}

#[test]
fn proxy_config_round_trip() {
    let mut config = store_with(
        vec![server("a", "first", "a.example:443"), server("b", "second", "b.example:443")],
        "b",
    );
    let wanted = ProxyConfig {
        listen_addr: "127.0.0.1:1080".to_string(),
        server_addr: "edge.example:8443".to_string(),
        server_ip: "203.0.113.7".to_string(),
        token: "s3cret".to_string(),
        dns_server: "dns.example/dns-query".to_string(),
        ech_domain: "ech.example".to_string(),
        routing_mode: "bypass_cn".to_string(),
    };
    config.set_proxy_config(wanted.clone());
    assert_eq!(config.get_proxy_config(), wanted);
    let servers = config.get_servers();
    assert_eq!(servers.len(), 2);
    assert_eq!(servers[0], server("a", "first", "a.example:443"));
    assert_eq!(servers[1].id, "b");
    assert_eq!(servers[1].name, "second");
    assert_eq!(servers[1].server, "edge.example:8443");
    assert_eq!(servers[1].token, "s3cret");
}

#[test]
fn proxy_config_round_trip_with_unknown_selection() {
    let mut config = store_with(
        vec![server("a", "first", "a.example:443"), server("b", "second", "b.example:443")],
        "missing",
    );
    let mut wanted = ProxyConfig::default();
    wanted.server_addr = "edge.example:8443".to_string();
    config.set_proxy_config(wanted.clone());
    assert_eq!(config.get_proxy_config(), wanted);
    assert_eq!(config.get_servers()[0].server, "edge.example:8443");
    assert_eq!(config.get_servers()[1].server, "b.example:443");
}

#[test]
fn proxy_config_round_trip_with_duplicate_ids() {
    let mut config = store_with(
        vec![server("a", "first", "a.example:443"), server("a", "twin", "twin.example:443")],
        "a",
    );
    let mut wanted = ProxyConfig::default();
    wanted.server_addr = "edge.example:8443".to_string();
    config.set_proxy_config(wanted.clone());
    assert_eq!(config.get_proxy_config(), wanted);
    assert_eq!(config.get_servers()[0].server, "edge.example:8443");
    assert_eq!(config.get_servers()[1].server, "twin.example:443");
}

#[test]
fn current_server_is_the_selected_one() {
    let config = store_with(
        vec![server("a", "first", "a.example:443"), server("b", "second", "b.example:443")],
        "b",
    );
    assert_eq!(config.get_current_server(), Some(server("b", "second", "b.example:443")));
}

#[test]
fn current_server_falls_back_to_the_first() {
    let servers = vec![server("a", "first", "a.example:443"), server("b", "second", "b.example:443")];
    let unknown = store_with(servers.clone(), "zzz");
    assert_eq!(unknown.get_current_server(), Some(server("a", "first", "a.example:443")));
    let unselected = store_with(servers, "");
    assert_eq!(unselected.get_current_server(), Some(server("a", "first", "a.example:443")));
}

#[test]
fn empty_selection_does_not_match_an_empty_id() {
    let config = store_with(
        vec![server("a", "first", "a.example:443"), server("", "nameless", "n.example:443")],
        "",
    );
    assert_eq!(config.get_current_server(), Some(server("a", "first", "a.example:443")));
}

#[test]
fn set_current_server_selects_without_lookup() {
    let mut config = store_with(vec![server("a", "first", "a.example:443")], "a");
    config.set_current_server("nowhere".to_string());
    assert_eq!(config.model().current_server_id, "nowhere");
    assert_eq!(config.get_current_server(), Some(server("a", "first", "a.example:443")));
}

#[test]
fn upsert_appends_a_new_server() {
    let mut config = store_with(vec![server("a", "first", "a.example:443")], "a");
    config.upsert_server(server("b", "second", "b.example:443"));
    assert_eq!(
        config.get_servers(),
        vec![server("a", "first", "a.example:443"), server("b", "second", "b.example:443")]
    );
}

#[test]
fn upsert_replaces_the_first_server_with_the_id() {
    let mut config = store_with(
        vec![
            server("a", "first", "a.example:443"),
            server("b", "second", "b.example:443"),
            server("b", "third", "c.example:443"),
        ],
        "a",
    );
    config.upsert_server(server("b", "renamed", "new.example:443"));
    assert_eq!(
        config.get_servers(),
        vec![
            server("a", "first", "a.example:443"),
            server("b", "renamed", "new.example:443"),
            server("b", "third", "c.example:443"),
        ]
    );
}

#[test]
fn delete_removes_every_server_with_the_id() {
    let mut config = store_with(
        vec![
            server("a", "first", "a.example:443"),
            server("b", "second", "b.example:443"),
            server("a", "third", "c.example:443"),
        ],
        "b",
    );
    config.delete_server("a");
    assert_eq!(config.get_servers(), vec![server("b", "second", "b.example:443")]);
    assert_eq!(config.model().current_server_id, "b");
}

#[test]
fn delete_of_the_selected_server_selects_the_first_left() {
    let mut config = store_with(
        vec![server("a", "first", "a.example:443"), server("b", "second", "b.example:443")],
        "a",
    );
    config.delete_server("a");
    assert_eq!(config.model().current_server_id, "b");
    config.delete_server("b");
    assert!(config.get_servers().is_empty());
    assert_eq!(config.model().current_server_id, "");
}

#[test]
fn delete_of_an_unknown_id_changes_nothing() {
    let mut config = store_with(vec![server("a", "first", "a.example:443")], "a");
    config.delete_server("zzz");
    assert_eq!(config.get_servers(), vec![server("a", "first", "a.example:443")]);
    assert_eq!(config.model().current_server_id, "a");
}

#[test]
fn last_state_is_stored_and_returned() {
    let mut config = Config::default();
    assert_eq!(config.get_last_state(), LastState::default());
    let state = LastState {
        was_running: true,
        system_proxy_enabled: true,
        auto_start_checked: true,
        preferred_mode: 2,
    };
    config.set_last_state(state);
    assert_eq!(config.get_last_state(), state);
}

#[test]
fn record_changes_only_what_the_change_names() {
    let mut config = Config::default();
    config.set_last_state(LastState {
        was_running: false,
        system_proxy_enabled: true,
        auto_start_checked: true,
        preferred_mode: 2,
    });
    config.record(StateChange { was_running: Some(true), system_proxy_enabled: None });
    assert_eq!(
        config.get_last_state(),
        LastState {
            was_running: true,
            system_proxy_enabled: true,
            auto_start_checked: true,
            preferred_mode: 2,
        }
    );
}

#[test]
fn default_server_is_added_to_an_empty_store() {
    let mut config = Config::default();
    config.ensure_default_server_with("server_1a2b".to_string());
    let servers = config.get_servers();
    assert_eq!(servers.len(), 1);
    assert_eq!(servers[0].id, "server_1a2b");
    assert_eq!(servers[0].name, "默认服务器");
    assert_eq!(servers[0].server, "example.workers.dev:443");
    assert_eq!(servers[0].listen, "127.0.0.1:30000");
    assert_eq!(servers[0].token, "");
    assert_eq!(servers[0].ip, "");
    assert_eq!(servers[0].dns, "dns.alidns.com/dns-query");
    assert_eq!(servers[0].ech, "cloudflare-ech.com");
    assert_eq!(servers[0].routing_mode, "global");
    assert_eq!(config.model().current_server_id, "server_1a2b");
    assert_eq!(config.get_proxy_config(), ProxyConfig::default());
}

#[test]
fn default_server_is_not_added_where_one_exists() {
    let mut config = store_with(vec![server("a", "first", "a.example:443")], "a");
    config.ensure_default_server_with("server_1".to_string());
    config.ensure_default_server();
    assert_eq!(config.get_servers(), vec![server("a", "first", "a.example:443")]);
    assert_eq!(config.model().current_server_id, "a");
}

#[test]
fn ensure_default_server_uses_a_generated_id() {
    let mut config = Config::default();
    config.ensure_default_server();
    let servers = config.get_servers();
    assert_eq!(servers.len(), 1);
    assert!(servers[0].id.starts_with("server_"));
    assert_eq!(config.model().current_server_id, servers[0].id);
}

#[test]
fn server_ids_are_hexadecimal() {
    assert_eq!(server_id_for(0), "server_0");
    assert_eq!(server_id_for(9), "server_9");
    assert_eq!(server_id_for(10), "server_a");
    assert_eq!(server_id_for(16), "server_10");
    assert_eq!(server_id_for(255), "server_ff");
    assert_eq!(server_id_for(0xdead_beef), "server_deadbeef");
    assert_eq!(server_id_for(u32::MAX), "server_ffffffff");
    assert_eq!(server_id_for(0x0123_4567), format!("server_{:x}", 0x0123_4567u32));
}

#[test]
fn generated_server_ids_have_the_form() {
    let mut distinct = std::collections::HashSet::new();
    for _ in 0..64 {
        let id = generate_server_id();
        let digits = id.strip_prefix("server_").expect("prefix");
        assert!(!digits.is_empty() && digits.len() <= 8);
        assert!(digits.chars().all(|c| c.is_ascii_digit() || ('a'..='f').contains(&c)));
        assert!(digits == "0" || !digits.starts_with('0'));
        distinct.insert(id);
    }
    assert!(distinct.len() > 1);
}

#[test]
fn open_without_a_stored_model_asks_to_save() {
    let (config, save) = Config::open(None);
    assert!(save);
    assert_eq!(config.get_servers().len(), 1);
    assert_eq!(config.get_last_state(), LastState::default());
}

#[test]
fn open_with_a_stored_model_keeps_it() {
    let model = FileModel {
        servers: vec![server("a", "first", "a.example:443")],
        current_server_id: "a".to_string(),
        last_state: LastState {
            was_running: true,
            system_proxy_enabled: false,
            auto_start_checked: false,
            preferred_mode: 2,
        },
    };
    let (config, save) = Config::open(Some(model.clone()));
    assert!(!save);
    assert_eq!(*config.model(), model);
}

#[test]
fn open_with_a_stored_model_without_servers_adds_one() {
    let (config, save) = Config::open(Some(FileModel::default()));
    assert!(!save);
    assert_eq!(config.get_servers().len(), 1);
}

#[test]
fn store_file_names() {
    assert_eq!(config_dir_name(), "ECHWorkersClient");
    assert_eq!(config_file_name(), "config.json");
}
