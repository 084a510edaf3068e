use lightshark::api::{effective_history_limit, health_response, HistoryParams};
use lightshark::config::{
    default_connection_timeout, default_db_path, default_port, CliArgs, Config,
};
use lightshark::sniffer::FilterConfig;
use lightshark::state::TrafficState;

fn cli_defaults() -> CliArgs {
    CliArgs {
        interface: None,
        port: 3000,
        db_path: "traffic.db".to_string(),
        config: None,
        filter_port: None,
        filter_ip: None,
        filter_protocol: None,
        connection_timeout: 60,
        resolve_dns: false,
        quiet: false,
    }
}

#[test]
fn defaults_are_documented_values() {
    assert_eq!(default_port(), 3000);
    assert_eq!(default_db_path(), "traffic.db");
    assert_eq!(default_connection_timeout(), 60);
    let c = Config::default();
    assert_eq!(c.port, 3000);
    assert_eq!(c.db_path, "traffic.db");
    assert_eq!(c.connection_timeout, 60);
    assert!(c.interface.is_none());
    assert!(!c.resolve_dns);
    assert!(!c.quiet);
}

#[test]
fn merge_cli_with_defaults_changes_nothing() {
    let mut c = Config::default();
    c.port = 8080;
    c.filter_port = Some(22);
    let before = c.clone();
    c.merge_cli(&cli_defaults());
    assert_eq!(c.port, before.port);
    assert_eq!(c.filter_port, before.filter_port);
    assert_eq!(c.db_path, before.db_path);
}

#[test]
fn merge_cli_overrides_take_precedence() {
    let mut c = Config::default();
    c.filter_ip = Some("1.1.1.1".to_string());
    let mut cli = cli_defaults();
    cli.interface = Some("eth0".to_string());
    cli.port = 9000;
    cli.db_path = "other.db".to_string();
    cli.filter_port = Some(443);
    cli.filter_ip = Some("2.2.2.2".to_string());
    cli.filter_protocol = Some("udp".to_string());
    cli.connection_timeout = 30;
    cli.resolve_dns = true;
    cli.quiet = true;
    c.merge_cli(&cli);
    assert_eq!(c.interface.as_deref(), Some("eth0"));
    assert_eq!(c.port, 9000);
    assert_eq!(c.db_path, "other.db");
    assert_eq!(c.filter_port, Some(443));
    assert_eq!(c.filter_ip.as_deref(), Some("2.2.2.2"));
    assert_eq!(c.filter_protocol.as_deref(), Some("udp"));
    assert_eq!(c.connection_timeout, 30);
    assert!(c.resolve_dns);
    assert!(c.quiet);
}

#[test]
fn filter_from_config_copies_the_three_criteria() {
    let mut c = Config::default();
    c.filter_port = Some(80);
    c.filter_ip = Some("3.3.3.3".to_string());
    c.filter_protocol = Some("TCP".to_string());
    let f = FilterConfig::from_config(&c);
    assert_eq!(f.port, Some(80));
    assert_eq!(f.ip.as_deref(), Some("3.3.3.3"));
    assert_eq!(f.protocol.as_deref(), Some("TCP"));
}

#[test]
fn health_response_reflects_counters() {
    let t = TrafficState::new();
    let h = health_response(&t);
    assert_eq!(h.status, "ok");
    assert_eq!(h.active_connections, 0);
    assert_eq!(h.total_packets, 0);
}

#[test]
fn history_limit_defaults_and_caps() {
    assert_eq!(effective_history_limit(&HistoryParams { limit: None }), 100);
    assert_eq!(effective_history_limit(&HistoryParams { limit: Some(5) }), 5);
    assert_eq!(effective_history_limit(&HistoryParams { limit: Some(10_000) }), 1000);
}
