use bambu_print_rs::broker::{create_broker_config, BrokerSettings};

fn listen_address(config: &BrokerSettings) -> String {
    let ip = config.listen_ip;
    format!("{}.{}.{}.{}:{}", ip[0], ip[1], ip[2], ip[3], config.listen_port)
}

#[test]
fn test_create_broker_config() {
    let config = create_broker_config(1883);
    assert_eq!(config.listener_name, "main");

    assert_eq!(listen_address(&config), "0.0.0.0:1883");
}

#[test]
fn test_create_broker_config_custom_port() {
    let config = create_broker_config(8883);
    assert_eq!(listen_address(&config), "0.0.0.0:8883");
}

#[test]
fn test_connection_settings() {
    let config = create_broker_config(1883);
    assert_eq!(config.max_payload_size, 256 * 1024);
    assert_eq!(config.max_inflight_count, 100);
}

#[test]
fn test_router_max_connections() {
    let config = create_broker_config(1883);
    assert_eq!(config.max_connections, 10);
}

#[test]
fn test_router_segment_settings() {
    let config = create_broker_config(1883);
    assert_eq!(config.max_segment_size, 256 * 1024);
    assert_eq!(config.max_segment_count, 10);
}

#[test]
fn test_connection_timing_settings() {
    let config = create_broker_config(1883);
    assert_eq!(config.connection_timeout_ms, 60000);
    assert_eq!(config.next_connection_delay_ms, 1);
}
