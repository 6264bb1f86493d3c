use bambu_print_rs::EmulatorConfig;

#[test]
fn test_default_config() {
    let config = EmulatorConfig::new();
    assert_eq!(config.mqtt_port, 1883);
    assert!(!config.mqtt_tls_enabled);
    assert_eq!(config.status_interval_ms, 1000);
    assert_eq!(config.serial_number, "00M00A000000001");
    assert!(config.access_code.is_none());
}

#[test]
fn test_with_serial() {
    let config = EmulatorConfig::new().with_serial("CUSTOM123".to_string());
    assert_eq!(config.serial_number, "CUSTOM123");
}

#[test]
fn test_with_mqtt_port() {
    let config = EmulatorConfig::new().with_mqtt_port(8883);
    assert_eq!(config.mqtt_port, 8883);
}

#[test]
fn test_with_access_code() {
    let config = EmulatorConfig::new().with_access_code("secret123".to_string());
    assert_eq!(config.access_code, Some("secret123".to_string()));
}

#[test]
fn test_with_status_interval() {
    let config = EmulatorConfig::new().with_status_interval(500);
    assert_eq!(config.status_interval_ms, 500);
}

#[test]
fn test_with_tls() {
    let config = EmulatorConfig::new().with_tls(true);
    assert!(config.mqtt_tls_enabled);
    assert_eq!(config.mqtt_port, 8883); // Auto-switches to TLS port
}

#[test]
fn test_builder_pattern() {
    let config = EmulatorConfig::new()
        .with_serial("TEST456".to_string())
        .with_mqtt_port(1234)
        .with_access_code("pass".to_string())
        .with_status_interval(2000);

    assert_eq!(config.serial_number, "TEST456");
    assert_eq!(config.mqtt_port, 1234);
    assert_eq!(config.access_code, Some("pass".to_string()));
    assert_eq!(config.status_interval_ms, 2000);
}

#[test]
fn test_default_trait_matches_new() {
    let config = EmulatorConfig::default();
    assert_eq!(config.mqtt_port, 1883);
    assert_eq!(config.serial_number, "00M00A000000001");
    assert_eq!(config.status_interval_ms, 1000);
}

#[test]
fn test_with_tls_keeps_custom_port() {
    let config = EmulatorConfig::new().with_mqtt_port(1234).with_tls(true);
    assert!(config.mqtt_tls_enabled);
    assert_eq!(config.mqtt_port, 1234);
}

#[test]
fn test_with_tls_off_keeps_default_port() {
    let config = EmulatorConfig::new().with_tls(false);
    assert!(!config.mqtt_tls_enabled);
    assert_eq!(config.mqtt_port, 1883);
}
