//! Configuration of the emulator.

use vstd::prelude::*;

verus! {

/// Port of the MQTT broker when nothing else is asked for.
pub const DEFAULT_MQTT_PORT: u16 = 1883;

/// Port of the MQTT broker when TLS is switched on.
pub const TLS_MQTT_PORT: u16 = 8883;

/// Interval between two status reports, in milliseconds, by default.
pub const DEFAULT_STATUS_INTERVAL_MS: u64 = 1000;

/// The serial number that the emulator reports by default.
pub open spec fn default_serial() -> Seq<char> {
    "00M00A000000001"@
}

/// Emulator configuration.
#[derive(Debug, Clone)]
pub struct EmulatorConfig {
    pub mqtt_port: u16,
    pub mqtt_tls_enabled: bool,
    pub access_code: Option<String>,
    pub status_interval_ms: u64,
    pub serial_number: String,
}

impl EmulatorConfig {
    /// The configuration with default values: port 1883, no TLS, no access code,
    /// a report every second, serial number `00M00A000000001`.
    pub open spec fn is_default(self) -> bool {
        &&& self.mqtt_port == DEFAULT_MQTT_PORT
        &&& !self.mqtt_tls_enabled
        &&& self.access_code is None
        &&& self.status_interval_ms == DEFAULT_STATUS_INTERVAL_MS
        &&& self.serial_number@ == default_serial()
    }

    /// Create a new configuration with default values.
    pub fn new() -> (config: Self)
        ensures
            config.is_default(),
    {
        EmulatorConfig {
            mqtt_port: DEFAULT_MQTT_PORT,
            mqtt_tls_enabled: false,
            access_code: None,
            status_interval_ms: DEFAULT_STATUS_INTERVAL_MS,
            serial_number: String::from_str("00M00A000000001"),
        }
    }

    /// Create a configuration with a custom serial number.
    pub fn with_serial(self, serial: String) -> (config: Self)
        ensures
            config.serial_number == serial,
            config.mqtt_port == self.mqtt_port,
            config.mqtt_tls_enabled == self.mqtt_tls_enabled,
            config.access_code == self.access_code,
            config.status_interval_ms == self.status_interval_ms,
    {
        let mut config = self;
        config.serial_number = serial;
        config
    }

    /// Set MQTT port.
    pub fn with_mqtt_port(self, port: u16) -> (config: Self)
        ensures
            config.mqtt_port == port,
            config.mqtt_tls_enabled == self.mqtt_tls_enabled,
            config.access_code == self.access_code,
            config.status_interval_ms == self.status_interval_ms,
            config.serial_number == self.serial_number,
    {
        let mut config = self;
        config.mqtt_port = port;
        config
    }

    /// Set access code.
    pub fn with_access_code(self, code: String) -> (config: Self)
        ensures
            config.access_code == Some(code),
            config.mqtt_port == self.mqtt_port,
            config.mqtt_tls_enabled == self.mqtt_tls_enabled,
            config.status_interval_ms == self.status_interval_ms,
            config.serial_number == self.serial_number,
    {
        let mut config = self;
        config.access_code = Some(code);
        config
    }

    /// Set status interval.
    pub fn with_status_interval(self, interval_ms: u64) -> (config: Self)
        ensures
            config.status_interval_ms == interval_ms,
            config.mqtt_port == self.mqtt_port,
            config.mqtt_tls_enabled == self.mqtt_tls_enabled,
            config.access_code == self.access_code,
            config.serial_number == self.serial_number,
    {
        let mut config = self;
        config.status_interval_ms = interval_ms;
        config
    }

    /// The port after TLS has been switched on or off: enabling TLS moves the
    /// default port 1883 to the TLS port 8883 and leaves any other port alone.
    pub open spec fn port_with_tls(port: u16, enabled: bool) -> u16 {
        if enabled && port == DEFAULT_MQTT_PORT {
            TLS_MQTT_PORT
        } else {
            port
        }
    }

    /// Enable TLS.
    pub fn with_tls(self, enabled: bool) -> (config: Self)
        ensures
            config.mqtt_tls_enabled == enabled,
            config.mqtt_port == Self::port_with_tls(self.mqtt_port, enabled),
            config.access_code == self.access_code,
            config.status_interval_ms == self.status_interval_ms,
            config.serial_number == self.serial_number,
    {
        let mut config = self;
        config.mqtt_tls_enabled = enabled;
        if enabled && config.mqtt_port == DEFAULT_MQTT_PORT {
            config.mqtt_port = TLS_MQTT_PORT;
        }
        config
    }
}

impl Default for EmulatorConfig {
    fn default() -> (config: Self)
        ensures
            config.is_default(),
    {
        Self::new()
    }
}

} // verus!
