//! Settings of the embedded MQTT broker.

use vstd::prelude::*;

verus! {

/// Name of the broker's one listener.
pub open spec fn listener_name() -> Seq<char> {
    "main"@
}

/// Connections the router accepts: the publisher, the command handler and
/// external clients.
pub const MAX_CONNECTIONS: usize = 10;

/// Size of a segment of the router's log: 256 KiB.
pub const MAX_SEGMENT_SIZE: usize = 262144;

/// Segments of the router's log kept in memory.
pub const MAX_SEGMENT_COUNT: usize = 10;

/// Delay before the next connection is accepted, in milliseconds.
pub const NEXT_CONNECTION_DELAY_MS: u64 = 1;

/// Time a client has to complete its connection, in milliseconds.
pub const CONNECTION_TIMEOUT_MS: u16 = 60000;

/// Largest payload a client may send: 256 KiB.
pub const MAX_PAYLOAD_SIZE: usize = 262144;

/// Messages in flight per connection.
pub const MAX_INFLIGHT_COUNT: usize = 100;

/// Settings of the embedded MQTT (v4) broker: its router and its one
/// listener, which accepts plain TCP connections on all interfaces, without
/// authentication.
#[derive(Debug, Clone)]
pub struct BrokerSettings {
    pub max_connections: usize,
    pub max_segment_size: usize,
    pub max_segment_count: usize,
    pub listener_name: String,
    /// IPv4 address to listen on.
    pub listen_ip: [u8; 4],
    pub listen_port: u16,
    pub next_connection_delay_ms: u64,
    pub connection_timeout_ms: u16,
    pub max_payload_size: usize,
    pub max_inflight_count: usize,
}

impl BrokerSettings {
    /// The settings of a broker that listens on `0.0.0.0:port`.
    pub open spec fn listens_on(self, port: u16) -> bool {
        &&& self.max_connections == MAX_CONNECTIONS
        &&& self.max_segment_size == MAX_SEGMENT_SIZE
        &&& self.max_segment_count == MAX_SEGMENT_COUNT
        &&& self.listener_name@ == listener_name()
        &&& self.listen_ip@ == seq![0u8, 0u8, 0u8, 0u8]
        &&& self.listen_port == port
        &&& self.next_connection_delay_ms == NEXT_CONNECTION_DELAY_MS
        &&& self.connection_timeout_ms == CONNECTION_TIMEOUT_MS
        &&& self.max_payload_size == MAX_PAYLOAD_SIZE
        &&& self.max_inflight_count == MAX_INFLIGHT_COUNT
    }
}

/// Create the broker configuration for a port.
pub fn create_broker_config(port: u16) -> (settings: BrokerSettings)
    ensures
        settings.listens_on(port),
{
    let settings = BrokerSettings {
        max_connections: MAX_CONNECTIONS,
        max_segment_size: MAX_SEGMENT_SIZE,
        max_segment_count: MAX_SEGMENT_COUNT,
        listener_name: String::from_str("main"),
        listen_ip: [0, 0, 0, 0],
        listen_port: port,
        next_connection_delay_ms: NEXT_CONNECTION_DELAY_MS,
        connection_timeout_ms: CONNECTION_TIMEOUT_MS,
        max_payload_size: MAX_PAYLOAD_SIZE,
        max_inflight_count: MAX_INFLIGHT_COUNT,
    };
    assert(settings.listen_ip@ =~= seq![0u8, 0u8, 0u8, 0u8]);
    settings
}

} // verus!
