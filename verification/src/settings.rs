//! Process-wide configuration consumed by the selector and the tunnel
//! orchestrator: the enabled listen protocols, the optional ping and
//! service-messenger hostnames, and the backend connection parameters.

use vstd::prelude::*;

verus! {

/// Configuration shared by reference into every connection handler.
/// Built once at process start and immutable afterwards.
pub struct Settings {
    /// Whether an HTTP/1.1 listener is enabled.
    pub listen_http1: bool,
    /// Whether an HTTP/2 listener is enabled.
    pub listen_http2: bool,
    /// Whether a QUIC (HTTP/3) listener is enabled.
    pub listen_quic: bool,
    /// Hostname that classifies a connection as health-ping traffic.
    pub ping_hostname: Option<String>,
    /// Hostname that classifies a connection as service-messenger traffic.
    pub service_messenger_hostname: Option<String>,
    /// Address of the single HTTP/1.1 backend, as text; the caller resolves it.
    pub server_address: String,
    /// Connection-scoped deadline, in milliseconds, bounding both tunnel
    /// establishment and the raw exchange.
    pub connection_timeout_ms: u64,
    /// When set, an inbound HTTP/3 `GET /` is rewritten to `CONNECT` so that
    /// a client without native CONNECT can bootstrap a tunnel.
    pub h3_backward_compatibility: bool,
}

} // verus!
