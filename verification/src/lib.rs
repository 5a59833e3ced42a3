//! Connection-handling core of a TLS-terminating multiplexing reverse-proxy
//! gateway: protocol classification from (ALPN, SNI), the authorization
//! abstraction with its file-backed implementation, and the per-connection
//! tunnel life cycle that bridges inbound requests onto an HTTP/1.1 backend.

pub mod authentication;
pub mod protocol_selector;
pub mod reverse_proxy;
pub mod settings;
pub mod utils;


