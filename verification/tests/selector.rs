use proxy_core::protocol_selector::{
    select, PingProtocol, Protocol, SelectError, ServiceMessengerProtocol, TunnelProtocol,
};
use proxy_core::settings::Settings;

fn cfg(http1: bool, http2: bool, quic: bool) -> Settings {
    Settings {
        listen_http1: http1,
        listen_http2: http2,
        listen_quic: quic,
        ping_hostname: Some("ping.example".to_owned()),
        service_messenger_hostname: Some("sm.example".to_owned()),
        server_address: "127.0.0.1:8080".to_owned(),
        connection_timeout_ms: 30_000,
        h3_backward_compatibility: false,
    }
}

#[test]
fn absent_alpn_defaults_to_http1_tunnel() {
    let mut s = cfg(true, false, false);
    s.ping_hostname = None;
    s.service_messenger_hostname = None;
    assert_eq!(select(&s, None, "other"), Ok(Protocol::Tunnel(TunnelProtocol::Http1)));
}

#[test]
fn recognized_alpn_without_listener_is_refused() {
    let s = cfg(true, false, false);
    assert_eq!(select(&s, Some("h2"), "other"), Err(SelectError::NotListened));
}

#[test]
fn tunnel_alpns_map_when_listened() {
    let s = cfg(true, true, true);
    assert_eq!(select(&s, Some("http/1.1"), "other"), Ok(Protocol::Tunnel(TunnelProtocol::Http1)));
    assert_eq!(select(&s, Some("h2"), "other"), Ok(Protocol::Tunnel(TunnelProtocol::Http2)));
    assert_eq!(select(&s, Some("h3"), "other"), Ok(Protocol::Tunnel(TunnelProtocol::Http3)));
}

#[test]
fn unknown_tunnel_alpn_is_an_error() {
    let s = cfg(true, true, true);
    assert_eq!(select(&s, Some("spdy/3"), "other"), Err(SelectError::TunnelAlpn));
}

#[test]
fn ping_bypasses_the_listen_gate() {
    let s = cfg(false, false, false);
    assert_eq!(select(&s, Some("http/1.1"), "ping.example"), Ok(Protocol::Ping(PingProtocol::Http1)));
    assert_eq!(select(&s, Some("h2"), "ping.example"), Ok(Protocol::Ping(PingProtocol::Http2)));
    assert_eq!(select(&s, Some("h3"), "ping.example"), Ok(Protocol::Ping(PingProtocol::Http3)));
}

#[test]
fn ping_with_absent_or_unknown_alpn_is_an_error() {
    let s = cfg(true, true, true);
    assert_eq!(select(&s, None, "ping.example"), Err(SelectError::PingAlpn));
    assert_eq!(select(&s, Some("spdy/3"), "ping.example"), Err(SelectError::PingAlpn));
}

#[test]
fn service_messenger_accepts_http1_and_http3_only() {
    let s = cfg(false, false, false);
    assert_eq!(
        select(&s, Some("http/1.1"), "sm.example"),
        Ok(Protocol::ServiceMessenger(ServiceMessengerProtocol::Http1))
    );
    assert_eq!(
        select(&s, Some("h3"), "sm.example"),
        Ok(Protocol::ServiceMessenger(ServiceMessengerProtocol::Http3))
    );
    assert_eq!(select(&s, Some("h2"), "sm.example"), Err(SelectError::ServiceMessengerAlpn));
    assert_eq!(select(&s, None, "sm.example"), Err(SelectError::ServiceMessengerAlpn));
}

#[test]
fn service_messenger_hostname_wins_over_ping() {
    let mut s = cfg(true, true, true);
    s.ping_hostname = Some("both.example".to_owned());
    s.service_messenger_hostname = Some("both.example".to_owned());
    assert_eq!(
        select(&s, Some("http/1.1"), "both.example"),
        Ok(Protocol::ServiceMessenger(ServiceMessengerProtocol::Http1))
    );
}

#[test]
fn as_alpn_is_the_inverse_table() {
    assert_eq!(Protocol::Tunnel(TunnelProtocol::Http1).as_alpn(), "http/1.1");
    assert_eq!(Protocol::Tunnel(TunnelProtocol::Http2).as_alpn(), "h2");
    assert_eq!(Protocol::Tunnel(TunnelProtocol::Http3).as_alpn(), "h3");
    assert_eq!(Protocol::Ping(PingProtocol::Http1).as_alpn(), "http/1.1");
    assert_eq!(Protocol::Ping(PingProtocol::Http2).as_alpn(), "h2");
    assert_eq!(Protocol::Ping(PingProtocol::Http3).as_alpn(), "h3");
    assert_eq!(Protocol::ServiceMessenger(ServiceMessengerProtocol::Http1).as_alpn(), "http/1.1");
    assert_eq!(Protocol::ServiceMessenger(ServiceMessengerProtocol::Http3).as_alpn(), "h3");
}

#[test]
fn protocol_names_for_the_marker_header() {
    assert_eq!(TunnelProtocol::Http1.to_str(), "HTTP1");
    assert_eq!(TunnelProtocol::Http2.to_str(), "HTTP2");
    assert_eq!(TunnelProtocol::Http3.to_str(), "HTTP3");
}
