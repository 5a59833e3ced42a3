//! Protocol classification: the pure map from (configuration, ALPN, SNI) to
//! one of the three traffic classes split by HTTP version, and the inverse
//! table from a resolved protocol back to its wire ALPN identifier.

use vstd::prelude::*;
use crate::settings::Settings;
use crate::utils::str_eq;

verus! {

/// HTTP version of a tunnel connection.
#[derive(Debug, Copy, Clone, PartialEq, Eq, Structural)]
pub enum TunnelProtocol {
    Http1,
    Http2,
    Http3,
}

/// HTTP version of a health-ping connection.
#[derive(Debug, Copy, Clone, PartialEq, Eq, Structural)]
pub enum PingProtocol {
    Http1,
    Http2,
    Http3,
}

/// HTTP version of a service-messenger connection; no HTTP/2 variant exists.
#[derive(Debug, Copy, Clone, PartialEq, Eq, Structural)]
pub enum ServiceMessengerProtocol {
    Http1,
    Http3,
}

/// The traffic class of a connection, computed once per connection from its
/// ALPN and SNI, and immutable afterwards.
#[derive(Debug, Copy, Clone, PartialEq, Eq, Structural)]
pub enum Protocol {
    Tunnel(TunnelProtocol),
    Ping(PingProtocol),
    ServiceMessenger(ServiceMessengerProtocol),
}

/// Why classification failed: an ALPN outside the table of the matched
/// class, or a tunnel protocol that no configured listener carries.
#[derive(Debug, Copy, Clone, PartialEq, Eq, Structural)]
pub enum SelectError {
    /// Unexpected ALPN on a service-messenger connection.
    ServiceMessengerAlpn,
    /// Unexpected ALPN on a pinging connection.
    PingAlpn,
    /// Unexpected ALPN on a tunnel connection.
    TunnelAlpn,
    /// The selected protocol is not being listened to.
    NotListened,
}

/// The HTTP/1.1 wire ALPN identifier.
pub open spec fn spec_http1_alpn() -> Seq<char> {
    "http/1.1"@
}

/// The HTTP/2 wire ALPN identifier.
pub open spec fn spec_http2_alpn() -> Seq<char> {
    "h2"@
}

/// The HTTP/3 wire ALPN identifier.
pub open spec fn spec_http3_alpn() -> Seq<char> {
    "h3"@
}

/// The HTTP/1.1 wire ALPN identifier, as announced in a TLS handshake.
pub fn http1_alpn() -> (r: &'static str)
    ensures
        r@ == spec_http1_alpn(),
{
    "http/1.1"
}

/// The HTTP/2 wire ALPN identifier.
pub fn http2_alpn() -> (r: &'static str)
    ensures
        r@ == spec_http2_alpn(),
{
    "h2"
}

/// The HTTP/3 wire ALPN identifier.
pub fn http3_alpn() -> (r: &'static str)
    ensures
        r@ == spec_http3_alpn(),
{
    "h3"
}

/// The wire ALPN identifier of a fully resolved protocol.
pub open spec fn spec_as_alpn(p: Protocol) -> Seq<char> {
    match p {
        Protocol::Tunnel(TunnelProtocol::Http1) => spec_http1_alpn(),
        Protocol::Tunnel(TunnelProtocol::Http2) => spec_http2_alpn(),
        Protocol::Tunnel(TunnelProtocol::Http3) => spec_http3_alpn(),
        Protocol::Ping(PingProtocol::Http1) => spec_http1_alpn(),
        Protocol::Ping(PingProtocol::Http2) => spec_http2_alpn(),
        Protocol::Ping(PingProtocol::Http3) => spec_http3_alpn(),
        Protocol::ServiceMessenger(ServiceMessengerProtocol::Http1) => spec_http1_alpn(),
        Protocol::ServiceMessenger(ServiceMessengerProtocol::Http3) => spec_http3_alpn(),
    }
}

impl Protocol {
    /// The inverse deterministic table: the wire ALPN identifier this side
    /// announces when it must speak for the resolved protocol.
    pub fn as_alpn(&self) -> (r: &'static str)
        ensures
            r@ == spec_as_alpn(*self),
    {
        match self {
            Protocol::Tunnel(TunnelProtocol::Http1) => "http/1.1",
            Protocol::Tunnel(TunnelProtocol::Http2) => "h2",
            Protocol::Tunnel(TunnelProtocol::Http3) => "h3",
            Protocol::Ping(PingProtocol::Http1) => "http/1.1",
            Protocol::Ping(PingProtocol::Http2) => "h2",
            Protocol::Ping(PingProtocol::Http3) => "h3",
            Protocol::ServiceMessenger(ServiceMessengerProtocol::Http1) => "http/1.1",
            Protocol::ServiceMessenger(ServiceMessengerProtocol::Http3) => "h3",
        }
    }
}

/// The literal protocol name recorded in the injected marker header.
pub open spec fn spec_protocol_name(p: TunnelProtocol) -> Seq<char> {
    match p {
        TunnelProtocol::Http1 => "HTTP1"@,
        TunnelProtocol::Http2 => "HTTP2"@,
        TunnelProtocol::Http3 => "HTTP3"@,
    }
}

impl TunnelProtocol {
    /// The literal protocol name, one of `HTTP1`, `HTTP2`, `HTTP3`.
    pub fn to_str(&self) -> (r: &'static str)
        ensures
            r@ == spec_protocol_name(*self),
    {
        match self {
            TunnelProtocol::Http1 => "HTTP1",
            TunnelProtocol::Http2 => "HTTP2",
            TunnelProtocol::Http3 => "HTTP3",
        }
    }
}

/// Whether the SNI names the configured service-messenger hostname.
pub open spec fn spec_is_service_messenger_host(s: Settings, sni: Seq<char>) -> bool {
    match s.service_messenger_hostname {
        Some(h) => h@ == sni,
        None => false,
    }
}

/// Whether the SNI names the configured ping hostname.
pub open spec fn spec_is_ping_host(s: Settings, sni: Seq<char>) -> bool {
    match s.ping_hostname {
        Some(h) => h@ == sni,
        None => false,
    }
}

/// Whether some configured listener carries the tunnel protocol.
pub open spec fn spec_listens_to(s: Settings, t: TunnelProtocol) -> bool {
    match t {
        TunnelProtocol::Http1 => s.listen_http1,
        TunnelProtocol::Http2 => s.listen_http2,
        TunnelProtocol::Http3 => s.listen_quic,
    }
}

/// The view of the optional negotiated ALPN.
pub open spec fn spec_opt_alpn_view(alpn: Option<&str>) -> Option<Seq<char>> {
    match alpn {
        Some(a) => Some(a@),
        None => None,
    }
}

/// The whole classification, first match winning: the service-messenger
/// hostname claims the connection first, then the ping hostname, and any
/// other SNI is tunnel traffic with the HTTP/1.1 identifier assumed when the
/// ALPN is absent. Only a `Tunnel` result is then held against the
/// configured listeners; `Ping` and `ServiceMessenger` bypass that gate.
pub open spec fn spec_select(s: Settings, alpn: Option<Seq<char>>, sni: Seq<char>) -> Result<
    Protocol,
    SelectError,
> {
    if spec_is_service_messenger_host(s, sni) {
        let a = match alpn {
            Some(a) => a,
            None => ""@,
        };
        if a == spec_http1_alpn() {
            Ok(Protocol::ServiceMessenger(ServiceMessengerProtocol::Http1))
        } else if a == spec_http3_alpn() {
            Ok(Protocol::ServiceMessenger(ServiceMessengerProtocol::Http3))
        } else {
            Err(SelectError::ServiceMessengerAlpn)
        }
    } else if spec_is_ping_host(s, sni) {
        let a = match alpn {
            Some(a) => a,
            None => ""@,
        };
        if a == spec_http1_alpn() {
            Ok(Protocol::Ping(PingProtocol::Http1))
        } else if a == spec_http2_alpn() {
            Ok(Protocol::Ping(PingProtocol::Http2))
        } else if a == spec_http3_alpn() {
            Ok(Protocol::Ping(PingProtocol::Http3))
        } else {
            Err(SelectError::PingAlpn)
        }
    } else {
        let a = match alpn {
            Some(a) => a,
            None => spec_http1_alpn(),
        };
        if a == spec_http1_alpn() {
            if spec_listens_to(s, TunnelProtocol::Http1) {
                Ok(Protocol::Tunnel(TunnelProtocol::Http1))
            } else {
                Err(SelectError::NotListened)
            }
        } else if a == spec_http2_alpn() {
            if spec_listens_to(s, TunnelProtocol::Http2) {
                Ok(Protocol::Tunnel(TunnelProtocol::Http2))
            } else {
                Err(SelectError::NotListened)
            }
        } else if a == spec_http3_alpn() {
            if spec_listens_to(s, TunnelProtocol::Http3) {
                Ok(Protocol::Tunnel(TunnelProtocol::Http3))
            } else {
                Err(SelectError::NotListened)
            }
        } else {
            Err(SelectError::TunnelAlpn)
        }
    }
}

/// Whether the SNI equals an optionally configured hostname.
fn matches_host(host: &Option<String>, sni: &str) -> (r: bool)
    ensures
        r == match host {
            Some(h) => h@ == sni@,
            None => false,
        },
{
    match host {
        Some(h) => str_eq(h.as_str(), sni),
        None => false,
    }
}

/// Classifies a connection from its negotiated ALPN and claimed SNI against
/// the configuration, exactly as [`spec_select`] lays the decision down.
pub fn select(settings: &Settings, alpn: Option<&str>, sni: &str) -> (r: Result<
    Protocol,
    SelectError,
>)
    ensures
        r == spec_select(*settings, spec_opt_alpn_view(alpn), sni@),
{
    if matches_host(&settings.service_messenger_hostname, sni) {
        let a = match alpn {
            Some(a) => a,
            None => "",
        };
        if str_eq(a, http1_alpn()) {
            Ok(Protocol::ServiceMessenger(ServiceMessengerProtocol::Http1))
        } else if str_eq(a, http3_alpn()) {
            Ok(Protocol::ServiceMessenger(ServiceMessengerProtocol::Http3))
        } else {
            Err(SelectError::ServiceMessengerAlpn)
        }
    } else if matches_host(&settings.ping_hostname, sni) {
        let a = match alpn {
            Some(a) => a,
            None => "",
        };
        if str_eq(a, http1_alpn()) {
            Ok(Protocol::Ping(PingProtocol::Http1))
        } else if str_eq(a, http2_alpn()) {
            Ok(Protocol::Ping(PingProtocol::Http2))
        } else if str_eq(a, http3_alpn()) {
            Ok(Protocol::Ping(PingProtocol::Http3))
        } else {
            Err(SelectError::PingAlpn)
        }
    } else {
        let a = match alpn {
            Some(a) => a,
            None => http1_alpn(),
        };
        if str_eq(a, http1_alpn()) {
            if settings.listen_http1 {
                Ok(Protocol::Tunnel(TunnelProtocol::Http1))
            } else {
                Err(SelectError::NotListened)
            }
        } else if str_eq(a, http2_alpn()) {
            if settings.listen_http2 {
                Ok(Protocol::Tunnel(TunnelProtocol::Http2))
            } else {
                Err(SelectError::NotListened)
            }
        } else if str_eq(a, http3_alpn()) {
            if settings.listen_quic {
                Ok(Protocol::Tunnel(TunnelProtocol::Http3))
            } else {
                Err(SelectError::NotListened)
            }
        } else {
            Err(SelectError::TunnelAlpn)
        }
    }
}

/// Law: with no ping or service-messenger hostname configured and an
/// HTTP/1.1 listener enabled, an absent ALPN classifies any SNI as an
/// HTTP/1.1 tunnel.
pub proof fn lemma_absent_alpn_defaults_to_http1_tunnel(s: Settings, sni: Seq<char>)
    requires
        s.ping_hostname is None,
        s.service_messenger_hostname is None,
        s.listen_http1,
    ensures
        spec_select(s, None, sni) == Ok::<Protocol, SelectError>(
            Protocol::Tunnel(TunnelProtocol::Http1),
        ),
{
}

/// Law: a recognized tunnel ALPN is still refused when its protocol is not
/// among the configured listeners; with only an HTTP/1.1 listener, `h2` on a
/// tunnel SNI is an error.
pub proof fn lemma_unlistened_tunnel_refused(s: Settings, sni: Seq<char>)
    requires
        !spec_is_service_messenger_host(s, sni),
        !spec_is_ping_host(s, sni),
        s.listen_http1,
        !s.listen_http2,
        !s.listen_quic,
    ensures
        spec_select(s, Some(spec_http2_alpn()), sni) == Err::<Protocol, SelectError>(
            SelectError::NotListened,
        ),
{
    reveal_strlit("http/1.1");
    reveal_strlit("h2");
    assert(spec_http1_alpn().len() == 8);
    assert(spec_http2_alpn().len() == 2);
}

/// Law: on the ping hostname the HTTP/1.1 identifier classifies the
/// connection as an HTTP/1.1 ping, whatever the listen-protocol
/// configuration: `Ping` results bypass the listener gate.
pub proof fn lemma_ping_bypasses_listen_gate(s: Settings, sni: Seq<char>)
    requires
        !spec_is_service_messenger_host(s, sni),
        spec_is_ping_host(s, sni),
    ensures
        spec_select(s, Some(spec_http1_alpn()), sni) == Ok::<Protocol, SelectError>(
            Protocol::Ping(PingProtocol::Http1),
        ),
{
}

} // verus!
