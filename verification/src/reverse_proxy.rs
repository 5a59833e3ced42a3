//! The reverse-proxy tunnel orchestrator: the per-connection life cycle from
//! the first decoded request through tunnel establishment to the raw byte
//! exchange, as a state machine over plain decisions. The caller performs the
//! waiting, the wire codecs and the copying; every decision — how a request
//! is translated for the HTTP/1.1 backend, what the client is answered, and
//! when the connection closes with which failure — is taken here.

use vstd::prelude::*;
use crate::protocol_selector::{spec_protocol_name, TunnelProtocol};
use crate::utils::str_eq;

verus! {

/// HTTP version a request or response head reports on the wire.
#[derive(Debug, Copy, Clone, PartialEq, Eq, Structural)]
pub enum HttpVersion {
    Http09,
    Http10,
    Http11,
    Http2,
    Http3,
}

/// The header-level content of a request: what the translation reads and
/// rewrites. The body never passes through this core; after establishment
/// the connection is a raw byte pipe.
#[derive(Debug, Clone)]
pub struct RequestHead {
    /// The request method, as its token text.
    pub method: String,
    /// The path of the request target.
    pub path: String,
    /// The wire version the request arrived with.
    pub version: HttpVersion,
    /// The header fields, in order.
    pub headers: Vec<(String, String)>,
}

/// The mathematical value of a [`RequestHead`].
pub struct RequestHeadView {
    pub method: Seq<char>,
    pub path: Seq<char>,
    pub version: HttpVersion,
    pub headers: Seq<(Seq<char>, Seq<char>)>,
}

/// The header-level content of a response.
#[derive(Debug, Clone)]
pub struct ResponseHead {
    /// The status code.
    pub status: u16,
    /// The wire version the response reports.
    pub version: HttpVersion,
    /// The header fields, in order.
    pub headers: Vec<(String, String)>,
}

/// The mathematical value of a [`ResponseHead`].
pub struct ResponseHeadView {
    pub status: u16,
    pub version: HttpVersion,
    pub headers: Seq<(Seq<char>, Seq<char>)>,
}

/// The view of a header list.
pub open spec fn spec_headers_view(hs: Seq<(String, String)>) -> Seq<(Seq<char>, Seq<char>)> {
    hs.map_values(|p: (String, String)| (p.0@, p.1@))
}

impl View for RequestHead {
    type V = RequestHeadView;

    open spec fn view(&self) -> RequestHeadView {
        RequestHeadView {
            method: self.method@,
            path: self.path@,
            version: self.version,
            headers: spec_headers_view(self.headers@),
        }
    }
}

impl View for ResponseHead {
    type V = ResponseHeadView;

    open spec fn view(&self) -> ResponseHeadView {
        ResponseHeadView {
            status: self.status,
            version: self.version,
            headers: spec_headers_view(self.headers@),
        }
    }
}

/// The name of the injected marker header recording the original inbound
/// protocol.
pub open spec fn spec_original_protocol_header() -> Seq<char> {
    "X-Original-Protocol"@
}

/// The name of the injected marker header.
pub fn original_protocol_header() -> (r: &'static str)
    ensures
        r@ == spec_original_protocol_header(),
{
    "X-Original-Protocol"
}

/// A header list with every field of the given name removed.
pub open spec fn spec_remove_header(hs: Seq<(Seq<char>, Seq<char>)>, name: Seq<char>) -> Seq<
    (Seq<char>, Seq<char>),
>
    decreases hs.len(),
{
    if hs.len() == 0 {
        Seq::<(Seq<char>, Seq<char>)>::empty()
    } else if hs.last().0 == name {
        spec_remove_header(hs.drop_last(), name)
    } else {
        spec_remove_header(hs.drop_last(), name).push(hs.last())
    }
}

/// Replaces a header: every field of the given name is removed and the new
/// value appended last.
fn set_header(headers: &Vec<(String, String)>, name: &str, value: &str) -> (r: Vec<
    (String, String),
>)
    ensures
        spec_headers_view(r@) == spec_remove_header(spec_headers_view(headers@), name@).push(
            (name@, value@),
        ),
{
    let ghost full = spec_headers_view(headers@);
    let mut out: Vec<(String, String)> = Vec::new();
    let mut i: usize = 0;
    while i < headers.len()
        invariant
            0 <= i <= headers@.len(),
            full == spec_headers_view(headers@),
            spec_headers_view(out@) == spec_remove_header(full.take(i as int), name@),
        decreases headers@.len() - i,
    {
        let pair = &headers[i];
        let ghost before = spec_headers_view(out@);
        if !str_eq(pair.0.as_str(), name) {
            out.push((pair.0.clone(), pair.1.clone()));
            proof {
                assert(spec_headers_view(out@) =~= before.push(full[i as int]));
            }
        }
        proof {
            let prefix = full.take(i as int);
            let extended = full.take(i as int + 1);
            assert(extended.drop_last() =~= prefix);
            assert(extended.last() == full[i as int]);
            assert(spec_headers_view(out@) == spec_remove_header(extended, name@));
        }
        i += 1;
    }
    let ghost removed = spec_headers_view(out@);
    out.push((name.to_owned(), value.to_owned()));
    proof {
        assert(full.take(full.len() as int) =~= full);
        assert(spec_headers_view(out@) =~= removed.push((name@, value@)));
    }
    out
}

/// The translated request sent onward to the backend: for an HTTP/3 inbound
/// the version is forced to HTTP/1.1 (the backend only speaks HTTP/1.1) and,
/// when the compatibility flag is set, a bare `GET /` becomes `CONNECT`; on
/// every inbound, the marker header records the original protocol name.
pub open spec fn spec_translate_request(
    h: RequestHeadView,
    wire: TunnelProtocol,
    h3_compat: bool,
) -> RequestHeadView
    recommends
        wire != TunnelProtocol::Http2,
{
    RequestHeadView {
        method: if wire is Http3 && h3_compat && h.method == "GET"@ && h.path == "/"@ {
            "CONNECT"@
        } else {
            h.method
        },
        path: h.path,
        version: if wire is Http3 {
            HttpVersion::Http11
        } else {
            h.version
        },
        headers: spec_remove_header(h.headers, spec_original_protocol_header()).push(
            (spec_original_protocol_header(), spec_protocol_name(wire)),
        ),
    }
}

/// Builds the request the backend receives from the one the client sent,
/// exactly as [`spec_translate_request`] lays the translation down. An
/// HTTP/2 codec never reaches tunnel establishment.
pub fn translate_request(head: &RequestHead, wire: TunnelProtocol, h3_compat: bool) -> (r:
    RequestHead)
    requires
        wire != TunnelProtocol::Http2,
    ensures
        r@ == spec_translate_request(head@, wire, h3_compat),
{
    let is_h3 = wire == TunnelProtocol::Http3;
    let rewrite = is_h3 && h3_compat && str_eq(head.method.as_str(), "GET") && str_eq(
        head.path.as_str(),
        "/",
    );
    let method = if rewrite {
        "CONNECT".to_owned()
    } else {
        head.method.clone()
    };
    let version = if is_h3 {
        HttpVersion::Http11
    } else {
        head.version
    };
    let headers = set_header(&head.headers, original_protocol_header(), wire.to_str());
    RequestHead { method, path: head.path.clone(), version, headers }
}

/// The response handed back to the client: the backend's head with the wire
/// version replaced by the client's original request version, everything
/// else unchanged.
pub fn finalize_response(resp: ResponseHead, original_version: HttpVersion) -> (r: ResponseHead)
    ensures
        r.status == resp.status,
        r.version == original_version,
        r@.headers == resp@.headers,
{
    ResponseHead { status: resp.status, version: original_version, headers: resp.headers }
}

/// A connection-local failure; each tears the one connection down and
/// touches no other.
#[derive(Debug, Copy, Clone, PartialEq, Eq, Structural)]
pub enum SessionError {
    /// The connection-scoped deadline fired during establishment or
    /// exchange.
    Timeout,
    /// The backend connection failed, answered a malformed response or
    /// closed before a complete one.
    BackendFailure,
    /// A further framed request arrived on a connection already promoted to
    /// a raw byte tunnel.
    ProtocolViolation,
    /// An input or output failure on either side of the connection.
    Io,
}

/// Where one connection stands. Errors at any state move directly to
/// `Closed`, which records the failure, if any, for the log.
#[derive(Debug, Copy, Clone, PartialEq, Eq)]
pub enum SessionState {
    /// No request has been seen yet.
    Idle,
    /// The translated request went out; the backend's response is awaited.
    /// The version of the client's original request is kept for the answer.
    Establishing { original_version: HttpVersion },
    /// The response was delivered; the connection is a raw byte pipe.
    Exchanging,
    /// The connection is over, successfully or with the recorded failure.
    Closed { failure: Option<SessionError> },
}

/// What one connection observes: a decoded request or a clean end of input
/// from the client codec, the backend decode outcomes, the raced shutdown
/// notification, the deadline, a transport failure, or the end of the raw
/// exchange.
#[derive(Debug)]
pub enum SessionEvent {
    /// The client codec decoded a request.
    ClientRequest(RequestHead),
    /// The client codec reached a clean end of input.
    ClientClosed,
    /// The bytes read so far do not yet hold a complete backend response.
    DecodePartial,
    /// A complete backend response, with the payload bytes already read
    /// beyond the header block.
    DecodedResponse(ResponseHead, Vec<u8>),
    /// The backend closed before a complete response.
    BackendEof,
    /// The backend could not be connected, could not be read or written, or
    /// answered a malformed response.
    BackendFailed,
    /// The raw exchange ran to completion.
    ExchangeFinished,
    /// The shared shutdown coordinator fired.
    ShutdownRequested,
    /// The connection-scoped deadline fired.
    TimedOut,
    /// A read or write on either side failed.
    Failed,
}

/// The mathematical value of a [`SessionEvent`].
pub enum SessionEventView {
    ClientRequest(RequestHeadView),
    ClientClosed,
    DecodePartial,
    DecodedResponse(ResponseHeadView, Seq<u8>),
    BackendEof,
    BackendFailed,
    ExchangeFinished,
    ShutdownRequested,
    TimedOut,
    Failed,
}

impl View for SessionEvent {
    type V = SessionEventView;

    open spec fn view(&self) -> SessionEventView {
        match self {
            SessionEvent::ClientRequest(h) => SessionEventView::ClientRequest(h@),
            SessionEvent::ClientClosed => SessionEventView::ClientClosed,
            SessionEvent::DecodePartial => SessionEventView::DecodePartial,
            SessionEvent::DecodedResponse(r, tail) => SessionEventView::DecodedResponse(r@, tail@),
            SessionEvent::BackendEof => SessionEventView::BackendEof,
            SessionEvent::BackendFailed => SessionEventView::BackendFailed,
            SessionEvent::ExchangeFinished => SessionEventView::ExchangeFinished,
            SessionEvent::ShutdownRequested => SessionEventView::ShutdownRequested,
            SessionEvent::TimedOut => SessionEventView::TimedOut,
            SessionEvent::Failed => SessionEventView::Failed,
        }
    }
}

/// What the caller must perform next; the outside work between two events.
#[derive(Debug)]
pub enum SessionAction {
    /// Nothing; wait for the next event.
    Wait,
    /// Connect the backend and write this translated head in HTTP/1.1 wire
    /// form.
    SendTranslatedRequest(RequestHead),
    /// Read more bytes from the backend and try the decode again.
    ReadMoreFromBackend,
    /// Deliver this head to the client codec, forward the trailing payload
    /// bytes into the raw client sink, and start the raw exchange.
    Respond(ResponseHead, Vec<u8>),
    /// Perform the codec's graceful shutdown; the failure, if any, is for
    /// the log only and is never escalated.
    Shutdown(Option<SessionError>),
}

/// The mathematical value of a [`SessionAction`].
pub enum SessionActionView {
    Wait,
    SendTranslatedRequest(RequestHeadView),
    ReadMoreFromBackend,
    Respond(ResponseHeadView, Seq<u8>),
    Shutdown(Option<SessionError>),
}

impl View for SessionAction {
    type V = SessionActionView;

    open spec fn view(&self) -> SessionActionView {
        match self {
            SessionAction::Wait => SessionActionView::Wait,
            SessionAction::SendTranslatedRequest(h) => SessionActionView::SendTranslatedRequest(
                h@,
            ),
            SessionAction::ReadMoreFromBackend => SessionActionView::ReadMoreFromBackend,
            SessionAction::Respond(r, tail) => SessionActionView::Respond(r@, tail@),
            SessionAction::Shutdown(e) => SessionActionView::Shutdown(*e),
        }
    }
}

/// The state after one event. A closed connection stays closed; the first
/// request promotes an idle connection to establishment and records its
/// version; a complete backend response promotes to the raw exchange; a
/// second framed request on a promoted connection, the deadline, a transport
/// failure and a backend end-of-stream each close the connection with their
/// failure; the raced shutdown and a clean end close it without one.
pub open spec fn spec_next_state(s: SessionState, e: SessionEventView) -> SessionState {
    match (s, e) {
        (SessionState::Closed { failure: _ }, _) => s,
        (SessionState::Idle, SessionEventView::ClientRequest(h)) => SessionState::Establishing {
            original_version: h.version,
        },
        (SessionState::Idle, SessionEventView::ClientClosed) => SessionState::Closed {
            failure: None,
        },
        (
            SessionState::Establishing { original_version: _ },
            SessionEventView::DecodePartial,
        ) => s,
        (
            SessionState::Establishing { original_version: _ },
            SessionEventView::DecodedResponse(_, _),
        ) => SessionState::Exchanging,
        (
            SessionState::Establishing { original_version: _ },
            SessionEventView::BackendEof,
        ) => SessionState::Closed { failure: Some(SessionError::BackendFailure) },
        (
            SessionState::Establishing { original_version: _ },
            SessionEventView::BackendFailed,
        ) => SessionState::Closed { failure: Some(SessionError::BackendFailure) },
        (SessionState::Exchanging, SessionEventView::ClientRequest(_)) => SessionState::Closed {
            failure: Some(SessionError::ProtocolViolation),
        },
        (SessionState::Exchanging, SessionEventView::ClientClosed) => s,
        (SessionState::Exchanging, SessionEventView::ExchangeFinished) => SessionState::Closed {
            failure: None,
        },
        (_, SessionEventView::ShutdownRequested) => SessionState::Closed { failure: None },
        (_, SessionEventView::TimedOut) => SessionState::Closed {
            failure: Some(SessionError::Timeout),
        },
        (_, SessionEventView::Failed) => SessionState::Closed {
            failure: Some(SessionError::Io),
        },
        _ => s,
    }
}

/// The action demanded by one event: the translated request when the first
/// request arrives, another read while the response is partial, the response
/// with the client's original version once it is complete, and the graceful
/// shutdown whenever the connection closes.
pub open spec fn spec_action(
    s: SessionState,
    wire: TunnelProtocol,
    h3_compat: bool,
    e: SessionEventView,
) -> SessionActionView {
    match (s, e) {
        (SessionState::Closed { failure: _ }, _) => SessionActionView::Wait,
        (SessionState::Idle, SessionEventView::ClientRequest(h)) =>
            SessionActionView::SendTranslatedRequest(spec_translate_request(h, wire, h3_compat)),
        (SessionState::Idle, SessionEventView::ClientClosed) => SessionActionView::Shutdown(None),
        (
            SessionState::Establishing { original_version: _ },
            SessionEventView::DecodePartial,
        ) => SessionActionView::ReadMoreFromBackend,
        (
            SessionState::Establishing { original_version: v },
            SessionEventView::DecodedResponse(r, tail),
        ) => SessionActionView::Respond(
            ResponseHeadView { status: r.status, version: v, headers: r.headers },
            tail,
        ),
        (
            SessionState::Establishing { original_version: _ },
            SessionEventView::BackendEof,
        ) => SessionActionView::Shutdown(Some(SessionError::BackendFailure)),
        (
            SessionState::Establishing { original_version: _ },
            SessionEventView::BackendFailed,
        ) => SessionActionView::Shutdown(Some(SessionError::BackendFailure)),
        (SessionState::Exchanging, SessionEventView::ClientRequest(_)) =>
            SessionActionView::Shutdown(Some(SessionError::ProtocolViolation)),
        (SessionState::Exchanging, SessionEventView::ClientClosed) => SessionActionView::Wait,
        (SessionState::Exchanging, SessionEventView::ExchangeFinished) =>
            SessionActionView::Shutdown(None),
        (_, SessionEventView::ShutdownRequested) => SessionActionView::Shutdown(None),
        (_, SessionEventView::TimedOut) => SessionActionView::Shutdown(
            Some(SessionError::Timeout),
        ),
        (_, SessionEventView::Failed) => SessionActionView::Shutdown(Some(SessionError::Io)),
        _ => SessionActionView::Wait,
    }
}

/// One connection's orchestrator. The caller feeds it every event it
/// observes and performs the action it returns; the machine owns every
/// decision, including the translation and the final answer's version.
#[derive(Debug)]
pub struct TunnelSession {
    /// Where the connection stands.
    pub state: SessionState,
    /// The codec protocol of this connection.
    pub wire: TunnelProtocol,
    /// The configured HTTP/3 backward-compatibility flag.
    pub h3_compat: bool,
}

impl TunnelSession {
    /// The machine is only built for codecs that reach tunnel
    /// establishment; an HTTP/2 codec never does.
    pub open spec fn wf(&self) -> bool {
        self.wire != TunnelProtocol::Http2
    }

    /// A fresh session for one accepted connection.
    pub fn new(wire: TunnelProtocol, h3_compat: bool) -> (r: Self)
        requires
            wire != TunnelProtocol::Http2,
        ensures
            r.state == SessionState::Idle,
            r.wire == wire,
            r.h3_compat == h3_compat,
            r.wf(),
    {
        TunnelSession { state: SessionState::Idle, wire, h3_compat }
    }

    /// Consumes one observed event and returns the action the caller must
    /// perform, moving the connection exactly as [`spec_next_state`] and
    /// [`spec_action`] lay down.
    pub fn step(&mut self, event: SessionEvent) -> (action: SessionAction)
        requires
            old(self).wf(),
        ensures
            final(self).wf(),
            final(self).wire == old(self).wire,
            final(self).h3_compat == old(self).h3_compat,
            final(self).state == spec_next_state(old(self).state, event@),
            action@ == spec_action(old(self).state, old(self).wire, old(self).h3_compat, event@),
    {
        let st = self.state;
        match event {
            SessionEvent::ClientRequest(h) => match st {
                SessionState::Idle => {
                    self.state = SessionState::Establishing { original_version: h.version };
                    SessionAction::SendTranslatedRequest(
                        translate_request(&h, self.wire, self.h3_compat),
                    )
                },
                SessionState::Exchanging => {
                    self.state = SessionState::Closed {
                        failure: Some(SessionError::ProtocolViolation),
                    };
                    SessionAction::Shutdown(Some(SessionError::ProtocolViolation))
                },
                _ => SessionAction::Wait,
            },
            SessionEvent::ClientClosed => match st {
                SessionState::Idle => {
                    self.state = SessionState::Closed { failure: None };
                    SessionAction::Shutdown(None)
                },
                _ => SessionAction::Wait,
            },
            SessionEvent::DecodePartial => match st {
                SessionState::Establishing { original_version: _ } =>
                    SessionAction::ReadMoreFromBackend,
                _ => SessionAction::Wait,
            },
            SessionEvent::DecodedResponse(resp, tail) => match st {
                SessionState::Establishing { original_version } => {
                    self.state = SessionState::Exchanging;
                    SessionAction::Respond(finalize_response(resp, original_version), tail)
                },
                _ => SessionAction::Wait,
            },
            SessionEvent::BackendEof => match st {
                SessionState::Establishing { original_version: _ } => {
                    self.state = SessionState::Closed {
                        failure: Some(SessionError::BackendFailure),
                    };
                    SessionAction::Shutdown(Some(SessionError::BackendFailure))
                },
                _ => SessionAction::Wait,
            },
            SessionEvent::BackendFailed => match st {
                SessionState::Establishing { original_version: _ } => {
                    self.state = SessionState::Closed {
                        failure: Some(SessionError::BackendFailure),
                    };
                    SessionAction::Shutdown(Some(SessionError::BackendFailure))
                },
                _ => SessionAction::Wait,
            },
            SessionEvent::ExchangeFinished => match st {
                SessionState::Exchanging => {
                    self.state = SessionState::Closed { failure: None };
                    SessionAction::Shutdown(None)
                },
                _ => SessionAction::Wait,
            },
            SessionEvent::ShutdownRequested => match st {
                SessionState::Closed { failure: _ } => SessionAction::Wait,
                _ => {
                    self.state = SessionState::Closed { failure: None };
                    SessionAction::Shutdown(None)
                },
            },
            SessionEvent::TimedOut => match st {
                SessionState::Closed { failure: _ } => SessionAction::Wait,
                _ => {
                    self.state = SessionState::Closed { failure: Some(SessionError::Timeout) };
                    SessionAction::Shutdown(Some(SessionError::Timeout))
                },
            },
            SessionEvent::Failed => match st {
                SessionState::Closed { failure: _ } => SessionAction::Wait,
                _ => {
                    self.state = SessionState::Closed { failure: Some(SessionError::Io) };
                    SessionAction::Shutdown(Some(SessionError::Io))
                },
            },
        }
    }
}

/// Law: an inbound HTTP/3 `GET /` with the compatibility flag set is the one
/// case whose method is rewritten to `CONNECT`; with the flag clear, or any
/// other method or path, and on any HTTP/1.1 inbound, the method goes out
/// unchanged.
pub proof fn lemma_connect_rewrite(h: RequestHeadView, compat: bool)
    ensures
        (compat && h.method == "GET"@ && h.path == "/"@) ==> spec_translate_request(
            h,
            TunnelProtocol::Http3,
            compat,
        ).method == "CONNECT"@,
        !(compat && h.method == "GET"@ && h.path == "/"@) ==> spec_translate_request(
            h,
            TunnelProtocol::Http3,
            compat,
        ).method == h.method,
        spec_translate_request(h, TunnelProtocol::Http1, compat).method == h.method,
{
}

/// Law: the response the client is told to receive always reports the
/// version of the client's original request, whatever version the backend
/// answered with; its status and headers are the backend's own.
pub proof fn lemma_response_reports_original_version(
    h: RequestHeadView,
    resp: ResponseHeadView,
    tail: Seq<u8>,
    wire: TunnelProtocol,
    h3_compat: bool,
)
    ensures
        ({
            let established = spec_next_state(
                SessionState::Idle,
                SessionEventView::ClientRequest(h),
            );
            &&& spec_action(
                established,
                wire,
                h3_compat,
                SessionEventView::DecodedResponse(resp, tail),
            ) matches SessionActionView::Respond(out, rest)
            &&& out.version == h.version
            &&& out.status == resp.status
            &&& out.headers == resp.headers
            &&& rest == tail
        }),
{
}

} // verus!
