use proxy_core::protocol_selector::TunnelProtocol;
use proxy_core::reverse_proxy::{
    finalize_response, translate_request, HttpVersion, RequestHead, ResponseHead, SessionAction,
    SessionError, SessionEvent, SessionState, TunnelSession,
};

fn get_root(version: HttpVersion) -> RequestHead {
    RequestHead {
        method: "GET".to_owned(),
        path: "/".to_owned(),
        version,
        headers: vec![("Host".to_owned(), "example.com".to_owned())],
    }
}

#[test]
fn h3_get_root_with_compat_becomes_connect() {
    let head = get_root(HttpVersion::Http3);
    let t = translate_request(&head, TunnelProtocol::Http3, true);
    assert_eq!(t.method, "CONNECT");
    assert_eq!(t.version, HttpVersion::Http11);
    assert_eq!(t.path, "/");
}

#[test]
fn h3_get_root_without_compat_keeps_the_method() {
    let head = get_root(HttpVersion::Http3);
    let t = translate_request(&head, TunnelProtocol::Http3, false);
    assert_eq!(t.method, "GET");
    assert_eq!(t.version, HttpVersion::Http11);
}

#[test]
fn h3_other_path_or_method_is_not_rewritten() {
    let mut head = get_root(HttpVersion::Http3);
    head.path = "/status".to_owned();
    let t = translate_request(&head, TunnelProtocol::Http3, true);
    assert_eq!(t.method, "GET");

    let mut post = get_root(HttpVersion::Http3);
    post.method = "POST".to_owned();
    let t2 = translate_request(&post, TunnelProtocol::Http3, true);
    assert_eq!(t2.method, "POST");
}

#[test]
fn http1_inbound_is_passed_through_with_the_marker() {
    let head = get_root(HttpVersion::Http11);
    let t = translate_request(&head, TunnelProtocol::Http1, true);
    assert_eq!(t.method, "GET");
    assert_eq!(t.version, HttpVersion::Http11);
    assert_eq!(t.headers.len(), 2);
    assert_eq!(t.headers[0].0, "Host");
    assert_eq!(t.headers[1].0, "X-Original-Protocol");
    assert_eq!(t.headers[1].1, "HTTP1");
}

#[test]
fn marker_header_replaces_an_existing_one() {
    let mut head = get_root(HttpVersion::Http3);
    head.headers.push(("X-Original-Protocol".to_owned(), "HTTP1".to_owned()));
    let t = translate_request(&head, TunnelProtocol::Http3, false);
    let markers: Vec<&(String, String)> = t
        .headers
        .iter()
        .filter(|p| p.0 == "X-Original-Protocol")
        .collect();
    assert_eq!(markers.len(), 1);
    assert_eq!(markers[0].1, "HTTP3");
    assert_eq!(t.headers.last().unwrap().1, "HTTP3");
}

#[test]
fn finalize_restores_the_original_version() {
    let resp = ResponseHead {
        status: 200,
        version: HttpVersion::Http11,
        headers: vec![("Content-Length".to_owned(), "0".to_owned())],
    };
    let out = finalize_response(resp, HttpVersion::Http3);
    assert_eq!(out.version, HttpVersion::Http3);
    assert_eq!(out.status, 200);
    assert_eq!(out.headers.len(), 1);
}

#[test]
fn session_establishes_responds_and_promotes() {
    let mut sess = TunnelSession::new(TunnelProtocol::Http3, true);
    assert_eq!(sess.state, SessionState::Idle);

    let act = sess.step(SessionEvent::ClientRequest(get_root(HttpVersion::Http3)));
    match act {
        SessionAction::SendTranslatedRequest(t) => {
            assert_eq!(t.method, "CONNECT");
            assert_eq!(t.version, HttpVersion::Http11);
        }
        other => panic!("expected a translated request, got {:?}", other),
    }
    assert_eq!(sess.state, SessionState::Establishing { original_version: HttpVersion::Http3 });

    let act = sess.step(SessionEvent::DecodePartial);
    assert!(matches!(act, SessionAction::ReadMoreFromBackend));

    let resp = ResponseHead { status: 200, version: HttpVersion::Http11, headers: vec![] };
    let act = sess.step(SessionEvent::DecodedResponse(resp, vec![1, 2, 3]));
    match act {
        SessionAction::Respond(out, tail) => {
            // The client is answered with its own original version, not the
            // backend's HTTP/1.1.
            assert_eq!(out.version, HttpVersion::Http3);
            assert_eq!(out.status, 200);
            assert_eq!(tail, vec![1, 2, 3]);
        }
        other => panic!("expected a response, got {:?}", other),
    }
    assert_eq!(sess.state, SessionState::Exchanging);

    // A further framed request on a promoted tunnel is a protocol violation.
    let act = sess.step(SessionEvent::ClientRequest(get_root(HttpVersion::Http3)));
    assert!(matches!(
        act,
        SessionAction::Shutdown(Some(SessionError::ProtocolViolation))
    ));
    assert_eq!(
        sess.state,
        SessionState::Closed { failure: Some(SessionError::ProtocolViolation) }
    );

    // Once closed, the connection stays closed.
    let act = sess.step(SessionEvent::ShutdownRequested);
    assert!(matches!(act, SessionAction::Wait));
    assert_eq!(
        sess.state,
        SessionState::Closed { failure: Some(SessionError::ProtocolViolation) }
    );
}

#[test]
fn client_closing_before_any_request_is_a_clean_end() {
    let mut sess = TunnelSession::new(TunnelProtocol::Http1, false);
    let act = sess.step(SessionEvent::ClientClosed);
    assert!(matches!(act, SessionAction::Shutdown(None)));
    assert_eq!(sess.state, SessionState::Closed { failure: None });
}

#[test]
fn backend_eof_before_a_complete_response_fails_the_connection() {
    let mut sess = TunnelSession::new(TunnelProtocol::Http1, false);
    sess.step(SessionEvent::ClientRequest(get_root(HttpVersion::Http11)));
    let act = sess.step(SessionEvent::BackendEof);
    assert!(matches!(
        act,
        SessionAction::Shutdown(Some(SessionError::BackendFailure))
    ));
    assert_eq!(
        sess.state,
        SessionState::Closed { failure: Some(SessionError::BackendFailure) }
    );
}

#[test]
fn timeout_and_shutdown_close_from_any_live_state() {
    let mut sess = TunnelSession::new(TunnelProtocol::Http1, false);
    sess.step(SessionEvent::ClientRequest(get_root(HttpVersion::Http11)));
    let act = sess.step(SessionEvent::TimedOut);
    assert!(matches!(act, SessionAction::Shutdown(Some(SessionError::Timeout))));
    assert_eq!(sess.state, SessionState::Closed { failure: Some(SessionError::Timeout) });

    let mut sess2 = TunnelSession::new(TunnelProtocol::Http1, false);
    let act2 = sess2.step(SessionEvent::ShutdownRequested);
    assert!(matches!(act2, SessionAction::Shutdown(None)));
    assert_eq!(sess2.state, SessionState::Closed { failure: None });
}

#[test]
fn exchange_finishing_closes_cleanly() {
    let mut sess = TunnelSession::new(TunnelProtocol::Http1, false);
    sess.step(SessionEvent::ClientRequest(get_root(HttpVersion::Http11)));
    let resp = ResponseHead { status: 101, version: HttpVersion::Http11, headers: vec![] };
    sess.step(SessionEvent::DecodedResponse(resp, vec![]));
    // The client codec reaching a clean end of input leaves the exchange
    // running.
    let act = sess.step(SessionEvent::ClientClosed);
    assert!(matches!(act, SessionAction::Wait));
    assert_eq!(sess.state, SessionState::Exchanging);
    let act = sess.step(SessionEvent::ExchangeFinished);
    assert!(matches!(act, SessionAction::Shutdown(None)));
    assert_eq!(sess.state, SessionState::Closed { failure: None });
}

#[test]
fn http1_inbound_response_keeps_http1() {
    let mut sess = TunnelSession::new(TunnelProtocol::Http1, false);
    sess.step(SessionEvent::ClientRequest(get_root(HttpVersion::Http11)));
    let resp = ResponseHead { status: 204, version: HttpVersion::Http10, headers: vec![] };
    let act = sess.step(SessionEvent::DecodedResponse(resp, vec![]));
    match act {
        SessionAction::Respond(out, _) => assert_eq!(out.version, HttpVersion::Http11),
        other => panic!("expected a response, got {:?}", other),
    }
}

#[test]
fn malformed_backend_response_is_a_backend_failure() {
    let mut sess = TunnelSession::new(TunnelProtocol::Http1, false);
    sess.step(SessionEvent::ClientRequest(get_root(HttpVersion::Http11)));
    let act = sess.step(SessionEvent::BackendFailed);
    assert!(matches!(
        act,
        SessionAction::Shutdown(Some(SessionError::BackendFailure))
    ));
    assert_eq!(
        sess.state,
        SessionState::Closed { failure: Some(SessionError::BackendFailure) }
    );
}
