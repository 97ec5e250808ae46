use wasi_tls::{
    alpn_protocol_ids, answer_poll, ClientFinish, ClientState, ErrorCode, HandshakeOutcome,
    HandshakeStatus, HostClient, HostServer, ServerFinish, ServerState,
};

fn new_client() -> HostClient {
    match HostClient::new("example.com".to_string(), 7, 8, true, true) {
        Ok(c) => c,
        Err(e) => panic!("client refused: {:?}", e),
    }
}

fn new_server() -> HostServer {
    match HostServer::new(3, 4, true, true) {
        Ok(s) => s,
        Err(e) => panic!("server refused: {:?}", e),
    }
}

#[test]
fn client_new_rejects_empty_server_name() {
    assert!(matches!(
        HostClient::new(String::new(), 1, 2, true, true),
        Err(ErrorCode::HostnameMismatch)
    ));
    // The server name is checked before the streams.
    assert!(matches!(
        HostClient::new(String::new(), 1, 2, false, false),
        Err(ErrorCode::HostnameMismatch)
    ));
}

#[test]
fn client_new_rejects_dead_streams() {
    assert!(matches!(
        HostClient::new("a.example".to_string(), 1, 2, false, true),
        Err(ErrorCode::InternalError)
    ));
    assert!(matches!(
        HostClient::new("a.example".to_string(), 1, 2, true, false),
        Err(ErrorCode::InternalError)
    ));
}

#[test]
fn client_new_starts_configuring() {
    let c = new_client();
    assert_eq!(c.server_name, "example.com");
    assert_eq!(c.transport_input, 7);
    assert_eq!(c.transport_output, 8);
    assert!(c.alpn_protocols.is_empty());
    assert_eq!(c.identity, None);
    assert_eq!(c.state, ClientState::Configuring);
    assert_eq!(c.handshake, HandshakeStatus::NotStarted);
}

#[test]
fn client_alpn_protocols() {
    let mut c = new_client();
    assert_eq!(c.set_alpn_protocols(vec![]), Err(()));
    assert!(c.alpn_protocols.is_empty());
    assert_eq!(c.set_alpn_protocols(vec!["h2".to_string(), "http/1.1".to_string()]), Ok(()));
    assert_eq!(c.alpn_protocols, vec![b"h2".to_vec(), b"http/1.1".to_vec()]);
    assert_eq!(c.set_alpn_protocols(vec!["é".to_string()]), Ok(()));
    assert_eq!(c.alpn_protocols, vec![vec![0xc3, 0xa9]]);
}

#[test]
fn client_identity() {
    let mut c = new_client();
    assert_eq!(c.set_identity(5, false), Err(()));
    assert_eq!(c.identity, None);
    assert_eq!(c.set_identity(5, true), Ok(()));
    assert_eq!(c.identity, Some(5));
}

#[test]
fn client_finish_starts_handshake_once() {
    let mut c = new_client();
    match c.finish() {
        ClientFinish::StartHandshake { server_name, transport_input, transport_output } => {
            assert_eq!(server_name, "example.com");
            assert_eq!(transport_input, 7);
            assert_eq!(transport_output, 8);
        }
        _ => panic!("the first finish must start the handshake"),
    }
    assert_eq!(c.transport_input, 0);
    assert_eq!(c.transport_output, 0);
    assert_eq!(c.handshake, HandshakeStatus::InProgress);
    assert!(matches!(c.finish(), ClientFinish::PollHandshake));
    assert!(matches!(c.finish(), ClientFinish::PollHandshake));
}

#[test]
fn client_handshake_polls() {
    let mut c = new_client();
    // No handshake yet: a poll is out of place.
    assert_eq!(c.handshake_polled(HandshakeOutcome::Established), Err(ErrorCode::InternalError));
    assert_eq!(c.state, ClientState::Configuring);
    let _ = c.finish();
    assert_eq!(c.handshake_polled(HandshakeOutcome::Pending), Err(ErrorCode::WouldBlock));
    assert_eq!(c.handshake_polled(HandshakeOutcome::Pending), Err(ErrorCode::WouldBlock));
    assert_eq!(c.state, ClientState::Configuring);
    assert_eq!(c.handshake, HandshakeStatus::InProgress);
    assert_eq!(c.handshake_polled(HandshakeOutcome::Established), Ok(()));
    assert_eq!(c.state, ClientState::Complete);
    assert_eq!(c.handshake, HandshakeStatus::Concluded);
}

#[test]
fn completed_client_refuses_everything() {
    let mut c = new_client();
    let _ = c.finish();
    assert_eq!(c.handshake_polled(HandshakeOutcome::Established), Ok(()));
    assert!(matches!(c.finish(), ClientFinish::Fail(ErrorCode::InternalError)));
    assert_eq!(c.set_alpn_protocols(vec!["h2".to_string()]), Err(()));
    assert_eq!(c.set_identity(9, true), Err(()));
    assert_eq!(c.handshake_polled(HandshakeOutcome::Established), Err(ErrorCode::InternalError));
    assert!(c.alpn_protocols.is_empty());
    assert_eq!(c.identity, None);
    assert_eq!(c.state, ClientState::Complete);
}

#[test]
fn server_new_rejects_dead_streams() {
    assert!(matches!(HostServer::new(1, 2, false, true), Err(ErrorCode::InternalError)));
    assert!(matches!(HostServer::new(1, 2, true, false), Err(ErrorCode::InternalError)));
    let s = new_server();
    assert_eq!(s.transport_input, 3);
    assert_eq!(s.transport_output, 4);
    assert_eq!(s.identity, None);
    assert!(!s.client_auth_required);
    assert_eq!(s.state, ServerState::Configuring);
}

#[test]
fn server_finish_needs_identity() {
    let mut s = new_server();
    assert_eq!(s.finish(), ServerFinish::Fail(ErrorCode::CertificateInvalid));
    assert_eq!(s.handshake, HandshakeStatus::NotStarted);
    assert_eq!(s.set_identity(11, false), Err(()));
    assert_eq!(s.finish(), ServerFinish::Fail(ErrorCode::CertificateInvalid));
    assert_eq!(s.set_identity(11, true), Ok(()));
    assert_eq!(s.finish(), ServerFinish::StartHandshake { transport_input: 3, transport_output: 4 });
    assert_eq!(s.transport_input, 0);
    assert_eq!(s.transport_output, 0);
    assert_eq!(s.finish(), ServerFinish::PollHandshake);
}

#[test]
fn server_configuration() {
    let mut s = new_server();
    assert_eq!(s.set_client_auth_required(true), Ok(()));
    assert!(s.client_auth_required);
    assert_eq!(s.set_alpn_protocols(vec![]), Err(()));
    assert_eq!(s.set_alpn_protocols(vec!["h2".to_string()]), Ok(()));
    assert_eq!(s.alpn_protocols, vec![b"h2".to_vec()]);
}

#[test]
fn server_completes_and_freezes() {
    let mut s = new_server();
    assert_eq!(s.set_identity(1, true), Ok(()));
    let _ = s.finish();
    assert_eq!(s.handshake_polled(HandshakeOutcome::Pending), Err(ErrorCode::WouldBlock));
    assert_eq!(s.handshake_polled(HandshakeOutcome::Established), Ok(()));
    assert_eq!(s.state, ServerState::Complete);
    assert_eq!(s.finish(), ServerFinish::Fail(ErrorCode::InternalError));
    assert_eq!(s.set_client_auth_required(true), Err(()));
    assert_eq!(s.set_identity(2, true), Err(()));
    assert_eq!(s.set_alpn_protocols(vec!["h2".to_string()]), Err(()));
    assert!(!s.client_auth_required);
    assert_eq!(s.identity, Some(1));
}

#[test]
fn poll_answers() {
    assert_eq!(answer_poll(HandshakeOutcome::Established), Ok(()));
    assert_eq!(answer_poll(HandshakeOutcome::Pending), Err(ErrorCode::WouldBlock));
    assert_eq!(answer_poll(HandshakeOutcome::Consumed), Err(ErrorCode::InternalError));
    assert_eq!(
        answer_poll(HandshakeOutcome::Failed(ErrorCode::CertificateInvalid)),
        Err(ErrorCode::CertificateInvalid)
    );
}

#[test]
fn alpn_ids_are_utf8() {
    let ids = alpn_protocol_ids(&vec!["h2".to_string(), "ü".to_string(), String::new()]);
    assert_eq!(ids, vec![b"h2".to_vec(), vec![0xc3, 0xbc], vec![]]);
}

#[test]
fn failed_handshake_is_final() {
    let mut c = new_client();
    let _ = c.finish();
    assert_eq!(
        c.handshake_polled(HandshakeOutcome::Failed(ErrorCode::HandshakeFailure)),
        Err(ErrorCode::HandshakeFailure)
    );
    assert_eq!(c.handshake, HandshakeStatus::Concluded);
    assert!(matches!(c.finish(), ClientFinish::Fail(ErrorCode::InternalError)));
    assert_eq!(c.handshake_polled(HandshakeOutcome::Pending), Err(ErrorCode::InternalError));
    assert_eq!(c.handshake_polled(HandshakeOutcome::Established), Err(ErrorCode::InternalError));
    assert_eq!(c.state, ClientState::Configuring);
}

#[test]
fn consumed_server_handshake_is_final() {
    let mut s = new_server();
    assert_eq!(s.set_identity(1, true), Ok(()));
    let _ = s.finish();
    assert_eq!(s.handshake_polled(HandshakeOutcome::Pending), Err(ErrorCode::WouldBlock));
    assert_eq!(s.handshake, HandshakeStatus::InProgress);
    assert_eq!(s.handshake_polled(HandshakeOutcome::Consumed), Err(ErrorCode::InternalError));
    assert_eq!(s.handshake, HandshakeStatus::Concluded);
    assert_eq!(s.finish(), ServerFinish::Fail(ErrorCode::InternalError));
    assert_eq!(s.state, ServerState::Configuring);
}
