//! Tests of connecting: endpoints, peers, turns, the configuration and what the
//! process exits with.

use aegis::cli::GlobalArgs;
use aegis::config::{load_config, AppConfig, FoundConfig};
use aegis::connect::{
    call_failed, endpoint_addr, endpoint_text, unreachable_endpoint, unreachable_socket,
    unreadable_token, Resolved, DEFAULT_ENDPOINT,
};
use aegis::error::{Error, FailureClass};
use aegis::frame::{body_len, read_frame, FrameError, MAX_FRAME_LEN};
use aegis::output::{client_error_line, Dispatch, EXIT_CLIENT_ERROR, EXIT_DAEMON_ERROR};
use aegis::protocol::Request;
use aegis::server::{next_turn, Turn};
use aegis::transport::{after_handshake, welcomes_peer, AuthPolicy};

fn is_loopback(endpoint: &str) -> bool {
    endpoint.starts_with("127.")
}

fn framed_junk(junk: &[u8]) -> Vec<u8> {
    let mut bytes = (junk.len() as u32).to_be_bytes().to_vec();
    bytes.extend_from_slice(junk);
    bytes
}

// --- endpoints ---------------------------------------------------------------

#[test]
fn endpoint_defaults_to_loopback() {
    let args = GlobalArgs::default();
    let raw = endpoint_text(&args);
    assert_eq!(raw, DEFAULT_ENDPOINT);
    assert_eq!(raw, "127.0.0.1:7690");
    let resolved = Resolved::Address { loopback: is_loopback(&raw) };
    assert!(endpoint_addr(&raw, &resolved).is_ok());
}

#[test]
fn endpoint_rejects_non_loopback() {
    let args = GlobalArgs { endpoint: Some("8.8.8.8:7690".into()), ..Default::default() };
    let raw = endpoint_text(&args);
    assert_eq!(raw, "8.8.8.8:7690");
    let resolved = Resolved::Address { loopback: is_loopback(&raw) };
    let err = endpoint_addr(&raw, &resolved).unwrap_err();
    assert!(matches!(err, Error::Precondition(_)));
}

#[test]
fn an_endpoint_that_does_not_resolve_is_a_config_error() {
    let failed = Resolved::Failed("invalid port".into());
    match endpoint_addr("nowhere", &failed).unwrap_err() {
        Error::Config(m) => assert_eq!(m, "invalid endpoint 'nowhere': invalid port"),
        other => panic!("unexpected: {other:?}"),
    }
    match endpoint_addr("nowhere", &Resolved::Nothing).unwrap_err() {
        Error::Config(m) => assert_eq!(m, "endpoint 'nowhere' resolved to nothing"),
        other => panic!("unexpected: {other:?}"),
    }
}

#[test]
fn an_unreachable_daemon_is_named_with_the_way_out() {
    match unreachable_socket("/run/aegis/daemon.sock") {
        Error::System(m) => assert_eq!(
            m,
            "cannot reach the daemon socket at /run/aegis/daemon.sock (is aegis-daemon running? \
             set --socket / AEGIS_SOCKET)"
        ),
        other => panic!("unexpected: {other:?}"),
    }
    match unreadable_token("/tmp/t") {
        Error::System(m) => assert_eq!(
            m,
            "cannot read the dev IPC token at /tmp/t (is aegis-daemon running? set --token-file \
             / AEGIS_TOKEN_FILE)"
        ),
        other => panic!("unexpected: {other:?}"),
    }
    match unreachable_endpoint("127.0.0.1:7690") {
        Error::System(m) => assert_eq!(
            m,
            "cannot reach the dev daemon at 127.0.0.1:7690 (is aegis-daemon running? set \
             --endpoint / AEGIS_ENDPOINT)"
        ),
        other => panic!("unexpected: {other:?}"),
    }
    match call_failed(&FrameError::Closed) {
        Error::System(m) => assert_eq!(m, "ipc: connection closed"),
        other => panic!("unexpected: {other:?}"),
    }
}

// --- peers -------------------------------------------------------------------

#[test]
fn a_peer_without_credentials_is_not_kept() {
    let policy = AuthPolicy::with_allowed(0, 1000);
    assert!(policy.welcomes(&Ok(0)));
    assert!(policy.welcomes(&Ok(1000)));
    assert!(!policy.welcomes(&Ok(1001)));
    assert!(!policy.welcomes(&Err(Error::System("SO_PEERCRED: x".into()))));
}

#[test]
fn a_development_peer_needs_the_token_and_the_machine() {
    let good: Result<String, Error> = Ok("s3cret-token".into());
    let bad: Result<String, Error> = Ok("s3cret-tokem".into());
    let none: Result<String, Error> = Err(Error::System("connection closed".into()));
    assert!(welcomes_peer(true, &good, "s3cret-token"));
    assert!(!welcomes_peer(false, &good, "s3cret-token"));
    assert!(!welcomes_peer(true, &bad, "s3cret-token"));
    assert!(!welcomes_peer(true, &none, "s3cret-token"));
}

#[test]
fn a_rejected_handshake_is_an_error() {
    assert!(after_handshake(true).is_ok());
    match after_handshake(false).unwrap_err() {
        Error::Precondition(m) => assert_eq!(m, "ipc token handshake rejected"),
        other => panic!("unexpected: {other:?}"),
    }
}

// --- turns -------------------------------------------------------------------

#[test]
fn server_rejects_oversized_frame() {
    let bogus = (MAX_FRAME_LEN as u32) + 10;
    let refused = body_len(&bogus.to_be_bytes()).unwrap_err();
    let turn = next_turn(Err(refused));
    assert!(
        matches!(turn, Turn::Fault(FrameError::TooLarge { .. })),
        "expected TooLarge, got {turn:?}"
    );
}

#[test]
fn server_rejects_malformed_request_frame() {
    let junk = br#"{"op":"not-a-real-op"}"#;
    let body = read_frame(&framed_junk(junk)).unwrap();
    assert_eq!(body, junk.to_vec());
    let turn = next_turn(Err(FrameError::Decode("unknown variant `not-a-real-op`".into())));
    assert!(matches!(turn, Turn::Fault(FrameError::Decode(_))), "expected Decode, got {turn:?}");
}

#[test]
fn a_closed_stream_ends_the_connection_without_a_fault() {
    assert!(matches!(next_turn(Err(FrameError::Closed)), Turn::Close));
    assert!(matches!(next_turn(Ok(Request::Doctor)), Turn::Answer(Request::Doctor)));
    assert!(matches!(next_turn(Err(FrameError::Io("reset".into()))), Turn::Fault(_)));
}

// --- the configuration -------------------------------------------------------

#[test]
fn missing_file_falls_back_to_default() {
    let cfg =
        load_config("/nonexistent/aegis/does-not-exist.toml", FoundConfig::Missing).unwrap();
    assert_eq!(cfg, AppConfig::default());
}

#[test]
fn malformed_file_is_config_error() {
    let why = toml::from_str::<toml::Value>("this is = = not valid toml {{").unwrap_err();
    let err = load_config("bad.toml", FoundConfig::Malformed(why.to_string())).unwrap_err();
    assert!(matches!(err, Error::Config(_)));
    assert_eq!(err.text(), format!("invalid configuration: invalid config bad.toml: {why}"));
}

#[test]
fn a_readable_file_is_used_and_an_unreadable_one_refused() {
    let mut written = AppConfig::default();
    written.network_prefix = "lab".into();
    let cfg = load_config("c.toml", FoundConfig::Parsed(written)).unwrap();
    assert_eq!(cfg.network_prefix, "lab");
    match load_config("c.toml", FoundConfig::Unreadable("denied".into())).unwrap_err() {
        Error::Config(m) => assert_eq!(m, "cannot read config c.toml: denied"),
        other => panic!("unexpected: {other:?}"),
    }
}

// --- the end of the process --------------------------------------------------

#[test]
fn exit_codes_tell_the_daemons_failures_from_our_own() {
    assert_eq!(Dispatch::Success.exit_code(), 0);
    assert_eq!(Dispatch::DaemonError.exit_code(), EXIT_DAEMON_ERROR);
    assert_eq!(EXIT_DAEMON_ERROR, 2);
    assert_eq!(EXIT_CLIENT_ERROR, 3);
    let e = Error::NotFound("profile".into());
    assert_eq!(
        client_error_line(&e),
        format!("error: {} [{}]", e.text(), FailureClass::as_str(e.class()))
    );
}
