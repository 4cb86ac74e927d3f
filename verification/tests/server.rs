use std::path::PathBuf;
use std::sync::Arc;

use async_speed_limit::Limiter;
use hyper::Request;
use yocalhost::acceptor::{connection_report, Acceptor, AcceptorAction, AcceptorEvent};
use yocalhost::exchange::{Action, Exchange, Phase};
use yocalhost::handles::{SharedLimiter, SharedStats};
use yocalhost::ports::FIRST_PORT;
use yocalhost::{Args, Duration, PortCounter, ThrottledServer};

fn limiter(bytes_per_second: u64) -> SharedLimiter {
    SharedLimiter(Limiter::new(bytes_per_second as f64))
}

fn begin(server: &ThrottledServer) -> Exchange<()> {
    server.call(Request::new(())).0
}

/// A server of its own for a test, beside the others that `ports` serves.
fn test_server(ports: &mut PortCounter, latency: Duration, bandwidth: u64) -> ThrottledServer {
    ThrottledServer::new(
        ThrottledServer::next_port(ports),
        latency,
        bandwidth,
        PathBuf::from("test_data"),
        limiter(bandwidth),
    )
}

#[test]
fn next_port_increments() {
    let mut ports = PortCounter::new();
    let first = ThrottledServer::next_port(&mut ports);
    let second = ThrottledServer::next_port(&mut ports);
    let third = ThrottledServer::next_port(&mut ports);
    assert!(first < second);
    assert!(second < third);
}

#[test]
fn ports_start_at_the_first_port() {
    let mut ports = PortCounter::new();
    assert_eq!(FIRST_PORT, 9901);
    assert_eq!(ThrottledServer::next_port(&mut ports), 9901);
    assert_eq!(ThrottledServer::next_port(&mut ports), 9902);
}

#[test]
fn settings_are_kept() {
    let mut ports = PortCounter::new();
    let server = test_server(&mut ports, Duration::from_millis(50), 125_000);
    assert_eq!(server.port(), 9901);
    assert_eq!(server.latency(), Duration::from_millis(50));
    assert_eq!(server.bytes_per_second(), 125_000);
    assert_eq!(server.web_root(), &PathBuf::from("test_data"));
}

#[test]
fn a_copy_has_the_same_settings() {
    let mut ports = PortCounter::new();
    let server = test_server(&mut ports, Duration::from_millis(1), 500_000);
    let copy = server.clone();
    assert_eq!(copy.port(), server.port());
    assert_eq!(copy.latency(), server.latency());
    assert_eq!(copy.bytes_per_second(), server.bytes_per_second());
    assert_eq!(copy.web_root(), server.web_root());
}

#[test]
fn a_request_starts_with_the_latency() {
    let mut ports = PortCounter::new();
    let server = test_server(&mut ports, Duration::from_millis(100), 125_000_000);
    let request = Request::builder()
        .uri("/1M.txt")
        .header("Range", "bytes=0-8")
        .body("body")
        .unwrap();
    let (exchange, action) = server.call(request);
    match exchange.phase {
        Phase::Delaying { web_root, request } => {
            assert_eq!(web_root, PathBuf::from("test_data"));
            assert_eq!(request.uri(), "/1M.txt");
            assert_eq!(request.headers()["range"], "bytes=0-8");
            assert_eq!(request.body(), &"body");
        }
        other => panic!("unexpected state: {other:?}"),
    }
    match action {
        Action::Sleep(span) => assert_eq!(span, Duration::from_millis(100)),
        other => panic!("unexpected action: {other:?}"),
    }
}

#[test]
fn start_in_background_watches_the_server_itself() {
    let server = ThrottledServer::new(
        8845,
        Duration::from_millis(50),
        1_000_000,
        PathBuf::from("path/to/test-fixtures"),
        limiter(1_000_000),
    );
    let (copy, watch) = server.spawn_in_background();
    assert_eq!(copy.port(), 8845);
    assert_eq!(copy.web_root(), &PathBuf::from("path/to/test-fixtures"));
    assert_eq!(watch.uri.to_string(), "http://localhost:8845/1M.txt");
    assert_eq!(watch.limit, Some(Duration::from_millis(450)));
}

#[test]
fn no_limit_for_the_longest_latency() {
    let longest = Duration::from_parts(u64::MAX, 999_999_999);
    let server = ThrottledServer::new(8845, longest, 1, PathBuf::from("."), limiter(1));
    assert_eq!(server.wait_for_start().limit, None);
}

fn listening(port: u16) -> (Acceptor, AcceptorAction) {
    ThrottledServer::new(
        port,
        Duration::from_millis(1),
        1,
        PathBuf::from("."),
        limiter(1),
    )
    .serve()
}

#[test]
fn serving_binds_the_loopback_address() {
    match listening(8888).1 {
        AcceptorAction::Bind { ip, port } => {
            assert_eq!(ip, [127, 0, 0, 1]);
            assert_eq!(port, 8888);
        }
        other => panic!("unexpected action: {other:?}"),
    }
}

#[test]
fn every_client_gets_the_same_server() {
    let (state, _) = listening(8888);
    let (mut state, action) = state.step(AcceptorEvent::Bound);
    match action {
        AcceptorAction::Announce(words) => {
            assert_eq!(words, "Listening on http://127.0.0.1:8888")
        }
        other => panic!("unexpected action: {other:?}"),
    }
    for _ in 0..3 {
        let (next, action) = state.step(AcceptorEvent::Accepted);
        match action {
            AcceptorAction::Serve(server) => assert_eq!(server.port(), 8888),
            other => panic!("unexpected action: {other:?}"),
        }
        state = next;
    }
    assert!(matches!(state, Acceptor::Accepting(_)));
}

/// Consumes `len` bytes of the limiter of an exchange with `server`.
fn consume(server: &ThrottledServer, len: usize) {
    begin(server).limiter.0.consume_duration(len);
}

fn stats(server: &ThrottledServer) -> SharedStats {
    begin(server).stats
}

#[test]
fn all_connections_share_one_limiter_and_one_set_of_statistics() {
    let mut ports = PortCounter::new();
    let server = test_server(&mut ports, Duration::from_millis(1), 500_000);
    let other = test_server(&mut ports, Duration::from_millis(1), 500_000);
    let (background, _) = server.spawn_in_background();
    let (state, _) = server.clone().serve();
    let (mut state, _) = state.step(AcceptorEvent::Bound);
    for _ in 0..2 {
        let (next, action) = state.step(AcceptorEvent::Accepted);
        state = next;
        match action {
            AcceptorAction::Serve(copy) => {
                consume(&copy, 1_000);
                assert!(Arc::ptr_eq(&stats(&copy), &stats(&server)));
            }
            other => panic!("unexpected action: {other:?}"),
        }
    }
    consume(&background, 10);
    assert!(Arc::ptr_eq(&stats(&background), &stats(&server)));
    assert_eq!(begin(&server).limiter.0.total_bytes_consumed(), 2_010);
    assert_eq!(begin(&other).limiter.0.total_bytes_consumed(), 0);
    assert!(!Arc::ptr_eq(&stats(&other), &stats(&server)));
}

#[test]
fn a_new_server_has_recorded_nothing() {
    let mut ports = PortCounter::new();
    let server = test_server(&mut ports, Duration::from_millis(1), 1);
    assert!(stats(&server).lock().unwrap().responses.is_empty());
}

#[test]
fn a_port_that_cannot_be_opened_is_fatal() {
    let (state, action) = listening(80).0.step(AcceptorEvent::BindFailed);
    assert!(matches!(state, Acceptor::Stopped));
    match action {
        AcceptorAction::Abort(words) => {
            assert_eq!(words, "unable to bind to address: 127.0.0.1:80")
        }
        other => panic!("unexpected action: {other:?}"),
    }
}

#[test]
fn a_listener_that_fails_is_fatal() {
    let (state, _) = listening(80).0.step(AcceptorEvent::Bound);
    let (state, action) = state.step(AcceptorEvent::AcceptFailed);
    assert!(matches!(state, Acceptor::Stopped));
    match action {
        AcceptorAction::Abort(words) => assert_eq!(words, "listener to bind to accept."),
        other => panic!("unexpected action: {other:?}"),
    }
}

#[test]
fn a_failed_connection_is_reported() {
    assert_eq!(connection_report(None), None);
    assert_eq!(
        connection_report(Some("Canceled".to_string())),
        Some("Failed to serve connection: Canceled".to_string())
    );
}

fn args(bandwidth: u64) -> Args {
    Args {
        port: 8888,
        latency: 50,
        bandwidth,
        web_root: PathBuf::from("../../test/data"),
    }
}

#[test]
fn arguments_make_a_server() {
    let server = args(100_000_000 / 8)
        .into_server(limiter(12_500_000)).unwrap();
    assert_eq!(server.port(), 8888);
    assert_eq!(server.latency(), Duration::from_millis(50));
    assert_eq!(server.bytes_per_second(), 12_500_000);
    assert_eq!(server.web_root(), &PathBuf::from("../../test/data"));
}

#[test]
fn no_server_without_bandwidth() {
    assert!(args(0).into_server(limiter(1)).is_none());
    assert!(args(1).into_server(limiter(1)).is_some());
}
