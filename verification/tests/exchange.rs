use std::io::Cursor;
use std::path::PathBuf;
use std::sync::Arc;

use async_speed_limit::Limiter;
use hyper::http::response::Parts;
use hyper::Request;
use tokio::io::AsyncReadExt;
use yocalhost::exchange::{Action, Event, Exchange, Fault, Phase};
use yocalhost::handles::SharedLimiter;
use yocalhost::stats::Recorded;
use yocalhost::text::decimal_text;
use yocalhost::{Duration, Response, Stats, ThrottledServer};

fn delaying(limiter: &Limiter) -> Exchange<()> {
    let server = ThrottledServer::new(
        9901,
        Duration::from_millis(1),
        1,
        PathBuf::from("root"),
        SharedLimiter(limiter.clone()),
    );
    server.call(Request::new(())).0
}

fn at(phase: Phase<()>) -> Exchange<()> {
    Exchange {
        phase,
        ..delaying(&Limiter::new(1.0))
    }
}

fn fault(phase: Phase<()>, event: Event) -> Fault {
    match at(phase).step(event) {
        (Exchange { phase: Phase::Aborted, .. }, Action::Abort(fault)) => fault,
        other => panic!("unexpected step: {other:?}"),
    }
}

fn head(status: u16) -> Parts {
    hyper::Response::builder()
        .status(status)
        .body(())
        .unwrap()
        .into_parts()
        .0
}

/// Relays a body in `pieces` and returns what was sent and what was recorded.
fn relay_through(
    limiter: &Limiter,
    pieces: &[&[u8]],
    mut limit: impl FnMut(Limiter, Vec<u8>) -> Vec<u8>,
) -> (Vec<u8>, Response) {
    let mut pieces = pieces.iter();
    let mut sent = vec![];
    let start = delaying(limiter);
    let shared = start.stats.clone();
    let (mut state, mut action) = start.step(Event::Slept);
    loop {
        let event = match action {
            Action::Fetch { web_root, .. } => {
                assert_eq!(web_root, PathBuf::from("root"));
                Event::Fetched(head(200))
            }
            Action::Respond { head, queue_len } => {
                assert_eq!(head.status, 200);
                assert_eq!(queue_len, 8 * 1024);
                Event::Collected
            }
            Action::Read => match pieces.next() {
                Some(piece) => Event::Chunk(piece.to_vec()),
                None => Event::End,
            },
            Action::Throttle { limiter, bytes } => Event::Throttled(limit(limiter.0, bytes)),
            Action::Send(bytes) => {
                sent.extend(bytes);
                Event::Sent
            }
            Action::Record { stats, response } => {
                assert!(matches!(state.phase, Phase::Finished));
                assert!(Arc::ptr_eq(&stats, &shared));
                return (sent, response);
            }
            other => panic!("unexpected action: {other:?}"),
        };
        let (next, asked) = state.step(event);
        state = next;
        action = asked;
    }
}

fn relay(pieces: &[&[u8]], mut limit: impl FnMut(Vec<u8>) -> Vec<u8>) -> (Vec<u8>, Response) {
    relay_through(&Limiter::new(1.0), pieces, |_, bytes| limit(bytes))
}

#[test]
fn head_is_relayed() {
    let mut given = head(206);
    given
        .headers
        .insert("content-range", "bytes 0-8/1000000".parse().unwrap());
    let (state, action) = at(Phase::Fetching).step(Event::Fetched(given));
    match action {
        Action::Respond { head, .. } => {
            assert_eq!(head.status, 206);
            assert_eq!(head.headers.len(), 1);
            assert_eq!(head.headers["content-range"], "bytes 0-8/1000000");
        }
        other => panic!("unexpected action: {other:?}"),
    }
    assert!(matches!(state.phase, Phase::Collecting));
}

#[test]
fn a_file_that_is_not_there_is_answered_and_recorded() {
    let (state, action) = at(Phase::Fetching).step(Event::Fetched(head(404)));
    match action {
        Action::Respond { head, .. } => assert_eq!(head.status, 404),
        other => panic!("unexpected action: {other:?}"),
    }
    let (state, _) = state.step(Event::Collected);
    match state.step(Event::End).1 {
        Action::Record { response, .. } => assert_eq!(response.len, 0),
        other => panic!("unexpected action: {other:?}"),
    }
}

#[test]
fn the_request_reaches_the_file_service_unchanged() {
    let request = Request::builder()
        .uri("/1M.txt")
        .header("Range", "bytes=8765-8772")
        .body(7)
        .unwrap();
    let delayed = delaying(&Limiter::new(1.0));
    let exchange = Exchange {
        limiter: delayed.limiter,
        stats: delayed.stats,
        phase: Phase::Delaying { web_root: PathBuf::from("root"), request },
    };
    match exchange.step(Event::Slept).1 {
        Action::Fetch { web_root, request } => {
            assert_eq!(web_root, PathBuf::from("root"));
            assert_eq!(request.uri(), "/1M.txt");
            assert_eq!(request.headers()["range"], "bytes=8765-8772");
            assert_eq!(request.into_body(), 7);
        }
        other => panic!("unexpected action: {other:?}"),
    }
}

#[test]
fn body_is_relayed_byte_for_byte() {
    let (sent, response) = relay(&[b"I lived ", b"", b"at West", b" Egg"], |bytes| bytes);
    assert_eq!(sent, b"I lived at West Egg");
    assert_eq!(response, Response { len: 19 });
}

#[test]
fn an_empty_body_is_recorded() {
    let (sent, response) = relay(&[], |bytes| bytes);
    assert!(sent.is_empty());
    assert_eq!(response, Response::default());
}

#[test]
fn only_what_passes_the_limiter_is_sent() {
    let mut given = vec![];
    let (sent, _) = relay(&[b"abc", b"def"], |bytes| {
        given.extend(bytes.clone());
        vec![bytes[0]]
    });
    assert_eq!(given, b"abcdef");
    assert_eq!(sent, b"ad");
}

#[test]
fn a_speed_limiter_passes_bytes_unchanged() {
    let runtime = tokio::runtime::Builder::new_current_thread()
        .enable_all()
        .build()
        .unwrap();
    let limiter = <Limiter>::new(1_000_000.0);
    let pieces: [&[u8]; 3] = [b"A Project", b" Gutenberg", b" eBook"];
    let (sent, response) = relay_through(&limiter, &pieces, |handle, bytes| {
        let mut out = vec![];
        runtime
            .block_on(handle.limit(Cursor::new(&bytes)).read_to_end(&mut out))
            .unwrap();
        out
    });
    assert_eq!(sent, b"A Project Gutenberg eBook");
    assert_eq!(response.len, 25);
    assert_eq!(limiter.total_bytes_consumed(), 25);
}

#[test]
fn failures_end_the_exchange() {
    assert_eq!(fault(Phase::Fetching, Event::FetchFailed), Fault::Fetch);
    assert_eq!(fault(Phase::Collecting, Event::CollectFailed), Fault::Collect);
    assert_eq!(
        fault(Phase::Throttling { len: 3 }, Event::ThrottleFailed),
        Fault::Throttle
    );
    assert_eq!(fault(Phase::Sending { len: 3 }, Event::SendFailed), Fault::Send);
    assert_eq!(
        fault(Phase::Reading { len: usize::MAX }, Event::Chunk(vec![0])),
        Fault::Overflow
    );
}

#[test]
fn the_longest_body_can_be_counted() {
    let exchange = at(Phase::Reading { len: usize::MAX - 2 });
    match exchange.step(Event::Chunk(vec![7, 8])) {
        (Exchange { phase: Phase::Throttling { len }, .. }, Action::Throttle { bytes, .. }) => {
            assert_eq!(len, usize::MAX);
            assert_eq!(bytes, vec![7, 8]);
        }
        other => panic!("unexpected step: {other:?}"),
    }
}

fn record(stats: &mut Stats, len: usize) -> String {
    match stats.record(true, Response { len }) {
        Recorded::Logged(line) => line,
        other => panic!("unexpected outcome: {other:?}"),
    }
}

#[test]
fn responses_are_summed_up() {
    let mut stats = Stats::default();
    assert_eq!(stats.print_summary(), "req_count: 0, body_bytes_sent: 0");
    assert_eq!(record(&mut stats, 1_000_000), "req_count: 1, body_bytes_sent: 1000000");
    assert_eq!(record(&mut stats, 9), "req_count: 2, body_bytes_sent: 1000009");
    stats.push_response(Response { len: 1 });
    assert_eq!(stats.responses.len(), 3);
    assert_eq!(stats.body_bytes_sent(), Some(1_000_010));
    assert_eq!(stats.print_summary(), "req_count: 3, body_bytes_sent: 1000010");
}

#[test]
fn the_order_of_responses_does_not_matter() {
    let mut one = Stats::default();
    let mut other = Stats::default();
    for len in [1, 20, 300] {
        one.push_response(Response { len });
    }
    for len in [300, 1, 20] {
        other.push_response(Response { len });
    }
    assert_eq!(one.print_summary(), other.print_summary());
}

#[test]
fn nothing_is_recorded_with_statistics_off() {
    let mut stats = Stats::default();
    assert!(matches!(stats.record(false, Response { len: 5 }), Recorded::Off));
    assert!(stats.responses.is_empty());
}

#[test]
fn a_total_that_cannot_be_counted_is_told() {
    let mut stats = Stats::default();
    record(&mut stats, usize::MAX);
    assert!(matches!(stats.record(true, Response { len: 1 }), Recorded::Overflow));
    assert_eq!(stats.responses.len(), 2);
    assert_eq!(stats.body_bytes_sent(), None);
}

#[test]
fn decimals() {
    for n in [0, 7, 10, 8001, 65535, 1_000_000, u64::MAX] {
        assert_eq!(decimal_text(n), format!("{n}"));
    }
}
