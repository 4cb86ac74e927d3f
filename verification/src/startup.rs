//! Waiting for a server that was just started to answer.
//!
//! Two parties take part. A [`Pinger`] asks the server for a file until it
//! answers, and then notifies; the other party waits for that notice, for a
//! limited time.
use hyper::{StatusCode, Uri};
use hyper::http::uri::InvalidUri;
use vstd::prelude::*;

use crate::duration::Duration;
use crate::text::decimal_text;

verus! {

/// How long a server may take to start, beyond its latency.
pub const STARTUP_MILLIS: u64 = 400;

/// How long a pinger rests after a failed ping.
pub const REST_MICROS: u64 = 100;

/// `hyper::Uri`: a parsed URI. Nothing here looks inside one.
#[verifier::external_type_specification]
#[verifier::external_body]
pub struct ExUri(Uri);

/// `hyper::http::uri::InvalidUri`: why a text is no URI.
#[verifier::external_type_specification]
#[verifier::external_body]
pub struct ExInvalidUri(InvalidUri);

/// The URI that a text is read as, if it is one.
pub uninterp spec fn parsed_uri(text: Seq<char>) -> Option<Uri>;

/// `<hyper::Uri as FromStr>::from_str` reads a text as a URI. What it returns
/// depends on the text alone, and an absolute `http` URL with the host
/// `localhost`, a port and the path `/1M.txt` is a URI.
#[verifier::external_body]
fn parse_uri(text: &str) -> (uri: Result<Uri, InvalidUri>)
    ensures
        match uri {
            Ok(uri) => parsed_uri(text@) == Some(uri),
            Err(_) => parsed_uri(text@) is None,
        },
        (exists|port: u16| text@ == #[trigger] ping_url(port)) ==> uri is Ok,
{
    text.parse::<Uri>()
}

/// `hyper::StatusCode::from_u16` takes the numbers from 100 to 999 for status
/// codes and refuses all others; `StatusCode::is_success` holds of the codes
/// from 200 to 299.
#[verifier::external_body]
fn is_success(code: u16) -> (success: Option<bool>)
    ensures
        match success {
            Some(success) => 100 <= code <= 999 && success == (200 <= code <= 299),
            None => !(100 <= code <= 999),
        },
{
    StatusCode::from_u16(code).ok().map(|status| status.is_success())
}

/// What a server on `port` is asked for, to see whether it answers.
pub open spec fn ping_url(port: u16) -> Seq<char> {
    "http://localhost:"@ + crate::text::decimal(port as nat) + "/1M.txt"@
}

/// The text of the URL to ping.
pub fn ping_url_text(port: u16) -> (url: String)
    ensures
        url@ == ping_url(port),
{
    "http://localhost:".to_owned().concat(decimal_text(port as u64).as_str()).concat("/1M.txt")
}

/// The URI to ping.
pub fn ping_uri(port: u16) -> (uri: Uri)
    ensures
        parsed_uri(ping_url(port)) == Some(uri),
{
    let url: String = ping_url_text(port);
    match parse_uri(url.as_str()) {
        Ok(uri) => uri,
        Err(_) => vstd::pervasive::unreached(),
    }
}

/// A ping asks for `http://localhost:`, the port of the server, and `/1M.txt`.
pub proof fn law_ping_url_names_the_port(port: u16)
    ensures
        ping_url(port).len() > 24,
        ping_url(port).take(17) == "http://localhost:"@,
        crate::text::reads_as(
            ping_url(port).subrange(17, ping_url(port).len() - 7),
            port as int,
        ),
        ping_url(port).skip(ping_url(port).len() - 7) == "/1M.txt"@,
{
    reveal_strlit("http://localhost:");
    reveal_strlit("/1M.txt");
    let digits = crate::text::decimal(port as nat);
    crate::text::law_decimal_is_how_a_number_is_written(port as nat);
    assert(ping_url(port).subrange(17, ping_url(port).len() - 7) =~= digits);
}

/// Different ports are asked at different URLs.
pub proof fn law_ping_url_tells_ports_apart(one: u16, other: u16)
    requires
        ping_url(one) == ping_url(other),
    ensures
        one == other,
{
    let head = "http://localhost:"@;
    let tail = "/1M.txt"@;
    let a = crate::text::decimal(one as nat);
    let b = crate::text::decimal(other as nat);
    assert(ping_url(one).len() == head.len() + a.len() + tail.len());
    assert(ping_url(other).len() == head.len() + b.len() + tail.len());
    assert(ping_url(one).subrange(head.len() as int, (head.len() + a.len()) as int) =~= a);
    assert(ping_url(other).subrange(head.len() as int, (head.len() + b.len()) as int) =~= b);
    crate::text::law_decimal_reads_back(one as nat);
    crate::text::law_decimal_reads_back(other as nat);
}

/// How long the start of a server with this latency may take, in nanoseconds.
pub open spec fn startup_nanos(latency: nat) -> nat {
    latency + STARTUP_MILLIS as nat * 1_000_000
}

/// A server has 400 milliseconds beyond its latency, whatever its latency. So of
/// two servers, the one with the longer latency has more time, by just as much.
pub proof fn law_time_beyond_the_latency(latency: nat, other: nat)
    ensures
        startup_nanos(latency) - latency == 400_000_000,
        startup_nanos(latency) - startup_nanos(other) == latency - other,
{
}

/// How long to wait for a server with this latency to start, or `None` where no
/// span is that long.
pub fn startup_limit(latency: Duration) -> (limit: Option<Duration>)
    ensures
        limit is Some <==> startup_nanos(latency@) <= crate::duration::max_nanos(),
        limit matches Some(span) ==> span@ == startup_nanos(latency@),
        limit is Some <==> latency@ + 400_000_000 < 0x1_0000_0000_0000_0000 * 1_000_000_000,
        limit matches Some(span) ==> span@ == latency@ + 400_000_000,
{
    latency.checked_add(Duration::from_millis(STARTUP_MILLIS))
}

/// Where a pinger stands.
#[derive(Clone, Copy, Debug, PartialEq, Eq, Structural)]
pub enum Pinger {
    /// A ping is under way.
    Pinging,
    /// The last ping failed.
    Resting,
    /// The server answered; the notice is under way.
    Notifying,
    /// The notice was taken.
    Done,
    /// Nobody was left to take the notice.
    Failed,
}

/// What came of what a pinger asked for.
#[derive(Clone, Copy, Debug, PartialEq, Eq, Structural)]
pub enum PingerEvent {
    /// The ping was answered with this status code, or not answered.
    Replied(Option<u16>),
    /// The rest is over.
    Rested,
    /// The notice was taken.
    Noticed,
    /// Nobody was left to take the notice.
    Unheard,
}

/// What a pinger asks for.
#[derive(Clone, Copy, Debug)]
pub enum PingerAction {
    /// Ask the server for the file.
    Ping,
    /// Do nothing for this long.
    Rest(Duration),
    /// Give notice that the server answers.
    Notify,
    /// Nothing is left to do.
    Stop,
    /// Give up.
    Abort,
}

impl PingerAction {
    /// Whether `event` is something that can come of this action.
    pub open spec fn answered_by(self, event: PingerEvent) -> bool {
        match self {
            PingerAction::Ping => event is Replied,
            PingerAction::Rest(_) => event is Rested,
            PingerAction::Notify => event is Noticed || event is Unheard,
            PingerAction::Stop | PingerAction::Abort => false,
        }
    }
}

/// Whether a reply to a ping shows that the server is up.
pub open spec fn shows_up(reply: Option<u16>) -> bool {
    reply matches Some(code) && 200 <= code <= 299
}

/// Whether a reply to a ping shows that the server is up.
pub fn is_up(reply: Option<u16>) -> (up: bool)
    ensures
        up == shows_up(reply),
        up <==> (reply matches Some(code) && code / 100 == 2),
{
    match reply {
        Some(code) => match is_success(code) {
            Some(success) => success,
            None => false,
        },
        None => false,
    }
}

impl Pinger {
    /// Whether `event` can come of what was last asked for.
    pub open spec fn expects(self, event: PingerEvent) -> bool {
        match self {
            Pinger::Pinging => event is Replied,
            Pinger::Resting => event is Rested,
            Pinger::Notifying => event is Noticed || event is Unheard,
            Pinger::Done | Pinger::Failed => false,
        }
    }

    /// Where an event leads.
    pub open spec fn next(self, event: PingerEvent) -> Pinger
        recommends
            self.expects(event),
    {
        match event {
            PingerEvent::Replied(reply) => if shows_up(reply) {
                Pinger::Notifying
            } else {
                Pinger::Resting
            },
            PingerEvent::Rested => Pinger::Pinging,
            PingerEvent::Noticed => Pinger::Done,
            PingerEvent::Unheard => Pinger::Failed,
        }
    }

    /// Whether `action` is what is done on arriving here.
    pub open spec fn asks_for(self, action: PingerAction) -> bool {
        match self {
            Pinger::Pinging => action is Ping,
            Pinger::Resting => action matches PingerAction::Rest(span) && span@ == REST_MICROS
                as nat * 1_000,
            Pinger::Notifying => action is Notify,
            Pinger::Done => action is Stop,
            Pinger::Failed => action is Abort,
        }
    }

    /// A pinger starts with a ping.
    pub fn start() -> (r: (Pinger, PingerAction))
        ensures
            r.0 is Pinging,
            r.0.asks_for(r.1),
    {
        (Pinger::Pinging, PingerAction::Ping)
    }

    /// Takes in what came of the last action, and says what to do next.
    pub fn step(self, event: PingerEvent) -> (r: (Pinger, PingerAction))
        requires
            self.expects(event),
        ensures
            r.0 == self.next(event),
            r.0.asks_for(r.1),
    {
        match event {
            PingerEvent::Replied(reply) => if is_up(reply) {
                (Pinger::Notifying, PingerAction::Notify)
            } else {
                (Pinger::Resting, PingerAction::Rest(Duration::from_micros(REST_MICROS)))
            },
            PingerEvent::Rested => (Pinger::Pinging, PingerAction::Ping),
            PingerEvent::Noticed => (Pinger::Done, PingerAction::Stop),
            PingerEvent::Unheard => (Pinger::Failed, PingerAction::Abort),
        }
    }
}

/// Performing what a pinger asks for is all that it takes to stay in turn: what
/// can come of the action that it asks for is what it expects next.
pub proof fn law_answers_are_in_turn(pinger: Pinger, action: PingerAction, answer: PingerEvent)
    requires
        pinger.asks_for(action),
    ensures
        pinger.expects(answer) <==> action.answered_by(answer),
        pinger.expects(answer) <==> match answer {
            PingerEvent::Replied(_) => action is Ping,
            PingerEvent::Rested => action is Rest,
            PingerEvent::Noticed | PingerEvent::Unheard => action is Notify,
        },
{
}

/// Only a reply with a status code in the two hundreds shows that the server is
/// up.
pub proof fn law_only_success_shows_that_a_server_is_up(code: u16)
    ensures
        shows_up(Some(code)) <==> code / 100 == 2,
        !shows_up(None),
{
}

/// After a ping that failed the pinger rests for 100 microseconds and then pings
/// again; after one that succeeded it gives notice, and is done with it whether
/// the notice is taken or not.
pub proof fn law_pinger_goes_from_ping_to_ping(
    pinger: Pinger,
    event: PingerEvent,
    action: PingerAction,
)
    requires
        pinger.expects(event),
        pinger.next(event).asks_for(action),
    ensures
        match event {
            PingerEvent::Replied(Some(code)) if code / 100 == 2 => action is Notify,
            PingerEvent::Replied(_) => {
                &&& action matches PingerAction::Rest(span)
                &&& span@ == 100_000
            },
            PingerEvent::Rested => action is Ping,
            PingerEvent::Noticed => action is Stop,
            PingerEvent::Unheard => action is Abort,
        },
{
}

/// Where a run of events leads a pinger, from its first ping on.
pub open spec fn run(events: Seq<PingerEvent>) -> Pinger
    decreases events.len(),
{
    if events.len() == 0 {
        Pinger::Pinging
    } else {
        run(events.drop_last()).next(events.last())
    }
}

/// Each event of the run answers the action before it.
pub open spec fn in_turn(events: Seq<PingerEvent>) -> bool
    decreases events.len(),
{
    events.len() > 0 ==> {
        &&& in_turn(events.drop_last())
        &&& run(events.drop_last()).expects(events.last())
    }
}

/// How many of the replies in the run show that the server is up.
pub open spec fn successes(events: Seq<PingerEvent>) -> nat
    decreases events.len(),
{
    if events.len() == 0 {
        0
    } else {
        successes(events.drop_last()) + if events.last() matches PingerEvent::Replied(reply)
            && shows_up(reply) {
            1nat
        } else {
            0nat
        }
    }
}

/// A pinger goes on until a ping succeeds, and not beyond: as long as it pings
/// and rests no ping has succeeded, and when it gives notice, which it does no
/// more than once, exactly one has.
pub proof fn law_pinger_stops_at_first_success(events: Seq<PingerEvent>)
    requires
        in_turn(events),
    ensures
        (run(events) is Pinging || run(events) is Resting) <==> successes(events) == 0,
        (run(events) is Notifying || run(events) is Done || run(events) is Failed)
            <==> successes(events) == 1,
    decreases events.len(),
{
    if events.len() > 0 {
        law_pinger_stops_at_first_success(events.drop_last());
    }
}

/// How the wait for the notice ended.
#[derive(Clone, Copy, Debug, PartialEq, Eq, Structural)]
pub enum Wait {
    /// The notice came.
    Noticed,
    /// The pinger is gone, and no notice came.
    PingerGone,
    /// The time is up.
    TimedOut,
}

/// What the wait for a start comes to.
#[derive(Clone, Copy, Debug, PartialEq, Eq, Structural)]
pub enum Startup {
    /// The wait is over; the caller goes on.
    Started,
    /// The start took too long; the caller gives up.
    TimedOut,
}

/// What the end of the wait comes to: only a wait that takes too long is a
/// failure.
pub fn startup_outcome(wait: Wait) -> (startup: Startup)
    ensures
        startup is TimedOut <==> wait is TimedOut,
{
    match wait {
        Wait::Noticed | Wait::PingerGone => Startup::Started,
        Wait::TimedOut => Startup::TimedOut,
    }
}

} // verus!
