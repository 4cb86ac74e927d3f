//! The server's settings, and what follows from them.
use hyper::{Request, Uri};
use std::path::PathBuf;
use std::sync::Arc;
use vstd::prelude::*;

use crate::acceptor::{Acceptor, AcceptorAction, AcceptorEvent};
use crate::duration::Duration;
use crate::exchange::{Action, Event, Exchange, Phase};
use crate::handles::{new_mutex, SharedLimiter, SharedStats};
use crate::ports::PortCounter;
use crate::startup::{ping_uri, startup_limit};
use crate::stats::{Response, Stats};

verus! {

/// An HTTP server that imposes artificial latency and bandwidth limits.
#[derive(Debug)]
pub struct ThrottledServer {
    port: u16,
    latency: Duration,
    bytes_per_second: u64,
    limiter: SharedLimiter,
    stats: SharedStats,
    web_root: PathBuf,
}

/// The settings of a server, and what all its connections share.
pub struct Settings {
    /// The port to listen on.
    pub port: u16,
    /// The latency of each request.
    pub latency: Duration,
    /// The bandwidth that all requests share.
    pub bytes_per_second: u64,
    /// The limiter that all requests go through.
    pub limiter: SharedLimiter,
    /// The statistics of all requests.
    pub stats: SharedStats,
    /// The directory of the files to serve.
    pub web_root: PathBuf,
}

impl View for ThrottledServer {
    type V = Settings;

    closed spec fn view(&self) -> Settings {
        Settings {
            port: self.port,
            latency: self.latency,
            bytes_per_second: self.bytes_per_second,
            limiter: self.limiter,
            stats: self.stats,
            web_root: self.web_root,
        }
    }
}

impl Clone for ThrottledServer {
    /// The same settings once more, with handles of the same limiter and the
    /// same statistics.
    fn clone(&self) -> (copy: ThrottledServer)
        ensures
            copy == *self,
    {
        proof {
            use_type_invariant(self);
        }
        ThrottledServer {
            port: self.port,
            latency: self.latency,
            bytes_per_second: self.bytes_per_second,
            limiter: self.limiter.clone(),
            stats: self.stats.clone(),
            web_root: self.web_root.clone(),
        }
    }
}

/// What to do to see a server start.
#[derive(Debug)]
pub struct StartupWatch {
    /// What to ask the server for.
    pub uri: Uri,
    /// How long to wait for an answer; `None` where no span is that long.
    pub limit: Option<Duration>,
}

impl StartupWatch {
    /// The watch asks the server itself, and allows for its latency.
    pub open spec fn watches(self, settings: Settings) -> bool {
        let nanos = crate::startup::startup_nanos(settings.latency@);
        &&& crate::startup::parsed_uri(crate::startup::ping_url(settings.port)) == Some(self.uri)
        &&& self.limit is Some <==> nanos <= crate::duration::max_nanos()
        &&& self.limit matches Some(span) ==> span@ == nanos
    }
}

impl ThrottledServer {
    /// There is some bandwidth.
    #[verifier::type_invariant]
    spec fn has_bandwidth(self) -> bool {
        self.bytes_per_second > 0
    }

    /// A server with these settings, and with statistics in which nothing is
    /// recorded yet. `limiter` is made for `bytes_per_second`. The server has some
    /// bandwidth: nothing would ever get through a limit of zero.
    pub fn new(
        port: u16,
        latency: Duration,
        bytes_per_second: u64,
        web_root: PathBuf,
        limiter: SharedLimiter,
    ) -> (server: ThrottledServer)
        requires
            bytes_per_second > 0,
        ensures
            server@ == (Settings {
                port,
                latency,
                bytes_per_second,
                limiter,
                stats: server@.stats,
                web_root,
            }),
            crate::handles::first_records(*server@.stats) == Seq::<Response>::empty(),
    {
        let stats: SharedStats = Arc::new(new_mutex(Stats::default()));
        ThrottledServer { port, latency, bytes_per_second, limiter, stats, web_root }
    }

    /// The directory of the files to serve.
    pub fn web_root(&self) -> (path: &PathBuf)
        ensures
            *path == self@.web_root,
    {
        &self.web_root
    }

    /// The port to listen on.
    pub fn port(&self) -> (port: u16)
        ensures
            port == self@.port,
    {
        self.port
    }

    /// The latency of each request.
    pub fn latency(&self) -> (latency: Duration)
        ensures
            latency == self@.latency,
    {
        self.latency
    }

    /// The bandwidth that all requests share; never zero.
    pub fn bytes_per_second(&self) -> (rate: u64)
        ensures
            rate == self@.bytes_per_second,
            rate > 0,
    {
        proof {
            use_type_invariant(self);
        }
        self.bytes_per_second
    }

    /// Starts the server in the background: one copy of it, which shares its
    /// limiter and its statistics, is to serve, while the caller waits for it to
    /// answer.
    pub fn spawn_in_background(&self) -> (r: (ThrottledServer, StartupWatch))
        ensures
            r.0@ == self@,
            r.1.watches(self@),
    {
        (self.clone(), self.wait_for_start())
    }

    /// What to ask the server for to see it start, and how long to wait.
    pub fn wait_for_start(&self) -> (watch: StartupWatch)
        ensures
            watch.watches(self@),
            watch.limit matches Some(span) ==> span@ == self@.latency@ + 400_000_000,
    {
        StartupWatch { uri: ping_uri(self.port), limit: startup_limit(self.latency) }
    }

    /// The next port for a server that runs beside others.
    pub fn next_port(ports: &mut PortCounter) -> (port: u16)
        requires
            old(ports)@ < u16::MAX,
        ensures
            crate::ports::hands_out(old(ports)@, port, final(ports)@),
            port == old(ports)@,
            final(ports)@ == port + 1,
    {
        ports.take()
    }

    /// Begins to serve: the server is to listen on its port.
    pub fn serve(self) -> (r: (Acceptor, AcceptorAction))
        ensures
            r.0 == Acceptor::Binding(self),
            r.0.asks_for(r.1),
            r.1 == (AcceptorAction::Bind { ip: [127, 0, 0, 1], port: self@.port }),
    {
        let port: u16 = self.port;
        (Acceptor::Binding(self), AcceptorAction::Bind { ip: [127, 0, 0, 1], port })
    }

    /// Begins the exchange for a request that has just come: its latency runs.
    pub fn call<B>(&self, request: Request<B>) -> (r: (Exchange<B>, Action<B>))
        ensures
            r == begins(self@, request),
            r.0.phase == (Phase::Delaying { web_root: self@.web_root, request }),
            r.1 == Action::<B>::Sleep(self@.latency),
    {
        let phase: Phase<B> = Phase::Delaying { web_root: self.web_root.clone(), request };
        (
            Exchange { limiter: self.limiter.clone(), stats: self.stats.clone(), phase },
            Action::Sleep(self.latency),
        )
    }
}

/// How the exchange for a request begins: with the latency of the server, its
/// limiter and its statistics.
pub open spec fn begins<B>(settings: Settings, request: Request<B>) -> (Exchange<B>, Action<B>) {
    (
        Exchange {
            limiter: settings.limiter,
            stats: settings.stats,
            phase: Phase::Delaying { web_root: settings.web_root, request },
        },
        Action::Sleep(settings.latency),
    )
}

/// Every exchange begins with the latency of its server and nothing else: what is
/// asked for first is to sleep for as long as the latency is, and only the end of
/// that sleep is awaited. Then the exchange holds the request, the directory, the
/// limiter and the statistics that the laws about its runs start from.
pub proof fn law_every_exchange_begins_with_the_latency<B>(settings: Settings, request: Request<B>)
    ensures
        begins(settings, request).1 matches Action::Sleep(span) && span@ == settings.latency@,
        begins(settings, request).0.phase == (Phase::Delaying {
            web_root: settings.web_root,
            request,
        }),
        begins(settings, request).0.limiter == settings.limiter,
        begins(settings, request).0.stats == settings.stats,
        forall|event: Event| #[trigger]
            begins(settings, request).0.phase.expects(event) <==> event is Slept,
        crate::exchange::in_turn(begins(settings, request).0, Seq::empty()),
{
}

/// What is watched at the start of a server is the server itself, for as long as
/// its latency and 400 milliseconds: the URI is read from `http://localhost:`, the
/// port of the server and `/1M.txt`. There is no limit only where no span is that
/// long.
pub proof fn law_the_server_itself_is_watched(watch: StartupWatch, settings: Settings) -> (url: Seq<
    char,
>)
    requires
        watch.watches(settings),
    ensures
        crate::startup::parsed_uri(url) == Some(watch.uri),
        url.len() > 24,
        url.take(17) == "http://localhost:"@,
        crate::text::reads_as(url.subrange(17, url.len() - 7), settings.port as int),
        url.skip(url.len() - 7) == "/1M.txt"@,
        match watch.limit {
            Some(span) => span@ - settings.latency@ == 400_000_000,
            None => settings.latency@ + 400_000_000 >= 0x1_0000_0000_0000_0000 * 1_000_000_000,
        },
{
    crate::startup::law_ping_url_names_the_port(settings.port);
    crate::duration::law_longest_span();
    crate::startup::ping_url(settings.port)
}

/// A server is where it was told to be: the port that it opens, at the loopback
/// address, the port that it announces and the port that is pinged at its start
/// are all the port of its settings.
pub proof fn law_one_port(
    server: ThrottledServer,
    bind: AcceptorAction,
    announce: AcceptorAction,
    watch: StartupWatch,
) -> (url: Seq<char>)
    requires
        Acceptor::Binding(server).asks_for(bind),
        Acceptor::Binding(server).answers(AcceptorEvent::Bound, announce),
        watch.watches(server@),
    ensures
        bind matches AcceptorAction::Bind { ip, port } && ip@ == seq![127u8, 0u8, 0u8, 1u8] && port
            == server@.port,
        announce matches AcceptorAction::Announce(words) && words@.take(30)
            == "Listening on http://127.0.0.1:"@ && crate::text::reads_as(
            words@.skip(30),
            server@.port as int,
        ),
        crate::startup::parsed_uri(url) == Some(watch.uri),
        url.take(17) == "http://localhost:"@,
        crate::text::reads_as(url.subrange(17, url.len() - 7), server@.port as int),
{
    crate::acceptor::law_address_names_the_port(server, announce);
    law_the_server_itself_is_watched(watch, server@)
}

/// All connections draw on one limiter and are recorded in one set of
/// statistics, however many there are: whatever the loop of `server` has accepted
/// so far, the copy that is to serve the next client has the settings of `server`,
/// and whatever becomes of a request to that copy, each byte of its answer goes
/// through the limiter of `server`, and it is recorded in the statistics of
/// `server`. So another connection never adds bandwidth.
pub proof fn law_all_connections_share_one_limiter<B>(
    server: ThrottledServer,
    accepted: Seq<AcceptorEvent>,
    copy: ThrottledServer,
    request: Request<B>,
    events: Seq<Event>,
    i: int,
)
    requires
        crate::acceptor::in_turn(server, accepted),
        crate::acceptor::run(server, accepted).expects(AcceptorEvent::Accepted),
        crate::acceptor::run(server, accepted).answers(
            AcceptorEvent::Accepted,
            AcceptorAction::Serve(copy),
        ),
        crate::exchange::in_turn(begins(copy@, request).0, events),
        0 <= i < events.len(),
    ensures
        copy@ == server@,
        crate::exchange::run(begins(copy@, request).0, events).1.len() == events.len(),
        match crate::exchange::run(begins(copy@, request).0, events).1[i] {
            Action::Throttle { limiter, .. } => limiter == server@.limiter,
            Action::Record { stats, .. } => stats == server@.stats,
            _ => true,
        },
{
    crate::acceptor::law_every_client_gets_the_same_server(server, accepted);
    crate::exchange::law_handles_are_kept(begins(copy@, request).0, events, i);
}

} // verus!
