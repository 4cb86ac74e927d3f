//! Listening for connections.
use vstd::prelude::*;

use crate::server::ThrottledServer;
use crate::text::decimal_text;

verus! {

/// Where the loop that accepts connections stands.
#[derive(Debug)]
pub enum Acceptor {
    /// The port is not open yet.
    Binding(ThrottledServer),
    /// The next connection is awaited.
    Accepting(ThrottledServer),
    /// The loop was given up.
    Stopped,
}

/// What came of what the loop asked for.
#[derive(Clone, Copy, Debug, PartialEq, Eq, Structural)]
pub enum AcceptorEvent {
    /// The port is open.
    Bound,
    /// The port could not be opened.
    BindFailed,
    /// A client has connected.
    Accepted,
    /// The listener failed.
    AcceptFailed,
}

/// What the loop asks for.
#[derive(Debug)]
pub enum AcceptorAction {
    /// Open this port, at this address.
    Bind { ip: [u8; 4], port: u16 },
    /// Say this, and wait for a client.
    Announce(String),
    /// Let this copy of the server answer the client in the background, and
    /// wait for the next one.
    Serve(ThrottledServer),
    /// Give up, with these words.
    Abort(String),
}

impl AcceptorAction {
    /// Whether `event` is something that can come of this action.
    pub open spec fn answered_by(self, event: AcceptorEvent) -> bool {
        match self {
            AcceptorAction::Bind { .. } => event is Bound || event is BindFailed,
            AcceptorAction::Announce(_) | AcceptorAction::Serve(_) => event is Accepted
                || event is AcceptFailed,
            AcceptorAction::Abort(_) => false,
        }
    }
}

/// The address of a server on `port`: the loopback address.
pub open spec fn address(port: u16) -> Seq<char> {
    "127.0.0.1:"@ + crate::text::decimal(port as nat)
}

/// The address of a server on `port`, as text.
pub fn address_text(port: u16) -> (text: String)
    ensures
        text@ == address(port),
{
    "127.0.0.1:".to_owned().concat(decimal_text(port as u64).as_str())
}

impl Acceptor {
    /// Whether `event` can come of what was last asked for.
    pub open spec fn expects(self, event: AcceptorEvent) -> bool {
        match self {
            Acceptor::Binding(_) => event is Bound || event is BindFailed,
            Acceptor::Accepting(_) => event is Accepted || event is AcceptFailed,
            Acceptor::Stopped => false,
        }
    }

    /// Where an event leads.
    pub open spec fn next(self, event: AcceptorEvent) -> Acceptor
        recommends
            self.expects(event),
    {
        match (self, event) {
            (Acceptor::Binding(server), AcceptorEvent::Bound) => Acceptor::Accepting(server),
            (Acceptor::Accepting(server), AcceptorEvent::Accepted) => Acceptor::Accepting(server),
            _ => Acceptor::Stopped,
        }
    }

    /// Whether the loop begins with `action` here.
    pub open spec fn asks_for(self, action: AcceptorAction) -> bool {
        self matches Acceptor::Binding(server) && action == (AcceptorAction::Bind {
            ip: [127, 0, 0, 1],
            port: server@.port,
        })
    }

    /// Whether `action` is what is done on `event`.
    pub open spec fn answers(self, event: AcceptorEvent, action: AcceptorAction) -> bool
        recommends
            self.expects(event),
    {
        match (self, event) {
            (Acceptor::Binding(server), AcceptorEvent::Bound) => {
                &&& action matches AcceptorAction::Announce(words)
                &&& words@ == "Listening on http://"@ + address(server@.port)
            },
            (Acceptor::Binding(server), _) => {
                &&& action matches AcceptorAction::Abort(words)
                &&& words@ == "unable to bind to address: "@ + address(server@.port)
            },
            (Acceptor::Accepting(server), AcceptorEvent::Accepted) => action
                == AcceptorAction::Serve(server),
            _ => {
                &&& action matches AcceptorAction::Abort(words)
                &&& words@ == "listener to bind to accept."@
            },
        }
    }

    /// Takes in what came of the last action, and says what to do next.
    pub fn step(self, event: AcceptorEvent) -> (r: (Acceptor, AcceptorAction))
        requires
            self.expects(event),
        ensures
            r.0 == self.next(event),
            self.answers(event, r.1),
    {
        match (self, event) {
            (Acceptor::Binding(server), AcceptorEvent::Bound) => {
                let words: String = "Listening on http://".to_owned().concat(
                    address_text(server.port()).as_str(),
                );
                (Acceptor::Accepting(server), AcceptorAction::Announce(words))
            },
            (Acceptor::Binding(server), _) => {
                let words: String = "unable to bind to address: ".to_owned().concat(
                    address_text(server.port()).as_str(),
                );
                (Acceptor::Stopped, AcceptorAction::Abort(words))
            },
            (Acceptor::Accepting(server), AcceptorEvent::Accepted) => {
                let copy: ThrottledServer = server.clone();
                (Acceptor::Accepting(server), AcceptorAction::Serve(copy))
            },
            _ => (Acceptor::Stopped, AcceptorAction::Abort("listener to bind to accept.".to_owned())),
        }
    }
}

/// What is said when a connection has ended: the error, if there was one. The
/// loop goes on either way.
pub fn connection_report(error: Option<String>) -> (words: Option<String>)
    ensures
        match error {
            Some(error) => words matches Some(words) && words@ == "Failed to serve connection: "@
                + error@,
            None => words is None,
        },
{
    match error {
        Some(error) => Some("Failed to serve connection: ".to_owned().concat(error.as_str())),
        None => None,
    }
}

/// Performing what the loop asks for is all that it takes to stay in turn: what
/// can come of the action that it asks for is what it expects next.
pub proof fn law_answers_are_in_turn(
    state: Acceptor,
    event: AcceptorEvent,
    action: AcceptorAction,
    answer: AcceptorEvent,
)
    requires
        state.expects(event),
        state.answers(event, action),
    ensures
        state.next(event).expects(answer) <==> action.answered_by(answer),
        state.next(event).expects(answer) <==> (answer is Accepted || answer is AcceptFailed) && (
        event is Bound || event is Accepted),
{
}

/// A server is announced at the loopback address and the port that it was made
/// with; a port that cannot be opened is reported at the same address.
pub proof fn law_address_names_the_port(server: ThrottledServer, action: AcceptorAction)
    ensures
        forall|event: AcceptorEvent| #[trigger]
            Acceptor::Binding(server).expects(event) <==> event is Bound || event is BindFailed,
        Acceptor::Binding(server).answers(AcceptorEvent::Bound, action) ==> {
            &&& action matches AcceptorAction::Announce(words)
            &&& words@.take(30) == "Listening on http://127.0.0.1:"@
            &&& crate::text::reads_as(words@.skip(30), server@.port as int)
        },
        Acceptor::Binding(server).answers(AcceptorEvent::BindFailed, action) ==> {
            &&& action matches AcceptorAction::Abort(words)
            &&& words@.take(37) == "unable to bind to address: 127.0.0.1:"@
            &&& crate::text::reads_as(words@.skip(37), server@.port as int)
        },
{
    reveal_strlit("127.0.0.1:");
    reveal_strlit("Listening on http://");
    reveal_strlit("Listening on http://127.0.0.1:");
    reveal_strlit("unable to bind to address: ");
    reveal_strlit("unable to bind to address: 127.0.0.1:");
    let digits = crate::text::decimal(server@.port as nat);
    crate::text::law_decimal_is_how_a_number_is_written(server@.port as nat);
    if Acceptor::Binding(server).answers(AcceptorEvent::Bound, action) {
        let words = action->Announce_0@;
        assert(words.skip(30) =~= digits);
        assert(words.take(30) =~= "Listening on http://127.0.0.1:"@);
    }
    if Acceptor::Binding(server).answers(AcceptorEvent::BindFailed, action) {
        let words = action->Abort_0@;
        assert(words.skip(37) =~= digits);
        assert(words.take(37) =~= "unable to bind to address: 127.0.0.1:"@);
    }
}

/// While it accepts, the loop hands each client a copy of its server, and a
/// listener that fails is given up with these words.
pub proof fn law_what_accepting_leads_to(
    server: ThrottledServer,
    event: AcceptorEvent,
    action: AcceptorAction,
)
    requires
        Acceptor::Accepting(server).expects(event),
        Acceptor::Accepting(server).answers(event, action),
    ensures
        event is Accepted || event is AcceptFailed,
        match event {
            AcceptorEvent::Accepted => action == AcceptorAction::Serve(server),
            _ => action matches AcceptorAction::Abort(words) && words@
                == "listener to bind to accept."@,
        },
{
}

/// Where a run of events leads the loop of `server`.
pub open spec fn run(server: ThrottledServer, events: Seq<AcceptorEvent>) -> Acceptor
    decreases events.len(),
{
    if events.len() == 0 {
        Acceptor::Binding(server)
    } else {
        run(server, events.drop_last()).next(events.last())
    }
}

/// Each event of the run answers the action before it.
pub open spec fn in_turn(server: ThrottledServer, events: Seq<AcceptorEvent>) -> bool
    decreases events.len(),
{
    events.len() > 0 ==> {
        &&& in_turn(server, events.drop_last())
        &&& run(server, events.drop_last()).expects(events.last())
    }
}

/// The loop goes on for as long as its listener does not fail, however many
/// clients connect, and every client is served by a copy of the server that the
/// loop began with.
pub proof fn law_every_client_gets_the_same_server(
    server: ThrottledServer,
    events: Seq<AcceptorEvent>,
)
    requires
        in_turn(server, events),
    ensures
        run(server, events) is Stopped <==> events.len() > 0 && (events.last() is BindFailed
            || events.last() is AcceptFailed),
        match run(server, events) {
            Acceptor::Binding(held) => held == server && events.len() == 0,
            Acceptor::Accepting(held) => held == server && forall|action: AcceptorAction| #[trigger]
                run(server, events).answers(AcceptorEvent::Accepted, action) ==> action
                    == AcceptorAction::Serve(server),
            Acceptor::Stopped => true,
        },
    decreases events.len(),
{
    if events.len() > 0 {
        law_every_client_gets_the_same_server(server, events.drop_last());
    }
}

} // verus!
