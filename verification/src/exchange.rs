//! One request, from its arrival to the last byte of its answer.
//!
//! An [`Exchange`] decides; the caller does. It performs the [`Action`] that it
//! was handed, and hands back as an [`Event`] what came of it.
use hyper::http::response::Parts;
use hyper::Request;
use std::path::PathBuf;
use vstd::prelude::*;

use crate::duration::Duration;
use crate::handles::{SharedLimiter, SharedStats};
use crate::stats::Response;

verus! {

/// How many frames may wait between the reader of the file and the client.
pub const FRAME_QUEUE_LEN: usize = 8_192;

/// An exchange: how far it is, and what it shares with the others.
#[derive(Debug)]
#[verifier::reject_recursive_types(B)]
pub struct Exchange<B> {
    /// What every byte of the body goes through.
    pub limiter: SharedLimiter,
    /// Where the response is recorded.
    pub stats: SharedStats,
    /// How far the exchange is.
    pub phase: Phase<B>,
}

/// How far an exchange is. `B` is the body of the request.
#[derive(Debug)]
#[verifier::reject_recursive_types(B)]
pub enum Phase<B> {
    /// The artificial latency runs.
    Delaying { web_root: PathBuf, request: Request<B> },
    /// The file service looks for the file.
    Fetching,
    /// The client has the head of the answer; the body is being collected.
    Collecting,
    /// The next piece of the body is wanted, after `len` bytes.
    Reading { len: usize },
    /// A piece of the body waits for bandwidth; `len` counts it.
    Throttling { len: usize },
    /// A piece of the body is on its way to the client; `len` counts it.
    Sending { len: usize },
    /// The client has the whole body.
    Finished,
    /// The exchange was given up.
    Aborted,
}

/// What came of an action.
#[derive(Debug)]
pub enum Event {
    /// The latency is over.
    Slept,
    /// The file service has an answer, with this head.
    Fetched(Parts),
    /// The file service failed.
    FetchFailed,
    /// The body of the answer was collected.
    Collected,
    /// The body of the answer could not be collected.
    CollectFailed,
    /// The next piece of the body.
    Chunk(Vec<u8>),
    /// The body has no more pieces.
    End,
    /// The limiter let these bytes through.
    Throttled(Vec<u8>),
    /// The limiter failed.
    ThrottleFailed,
    /// The client's side took the frame.
    Sent,
    /// The client's side is gone.
    SendFailed,
}

/// Why an exchange was given up.
#[derive(Clone, Copy, Debug, PartialEq, Eq, Structural)]
pub enum Fault {
    /// The file service failed.
    Fetch,
    /// The body of the answer could not be collected.
    Collect,
    /// The body has more bytes than can be counted.
    Overflow,
    /// The limiter failed.
    Throttle,
    /// The client's side is gone.
    Send,
}

/// What to do next.
#[derive(Debug)]
#[verifier::reject_recursive_types(B)]
pub enum Action<B> {
    /// Wait for this long.
    Sleep(Duration),
    /// Put this request to the file service, for the files below this directory.
    Fetch { web_root: PathBuf, request: Request<B> },
    /// Answer the client with this head and with a body that is fed through a
    /// queue of `queue_len` frames, and collect the body that the file service
    /// gave.
    Respond { head: Parts, queue_len: usize },
    /// Take the next piece of the collected body.
    Read,
    /// Put these bytes through this limiter.
    Throttle { limiter: SharedLimiter, bytes: Vec<u8> },
    /// Send these bytes to the client as one frame.
    Send(Vec<u8>),
    /// All is sent: record the response in these statistics.
    Record { stats: SharedStats, response: Response },
    /// Give up.
    Abort(Fault),
}

impl<B> Action<B> {
    /// Whether `event` is something that can come of this action.
    pub open spec fn answered_by(self, event: Event) -> bool {
        match self {
            Action::Sleep(_) => event is Slept,
            Action::Fetch { .. } => event is Fetched || event is FetchFailed,
            Action::Respond { .. } => event is Collected || event is CollectFailed,
            Action::Read => event is Chunk || event is End,
            Action::Throttle { .. } => event is Throttled || event is ThrottleFailed,
            Action::Send(_) => event is Sent || event is SendFailed,
            Action::Record { .. } | Action::Abort(_) => false,
        }
    }
}

impl<B> Phase<B> {
    /// Whether `event` can come of what was last asked for.
    pub open spec fn expects(self, event: Event) -> bool {
        match self {
            Phase::Delaying { .. } => event is Slept,
            Phase::Fetching => event is Fetched || event is FetchFailed,
            Phase::Collecting => event is Collected || event is CollectFailed,
            Phase::Reading { .. } => event is Chunk || event is End,
            Phase::Throttling { .. } => event is Throttled || event is ThrottleFailed,
            Phase::Sending { .. } => event is Sent || event is SendFailed,
            Phase::Finished | Phase::Aborted => false,
        }
    }
}

impl<B> Exchange<B> {
    /// What an event leads to. The limiter and the statistics stay the same.
    pub open spec fn next(self, event: Event) -> (Exchange<B>, Action<B>)
        recommends
            self.phase.expects(event),
    {
        let (phase, action) = match (self.phase, event) {
            (Phase::Delaying { web_root, request }, Event::Slept) => (
                Phase::Fetching,
                Action::Fetch { web_root, request },
            ),
            (Phase::Fetching, Event::Fetched(head)) => (
                Phase::Collecting,
                Action::Respond { head, queue_len: FRAME_QUEUE_LEN },
            ),
            (Phase::Fetching, Event::FetchFailed) => gives_up(Fault::Fetch),
            (Phase::Collecting, Event::Collected) => (Phase::Reading { len: 0 }, Action::Read),
            (Phase::Collecting, Event::CollectFailed) => gives_up(Fault::Collect),
            (Phase::Reading { len }, Event::Chunk(bytes)) => if len + bytes@.len() <= usize::MAX {
                (
                    Phase::Throttling { len: (len + bytes@.len()) as usize },
                    Action::Throttle { limiter: self.limiter, bytes },
                )
            } else {
                gives_up(Fault::Overflow)
            },
            (Phase::Reading { len }, Event::End) => (
                Phase::Finished,
                Action::Record { stats: self.stats, response: Response { len } },
            ),
            (Phase::Throttling { len }, Event::Throttled(bytes)) => (
                Phase::Sending { len },
                Action::Send(bytes),
            ),
            (Phase::Throttling { .. }, Event::ThrottleFailed) => gives_up(Fault::Throttle),
            (Phase::Sending { len }, Event::Sent) => (Phase::Reading { len }, Action::Read),
            (Phase::Sending { .. }, Event::SendFailed) => gives_up(Fault::Send),
            _ => arbitrary(),
        };
        (Exchange { limiter: self.limiter, stats: self.stats, phase }, action)
    }

    /// Takes in what came of the last action, and says what to do next.
    pub fn step(self, event: Event) -> (r: (Exchange<B>, Action<B>))
        requires
            self.phase.expects(event),
        ensures
            r == self.next(event),
    {
        let Exchange { limiter, stats, phase } = self;
        let (phase, action) = match (phase, event) {
            (Phase::Delaying { web_root, request }, Event::Slept) => (
                Phase::Fetching,
                Action::Fetch { web_root, request },
            ),
            (Phase::Fetching, Event::Fetched(head)) => (
                Phase::Collecting,
                Action::Respond { head, queue_len: FRAME_QUEUE_LEN },
            ),
            (Phase::Fetching, Event::FetchFailed) => (Phase::Aborted, Action::Abort(Fault::Fetch)),
            (Phase::Collecting, Event::Collected) => (
                Phase::Reading { len: Response::default().len },
                Action::Read,
            ),
            (Phase::Collecting, Event::CollectFailed) => (
                Phase::Aborted,
                Action::Abort(Fault::Collect),
            ),
            (Phase::Reading { len }, Event::Chunk(bytes)) => match len.checked_add(bytes.len()) {
                Some(len) => (
                    Phase::Throttling { len },
                    Action::Throttle { limiter: limiter.clone(), bytes },
                ),
                None => (Phase::Aborted, Action::Abort(Fault::Overflow)),
            },
            (Phase::Reading { len }, Event::End) => (
                Phase::Finished,
                Action::Record { stats: stats.clone(), response: Response { len } },
            ),
            (Phase::Throttling { len }, Event::Throttled(bytes)) => (
                Phase::Sending { len },
                Action::Send(bytes),
            ),
            (Phase::Throttling { .. }, Event::ThrottleFailed) => (
                Phase::Aborted,
                Action::Abort(Fault::Throttle),
            ),
            (Phase::Sending { len }, Event::Sent) => (Phase::Reading { len }, Action::Read),
            (Phase::Sending { .. }, Event::SendFailed) => (
                Phase::Aborted,
                Action::Abort(Fault::Send),
            ),
            _ => vstd::pervasive::unreached(),
        };
        (Exchange { limiter, stats, phase }, action)
    }
}

/// The end of an exchange that is given up.
pub open spec fn gives_up<B>(fault: Fault) -> (Phase<B>, Action<B>) {
    (Phase::Aborted, Action::Abort(fault))
}

/// Where a run of events leads from `start`, and the actions that it asks for.
pub open spec fn run<B>(start: Exchange<B>, events: Seq<Event>) -> (Exchange<B>, Seq<Action<B>>)
    decreases events.len(),
{
    if events.len() == 0 {
        (start, Seq::empty())
    } else {
        let (state, actions) = run(start, events.drop_last());
        let (end, action) = state.next(events.last());
        (end, actions.push(action))
    }
}

/// The run begins where an exchange does, and each event of it answers the
/// action before it.
pub open spec fn in_turn<B>(start: Exchange<B>, events: Seq<Event>) -> bool
    decreases events.len(),
{
    if events.len() == 0 {
        start.phase is Delaying
    } else {
        &&& in_turn(start, events.drop_last())
        &&& run(start, events.drop_last()).0.phase.expects(events.last())
    }
}

/// The limiter delays bytes and never changes them: what it lets through is
/// what it was given.
pub open spec fn limiter_is_faithful<B>(start: Exchange<B>, events: Seq<Event>) -> bool
    decreases events.len(),
{
    events.len() > 0 ==> {
        &&& limiter_is_faithful(start, events.drop_last())
        &&& events.last() matches Event::Throttled(out) ==> {
            let actions = run(start, events.drop_last()).1;
            &&& actions.len() > 0
            &&& actions.last() matches Action::Throttle { bytes, .. }
            &&& bytes@ == out@
        }
    }
}

/// The body that the file service gave, as far as it was read.
pub open spec fn body_read(events: Seq<Event>) -> Seq<u8>
    decreases events.len(),
{
    if events.len() == 0 {
        Seq::empty()
    } else {
        body_read(events.drop_last()) + match events.last() {
            Event::Chunk(bytes) => bytes@,
            _ => Seq::empty(),
        }
    }
}

/// The bytes that the client is sent.
pub open spec fn body_sent<B>(actions: Seq<Action<B>>) -> Seq<u8>
    decreases actions.len(),
{
    if actions.len() == 0 {
        Seq::empty()
    } else {
        body_sent(actions.drop_last()) + match actions.last() {
            Action::Send(bytes) => bytes@,
            _ => Seq::empty(),
        }
    }
}

/// The bytes that are put through the limiter.
pub open spec fn limiter_input<B>(actions: Seq<Action<B>>) -> Seq<u8>
    decreases actions.len(),
{
    if actions.len() == 0 {
        Seq::empty()
    } else {
        limiter_input(actions.drop_last()) + match actions.last() {
            Action::Throttle { bytes, .. } => bytes@,
            _ => Seq::empty(),
        }
    }
}

/// The bytes that the limiter lets through.
pub open spec fn limiter_output(events: Seq<Event>) -> Seq<u8>
    decreases events.len(),
{
    if events.len() == 0 {
        Seq::empty()
    } else {
        limiter_output(events.drop_last()) + match events.last() {
            Event::Throttled(bytes) => bytes@,
            _ => Seq::empty(),
        }
    }
}

/// The responses that are to be recorded.
pub open spec fn recorded<B>(actions: Seq<Action<B>>) -> Seq<Response>
    decreases actions.len(),
{
    if actions.len() == 0 {
        Seq::empty()
    } else {
        recorded(actions.drop_last()) + match actions.last() {
            Action::Record { response, .. } => seq![response],
            _ => Seq::empty(),
        }
    }
}

/// What has been read, counted and recorded after any run.
spec fn counts_hold<B>(phase: Phase<B>, events: Seq<Event>, actions: Seq<Action<B>>) -> bool {
    let read = body_read(events);
    match phase {
        Phase::Delaying { .. } => events.len() == 0 && recorded(actions) == Seq::<Response>::empty(),
        Phase::Fetching => {
            &&& events.len() == 1
            &&& read == Seq::<u8>::empty()
            &&& recorded(actions) == Seq::<Response>::empty()
        },
        Phase::Collecting => {
            &&& events.len() == 2
            &&& read == Seq::<u8>::empty()
            &&& recorded(actions) == Seq::<Response>::empty()
        },
        Phase::Reading { len } | Phase::Throttling { len } | Phase::Sending { len } => {
            &&& events.len() > 2
            &&& len == read.len()
            &&& recorded(actions) == Seq::<Response>::empty()
        },
        Phase::Finished => {
            &&& events.len() > 2
            &&& recorded(actions).len() == 1
            &&& recorded(actions)[0].len == read.len()
        },
        Phase::Aborted => events.len() > 1 && recorded(actions) == Seq::<Response>::empty(),
    }
}

/// How what was sent compares with what was read, after any run with a faithful
/// limiter.
spec fn bytes_hold<B>(phase: Phase<B>, events: Seq<Event>, actions: Seq<Action<B>>) -> bool {
    let read = body_read(events);
    let sent = body_sent(actions);
    match phase {
        Phase::Throttling { .. } => {
            &&& actions.len() > 0
            &&& actions.last() matches Action::Throttle { bytes, .. }
            &&& read == sent + bytes@
        },
        Phase::Aborted => sent.is_prefix_of(read),
        _ => sent == read,
    }
}

proof fn lemma_counts_hold<B>(start: Exchange<B>, events: Seq<Event>)
    requires
        in_turn(start, events),
    ensures
        counts_hold(run(start, events).0.phase, events, run(start, events).1),
        run(start, events).1.len() == events.len(),
    decreases events.len(),
{
    if events.len() > 0 {
        lemma_counts_hold(start, events.drop_last());
        let asked = run(start, events.drop_last()).1;
        assert(run(start, events).1.drop_last() =~= asked);
        let read = body_read(events.drop_last());
        assert(read + Seq::<u8>::empty() =~= read);
        assert(recorded(asked) + Seq::<Response>::empty() =~= recorded(asked));
    }
}

proof fn lemma_bytes_hold<B>(start: Exchange<B>, events: Seq<Event>)
    requires
        in_turn(start, events),
        limiter_is_faithful(start, events),
    ensures
        bytes_hold(run(start, events).0.phase, events, run(start, events).1),
    decreases events.len(),
{
    if events.len() > 0 {
        lemma_bytes_hold(start, events.drop_last());
        let asked = run(start, events.drop_last()).1;
        assert(run(start, events).1.drop_last() =~= asked);
        let read = body_read(events.drop_last());
        let sent = body_sent(asked);
        assert(sent + Seq::<u8>::empty() =~= sent);
        assert(read + Seq::<u8>::empty() =~= read);
    }
}

/// Performing what an exchange asks for is all that it takes to stay in turn:
/// what can come of the action that it asks for is what it expects next.
pub proof fn law_answers_are_in_turn<B>(state: Exchange<B>, event: Event, answer: Event)
    requires
        state.phase.expects(event),
    ensures
        state.next(event).0.phase.expects(answer) <==> state.next(event).1.answered_by(answer),
        state.next(event).0.phase.expects(answer) <==> match answer {
            Event::Slept => state.next(event).1 is Sleep,
            Event::Fetched(_) | Event::FetchFailed => state.next(event).1 is Fetch,
            Event::Collected | Event::CollectFailed => state.next(event).1 is Respond,
            Event::Chunk(_) | Event::End => state.next(event).1 is Read,
            Event::Throttled(_) | Event::ThrottleFailed => state.next(event).1 is Throttle,
            Event::Sent | Event::SendFailed => state.next(event).1 is Send,
        },
{
}

/// Each piece of the body is passed on whole and at once: from the file service
/// to the limiter of the exchange, from the limiter to the client, and once it is
/// sent the next one is read. When there is none left the response is recorded.
pub proof fn law_pieces_are_passed_on<B>(state: Exchange<B>, event: Event)
    requires
        state.phase.expects(event),
    ensures
        event is Collected || event is Sent ==> state.next(event).1 is Read,
        event matches Event::Chunk(piece) ==> match state.next(event).1 {
            Action::Throttle { limiter, bytes } => limiter == state.limiter && bytes == piece,
            Action::Abort(fault) => fault is Overflow,
            _ => false,
        },
        event matches Event::Throttled(piece) ==> state.next(event).1 == Action::<B>::Send(piece),
        event is End ==> match (state.phase, state.next(event).1) {
            (Phase::Reading { len }, Action::Record { stats, response }) => {
                &&& stats == state.stats
                &&& response.len == len
            },
            _ => false,
        },
{
}

/// An exchange that is given up names what failed.
pub proof fn law_fault_names_what_failed<B>(state: Exchange<B>, event: Event)
    requires
        state.phase.expects(event),
    ensures
        match state.next(event).1 {
            Action::Abort(Fault::Fetch) => event is FetchFailed,
            Action::Abort(Fault::Collect) => event is CollectFailed,
            Action::Abort(Fault::Throttle) => event is ThrottleFailed,
            Action::Abort(Fault::Send) => event is SendFailed,
            Action::Abort(Fault::Overflow) => event is Chunk,
            _ => !(event is FetchFailed || event is CollectFailed || event is ThrottleFailed
                || event is SendFailed),
        },
{
}

/// Nothing happens before the latency is over: the first thing that an exchange
/// takes in is the end of its latency. Only then is the request put to the file
/// service, unchanged, and it is put to it once.
pub proof fn law_latency_comes_first<B>(
    start: Exchange<B>,
    web_root: PathBuf,
    request: Request<B>,
    events: Seq<Event>,
    i: int,
)
    requires
        start.phase == (Phase::Delaying { web_root, request }),
        in_turn(start, events),
        0 <= i < events.len(),
    ensures
        run(start, events).1.len() == events.len(),
        events[i] is Slept <==> i == 0,
        if i == 0 {
            run(start, events).1[i] == (Action::Fetch { web_root, request })
        } else {
            !(run(start, events).1[i] is Fetch)
        },
    decreases events.len(),
{
    let before = events.drop_last();
    lemma_counts_hold(start, before);
    if i < before.len() {
        law_latency_comes_first(start, web_root, request, before, i);
    }
}

/// The head of the answer is the head that the file service gave, and the client
/// is answered once. Nothing that happens to the body, before or after, changes
/// that.
pub proof fn law_head_is_relayed<B>(start: Exchange<B>, events: Seq<Event>, i: int)
    requires
        in_turn(start, events),
        0 <= i < events.len(),
    ensures
        run(start, events).1.len() == events.len(),
        match events[i] {
            Event::Fetched(head) => {
                &&& i == 1
                &&& run(start, events).1[i] == (Action::<B>::Respond {
                    head,
                    queue_len: 8_192,
                })
            },
            _ => !(run(start, events).1[i] is Respond),
        },
    decreases events.len(),
{
    let before = events.drop_last();
    lemma_counts_hold(start, before);
    if i < before.len() {
        law_head_is_relayed(start, before, i);
    }
}

/// The client gets the body that the file service gave, byte for byte and in
/// order: at every moment what was sent is a prefix of what was read, and when
/// the exchange is finished it is all of it.
pub proof fn law_body_is_relayed<B>(start: Exchange<B>, events: Seq<Event>)
    requires
        in_turn(start, events),
        limiter_is_faithful(start, events),
    ensures
        ({
            let (state, actions) = run(start, events);
            &&& body_sent(actions).is_prefix_of(body_read(events))
            &&& state.phase is Finished ==> body_sent(actions) == body_read(events)
        }),
{
    lemma_bytes_hold(start, events);
}

/// No byte gets past the limiter: the client is sent what the limiter lets
/// through and nothing else, and the limiter is given the body as it was read,
/// except that a piece of a body that is too long to count is dropped.
pub proof fn law_every_byte_goes_through_the_limiter<B>(start: Exchange<B>, events: Seq<Event>)
    requires
        in_turn(start, events),
    ensures
        ({
            let (state, actions) = run(start, events);
            &&& body_sent(actions) == limiter_output(events)
            &&& limiter_input(actions).is_prefix_of(body_read(events))
            &&& !(state.phase is Aborted) || body_read(events).len() <= usize::MAX
                ==> limiter_input(actions) == body_read(events)
        }),
    decreases events.len(),
{
    if events.len() > 0 {
        law_every_byte_goes_through_the_limiter(start, events.drop_last());
        lemma_counts_hold(start, events.drop_last());
        let (before, asked) = run(start, events.drop_last());
        assert(run(start, events).1.drop_last() =~= asked);
        let read = body_read(events.drop_last());
        let sent = body_sent(asked);
        let given = limiter_input(asked);
        assert(sent + Seq::<u8>::empty() =~= sent);
        assert(read + Seq::<u8>::empty() =~= read);
        assert(given + Seq::<u8>::empty() =~= given);
        assert(!(before.phase is Aborted));
    }
}

/// An exchange keeps to the limiter and the statistics that it began with: all
/// its bytes go through that limiter, and it is recorded in those statistics.
pub proof fn law_handles_are_kept<B>(start: Exchange<B>, events: Seq<Event>, i: int)
    requires
        in_turn(start, events),
        0 <= i < events.len(),
    ensures
        run(start, events).0.limiter == start.limiter,
        run(start, events).0.stats == start.stats,
        run(start, events).1.len() == events.len(),
        match run(start, events).1[i] {
            Action::Throttle { limiter, .. } => limiter == start.limiter,
            Action::Record { stats, .. } => stats == start.stats,
            _ => true,
        },
    decreases events.len(),
{
    let before = events.drop_last();
    lemma_counts_hold(start, before);
    if before.len() > 0 {
        law_handles_are_kept(start, before, if i < before.len() { i } else { 0 });
    }
}

/// An exchange ends when it should and no sooner: it is finished when the body
/// has no more pieces, and given up when something fails or when the body is too
/// long to count.
pub proof fn law_when_an_exchange_ends<B>(start: Exchange<B>, events: Seq<Event>)
    requires
        in_turn(start, events),
    ensures
        run(start, events).0.phase is Finished <==> events.len() > 0 && events.last() is End,
        run(start, events).0.phase is Aborted <==> events.len() > 0 && (events.last() is FetchFailed
            || events.last() is CollectFailed || events.last() is ThrottleFailed
            || events.last() is SendFailed || (events.last() is Chunk && body_read(events).len()
            > usize::MAX)),
{
    if events.len() > 0 {
        lemma_counts_hold(start, events.drop_last());
    }
}

/// A finished exchange is recorded once, with the number of body bytes; one
/// that is under way or given up is not recorded.
pub proof fn law_finished_exchange_is_recorded_once<B>(start: Exchange<B>, events: Seq<Event>)
    requires
        in_turn(start, events),
    ensures
        ({
            let (state, actions) = run(start, events);
            if state.phase is Finished {
                &&& recorded(actions).len() == 1
                &&& recorded(actions)[0].len == body_read(events).len()
            } else {
                recorded(actions).len() == 0
            }
        }),
{
    lemma_counts_hold(start, events);
}

} // verus!
