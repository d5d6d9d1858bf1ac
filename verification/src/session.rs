//! The state machine of one accepted connection.
//!
//! A session never touches a socket. A driver performs the action that the
//! session hands out, reports what came of it as an event, and gets the next
//! action back, until the action is one that ends the session.
use vstd::prelude::*;
use crate::socket5::address::{Address, AddressView};
use crate::socket5::command::Command;
use crate::socket5::error::Error;
use crate::socket5::proxy::{Proxy, ProxyView};
use crate::socket5::reply::Reply;
use crate::socket5::shake_hands::{MethodChoice, ShakeHands};

verus! {

/// Where a session stands.
#[derive(Debug, PartialEq, Eq)]
pub enum State {
    /// The client's offer of methods is awaited.
    AwaitHandshake,
    /// The method is picked and the answer is on its way to the client.
    MethodChosen,
    /// The client's request is awaited.
    AwaitRequest,
    /// A connection to the requested address is being opened.
    Connecting(Address),
    /// Bytes flow between the client and the target.
    Relaying,
    /// The session is over.
    Closed,
}

/// The model of a [`State`].
pub enum StateView {
    AwaitHandshake,
    MethodChosen,
    AwaitRequest,
    Connecting(AddressView),
    Relaying,
    Closed,
}

impl View for State {
    type V = StateView;

    open spec fn view(&self) -> StateView {
        match *self {
            State::AwaitHandshake => StateView::AwaitHandshake,
            State::MethodChosen => StateView::MethodChosen,
            State::AwaitRequest => StateView::AwaitRequest,
            State::Connecting(address) => StateView::Connecting(address@),
            State::Relaying => StateView::Relaying,
            State::Closed => StateView::Closed,
        }
    }
}

impl StateView {
    /// How far a session has come: every step leads to a higher rank.
    pub open spec fn rank(self) -> nat {
        match self {
            StateView::AwaitHandshake => 0,
            StateView::MethodChosen => 1,
            StateView::AwaitRequest => 2,
            StateView::Connecting(_) => 3,
            StateView::Relaying => 4,
            StateView::Closed => 5,
        }
    }

    /// An address that the session keeps can go on the wire.
    pub open spec fn wf(self) -> bool {
        self matches StateView::Connecting(address) ==> address.wf()
    }
}

/// What the driver reports after it has performed an action.
#[derive(Debug, PartialEq, Eq)]
pub enum Event {
    /// An offer of methods was read.
    Handshake(ShakeHands),
    /// The bytes of a `Send` were written to the client.
    Written,
    /// A request was read.
    Request(Proxy),
    /// The connection to the target is open.
    Connected,
    /// The action failed: the read or its decoding, the write, or the connect.
    Failed(Error),
    /// The relay has ended.
    Finished,
}

/// The model of an [`Event`].
pub enum EventView {
    Handshake(Seq<u8>),
    Written,
    Request(ProxyView),
    Connected,
    Failed(Error),
    Finished,
}

impl View for Event {
    type V = EventView;

    open spec fn view(&self) -> EventView {
        match *self {
            Event::Handshake(offer) => EventView::Handshake(offer@),
            Event::Written => EventView::Written,
            Event::Request(request) => EventView::Request(request@),
            Event::Connected => EventView::Connected,
            Event::Failed(e) => EventView::Failed(e),
            Event::Finished => EventView::Finished,
        }
    }
}

impl EventView {
    /// A request that is reported has an address that can go on the wire,
    /// as every decoded request has.
    pub open spec fn wf(self) -> bool {
        self matches EventView::Request(request) ==> request.wf()
    }
}

impl Event {
    /// Whether the event may be handed to a session.
    pub fn is_wf(&self) -> (b: bool)
        ensures
            b == self@.wf(),
    {
        match self {
            Event::Request(request) => request.is_wf(),
            _ => true,
        }
    }
}

/// What the driver is to do next.
#[derive(Debug, PartialEq, Eq)]
pub enum Action {
    /// Read an offer of methods from the client and report it.
    ReadHandshake,
    /// Write these bytes to the client and report `Written`.
    Send(Vec<u8>),
    /// Read a request from the client and report it.
    ReadRequest,
    /// Open a connection to this address and report `Connected`.
    Connect(Address),
    /// Write these bytes to the client, then move bytes both ways between the
    /// client and the target until either side ends or fails, and report `Finished`.
    Relay(Vec<u8>),
    /// Write these bytes to the client and close the connection.
    Reject(Vec<u8>),
    /// Close the connection and write nothing.
    Close,
}

/// The model of an [`Action`].
pub enum ActionView {
    ReadHandshake,
    Send(Seq<u8>),
    ReadRequest,
    Connect(AddressView),
    Relay(Seq<u8>),
    Reject(Seq<u8>),
    Close,
}

impl View for Action {
    type V = ActionView;

    open spec fn view(&self) -> ActionView {
        match *self {
            Action::ReadHandshake => ActionView::ReadHandshake,
            Action::Send(bytes) => ActionView::Send(bytes@),
            Action::ReadRequest => ActionView::ReadRequest,
            Action::Connect(address) => ActionView::Connect(address@),
            Action::Relay(bytes) => ActionView::Relay(bytes@),
            Action::Reject(bytes) => ActionView::Reject(bytes@),
            Action::Close => ActionView::Close,
        }
    }
}

impl ActionView {
    /// The bytes that the action puts on the client's stream.
    pub open spec fn output(self) -> Seq<u8> {
        match self {
            ActionView::Send(bytes) => bytes,
            ActionView::Relay(bytes) => bytes,
            ActionView::Reject(bytes) => bytes,
            _ => Seq::empty(),
        }
    }
}

/// The reply that tells the client of an error. It carries the address `0.0.0.0:0`.
pub open spec fn refusal(e: Error) -> Seq<u8> {
    e.reply().wire(AddressView::unspecified())
}

/// The answer to every offer: "no authentication".
pub open spec fn method_answer() -> Seq<u8> {
    (MethodChoice { method: crate::socket5::constant::METHOD_NO_AUTHENTICATION }).wire()
}

/// How a failed read ends the session: silently where the client's stream
/// itself failed, with a reply where only the message was at fault.
pub open spec fn after_failed_read(e: Error) -> (StateView, ActionView) {
    if e == Error::IoError {
        (StateView::Closed, ActionView::Close)
    } else {
        (StateView::Closed, ActionView::Reject(refusal(e)))
    }
}

/// Assembles a reply.
pub fn reply_bytes(reply: Reply, address: &Address) -> (bytes: Vec<u8>)
    requires
        address@.wf(),
    ensures
        bytes@ == reply.wire(address@),
{
    let mut bytes: Vec<u8> = Vec::new();
    reply.write(address, &mut bytes);
    assert(bytes@ =~= reply.wire(address@));
    bytes
}

/// Assembles the reply that tells the client of an error.
pub fn refusal_bytes(e: Error) -> (bytes: Vec<u8>)
    ensures
        bytes@ == refusal(e),
{
    let zero = Address::unspecified();
    reply_bytes(e.to_reply(), &zero)
}

/// One accepted connection on its way from the handshake to the relay.
#[derive(Debug)]
pub struct Session {
    state: State,
}

impl View for Session {
    type V = StateView;

    closed spec fn view(&self) -> StateView {
        self.state@
    }
}

impl Session {
    #[verifier::type_invariant]
    spec fn inv(self) -> bool {
        self.state@.wf()
    }

    /// The transition function: the state that follows and the action to
    /// perform when `event` is reported in `state`.
    ///
    /// An event that the state does not wait for closes the session, and so
    /// does every failure: silently where the client's stream is at fault,
    /// after a reply where the request or the connect is.
    pub open spec fn next(state: StateView, event: EventView) -> (StateView, ActionView) {
        match state {
            StateView::AwaitHandshake => match event {
                EventView::Handshake(_) => (
                    StateView::MethodChosen,
                    ActionView::Send(method_answer()),
                ),
                EventView::Failed(e) => after_failed_read(e),
                _ => (StateView::Closed, ActionView::Close),
            },
            StateView::MethodChosen => match event {
                EventView::Written => (StateView::AwaitRequest, ActionView::ReadRequest),
                _ => (StateView::Closed, ActionView::Close),
            },
            StateView::AwaitRequest => match event {
                EventView::Request(request) => if request.command == Command::CONNECT {
                    (StateView::Connecting(request.address), ActionView::Connect(request.address))
                } else {
                    (StateView::Closed, ActionView::Close)
                },
                EventView::Failed(e) => after_failed_read(e),
                _ => (StateView::Closed, ActionView::Close),
            },
            StateView::Connecting(address) => match event {
                EventView::Connected => (
                    StateView::Relaying,
                    ActionView::Relay(Reply::RepSuccess.wire(address)),
                ),
                EventView::Failed(e) => (StateView::Closed, ActionView::Reject(refusal(e))),
                _ => (StateView::Closed, ActionView::Close),
            },
            StateView::Relaying => (StateView::Closed, ActionView::Close),
            StateView::Closed => (StateView::Closed, ActionView::Close),
        }
    }

    /// A session for a connection that was just accepted, and its first action.
    pub fn open() -> (r: (Session, Action))
        ensures
            r.0@ == StateView::AwaitHandshake,
            r.1@ == ActionView::ReadHandshake,
    {
        (Session { state: State::AwaitHandshake }, Action::ReadHandshake)
    }

    /// The state that the session is in.
    pub fn state(&self) -> (s: &State)
        ensures
            s@ == self@,
            s@.wf(),
    {
        proof {
            use_type_invariant(self);
        }
        &self.state
    }

    /// Whether the session is over.
    pub fn is_closed(&self) -> (b: bool)
        ensures
            b == (self@ == StateView::Closed),
    {
        match self.state {
            State::Closed => true,
            _ => false,
        }
    }

    /// Takes the event that the driver reports and gives the session as it
    /// stands after it, with the next action.
    pub fn step(self, event: Event) -> (r: (Session, Action))
        requires
            event@.wf(),
        ensures
            (r.0@, r.1@) == Session::next(self@, event@),
    {
        proof {
            use_type_invariant(&self);
        }
        match self.state {
            State::AwaitHandshake => match event {
                Event::Handshake(offer) => {
                    let mut bytes: Vec<u8> = Vec::new();
                    offer.select().write(&mut bytes);
                    assert(bytes@ =~= method_answer());
                    (Session { state: State::MethodChosen }, Action::Send(bytes))
                },
                Event::Failed(e) => Session::fail_read(e),
                _ => (Session { state: State::Closed }, Action::Close),
            },
            State::MethodChosen => match event {
                Event::Written => (Session { state: State::AwaitRequest }, Action::ReadRequest),
                _ => (Session { state: State::Closed }, Action::Close),
            },
            State::AwaitRequest => match event {
                Event::Request(request) => match request.command {
                    Command::CONNECT => {
                        let target = request.address.clone();
                        (
                            Session { state: State::Connecting(request.address) },
                            Action::Connect(target),
                        )
                    },
                    _ => (Session { state: State::Closed }, Action::Close),
                },
                Event::Failed(e) => Session::fail_read(e),
                _ => (Session { state: State::Closed }, Action::Close),
            },
            State::Connecting(address) => match event {
                Event::Connected => (
                    Session { state: State::Relaying },
                    Action::Relay(reply_bytes(Reply::RepSuccess, &address)),
                ),
                Event::Failed(e) => (
                    Session { state: State::Closed },
                    Action::Reject(refusal_bytes(e)),
                ),
                _ => (Session { state: State::Closed }, Action::Close),
            },
            State::Relaying => (Session { state: State::Closed }, Action::Close),
            State::Closed => (Session { state: State::Closed }, Action::Close),
        }
    }

    fn fail_read(e: Error) -> (r: (Session, Action))
        ensures
            (r.0@, r.1@) == after_failed_read(e),
    {
        match e {
            Error::IoError => (Session { state: State::Closed }, Action::Close),
            _ => (Session { state: State::Closed }, Action::Reject(refusal_bytes(e))),
        }
    }

    /// Closed is final: whatever is reported, the session stays closed and
    /// nothing more is written.
    pub proof fn lemma_closed_is_final(event: EventView)
        ensures
            Session::next(StateView::Closed, event) == (StateView::Closed, ActionView::Close),
    {
    }

    /// A failure in any state closes the session at once, and so does the
    /// end of the relay; no step is tried a second time.
    pub proof fn lemma_failure_closes(state: StateView, e: Error)
        ensures
            Session::next(state, EventView::Failed(e)).0 == StateView::Closed,
            Session::next(state, EventView::Finished).0 == StateView::Closed,
            !(Session::next(state, EventView::Failed(e)).1 is Relay),
            e == Error::IoError && !(state is Connecting) ==> Session::next(
                state,
                EventView::Failed(e),
            ).1 == ActionView::Close,
    {
    }

    /// A session only moves forward: every step of a session that is not
    /// closed leads to a later state, and well-formedness is kept.
    pub proof fn lemma_forward(state: StateView, event: EventView)
        requires
            state.wf(),
            event.wf(),
        ensures
            state != StateView::Closed ==> Session::next(state, event).0.rank() > state.rank(),
            Session::next(state, event).0.wf(),
    {
    }

    /// What each action presupposes. A connection is opened only for a
    /// CONNECT request and to the address requested; the relay starts only
    /// once that connection is open, behind a success reply that echoes the
    /// address; the method answer is the only thing sent in between.
    pub proof fn lemma_action_origin(state: StateView, event: EventView)
        ensures
            match Session::next(state, event).1 {
                ActionView::ReadHandshake => false,
                ActionView::Send(bytes) => state == StateView::AwaitHandshake && event is Handshake
                    && bytes == method_answer(),
                ActionView::ReadRequest => state == StateView::MethodChosen && event
                    == EventView::Written,
                ActionView::Connect(address) => state == StateView::AwaitRequest && event
                    == EventView::Request(ProxyView { command: Command::CONNECT, address }),
                ActionView::Relay(bytes) => state is Connecting && event == EventView::Connected
                    && bytes == Reply::RepSuccess.wire(state->Connecting_0),
                ActionView::Reject(bytes) => event is Failed && bytes == refusal(event->Failed_0),
                ActionView::Close => true,
            },
    {
    }

    /// A request to BIND or for UDP ASSOCIATE ends the session with nothing
    /// written and nothing relayed.
    pub proof fn lemma_unsupported_command_closes(request: ProxyView)
        requires
            request.command != Command::CONNECT,
        ensures
            Session::next(StateView::AwaitRequest, EventView::Request(request)) == (
                StateView::Closed,
                ActionView::Close,
            ),
    {
    }
}

/// Where a session that starts in `state` stands after the driver has
/// reported `events` in this order, and the actions that it handed out.
pub open spec fn run(state: StateView, events: Seq<EventView>) -> (StateView, Seq<ActionView>)
    decreases events.len(),
{
    if events.len() == 0 {
        (state, Seq::empty())
    } else {
        let (then, action) = Session::next(state, events[0]);
        let (last, actions) = run(then, events.drop_first());
        (last, seq![action] + actions)
    }
}

/// All that the actions put on the client's stream, in order.
pub open spec fn transcript(actions: Seq<ActionView>) -> Seq<u8>
    decreases actions.len(),
{
    if actions.len() == 0 {
        Seq::empty()
    } else {
        actions[0].output() + transcript(actions.drop_first())
    }
}

/// The events of two sessions as they reach a server that serves both: each
/// is marked with whether it belongs to the first.
pub open spec fn events_of(events: Seq<(bool, EventView)>, first: bool) -> Seq<EventView>
    decreases events.len(),
{
    if events.len() == 0 {
        Seq::empty()
    } else {
        let head = if events[0].0 == first {
            seq![events[0].1]
        } else {
            Seq::empty()
        };
        head + events_of(events.drop_first(), first)
    }
}

/// Two sessions served side by side: every event moves the session that it
/// belongs to and leaves the other as it is.
pub open spec fn run_two(a: StateView, b: StateView, events: Seq<(bool, EventView)>) -> (
    (StateView, Seq<ActionView>),
    (StateView, Seq<ActionView>),
)
    decreases events.len(),
{
    if events.len() == 0 {
        ((a, Seq::empty()), (b, Seq::empty()))
    } else if events[0].0 {
        let (then, action) = Session::next(a, events[0].1);
        let (first, second) = run_two(then, b, events.drop_first());
        ((first.0, seq![action] + first.1), second)
    } else {
        let (then, action) = Session::next(b, events[0].1);
        let (first, second) = run_two(a, then, events.drop_first());
        (first, (second.0, seq![action] + second.1))
    }
}

/// A run that begins with `first` is the step for `first`, then the run of the rest.
pub proof fn lemma_run_unfolds(state: StateView, first: EventView, rest: Seq<EventView>)
    ensures
        run(state, seq![first] + rest) == (
            run(Session::next(state, first).0, rest).0,
            seq![Session::next(state, first).1] + run(Session::next(state, first).0, rest).1,
        ),
{
    let events = seq![first] + rest;
    assert(events.drop_first() =~= rest);
}

/// What a list of actions writes is what its first action writes, then what the others do.
pub proof fn lemma_transcript_unfolds(first: ActionView, rest: Seq<ActionView>)
    ensures
        transcript(seq![first] + rest) == first.output() + transcript(rest),
{
    let actions = seq![first] + rest;
    assert(actions.drop_first() =~= rest);
}

/// A session that has got as far as a CONNECT request, whatever methods were
/// offered and whatever the address: it has answered the offer, and asks for
/// a connection to the address requested.
pub proof fn lemma_run_to_connect(offer: Seq<u8>, address: AddressView)
    ensures
        run(
            StateView::AwaitHandshake,
            seq![
                EventView::Handshake(offer),
                EventView::Written,
                EventView::Request(ProxyView { command: Command::CONNECT, address }),
            ],
        ) == (
            StateView::Connecting(address),
            seq![
                ActionView::Send(method_answer()),
                ActionView::ReadRequest,
                ActionView::Connect(address),
            ],
        ),
{
    let e0 = EventView::Handshake(offer);
    let e1 = EventView::Written;
    let e2 = EventView::Request(ProxyView { command: Command::CONNECT, address });
    let none = Seq::<EventView>::empty();
    lemma_run_unfolds(StateView::AwaitRequest, e2, none);
    lemma_run_unfolds(StateView::MethodChosen, e1, seq![e2] + none);
    lemma_run_unfolds(StateView::AwaitHandshake, e0, seq![e1] + (seq![e2] + none));
    assert(seq![e0, e1, e2] =~= seq![e0] + (seq![e1] + (seq![e2] + none)));
    assert(seq![ActionView::Send(method_answer())] + (seq![ActionView::ReadRequest] + (seq![
        ActionView::Connect(address),
    ] + Seq::<ActionView>::empty())) =~= seq![
        ActionView::Send(method_answer()),
        ActionView::ReadRequest,
        ActionView::Connect(address),
    ]);
}

/// A run goes on where the run of its first part ended.
pub proof fn lemma_run_continues(state: StateView, first: Seq<EventView>, second: Seq<EventView>)
    ensures
        run(state, first + second) == (
            run(run(state, first).0, second).0,
            run(state, first).1 + run(run(state, first).0, second).1,
        ),
    decreases first.len(),
{
    if first.len() == 0 {
        assert(first + second =~= second);
        assert(Seq::<ActionView>::empty() + run(state, second).1 =~= run(state, second).1);
    } else {
        let then = Session::next(state, first[0]).0;
        let action = Session::next(state, first[0]).1;
        assert((first + second).drop_first() =~= first.drop_first() + second);
        lemma_run_continues(then, first.drop_first(), second);
        assert(seq![action] + (run(then, first.drop_first()).1 + run(
            run(then, first.drop_first()).0,
            second,
        ).1) =~= (seq![action] + run(then, first.drop_first()).1) + run(
            run(then, first.drop_first()).0,
            second,
        ).1);
    }
}

/// The whole of a session that relays, for every offer and every address:
/// the client is sent the method answer, then the success reply that echoes
/// the address it asked for, and nothing else until the relay takes over;
/// when the relay ends the session is closed.
pub proof fn lemma_connect_session(offer: Seq<u8>, address: AddressView)
    ensures
        run(
            StateView::AwaitHandshake,
            seq![
                EventView::Handshake(offer),
                EventView::Written,
                EventView::Request(ProxyView { command: Command::CONNECT, address }),
                EventView::Connected,
                EventView::Finished,
            ],
        ) == (
            StateView::Closed,
            seq![
                ActionView::Send(method_answer()),
                ActionView::ReadRequest,
                ActionView::Connect(address),
                ActionView::Relay(Reply::RepSuccess.wire(address)),
                ActionView::Close,
            ],
        ),
        transcript(
            seq![
                ActionView::Send(method_answer()),
                ActionView::ReadRequest,
                ActionView::Connect(address),
                ActionView::Relay(Reply::RepSuccess.wire(address)),
                ActionView::Close,
            ],
        ) == method_answer() + Reply::RepSuccess.wire(address),
{
    let e0 = EventView::Handshake(offer);
    let e1 = EventView::Written;
    let e2 = EventView::Request(ProxyView { command: Command::CONNECT, address });
    let e3 = EventView::Connected;
    let e4 = EventView::Finished;
    let a0 = ActionView::Send(method_answer());
    let a1 = ActionView::ReadRequest;
    let a2 = ActionView::Connect(address);
    let a3 = ActionView::Relay(Reply::RepSuccess.wire(address));
    let a4 = ActionView::Close;
    let no_event = Seq::<EventView>::empty();
    let no_action = Seq::<ActionView>::empty();
    lemma_run_to_connect(offer, address);
    lemma_run_unfolds(StateView::Relaying, e4, no_event);
    lemma_run_unfolds(StateView::Connecting(address), e3, seq![e4] + no_event);
    lemma_run_continues(StateView::AwaitHandshake, seq![e0, e1, e2], seq![e3] + (seq![e4] + no_event));
    assert(seq![e0, e1, e2, e3, e4] =~= seq![e0, e1, e2] + (seq![e3] + (seq![e4] + no_event)));
    assert(seq![a0, a1, a2] + (seq![a3] + (seq![a4] + no_action)) =~= seq![a0, a1, a2, a3, a4]);

    lemma_transcript_unfolds(a4, no_action);
    lemma_transcript_unfolds(a3, seq![a4] + no_action);
    lemma_transcript_unfolds(a2, seq![a3] + (seq![a4] + no_action));
    lemma_transcript_unfolds(a1, seq![a2] + (seq![a3] + (seq![a4] + no_action)));
    lemma_transcript_unfolds(a0, seq![a1] + (seq![a2] + (seq![a3] + (seq![a4] + no_action))));
    assert(seq![a0, a1, a2, a3, a4] =~= seq![a0] + (seq![a1] + (seq![a2] + (seq![a3] + (seq![a4]
        + no_action)))));
    assert(transcript(seq![a0, a1, a2, a3, a4]) =~= method_answer() + Reply::RepSuccess.wire(
        address,
    ));
}

/// The whole of a session whose connect fails, for every offer, address and
/// error: after the method answer the client is sent the reply for the
/// error, the session is closed, and no relay was started.
pub proof fn lemma_failed_connect_session(offer: Seq<u8>, address: AddressView, e: Error)
    ensures
        run(
            StateView::AwaitHandshake,
            seq![
                EventView::Handshake(offer),
                EventView::Written,
                EventView::Request(ProxyView { command: Command::CONNECT, address }),
                EventView::Failed(e),
            ],
        ) == (
            StateView::Closed,
            seq![
                ActionView::Send(method_answer()),
                ActionView::ReadRequest,
                ActionView::Connect(address),
                ActionView::Reject(refusal(e)),
            ],
        ),
{
    let e0 = EventView::Handshake(offer);
    let e1 = EventView::Written;
    let e2 = EventView::Request(ProxyView { command: Command::CONNECT, address });
    let e3 = EventView::Failed(e);
    let no_event = Seq::<EventView>::empty();
    lemma_run_to_connect(offer, address);
    lemma_run_unfolds(StateView::Connecting(address), e3, no_event);
    lemma_run_continues(StateView::AwaitHandshake, seq![e0, e1, e2], seq![e3] + no_event);
    assert(seq![e0, e1, e2, e3] =~= seq![e0, e1, e2] + (seq![e3] + no_event));
    assert(seq![
        ActionView::Send(method_answer()),
        ActionView::ReadRequest,
        ActionView::Connect(address),
    ] + (seq![ActionView::Reject(refusal(e))] + Seq::<ActionView>::empty()) =~= seq![
        ActionView::Send(method_answer()),
        ActionView::ReadRequest,
        ActionView::Connect(address),
        ActionView::Reject(refusal(e)),
    ]);
}

/// Once a session is closed, nothing that is reported makes it write again.
pub proof fn lemma_closed_run_is_silent(events: Seq<EventView>)
    ensures
        run(StateView::Closed, events).0 == StateView::Closed,
        transcript(run(StateView::Closed, events).1) == Seq::<u8>::empty(),
    decreases events.len(),
{
    if events.len() > 0 {
        lemma_closed_run_is_silent(events.drop_first());
        let rest = run(StateView::Closed, events.drop_first()).1;
        lemma_transcript_unfolds(ActionView::Close, rest);
    }
}

/// Two sessions that are served side by side do not touch each other:
/// however their events interleave, each ends where it would have ended
/// alone and hands out the actions, and so the bytes, that it would have
/// handed out alone.
pub proof fn lemma_sessions_are_apart(a: StateView, b: StateView, events: Seq<(bool, EventView)>)
    ensures
        run_two(a, b, events).0 == run(a, events_of(events, true)),
        run_two(a, b, events).1 == run(b, events_of(events, false)),
    decreases events.len(),
{
    if events.len() > 0 {
        let event = events[0].1;
        let rest = events.drop_first();
        let none = Seq::<EventView>::empty();
        if events[0].0 {
            let then = Session::next(a, event).0;
            lemma_sessions_are_apart(then, b, rest);
            lemma_run_unfolds(a, event, events_of(rest, true));
            assert(none + events_of(rest, false) =~= events_of(rest, false));
        } else {
            let then = Session::next(b, event).0;
            lemma_sessions_are_apart(a, then, rest);
            lemma_run_unfolds(b, event, events_of(rest, false));
            assert(none + events_of(rest, true) =~= events_of(rest, true));
        }
    }
}

} // verus!
