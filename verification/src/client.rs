//! The client's sequence: wait, connect, greet once, then count ten times,
//! pausing before each count, and stop at the first failure.
//!
//! The client itself sleeps, connects and calls in the program around this
//! library. Here are its decisions: [`start`] says what to do first, and
//! [`step`] what to do after each thing that happened.

use vstd::prelude::*;
use vstd::string::*;
use crate::error::{CallId, ClientError, ClientErrorView};
use crate::hello_world::{CountReply, CountRequest, HelloReply, HelloRequest};
use crate::server::SERVER_PORT;
use crate::text::{append_decimal, decimal};

verus! {

/// How long the client waits before it connects, in milliseconds. The wait
/// stands in for a sign that the server is ready: a server that takes longer
/// to listen is met with a failed connection.
pub const STARTUP_DELAY_MILLIS: u64 = 500;

/// How long the client waits before each call of `GetCount`, in
/// milliseconds.
pub const CALL_SPACING_MILLIS: u64 = 100;

/// How many calls of `GetCount` the client makes.
pub const COUNT_CALLS: u32 = 10;

/// The name that the client greets with.
pub const CLIENT_NAME: &'static str = "Alice";

/// The server's address as the client sees it, up to the port.
pub const ENDPOINT_PREFIX: &'static str = "http://127.0.0.1:";

/// The endpoint that the client connects to: this machine, on the port that
/// the server listens on.
pub open spec fn endpoint() -> Seq<char> {
    ENDPOINT_PREFIX@ + decimal(SERVER_PORT as nat)
}

/// Where the client stands in its sequence.
#[derive(Clone, Copy, Debug, PartialEq, Eq, Structural)]
pub enum ClientState {
    /// It waits for the startup delay to pass.
    StartingUp,
    /// It has asked for a connection and waits for the answer.
    Connecting,
    /// It has called `SayHello` and waits for the outcome.
    AwaitingHello,
    /// It waits for the pause before the count call `index` to pass.
    Pausing { index: u32 },
    /// It has made the count call `index` and waits for the outcome.
    AwaitingCount { index: u32 },
    /// Every call has been answered.
    Finished,
    /// A failure has ended the sequence.
    Failed,
}

impl ClientState {
    /// A count call that the state speaks of is one of the
    /// [`COUNT_CALLS`] calls.
    pub open spec fn wf(self) -> bool {
        match self {
            ClientState::Pausing { index } => index < COUNT_CALLS,
            ClientState::AwaitingCount { index } => index < COUNT_CALLS,
            _ => true,
        }
    }

    /// The call whose outcome the client waits for, if it waits for one.
    pub open spec fn spec_call_in_flight(self) -> Option<CallId> {
        match self {
            ClientState::AwaitingHello => Some(CallId::SayHello),
            ClientState::AwaitingCount { index } => Some(CallId::GetCount { index }),
            _ => None,
        }
    }

    /// The call whose outcome the client waits for, if it waits for one.
    #[verifier::when_used_as_spec(spec_call_in_flight)]
    pub fn call_in_flight(self) -> (call: Option<CallId>)
        ensures
            call == self.spec_call_in_flight(),
    {
        match self {
            ClientState::AwaitingHello => Some(CallId::SayHello),
            ClientState::AwaitingCount { index } => Some(CallId::GetCount { index }),
            _ => None,
        }
    }

    /// Whether the sequence is over, in success or in failure.
    pub open spec fn spec_is_over(self) -> bool {
        self is Finished || self is Failed
    }

    /// Whether the sequence is over, in success or in failure.
    #[verifier::when_used_as_spec(spec_is_over)]
    pub fn is_over(self) -> (over: bool)
        ensures
            over == self.spec_is_over(),
    {
        match self {
            ClientState::Finished => true,
            ClientState::Failed => true,
            _ => false,
        }
    }
}

/// What happened to the client.
#[derive(Clone, Debug, PartialEq, Eq)]
pub enum ClientEvent {
    /// The delay that the client asked for has passed.
    TimerElapsed,
    /// The connection stands.
    Connected,
    /// No connection could be made.
    ConnectFailed { reason: String },
    /// `SayHello` was answered.
    HelloReplied(HelloReply),
    /// `GetCount` was answered.
    CountReplied(CountReply),
    /// The call in flight failed.
    CallFailed { reason: String },
}

/// What happened to the client, as a mathematical value.
pub enum ClientEventView {
    TimerElapsed,
    Connected,
    ConnectFailed { reason: Seq<char> },
    HelloReplied { message: Seq<char> },
    CountReplied { count: int },
    CallFailed { reason: Seq<char> },
}

impl View for ClientEvent {
    type V = ClientEventView;

    open spec fn view(&self) -> ClientEventView {
        match self {
            ClientEvent::TimerElapsed => ClientEventView::TimerElapsed,
            ClientEvent::Connected => ClientEventView::Connected,
            ClientEvent::ConnectFailed { reason } => ClientEventView::ConnectFailed {
                reason: reason@,
            },
            ClientEvent::HelloReplied(reply) => ClientEventView::HelloReplied { message: reply@ },
            ClientEvent::CountReplied(reply) => ClientEventView::CountReplied { count: reply@ },
            ClientEvent::CallFailed { reason } => ClientEventView::CallFailed { reason: reason@ },
        }
    }
}

/// The outcome of one call: its answer, or which call failed and why.
#[derive(Clone, Debug, PartialEq, Eq)]
pub enum CallOutcome {
    /// `SayHello` was answered with this reply.
    Greeted(HelloReply),
    /// The count call `index` was answered with this reply.
    Counted { index: u32, reply: CountReply },
    /// This call failed, for this reason.
    Failed { call: CallId, reason: String },
}

/// The outcome of one call as a mathematical value.
pub enum CallOutcomeView {
    Greeted { message: Seq<char> },
    Counted { index: u32, count: int },
    Failed { call: CallId, reason: Seq<char> },
}

impl View for CallOutcome {
    type V = CallOutcomeView;

    open spec fn view(&self) -> CallOutcomeView {
        match self {
            CallOutcome::Greeted(reply) => CallOutcomeView::Greeted { message: reply@ },
            CallOutcome::Counted { index, reply } => CallOutcomeView::Counted {
                index: *index,
                count: reply@,
            },
            CallOutcome::Failed { call, reason } => CallOutcomeView::Failed {
                call: *call,
                reason: reason@,
            },
        }
    }
}

impl CallOutcomeView {
    /// The call that the outcome is the outcome of.
    pub open spec fn call(self) -> CallId {
        match self {
            CallOutcomeView::Greeted { .. } => CallId::SayHello,
            CallOutcomeView::Counted { index, .. } => CallId::GetCount { index },
            CallOutcomeView::Failed { call, .. } => call,
        }
    }
}

/// The outcome that `event` brings to a client in `state`: that of the call
/// in flight, where there is one and `event` answers or fails it.
pub open spec fn call_outcome(state: ClientState, event: ClientEventView) -> Option<
    CallOutcomeView,
> {
    match (state.spec_call_in_flight(), event) {
        (Some(CallId::SayHello), ClientEventView::HelloReplied { message }) => Some(
            CallOutcomeView::Greeted { message },
        ),
        (Some(CallId::GetCount { index }), ClientEventView::CountReplied { count }) => Some(
            CallOutcomeView::Counted { index, count },
        ),
        (Some(call), ClientEventView::CallFailed { reason }) => Some(
            CallOutcomeView::Failed { call, reason },
        ),
        _ => None,
    }
}

/// What the client is to do next.
#[derive(Clone, Debug, PartialEq, Eq)]
pub enum ClientAction {
    /// Wait this long, then report that the timer has elapsed.
    Sleep { millis: u64 },
    /// Connect to the server at this endpoint.
    Connect { endpoint: String },
    /// Call `SayHello` with this request.
    SayHello(HelloRequest),
    /// Call `GetCount` with this request.
    GetCount(CountRequest),
    /// End without a failure.
    Finish,
    /// End with this failure, handing it to the coordinator.
    Fail(ClientError),
}

/// What the client is to do next, as a mathematical value.
pub enum ClientActionView {
    Sleep { millis: u64 },
    Connect { endpoint: Seq<char> },
    SayHello { name: Seq<char> },
    GetCount,
    Finish,
    Fail(ClientErrorView),
}

impl View for ClientAction {
    type V = ClientActionView;

    open spec fn view(&self) -> ClientActionView {
        match self {
            ClientAction::Sleep { millis } => ClientActionView::Sleep { millis: *millis },
            ClientAction::Connect { endpoint } => ClientActionView::Connect {
                endpoint: endpoint@,
            },
            ClientAction::SayHello(request) => ClientActionView::SayHello { name: request@ },
            ClientAction::GetCount(_) => ClientActionView::GetCount,
            ClientAction::Finish => ClientActionView::Finish,
            ClientAction::Fail(error) => ClientActionView::Fail(error@),
        }
    }
}

impl ClientActionView {
    /// Whether the action is a call of one of the service's procedures.
    pub open spec fn is_call(self) -> bool {
        self is SayHello || self is GetCount
    }
}

/// What follows an answered count call `index`: the pause before the next
/// call, or the end after the last.
pub open spec fn after_count(index: u32) -> (ClientState, ClientActionView) {
    if index < COUNT_CALLS - 1 {
        (
            ClientState::Pausing { index: (index + 1) as u32 },
            ClientActionView::Sleep { millis: CALL_SPACING_MILLIS },
        )
    } else {
        (ClientState::Finished, ClientActionView::Finish)
    }
}

/// The client's rule: where it stands after `event` and what it does next,
/// or `None` where `event` is not one that `state` waits for.
///
/// A timer sets off what the client was waiting to do. An answer moves the
/// sequence on by one call. A failure ends the sequence, and the failure of a
/// call names the call that was in flight.
pub open spec fn client_step(state: ClientState, event: ClientEventView) -> Option<
    (ClientState, ClientActionView),
> {
    match event {
        ClientEventView::TimerElapsed => match state {
            ClientState::StartingUp => Some(
                (ClientState::Connecting, ClientActionView::Connect { endpoint: endpoint() }),
            ),
            ClientState::Pausing { index } => Some(
                (ClientState::AwaitingCount { index }, ClientActionView::GetCount),
            ),
            _ => None,
        },
        ClientEventView::Connected => if state is Connecting {
            Some((ClientState::AwaitingHello, ClientActionView::SayHello { name: CLIENT_NAME@ }))
        } else {
            None
        },
        ClientEventView::ConnectFailed { reason } => if state is Connecting {
            Some(
                (
                    ClientState::Failed,
                    ClientActionView::Fail(ClientErrorView::ConnectFailure { reason }),
                ),
            )
        } else {
            None
        },
        ClientEventView::HelloReplied { message } => if state is AwaitingHello {
            Some(
                (
                    ClientState::Pausing { index: 0 },
                    ClientActionView::Sleep { millis: CALL_SPACING_MILLIS },
                ),
            )
        } else {
            None
        },
        ClientEventView::CountReplied { count } => match state {
            ClientState::AwaitingCount { index } => Some(after_count(index)),
            _ => None,
        },
        ClientEventView::CallFailed { reason } => match state.spec_call_in_flight() {
            Some(call) => Some(
                (
                    ClientState::Failed,
                    ClientActionView::Fail(ClientErrorView::CallFailure { call, reason }),
                ),
            ),
            None => None,
        },
    }
}

/// The endpoint that the client connects to.
pub fn client_endpoint() -> (text: String)
    ensures
        text@ == endpoint(),
{
    let mut text = String::from_str(ENDPOINT_PREFIX);
    append_decimal(&mut text, SERVER_PORT as u32);
    text
}

/// Records the outcome that `event` brings to the call in flight, so that it
/// can be reported before the client moves on. Gives `None` where `event` is
/// not the outcome of a call that `state` waits for.
pub fn outcome(state: ClientState, event: &ClientEvent) -> (recorded: Option<CallOutcome>)
    ensures
        match recorded {
            Some(outcome) => call_outcome(state, event@) == Some(outcome@),
            None => call_outcome(state, event@) is None,
        },
{
    match (state, event) {
        (ClientState::AwaitingHello, ClientEvent::HelloReplied(reply)) => Some(
            CallOutcome::Greeted(HelloReply { message: reply.message.clone() }),
        ),
        (ClientState::AwaitingCount { index }, ClientEvent::CountReplied(reply)) => Some(
            CallOutcome::Counted { index, reply: *reply },
        ),
        (ClientState::AwaitingHello, ClientEvent::CallFailed { reason }) => Some(
            CallOutcome::Failed { call: CallId::SayHello, reason: reason.clone() },
        ),
        (ClientState::AwaitingCount { index }, ClientEvent::CallFailed { reason }) => Some(
            CallOutcome::Failed { call: CallId::GetCount { index }, reason: reason.clone() },
        ),
        _ => None,
    }
}

/// Where the client begins: it waits for the startup delay.
pub fn start() -> (begin: (ClientState, ClientAction))
    ensures
        begin.0 == ClientState::StartingUp,
        begin.1@ == (ClientActionView::Sleep { millis: STARTUP_DELAY_MILLIS }),
{
    (ClientState::StartingUp, ClientAction::Sleep { millis: STARTUP_DELAY_MILLIS })
}

/// Takes in what happened and decides what the client does next. An event
/// that the state does not wait for changes nothing and gives `None`; once
/// the sequence is over, that is every event.
pub fn step(state: ClientState, event: ClientEvent) -> (next: Option<(ClientState, ClientAction)>)
    ensures
        match next {
            Some((after, action)) => client_step(state, event@) == Some((after, action@)),
            None => client_step(state, event@) is None,
        },
{
    match (state, event) {
        (ClientState::StartingUp, ClientEvent::TimerElapsed) => Some(
            (ClientState::Connecting, ClientAction::Connect { endpoint: client_endpoint() }),
        ),
        (ClientState::Connecting, ClientEvent::Connected) => {
            let request = HelloRequest { name: String::from_str(CLIENT_NAME) };
            Some((ClientState::AwaitingHello, ClientAction::SayHello(request)))
        },
        (ClientState::Connecting, ClientEvent::ConnectFailed { reason }) => Some(
            (ClientState::Failed, ClientAction::Fail(ClientError::ConnectFailure { reason })),
        ),
        (ClientState::AwaitingHello, ClientEvent::HelloReplied(_)) => Some(
            (
                ClientState::Pausing { index: 0 },
                ClientAction::Sleep { millis: CALL_SPACING_MILLIS },
            ),
        ),
        (ClientState::Pausing { index }, ClientEvent::TimerElapsed) => Some(
            (ClientState::AwaitingCount { index }, ClientAction::GetCount(CountRequest {  })),
        ),
        (ClientState::AwaitingCount { index }, ClientEvent::CountReplied(_)) => {
            if index < COUNT_CALLS - 1 {
                Some(
                    (
                        ClientState::Pausing { index: index + 1 },
                        ClientAction::Sleep { millis: CALL_SPACING_MILLIS },
                    ),
                )
            } else {
                Some((ClientState::Finished, ClientAction::Finish))
            }
        },
        (ClientState::AwaitingHello, ClientEvent::CallFailed { reason }) => Some(
            (
                ClientState::Failed,
                ClientAction::Fail(ClientError::CallFailure { call: CallId::SayHello, reason }),
            ),
        ),
        (ClientState::AwaitingCount { index }, ClientEvent::CallFailed { reason }) => Some(
            (
                ClientState::Failed,
                ClientAction::Fail(
                    ClientError::CallFailure { call: CallId::GetCount { index }, reason },
                ),
            ),
        ),
        _ => None,
    }
}

/// What a sequence of events does to the client: where it stands at the end,
/// and what it was told to do on the way, in order. An event that the client
/// does not wait for is passed over.
pub open spec fn client_run(state: ClientState, events: Seq<ClientEventView>) -> (
    ClientState,
    Seq<ClientActionView>,
)
    decreases events.len(),
{
    if events.len() == 0 {
        (state, Seq::empty())
    } else {
        let (before, actions) = client_run(state, events.drop_last());
        match client_step(before, events.last()) {
            Some((after, action)) => (after, actions.push(action)),
            None => (before, actions),
        }
    }
}

/// The events that take a client through its first `counts.len()` count
/// calls when nothing fails: for each of them the pause that has passed, then
/// its answer. The entry `k` of `counts` answers the count call `k`.
pub open spec fn counting_events(counts: Seq<int>) -> Seq<ClientEventView>
    decreases counts.len(),
{
    if counts.len() == 0 {
        Seq::empty()
    } else {
        counting_events(counts.drop_last()).push(ClientEventView::TimerElapsed).push(
            ClientEventView::CountReplied { count: counts.last() },
        )
    }
}

/// The events of a session in which nothing fails, up to the answer to the
/// count call `counts.len() - 1`: the startup delay has passed, the connection
/// stands, the greeting is answered with `message`, and each count call is
/// answered with its entry of `counts`.
pub open spec fn session_events(message: Seq<char>, counts: Seq<int>) -> Seq<ClientEventView> {
    seq![
        ClientEventView::TimerElapsed,
        ClientEventView::Connected,
        ClientEventView::HelloReplied { message },
    ] + counting_events(counts)
}

/// What the client is told to do while `n` count calls in a row are
/// answered: after each pause the call, after each answer but the last of all
/// the next pause, and after the last of all the end.
pub open spec fn counting_actions(n: nat) -> Seq<ClientActionView>
    decreases n,
{
    if n == 0 {
        Seq::empty()
    } else {
        counting_actions((n - 1) as nat).push(ClientActionView::GetCount).push(
            if n < COUNT_CALLS {
                ClientActionView::Sleep { millis: CALL_SPACING_MILLIS }
            } else {
                ClientActionView::Finish
            },
        )
    }
}

/// How many of the actions are calls of `GetCount`.
pub open spec fn count_calls_issued(actions: Seq<ClientActionView>) -> nat
    decreases actions.len(),
{
    if actions.len() == 0 {
        0
    } else if actions.last() is GetCount {
        count_calls_issued(actions.drop_last()) + 1
    } else {
        count_calls_issued(actions.drop_last())
    }
}

/// How many of the actions are calls of `SayHello`.
pub open spec fn hello_calls_issued(actions: Seq<ClientActionView>) -> nat
    decreases actions.len(),
{
    if actions.len() == 0 {
        0
    } else if actions.last() is SayHello {
        hello_calls_issued(actions.drop_last()) + 1
    } else {
        hello_calls_issued(actions.drop_last())
    }
}

/// A step keeps the count calls within their number: from a well-formed
/// state the client only gets to well-formed states.
pub proof fn lemma_step_keeps_wf(state: ClientState, event: ClientEventView)
    requires
        state.wf(),
    ensures
        client_step(state, event) matches Some((after, _)) ==> after.wf(),
{
}

/// When a count call fails, the failure that ends the sequence names that
/// call by its index, and nothing is attempted after it: whatever happens
/// later, the client asks for nothing more.
pub proof fn lemma_failed_count_call_ends_sequence(
    index: u32,
    reason: Seq<char>,
    later: Seq<ClientEventView>,
)
    ensures
        client_step(ClientState::AwaitingCount { index }, ClientEventView::CallFailed { reason })
            == Some(
            (
                ClientState::Failed,
                ClientActionView::Fail(
                    ClientErrorView::CallFailure { call: CallId::GetCount { index }, reason },
                ),
            ),
        ),
        client_run(ClientState::Failed, later) == (
            ClientState::Failed,
            Seq::<ClientActionView>::empty(),
        ),
{
    lemma_nothing_follows_the_end(ClientState::Failed, later);
}

/// Once the sequence is over, in success or in failure, no event makes the
/// client do anything.
pub proof fn lemma_nothing_follows_the_end(state: ClientState, events: Seq<ClientEventView>)
    requires
        state.spec_is_over(),
    ensures
        forall|event: ClientEventView| client_step(state, event) is None,
        client_run(state, events) == (state, Seq::<ClientActionView>::empty()),
    decreases events.len(),
{
    if events.len() > 0 {
        lemma_nothing_follows_the_end(state, events.drop_last());
    }
}

/// Any failure ends the sequence: after a failed connection or a failed
/// call the client has failed, and the failure it hands up is that of the
/// event, with the call that was in flight.
pub proof fn lemma_failure_is_fatal(state: ClientState, reason: Seq<char>)
    ensures
        client_step(state, ClientEventView::ConnectFailed { reason }) matches Some(
            (after, action),
        ) ==> state is Connecting && after is Failed && action == ClientActionView::Fail(
            ClientErrorView::ConnectFailure { reason },
        ),
        client_step(state, ClientEventView::CallFailed { reason }) matches Some((after, action))
            ==> state.spec_call_in_flight() is Some && after is Failed && action
            == ClientActionView::Fail(
            ClientErrorView::CallFailure { call: state.spec_call_in_flight().unwrap(), reason },
        ),
{
}

/// Every call has its outcome, and a failed one is the client's failure: an
/// event brings an outcome exactly when it moves a client that has a call in
/// flight, the outcome is that of the call in flight, and the outcome is a
/// failure exactly when the client fails with it.
pub proof fn lemma_outcome_matches_step(state: ClientState, event: ClientEventView)
    ensures
        call_outcome(state, event) is Some <==> state.spec_call_in_flight() is Some
            && client_step(state, event) is Some,
        call_outcome(state, event) matches Some(outcome) ==> Some(outcome.call())
            == state.spec_call_in_flight(),
        call_outcome(state, event) matches Some(CallOutcomeView::Failed { call, reason })
            ==> client_step(state, event) == Some(
            (
                ClientState::Failed,
                ClientActionView::Fail(ClientErrorView::CallFailure { call, reason }),
            ),
        ),
        client_step(state, event) matches Some((_, ClientActionView::Fail(error))) && state
            !is Connecting ==> call_outcome(state, event) is Some && call_outcome(
            state,
            event,
        ).unwrap() is Failed,
{
}

/// Calls go out one at a time: the client is told to call only while no call
/// is in flight, and the call it is told to make is then the one in flight;
/// while a call is in flight, only its outcome moves the client on.
pub proof fn lemma_calls_are_sequential(state: ClientState, event: ClientEventView)
    ensures
        client_step(state, event) matches Some((after, action)) ==> {
            &&& action.is_call() ==> state.spec_call_in_flight() is None
            &&& action.is_call() <==> after.spec_call_in_flight() is Some
            &&& action is SayHello ==> after.spec_call_in_flight() == Some(CallId::SayHello)
            &&& state.spec_call_in_flight() is Some ==> event is HelloReplied || event
                is CountReplied || event is CallFailed
        },
{
}

/// Where the client stands when the first `n` count calls have been
/// answered.
pub open spec fn state_after_counts(n: nat) -> ClientState {
    if n < COUNT_CALLS {
        ClientState::Pausing { index: n as u32 }
    } else {
        ClientState::Finished
    }
}

/// What the client is told to do up to the pause before the first count
/// call: connect, greet, pause.
pub open spec fn opening_actions() -> Seq<ClientActionView> {
    seq![
        ClientActionView::Connect { endpoint: endpoint() },
        ClientActionView::SayHello { name: CLIENT_NAME@ },
        ClientActionView::Sleep { millis: CALL_SPACING_MILLIS },
    ]
}

/// While nothing fails, the client works through its count calls in order:
/// when the first `counts.len()` of them have been answered, it has been told
/// to make exactly those calls, each after its pause.
pub proof fn lemma_session_progress(message: Seq<char>, counts: Seq<int>)
    requires
        counts.len() <= COUNT_CALLS,
    ensures
        client_run(ClientState::StartingUp, session_events(message, counts)) == (
            state_after_counts(counts.len()),
            opening_actions() + counting_actions(counts.len()),
        ),
    decreases counts.len(),
{
    let opening = seq![
        ClientEventView::TimerElapsed,
        ClientEventView::Connected,
        ClientEventView::HelloReplied { message },
    ];
    let events = session_events(message, counts);
    if counts.len() == 0 {
        let two = opening.drop_last();
        let one = two.drop_last();
        assert(client_run(ClientState::StartingUp, one.drop_last()) == (
            ClientState::StartingUp,
            Seq::<ClientActionView>::empty(),
        ));
        assert(client_run(ClientState::StartingUp, one).0 == ClientState::Connecting);
        assert(client_run(ClientState::StartingUp, two).0 == ClientState::AwaitingHello);
    } else {
        let n = counts.len();
        let earlier = counts.drop_last();
        lemma_session_progress(message, earlier);
        let paused = events.drop_last();
        assert(paused.drop_last() =~= session_events(message, earlier));
        assert(client_run(ClientState::StartingUp, paused).0 == ClientState::AwaitingCount {
            index: (n - 1) as u32,
        });
    }
}

/// Up to the pause before the first count call the client has been told to
/// greet once and to count not yet.
proof fn lemma_calls_issued_by_opening()
    ensures
        hello_calls_issued(opening_actions()) == 1,
        count_calls_issued(opening_actions()) == 0,
{
    let three = opening_actions();
    let two = three.drop_last();
    let one = two.drop_last();
    let none = one.drop_last();
    assert(hello_calls_issued(none) == 0 && count_calls_issued(none) == 0);
    assert(hello_calls_issued(one) == 0 && count_calls_issued(one) == 0);
    assert(hello_calls_issued(two) == 1 && count_calls_issued(two) == 0);
}

/// Working through `n` count calls adds `n` calls of `GetCount` and no
/// greeting to what the client was told before.
proof fn lemma_calls_issued_by_counting(before: Seq<ClientActionView>, n: nat)
    ensures
        hello_calls_issued(before + counting_actions(n)) == hello_calls_issued(before),
        count_calls_issued(before + counting_actions(n)) == count_calls_issued(before) + n,
    decreases n,
{
    let all = before + counting_actions(n);
    if n > 0 {
        let shorter = before + counting_actions((n - 1) as nat);
        lemma_calls_issued_by_counting(before, (n - 1) as nat);
        let called = all.drop_last();
        assert(called.drop_last() =~= shorter);
        assert(hello_calls_issued(called) == hello_calls_issued(shorter));
        assert(count_calls_issued(called) == count_calls_issued(shorter) + 1);
    }
}

/// In a session in which nothing fails, the client greets exactly once and
/// counts exactly [`COUNT_CALLS`] times, then finishes.
pub proof fn lemma_successful_session(message: Seq<char>, counts: Seq<int>)
    requires
        counts.len() == COUNT_CALLS,
    ensures
        client_run(ClientState::StartingUp, session_events(message, counts)).0
            == ClientState::Finished,
        hello_calls_issued(
            client_run(ClientState::StartingUp, session_events(message, counts)).1,
        ) == 1,
        count_calls_issued(
            client_run(ClientState::StartingUp, session_events(message, counts)).1,
        ) == COUNT_CALLS,
        client_run(ClientState::StartingUp, session_events(message, counts)).1.last()
            == ClientActionView::Finish,
{
    lemma_session_progress(message, counts);
    lemma_calls_issued_by_opening();
    lemma_calls_issued_by_counting(opening_actions(), counts.len());
}

/// Once the sequence is over, events that follow change nothing of what the
/// client did.
pub proof fn lemma_run_stops_at_the_end(
    state: ClientState,
    events: Seq<ClientEventView>,
    later: Seq<ClientEventView>,
)
    requires
        client_run(state, events).0.spec_is_over(),
    ensures
        client_run(state, events + later) == client_run(state, events),
    decreases later.len(),
{
    if later.len() == 0 {
        assert(events + later =~= events);
    } else {
        lemma_run_stops_at_the_end(state, events, later.drop_last());
        assert((events + later).drop_last() =~= events + later.drop_last());
    }
}

/// The events of a session whose connection is cut while the count call
/// `counts.len()` is in flight: everything up to that call succeeds, its
/// pause passes, the call fails for `reason`, and then `later` happens.
pub open spec fn severed_session_events(
    message: Seq<char>,
    counts: Seq<int>,
    reason: Seq<char>,
    later: Seq<ClientEventView>,
) -> Seq<ClientEventView> {
    session_events(message, counts).push(ClientEventView::TimerElapsed).push(
        ClientEventView::CallFailed { reason },
    ) + later
}

/// When the connection is cut while a count call is in flight, that call is
/// the last thing the client attempts: it has made the count calls up to and
/// including that one and no more, it fails with a failure that names that
/// call by its index, and nothing that happens later makes it do anything.
pub proof fn lemma_severed_session(
    message: Seq<char>,
    counts: Seq<int>,
    reason: Seq<char>,
    later: Seq<ClientEventView>,
)
    requires
        counts.len() < COUNT_CALLS,
    ensures
        client_run(
            ClientState::StartingUp,
            severed_session_events(message, counts, reason, later),
        ) == (
            ClientState::Failed,
            (opening_actions() + counting_actions(counts.len())).push(
                ClientActionView::GetCount,
            ).push(
                ClientActionView::Fail(
                    ClientErrorView::CallFailure {
                        call: CallId::GetCount { index: counts.len() as u32 },
                        reason,
                    },
                ),
            ),
        ),
        count_calls_issued(
            client_run(
                ClientState::StartingUp,
                severed_session_events(message, counts, reason, later),
            ).1,
        ) == counts.len() + 1,
        hello_calls_issued(
            client_run(
                ClientState::StartingUp,
                severed_session_events(message, counts, reason, later),
            ).1,
        ) == 1,
{
    let answered = session_events(message, counts);
    let called = answered.push(ClientEventView::TimerElapsed);
    let failed = called.push(ClientEventView::CallFailed { reason });
    let told = opening_actions() + counting_actions(counts.len());
    lemma_session_progress(message, counts);
    assert(called.drop_last() =~= answered);
    assert(client_run(ClientState::StartingUp, called) == (
        ClientState::AwaitingCount { index: counts.len() as u32 },
        told.push(ClientActionView::GetCount),
    ));
    assert(failed.drop_last() =~= called);
    lemma_run_stops_at_the_end(ClientState::StartingUp, failed, later);
    let actions = client_run(ClientState::StartingUp, failed).1;
    lemma_calls_issued_by_opening();
    lemma_calls_issued_by_counting(opening_actions(), counts.len());
    assert(actions.drop_last() =~= told.push(ClientActionView::GetCount));
    assert(actions.drop_last().drop_last() =~= told);
    assert(count_calls_issued(actions.drop_last()) == count_calls_issued(told) + 1);
    assert(hello_calls_issued(actions.drop_last()) == hello_calls_issued(told));
}

} // verus!
