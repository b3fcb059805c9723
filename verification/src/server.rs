//! The server's life: bind the address, serve until stopped, give up on the
//! first failure.
//!
//! The server itself listens and accepts in the program around this library.
//! Here are its decisions: [`start`] says what to do first, and [`step`] what
//! to do after each thing that happened.

use vstd::prelude::*;
use crate::error::{ServerError, ServerErrorView};

verus! {

/// The port that the server listens on, and that the client connects to.
pub const SERVER_PORT: u16 = 3000;

/// An address to listen on: the four parts of an IPv4 address, and a port.
#[derive(Clone, Copy, Debug, PartialEq, Eq)]
pub struct ListenAddress {
    pub octets: [u8; 4],
    pub port: u16,
}

/// Whether `address` is every interface of the machine, on [`SERVER_PORT`].
pub open spec fn is_server_address(address: ListenAddress) -> bool {
    &&& address.octets@ == seq![0u8, 0u8, 0u8, 0u8]
    &&& address.port == SERVER_PORT
}

/// The address that the server listens on.
pub fn listen_address() -> (address: ListenAddress)
    ensures
        is_server_address(address),
{
    let address = ListenAddress { octets: [0, 0, 0, 0], port: SERVER_PORT };
    address
}

/// Where the server stands.
#[derive(Clone, Copy, Debug, PartialEq, Eq, Structural)]
pub enum ServerState {
    /// It has asked for its address and waits for the answer.
    Binding,
    /// It has its address and serves calls.
    Serving,
    /// It was stopped from outside, without a failure.
    Stopped,
    /// It has failed and serves no more.
    Failed,
}

/// What happened to the server.
#[derive(Clone, Debug, PartialEq, Eq)]
pub enum ServerEvent {
    /// The address is the server's.
    Bound,
    /// The address could not be had.
    BindFailed { reason: String },
    /// The transport failed while serving.
    TransportFailed { reason: String },
    /// Serving was ended from outside.
    ShutDown,
}

/// What happened to the server, as a mathematical value.
pub enum ServerEventView {
    Bound,
    BindFailed { reason: Seq<char> },
    TransportFailed { reason: Seq<char> },
    ShutDown,
}

impl View for ServerEvent {
    type V = ServerEventView;

    open spec fn view(&self) -> ServerEventView {
        match self {
            ServerEvent::Bound => ServerEventView::Bound,
            ServerEvent::BindFailed { reason } => ServerEventView::BindFailed { reason: reason@ },
            ServerEvent::TransportFailed { reason } => ServerEventView::TransportFailed {
                reason: reason@,
            },
            ServerEvent::ShutDown => ServerEventView::ShutDown,
        }
    }
}

/// What the server is to do next.
#[derive(Clone, Debug, PartialEq, Eq)]
pub enum ServerAction {
    /// Get hold of the address.
    Bind { address: ListenAddress },
    /// Accept connections and serve their calls, until stopped or failed.
    Serve,
    /// End without a failure.
    Finish,
    /// End with this failure, handing it to the coordinator.
    Fail(ServerError),
}

/// What the server is to do next, as a mathematical value.
pub enum ServerActionView {
    Bind { address: ListenAddress },
    Serve,
    Finish,
    Fail(ServerErrorView),
}

impl View for ServerAction {
    type V = ServerActionView;

    open spec fn view(&self) -> ServerActionView {
        match self {
            ServerAction::Bind { address } => ServerActionView::Bind { address: *address },
            ServerAction::Serve => ServerActionView::Serve,
            ServerAction::Finish => ServerActionView::Finish,
            ServerAction::Fail(error) => ServerActionView::Fail(error@),
        }
    }
}

/// The server's rule: where it stands after `event` and what it does next,
/// or `None` where `event` is not one that `state` waits for.
pub open spec fn server_step(state: ServerState, event: ServerEventView) -> Option<
    (ServerState, ServerActionView),
> {
    match (state, event) {
        (ServerState::Binding, ServerEventView::Bound) => Some(
            (ServerState::Serving, ServerActionView::Serve),
        ),
        (ServerState::Binding, ServerEventView::BindFailed { reason }) => Some(
            (ServerState::Failed, ServerActionView::Fail(ServerErrorView::BindFailure { reason })),
        ),
        (ServerState::Serving, ServerEventView::TransportFailed { reason }) => Some(
            (
                ServerState::Failed,
                ServerActionView::Fail(ServerErrorView::TransportFailure { reason }),
            ),
        ),
        (ServerState::Serving, ServerEventView::ShutDown) => Some(
            (ServerState::Stopped, ServerActionView::Finish),
        ),
        _ => None,
    }
}

/// Where the server begins: it asks for its address.
pub fn start() -> (begin: (ServerState, ServerAction))
    ensures
        begin.0 == ServerState::Binding,
        begin.1@ matches ServerActionView::Bind { address } && is_server_address(address),
{
    (ServerState::Binding, ServerAction::Bind { address: listen_address() })
}

/// Takes in what happened and decides what the server does next. An event
/// that the state does not wait for changes nothing and gives `None`.
pub fn step(state: ServerState, event: ServerEvent) -> (next: Option<(ServerState, ServerAction)>)
    ensures
        match next {
            Some((after, action)) => server_step(state, event@) == Some((after, action@)),
            None => server_step(state, event@) is None,
        },
{
    match (state, event) {
        (ServerState::Binding, ServerEvent::Bound) => Some(
            (ServerState::Serving, ServerAction::Serve),
        ),
        (ServerState::Binding, ServerEvent::BindFailed { reason }) => Some(
            (ServerState::Failed, ServerAction::Fail(ServerError::BindFailure { reason })),
        ),
        (ServerState::Serving, ServerEvent::TransportFailed { reason }) => Some(
            (ServerState::Failed, ServerAction::Fail(ServerError::TransportFailure { reason })),
        ),
        (ServerState::Serving, ServerEvent::ShutDown) => Some(
            (ServerState::Stopped, ServerAction::Finish),
        ),
        _ => None,
    }
}

/// A failed bind is final: the server fails with it, and whatever happens
/// later it does nothing more. It does not try the address again.
pub proof fn lemma_bind_failure_is_final(reason: Seq<char>, later: ServerEventView)
    ensures
        server_step(ServerState::Binding, ServerEventView::BindFailed { reason }) == Some(
            (ServerState::Failed, ServerActionView::Fail(ServerErrorView::BindFailure { reason })),
        ),
        server_step(ServerState::Failed, later) is None,
{
}

/// The server ends only by being stopped or by failing: once it has its
/// address, every step that moves it ends it, and once it has ended no event
/// moves it.
pub proof fn lemma_server_serves_until_ended(state: ServerState, event: ServerEventView)
    ensures
        state is Serving ==> (server_step(state, event) matches Some((after, action)) ==> (after
            is Stopped && action is Finish) || (after is Failed && action is Fail)),
        state is Stopped || state is Failed ==> server_step(state, event) is None,
{
}

} // verus!
