//! The coordinator: it runs the server and the client side by side, waits
//! for both, and ends the process with the first failure of either.
//!
//! The two tasks run in the program around this library. Here is the
//! coordinator's decision after each task that finishes.

use vstd::prelude::*;
use crate::error::{
    ClientError, ClientErrorView, ProcessError, ProcessErrorView, ServerError, ServerErrorView,
};
use crate::server::{server_step, ServerActionView, ServerEventView, ServerState};

verus! {

/// The exit status of a process that ended without a failure.
pub const EXIT_SUCCESS: i32 = 0;

/// The exit status of a process that a failure ended.
pub const EXIT_FAILURE: i32 = 1;

/// Which of the two tasks are still at work.
#[derive(Clone, Copy, Debug, PartialEq, Eq, Structural)]
pub enum CoordinatorState {
    /// Server and client are both at work.
    BothRunning,
    /// The server has finished without a failure; the client is at work.
    ServerDone,
    /// The client has finished without a failure; the server is at work.
    ClientDone,
    /// The coordinator has decided how the process ends.
    Exited,
}

/// One of the two tasks that the coordinator runs.
#[derive(Clone, Copy, Debug, PartialEq, Eq, Structural)]
pub enum Task {
    Server,
    Client,
}

impl Task {
    /// The other of the two tasks.
    pub open spec fn other(self) -> Task {
        match self {
            Task::Server => Task::Client,
            Task::Client => Task::Server,
        }
    }
}

impl CoordinatorState {
    /// Whether `task` is still at work, as far as the coordinator knows.
    pub open spec fn is_running(self, task: Task) -> bool {
        match self {
            CoordinatorState::BothRunning => true,
            CoordinatorState::ServerDone => task is Client,
            CoordinatorState::ClientDone => task is Server,
            CoordinatorState::Exited => false,
        }
    }

    /// The state in which only the other task than `task` is still at work.
    pub open spec fn only_other_than(task: Task) -> CoordinatorState {
        match task {
            Task::Server => CoordinatorState::ServerDone,
            Task::Client => CoordinatorState::ClientDone,
        }
    }
}

/// A task has come to its end, and how.
#[derive(Clone, Debug, PartialEq, Eq)]
pub enum CoordinatorEvent {
    /// The server has finished without a failure.
    ServerFinished,
    /// The server has failed.
    ServerFailed(ServerError),
    /// The client has finished without a failure.
    ClientFinished,
    /// The client has failed.
    ClientFailed(ClientError),
}

/// A task has come to its end, and how, as a mathematical value.
pub enum CoordinatorEventView {
    ServerFinished,
    ServerFailed(ServerErrorView),
    ClientFinished,
    ClientFailed(ClientErrorView),
}

impl View for CoordinatorEvent {
    type V = CoordinatorEventView;

    open spec fn view(&self) -> CoordinatorEventView {
        match self {
            CoordinatorEvent::ServerFinished => CoordinatorEventView::ServerFinished,
            CoordinatorEvent::ServerFailed(error) => CoordinatorEventView::ServerFailed(error@),
            CoordinatorEvent::ClientFinished => CoordinatorEventView::ClientFinished,
            CoordinatorEvent::ClientFailed(error) => CoordinatorEventView::ClientFailed(error@),
        }
    }
}

impl CoordinatorEventView {
    /// The task that has come to its end.
    pub open spec fn task(self) -> Task {
        match self {
            CoordinatorEventView::ServerFinished => Task::Server,
            CoordinatorEventView::ServerFailed(_) => Task::Server,
            CoordinatorEventView::ClientFinished => Task::Client,
            CoordinatorEventView::ClientFailed(_) => Task::Client,
        }
    }

    /// Whether the event is the failure of a task.
    pub open spec fn is_failure(self) -> bool {
        self is ServerFailed || self is ClientFailed
    }

    /// The failure that the event brings, as the failure of the process.
    pub open spec fn failure(self) -> ProcessErrorView
        recommends
            self.is_failure(),
    {
        match self {
            CoordinatorEventView::ClientFailed(error) => ProcessErrorView::Client(error),
            CoordinatorEventView::ServerFailed(error) => ProcessErrorView::Server(error),
            _ => arbitrary(),
        }
    }
}

/// What the coordinator does after a task has come to its end.
#[derive(Clone, Debug, PartialEq, Eq)]
pub enum CoordinatorAction {
    /// Go on waiting for the task that is still at work.
    Wait,
    /// End the process in success.
    ExitSuccess,
    /// End the process with this failure. A task that is still at work is
    /// abandoned with it.
    ExitFailure(ProcessError),
}

/// What the coordinator does after a task has come to its end, as a
/// mathematical value.
pub enum CoordinatorActionView {
    Wait,
    ExitSuccess,
    ExitFailure(ProcessErrorView),
}

impl View for CoordinatorAction {
    type V = CoordinatorActionView;

    open spec fn view(&self) -> CoordinatorActionView {
        match self {
            CoordinatorAction::Wait => CoordinatorActionView::Wait,
            CoordinatorAction::ExitSuccess => CoordinatorActionView::ExitSuccess,
            CoordinatorAction::ExitFailure(error) => CoordinatorActionView::ExitFailure(error@),
        }
    }
}

/// The coordinator's rule: where it stands after `event` and what it does,
/// or `None` where `event` cannot be: the task it speaks of has come to its
/// end before, or the coordinator has exited.
///
/// A failure ends the process at once, with that failure. Success takes both
/// tasks: the first to finish leaves the coordinator waiting for the other.
pub open spec fn coordinator_step(state: CoordinatorState, event: CoordinatorEventView) -> Option<
    (CoordinatorState, CoordinatorActionView),
> {
    if !state.is_running(event.task()) {
        None
    } else if event.is_failure() {
        Some((CoordinatorState::Exited, CoordinatorActionView::ExitFailure(event.failure())))
    } else if state.is_running(event.task().other()) {
        Some((CoordinatorState::only_other_than(event.task()), CoordinatorActionView::Wait))
    } else {
        Some((CoordinatorState::Exited, CoordinatorActionView::ExitSuccess))
    }
}

/// Where the coordinator begins: it has launched both tasks.
pub fn start() -> (state: CoordinatorState)
    ensures
        state == CoordinatorState::BothRunning,
{
    CoordinatorState::BothRunning
}

/// Takes in that a task has come to its end and decides whether the process
/// goes on. An event that cannot be changes nothing and gives `None`.
pub fn step(state: CoordinatorState, event: CoordinatorEvent) -> (next: Option<
    (CoordinatorState, CoordinatorAction),
>)
    ensures
        match next {
            Some((after, action)) => coordinator_step(state, event@) == Some((after, action@)),
            None => coordinator_step(state, event@) is None,
        },
{
    match (state, event) {
        (CoordinatorState::BothRunning, CoordinatorEvent::ServerFinished) => Some(
            (CoordinatorState::ServerDone, CoordinatorAction::Wait),
        ),
        (CoordinatorState::BothRunning, CoordinatorEvent::ClientFinished) => Some(
            (CoordinatorState::ClientDone, CoordinatorAction::Wait),
        ),
        (CoordinatorState::ClientDone, CoordinatorEvent::ServerFinished) => Some(
            (CoordinatorState::Exited, CoordinatorAction::ExitSuccess),
        ),
        (CoordinatorState::ServerDone, CoordinatorEvent::ClientFinished) => Some(
            (CoordinatorState::Exited, CoordinatorAction::ExitSuccess),
        ),
        (CoordinatorState::BothRunning, CoordinatorEvent::ServerFailed(error)) => Some(
            (CoordinatorState::Exited, CoordinatorAction::ExitFailure(ProcessError::Server(error))),
        ),
        (CoordinatorState::ClientDone, CoordinatorEvent::ServerFailed(error)) => Some(
            (CoordinatorState::Exited, CoordinatorAction::ExitFailure(ProcessError::Server(error))),
        ),
        (CoordinatorState::BothRunning, CoordinatorEvent::ClientFailed(error)) => Some(
            (CoordinatorState::Exited, CoordinatorAction::ExitFailure(ProcessError::Client(error))),
        ),
        (CoordinatorState::ServerDone, CoordinatorEvent::ClientFailed(error)) => Some(
            (CoordinatorState::Exited, CoordinatorAction::ExitFailure(ProcessError::Client(error))),
        ),
        _ => None,
    }
}

/// The exit status that an action ends the process with: zero for success,
/// one for a failure, none where the process goes on.
pub open spec fn status_of(action: CoordinatorActionView) -> Option<i32> {
    match action {
        CoordinatorActionView::Wait => None,
        CoordinatorActionView::ExitSuccess => Some(EXIT_SUCCESS),
        CoordinatorActionView::ExitFailure(_) => Some(EXIT_FAILURE),
    }
}

impl CoordinatorAction {
    /// The exit status that this action ends the process with, if it ends
    /// it.
    pub fn exit_status(&self) -> (status: Option<i32>)
        ensures
            status == status_of(self@),
    {
        match self {
            CoordinatorAction::Wait => None,
            CoordinatorAction::ExitSuccess => Some(EXIT_SUCCESS),
            CoordinatorAction::ExitFailure(_) => Some(EXIT_FAILURE),
        }
    }
}

/// The first failure of either task ends the process: whichever tasks are
/// still at work, the coordinator exits with that failure, and the exit
/// status is that of a failure.
pub proof fn lemma_first_failure_ends_process(state: CoordinatorState, event: CoordinatorEventView)
    requires
        state.is_running(event.task()),
        event.is_failure(),
    ensures
        coordinator_step(state, event) == Some(
            (CoordinatorState::Exited, CoordinatorActionView::ExitFailure(event.failure())),
        ),
        status_of(CoordinatorActionView::ExitFailure(event.failure())) == Some(EXIT_FAILURE),
        EXIT_FAILURE != 0,
{
}

/// The process ends in success only when both tasks have finished without a
/// failure: the coordinator exits in success exactly on the second of the
/// two to finish, in either order.
pub proof fn lemma_success_takes_both_tasks(state: CoordinatorState, event: CoordinatorEventView)
    ensures
        (coordinator_step(state, event) matches Some((_, action)) && action is ExitSuccess) <==> (
        !event.is_failure() && state == CoordinatorState::only_other_than(event.task().other())),
        coordinator_step(CoordinatorState::BothRunning, event) matches Some((_, action))
            && !(action is ExitSuccess),
{
}

/// A server that cannot get its address ends the process: the server fails
/// with a bind failure that carries the reason, and the coordinator, whatever
/// the client has done so far, exits with that failure and the exit status of
/// a failure.
pub proof fn lemma_bind_failure_ends_process(reason: Seq<char>, state: CoordinatorState)
    requires
        state.is_running(Task::Server),
    ensures
        server_step(ServerState::Binding, ServerEventView::BindFailed { reason }) == Some(
            (ServerState::Failed, ServerActionView::Fail(ServerErrorView::BindFailure { reason })),
        ),
        coordinator_step(
            state,
            CoordinatorEventView::ServerFailed(ServerErrorView::BindFailure { reason }),
        ) == Some(
            (
                CoordinatorState::Exited,
                CoordinatorActionView::ExitFailure(
                    ProcessErrorView::Server(ServerErrorView::BindFailure { reason }),
                ),
            ),
        ),
        status_of(
            CoordinatorActionView::ExitFailure(
                ProcessErrorView::Server(ServerErrorView::BindFailure { reason }),
            ),
        ) == Some(EXIT_FAILURE),
{
}

/// Once the coordinator has exited, nothing that happens changes how the
/// process ended.
pub proof fn lemma_exit_is_final(event: CoordinatorEventView)
    ensures
        coordinator_step(CoordinatorState::Exited, event) is None,
{
}

} // verus!
