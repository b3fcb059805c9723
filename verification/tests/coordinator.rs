use grpc_test::coordinator::{
    start, step, CoordinatorAction, CoordinatorEvent, CoordinatorState, EXIT_FAILURE,
    EXIT_SUCCESS,
};
use grpc_test::error::{CallId, ClientError, ProcessError, ServerError};

fn bind_failure() -> ServerError {
    ServerError::BindFailure { reason: String::from("Address already in use") }
}

fn count_failure() -> ClientError {
    ClientError::CallFailure { call: CallId::GetCount { index: 3 }, reason: String::from("gone") }
}

fn every_event() -> Vec<CoordinatorEvent> {
    vec![
        CoordinatorEvent::ServerFinished,
        CoordinatorEvent::ServerFailed(bind_failure()),
        CoordinatorEvent::ClientFinished,
        CoordinatorEvent::ClientFailed(count_failure()),
    ]
}

#[test]
fn coordinator_starts_with_both_tasks() {
    assert_eq!(start(), CoordinatorState::BothRunning);
}

#[test]
fn coordinator_waits_for_the_second_task() {
    assert_eq!(
        step(CoordinatorState::BothRunning, CoordinatorEvent::ClientFinished),
        Some((CoordinatorState::ClientDone, CoordinatorAction::Wait))
    );
    assert_eq!(
        step(CoordinatorState::BothRunning, CoordinatorEvent::ServerFinished),
        Some((CoordinatorState::ServerDone, CoordinatorAction::Wait))
    );
}

#[test]
fn success_takes_both_tasks() {
    assert_eq!(
        step(CoordinatorState::ClientDone, CoordinatorEvent::ServerFinished),
        Some((CoordinatorState::Exited, CoordinatorAction::ExitSuccess))
    );
    assert_eq!(
        step(CoordinatorState::ServerDone, CoordinatorEvent::ClientFinished),
        Some((CoordinatorState::Exited, CoordinatorAction::ExitSuccess))
    );
}

#[test]
fn server_failure_ends_the_process_at_once() {
    for state in [CoordinatorState::BothRunning, CoordinatorState::ClientDone] {
        assert_eq!(
            step(state, CoordinatorEvent::ServerFailed(bind_failure())),
            Some((
                CoordinatorState::Exited,
                CoordinatorAction::ExitFailure(ProcessError::Server(bind_failure()))
            ))
        );
    }
}

#[test]
fn client_failure_ends_the_process_at_once() {
    for state in [CoordinatorState::BothRunning, CoordinatorState::ServerDone] {
        assert_eq!(
            step(state, CoordinatorEvent::ClientFailed(count_failure())),
            Some((
                CoordinatorState::Exited,
                CoordinatorAction::ExitFailure(ProcessError::Client(count_failure()))
            ))
        );
    }
}

#[test]
fn first_failure_wins() {
    let (state, action) =
        step(start(), CoordinatorEvent::ClientFailed(count_failure())).unwrap();
    assert_eq!(action, CoordinatorAction::ExitFailure(ProcessError::Client(count_failure())));
    assert_eq!(step(state, CoordinatorEvent::ServerFailed(bind_failure())), None);
}

#[test]
fn a_task_ends_only_once() {
    assert_eq!(step(CoordinatorState::ServerDone, CoordinatorEvent::ServerFinished), None);
    assert_eq!(
        step(CoordinatorState::ServerDone, CoordinatorEvent::ServerFailed(bind_failure())),
        None
    );
    assert_eq!(step(CoordinatorState::ClientDone, CoordinatorEvent::ClientFinished), None);
    assert_eq!(
        step(CoordinatorState::ClientDone, CoordinatorEvent::ClientFailed(count_failure())),
        None
    );
}

#[test]
fn nothing_follows_the_exit() {
    for event in every_event() {
        assert_eq!(step(CoordinatorState::Exited, event), None);
    }
}

#[test]
fn exit_status_tells_success_from_failure() {
    assert_eq!(EXIT_SUCCESS, 0);
    assert_eq!(EXIT_FAILURE, 1);
    assert_eq!(CoordinatorAction::Wait.exit_status(), None);
    assert_eq!(CoordinatorAction::ExitSuccess.exit_status(), Some(0));
    assert_eq!(
        CoordinatorAction::ExitFailure(ProcessError::Server(bind_failure())).exit_status(),
        Some(1)
    );
    assert_eq!(
        CoordinatorAction::ExitFailure(ProcessError::Client(count_failure())).exit_status(),
        Some(1)
    );
}
