use grpc_test::error::ServerError;
use grpc_test::server::{
    listen_address, start, step, ListenAddress, ServerAction, ServerEvent, ServerState,
    SERVER_PORT,
};

fn every_event() -> Vec<ServerEvent> {
    vec![
        ServerEvent::Bound,
        ServerEvent::BindFailed { reason: String::from("in use") },
        ServerEvent::TransportFailed { reason: String::from("reset") },
        ServerEvent::ShutDown,
    ]
}

#[test]
fn server_listens_on_every_interface() {
    assert_eq!(SERVER_PORT, 3000);
    assert_eq!(listen_address(), ListenAddress { octets: [0, 0, 0, 0], port: 3000 });
}

#[test]
fn server_binds_first() {
    assert_eq!(
        start(),
        (
            ServerState::Binding,
            ServerAction::Bind { address: ListenAddress { octets: [0, 0, 0, 0], port: 3000 } }
        )
    );
}

#[test]
fn server_serves_once_bound() {
    assert_eq!(
        step(ServerState::Binding, ServerEvent::Bound),
        Some((ServerState::Serving, ServerAction::Serve))
    );
}

#[test]
fn bind_failure_ends_the_server() {
    assert_eq!(
        step(
            ServerState::Binding,
            ServerEvent::BindFailed { reason: String::from("Address already in use") }
        ),
        Some((
            ServerState::Failed,
            ServerAction::Fail(ServerError::BindFailure {
                reason: String::from("Address already in use")
            })
        ))
    );
}

#[test]
fn transport_failure_ends_the_server() {
    assert_eq!(
        step(
            ServerState::Serving,
            ServerEvent::TransportFailed { reason: String::from("accept failed") }
        ),
        Some((
            ServerState::Failed,
            ServerAction::Fail(ServerError::TransportFailure {
                reason: String::from("accept failed")
            })
        ))
    );
}

#[test]
fn shut_down_ends_the_server_without_a_failure() {
    assert_eq!(
        step(ServerState::Serving, ServerEvent::ShutDown),
        Some((ServerState::Stopped, ServerAction::Finish))
    );
}

#[test]
fn a_failed_bind_is_not_tried_again() {
    for event in every_event() {
        assert_eq!(step(ServerState::Failed, event.clone()), None);
        assert_eq!(step(ServerState::Stopped, event), None);
    }
}

#[test]
fn server_refuses_events_out_of_turn() {
    assert_eq!(step(ServerState::Binding, ServerEvent::ShutDown), None);
    assert_eq!(
        step(ServerState::Binding, ServerEvent::TransportFailed { reason: String::new() }),
        None
    );
    assert_eq!(step(ServerState::Serving, ServerEvent::Bound), None);
    assert_eq!(
        step(ServerState::Serving, ServerEvent::BindFailed { reason: String::new() }),
        None
    );
}
