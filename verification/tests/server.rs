use vhost_device_ssr::server::{
    start_backend_server, DaemonExit, Server, ServerAction, ServerError, ServerReply, ServerState,
};
use vhost_device_ssr::supervisor::{Supervisor, SupervisorStep, ThreadOutcome};

fn server(names: &[&str], enable_sd_notify: bool) -> Server {
    let names = names.iter().map(|name| name.to_string()).collect();
    start_backend_server(b"/run/ssr.sock0".to_vec(), "ssr".to_string(), names, enable_sd_notify)
}

fn new_client(name: &str) -> ServerAction {
    ServerAction::NewClient { prefix_name: "ssr".to_string(), client_name: name.to_string() }
}

fn listen() -> ServerAction {
    ServerAction::Listen { socket: b"/run/ssr.sock0".to_vec() }
}

/// Serves a socket whose daemons end as given. Returns the work done.
fn serve(
    mut server: Server,
    exits: &[DaemonExit],
) -> (Vec<ServerAction>, Result<(), ServerError>) {
    let mut actions = Vec::new();
    let mut exits = exits.iter();
    while let Some(action) = server.action() {
        let reply = match action {
            ServerAction::WaitDaemon => ServerReply::Exited(*exits.next().unwrap()),
            _ => ServerReply::Succeeded,
        };
        actions.push(action);
        server.next(reply);
    }
    match server.state {
        ServerState::Done(result) => (actions, result),
        _ => unreachable!(),
    }
}

#[test]
fn a_guest_that_quits_is_followed_by_the_next() {
    let (actions, result) = serve(
        server(&[], false),
        &[DaemonExit::Disconnected, DaemonExit::PartialMessage, DaemonExit::Finished],
    );
    assert_eq!(result, Ok(()));
    let round = vec![
        ServerAction::CreateBackend,
        ServerAction::CreateDaemon,
        ServerAction::RegisterListener { device_event: 0x100 },
        listen(),
        ServerAction::StartDaemon,
        ServerAction::WaitDaemon,
        ServerAction::SendExitEvent,
    ];
    assert_eq!(actions, [round.clone(), round.clone(), round].concat());
}

#[test]
fn a_failed_daemon_ends_the_serving() {
    let (actions, result) = serve(server(&[], true), &[DaemonExit::Failed]);
    assert_eq!(result, Err(ServerError::ServeFailed));
    assert_eq!(actions.len(), 8);
    assert_eq!(actions[3], listen());
    assert_eq!(actions[4], ServerAction::NotifyReady);
    assert_eq!(actions[5], ServerAction::StartDaemon);
    assert_eq!(actions[7], ServerAction::SendExitEvent);
}

#[test]
fn each_client_is_made_once() {
    let (actions, result) = serve(
        server(&["CDSP", "ADSP"], true),
        &[DaemonExit::Disconnected, DaemonExit::Finished],
    );
    assert_eq!(result, Ok(()));
    let round = vec![
        ServerAction::CreateBackend,
        ServerAction::CreateDaemon,
        ServerAction::RegisterListener { device_event: 0x100 },
        listen(),
        ServerAction::NotifyReady,
        ServerAction::StartDaemon,
        ServerAction::WaitDaemon,
        ServerAction::SendExitEvent,
    ];
    let clients = vec![new_client("CDSP"), new_client("ADSP")];
    assert_eq!(actions, [clients, round.clone(), round].concat());
}

#[test]
fn the_first_client_comes_first() {
    let server = server(&["SLPI", "CDSP1"], false);
    assert_eq!(server.state, ServerState::NewClient(0));
    assert_eq!(server.action(), Some(new_client("SLPI")));
    assert_eq!(self::server(&[], false).state, ServerState::CreateBackend);
}

/// Where a server goes on from `state` after a failure.
fn failed(state: ServerState) -> ServerState {
    let mut server = server(&["CDSP"], false);
    server.state = state;
    server.next(ServerReply::Failed);
    server.state
}

#[test]
fn what_cannot_be_created_is_an_error() {
    assert_eq!(
        failed(ServerState::CreateBackend),
        ServerState::Done(Err(ServerError::CouldNotCreateBackend))
    );
    assert_eq!(
        failed(ServerState::CreateDaemon),
        ServerState::Done(Err(ServerError::CouldNotCreateDaemon))
    );
    assert_eq!(
        failed(ServerState::RegisterListener),
        ServerState::Done(Err(ServerError::CouldNotRegisterNotifyEvent))
    );
}

#[test]
fn the_first_failure_is_reported() {
    let mut supervisor = Supervisor::new(3);
    assert_eq!(supervisor.finished(2, ThreadOutcome::Finished), SupervisorStep::Wait);
    assert_eq!(supervisor.finished(0, ThreadOutcome::Failed), SupervisorStep::ReturnError);
    assert_eq!(supervisor.finished(1, ThreadOutcome::Panicked), SupervisorStep::ResumeUnwind);
    assert!(Supervisor::new(0).is_done());
}
