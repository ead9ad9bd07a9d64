//! Serving one socket, for as long as its guests come and go.
use vstd::prelude::*;

use crate::vhu_ssr::{NUM_QUEUES, SSR_EVENT_IN_VRING_EPOLL};

verus! {

/// Errors related to low level ssr helpers
#[derive(Clone, Copy, Debug, PartialEq, Eq, Structural)]
pub enum ServerError {
    /// Could not create backend
    CouldNotCreateBackend,
    /// Could not create daemon
    CouldNotCreateDaemon,
    /// Could not register client client into vring epoll
    CouldNotRegisterNotifyEvent,
    /// Fatal error
    ServeFailed,
}

/// How the daemon of a socket ended.
#[derive(Clone, Copy, Debug, PartialEq, Eq, Structural)]
pub enum DaemonExit {
    /// Without an error.
    Finished,
    /// The guest disconnected.
    Disconnected,
    /// The guest quit in the middle of a message.
    PartialMessage,
    /// With another error.
    Failed,
}

/// Work that serving a socket consists of.
#[derive(Clone, Debug, PartialEq, Eq)]
pub enum ServerAction {
    /// Make the client with this name, registered under this prefix.
    NewClient { prefix_name: String, client_name: String },
    /// Create the device for the clients.
    CreateBackend,
    /// Create the daemon for the device.
    CreateDaemon,
    /// Have the daemon report that the notify eventfd can be read, as this
    /// device event.
    RegisterListener { device_event: u64 },
    /// Listen on the socket at this path.
    Listen { socket: Vec<u8> },
    /// Tell the service manager that the socket is ready.
    NotifyReady,
    /// Start the daemon on the socket.
    StartDaemon,
    /// Wait for the daemon to end.
    WaitDaemon,
    /// Signal the daemon's workers to exit.
    SendExitEvent,
}

/// What a [`ServerAction`] stands for.
pub enum ServerWork {
    NewClient { prefix_name: Seq<char>, client_name: Seq<char> },
    CreateBackend,
    CreateDaemon,
    RegisterListener { device_event: u64 },
    Listen { socket: Seq<u8> },
    NotifyReady,
    StartDaemon,
    WaitDaemon,
    SendExitEvent,
}

impl View for ServerAction {
    type V = ServerWork;

    open spec fn view(&self) -> ServerWork {
        match *self {
            ServerAction::NewClient { prefix_name, client_name } => ServerWork::NewClient {
                prefix_name: prefix_name@,
                client_name: client_name@,
            },
            ServerAction::CreateBackend => ServerWork::CreateBackend,
            ServerAction::CreateDaemon => ServerWork::CreateDaemon,
            ServerAction::RegisterListener { device_event } => ServerWork::RegisterListener {
                device_event,
            },
            ServerAction::Listen { socket } => ServerWork::Listen { socket: socket@ },
            ServerAction::NotifyReady => ServerWork::NotifyReady,
            ServerAction::StartDaemon => ServerWork::StartDaemon,
            ServerAction::WaitDaemon => ServerWork::WaitDaemon,
            ServerAction::SendExitEvent => ServerWork::SendExitEvent,
        }
    }
}

/// Outcome of a [`ServerAction`].
#[derive(Clone, Copy, Debug, PartialEq, Eq, Structural)]
pub enum ServerReply {
    /// The action was done.
    Succeeded,
    /// The action failed.
    Failed,
    /// The daemon ended.
    Exited(DaemonExit),
}

/// How far the serving of a socket has come.
#[derive(Clone, Copy, Debug, PartialEq, Eq)]
pub enum ServerState {
    /// The client with this index in the list is to be made.
    NewClient(usize),
    CreateBackend,
    CreateDaemon,
    RegisterListener,
    Listen,
    NotifyReady,
    StartDaemon,
    WaitDaemon,
    SendExitEvent(DaemonExit),
    /// The serving is over.
    Done(Result<(), ServerError>),
}

impl ServerState {
    /// Whether `reply` is an outcome of the action that is due. To make a client,
    /// to listen, to tell the service manager and to start the daemon must not
    /// fail, and to signal the workers cannot.
    pub open spec fn awaits(self, reply: ServerReply) -> bool {
        match self {
            ServerState::CreateBackend
            | ServerState::CreateDaemon
            | ServerState::RegisterListener => reply is Succeeded || reply is Failed,
            ServerState::NewClient(_)
            | ServerState::Listen
            | ServerState::NotifyReady
            | ServerState::StartDaemon
            | ServerState::SendExitEvent(_) => reply is Succeeded,
            ServerState::WaitDaemon => reply is Exited,
            ServerState::Done(_) => false,
        }
    }
}

/// The state from which the clients from index `i` on are made, of `clients`
/// clients in all.
pub open spec fn client_state(clients: nat, i: int) -> ServerState {
    if i < clients {
        ServerState::NewClient(i as usize)
    } else {
        ServerState::CreateBackend
    }
}

/// The serving of one socket.
#[derive(Debug, PartialEq, Eq)]
pub struct Server {
    /// Path of the socket.
    pub socket: Vec<u8>,
    /// Prefix of the names that the clients register under.
    pub prefix_name: String,
    /// Names of the clients.
    pub clients_list: Vec<String>,
    /// Whether to tell the service manager that the socket is ready.
    pub enable_sd_notify: bool,
    pub state: ServerState,
}

impl Server {
    /// A client that is to be made is one of the list.
    pub open spec fn wf(self) -> bool {
        self.state matches ServerState::NewClient(i) ==> i < self.clients_list@.len()
    }

    /// The work that is due, `None` where the serving is over.
    pub open spec fn spec_action(self) -> Option<ServerWork> {
        match self.state {
            ServerState::NewClient(i) => Some(
                ServerWork::NewClient {
                    prefix_name: self.prefix_name@,
                    client_name: self.clients_list@[i as int]@,
                },
            ),
            ServerState::CreateBackend => Some(ServerWork::CreateBackend),
            ServerState::CreateDaemon => Some(ServerWork::CreateDaemon),
            ServerState::RegisterListener => Some(
                ServerWork::RegisterListener { device_event: SSR_EVENT_IN_VRING_EPOLL as u64 },
            ),
            ServerState::Listen => Some(ServerWork::Listen { socket: self.socket@ }),
            ServerState::NotifyReady => Some(ServerWork::NotifyReady),
            ServerState::StartDaemon => Some(ServerWork::StartDaemon),
            ServerState::WaitDaemon => Some(ServerWork::WaitDaemon),
            ServerState::SendExitEvent(_) => Some(ServerWork::SendExitEvent),
            ServerState::Done(_) => None,
        }
    }

    /// The state that follows an outcome of the action that is due.
    pub open spec fn spec_next_state(self, reply: ServerReply) -> ServerState {
        match (self.state, reply) {
            (ServerState::NewClient(i), ServerReply::Succeeded) => client_state(
                self.clients_list@.len(),
                i + 1,
            ),
            (ServerState::CreateBackend, ServerReply::Succeeded) => ServerState::CreateDaemon,
            (ServerState::CreateBackend, ServerReply::Failed) => {
                ServerState::Done(Err(ServerError::CouldNotCreateBackend))
            },
            (ServerState::CreateDaemon, ServerReply::Succeeded) => ServerState::RegisterListener,
            (ServerState::CreateDaemon, ServerReply::Failed) => {
                ServerState::Done(Err(ServerError::CouldNotCreateDaemon))
            },
            (ServerState::RegisterListener, ServerReply::Succeeded) => ServerState::Listen,
            (ServerState::RegisterListener, ServerReply::Failed) => {
                ServerState::Done(Err(ServerError::CouldNotRegisterNotifyEvent))
            },
            (ServerState::Listen, ServerReply::Succeeded) => if self.enable_sd_notify {
                ServerState::NotifyReady
            } else {
                ServerState::StartDaemon
            },
            (ServerState::NotifyReady, ServerReply::Succeeded) => ServerState::StartDaemon,
            (ServerState::StartDaemon, ServerReply::Succeeded) => ServerState::WaitDaemon,
            (ServerState::WaitDaemon, ServerReply::Exited(exit)) => {
                ServerState::SendExitEvent(exit)
            },
            (ServerState::SendExitEvent(exit), ServerReply::Succeeded) => after_exit(exit),
            _ => self.state,
        }
    }

    /// What follows an outcome of the action that is due.
    pub open spec fn spec_next(self, reply: ServerReply) -> Server {
        Server { state: self.spec_next_state(reply), ..self }
    }

    /// The action that is due, `None` where the serving is over.
    pub fn action(&self) -> (action: Option<ServerAction>)
        requires
            self.wf(),
        ensures
            match action {
                Some(action) => self.spec_action() == Some(action@),
                None => self.spec_action() is None,
            },
    {
        match self.state {
            ServerState::NewClient(i) => Some(
                ServerAction::NewClient {
                    prefix_name: self.prefix_name.clone(),
                    client_name: self.clients_list[i].clone(),
                },
            ),
            ServerState::CreateBackend => Some(ServerAction::CreateBackend),
            ServerState::CreateDaemon => Some(ServerAction::CreateDaemon),
            ServerState::RegisterListener => Some(
                ServerAction::RegisterListener { device_event: SSR_EVENT_IN_VRING_EPOLL as u64 },
            ),
            ServerState::Listen => Some(ServerAction::Listen { socket: self.socket.clone() }),
            ServerState::NotifyReady => Some(ServerAction::NotifyReady),
            ServerState::StartDaemon => Some(ServerAction::StartDaemon),
            ServerState::WaitDaemon => Some(ServerAction::WaitDaemon),
            ServerState::SendExitEvent(_) => Some(ServerAction::SendExitEvent),
            ServerState::Done(_) => None,
        }
    }

    /// Goes on with an outcome of the action that is due.
    pub fn next(&mut self, reply: ServerReply)
        requires
            old(self).wf(),
            old(self).state.awaits(reply),
        ensures
            final(self).wf(),
            *final(self) == old(self).spec_next(reply),
    {
        self.state = match (self.state, reply) {
            (ServerState::NewClient(i), _) => {
                let clients: usize = self.clients_list.len();
                if i + 1 < clients {
                    ServerState::NewClient(i + 1)
                } else {
                    ServerState::CreateBackend
                }
            },
            (ServerState::CreateBackend, ServerReply::Succeeded) => ServerState::CreateDaemon,
            (ServerState::CreateBackend, _) => {
                ServerState::Done(Err(ServerError::CouldNotCreateBackend))
            },
            (ServerState::CreateDaemon, ServerReply::Succeeded) => ServerState::RegisterListener,
            (ServerState::CreateDaemon, _) => {
                ServerState::Done(Err(ServerError::CouldNotCreateDaemon))
            },
            (ServerState::RegisterListener, ServerReply::Succeeded) => ServerState::Listen,
            (ServerState::RegisterListener, _) => {
                ServerState::Done(Err(ServerError::CouldNotRegisterNotifyEvent))
            },
            (ServerState::Listen, _) => if self.enable_sd_notify {
                ServerState::NotifyReady
            } else {
                ServerState::StartDaemon
            },
            (ServerState::NotifyReady, _) => ServerState::StartDaemon,
            (ServerState::StartDaemon, _) => ServerState::WaitDaemon,
            (ServerState::WaitDaemon, ServerReply::Exited(exit)) => {
                ServerState::SendExitEvent(exit)
            },
            (ServerState::SendExitEvent(exit), _) => match exit {
                // A guest that quits is no error: its successor is served anew.
                DaemonExit::Disconnected | DaemonExit::PartialMessage => ServerState::CreateBackend,
                DaemonExit::Finished => ServerState::Done(Ok(())),
                DaemonExit::Failed => ServerState::Done(Err(ServerError::ServeFailed)),
            },
            (state, _) => state,
        };
    }
}

/// What follows the end of a daemon: the next session where the guest merely
/// quit, else the end of the serving, with an error where the daemon had one.
pub open spec fn after_exit(exit: DaemonExit) -> ServerState {
    match exit {
        DaemonExit::Disconnected | DaemonExit::PartialMessage => ServerState::CreateBackend,
        DaemonExit::Finished => ServerState::Done(Ok(())),
        DaemonExit::Failed => ServerState::Done(Err(ServerError::ServeFailed)),
    }
}

/// The start of serving a socket: with the first client of the list, if there
/// is one.
pub fn start_backend_server(
    socket: Vec<u8>,
    prefix_name: String,
    clients_list: Vec<String>,
    enable_sd_notify: bool,
) -> (server: Server)
    ensures
        server.wf(),
        server.socket == socket,
        server.prefix_name == prefix_name,
        server.clients_list == clients_list,
        server.enable_sd_notify == enable_sd_notify,
        server.state == client_state(clients_list@.len(), 0),
        clients_list@.len() > 0 ==> server.state == ServerState::NewClient(0),
        clients_list@.len() == 0 ==> server.state == ServerState::CreateBackend,
{
    let state = if clients_list.len() > 0 {
        ServerState::NewClient(0)
    } else {
        ServerState::CreateBackend
    };
    Server { socket, prefix_name, clients_list, enable_sd_notify, state }
}

/// The server after all replies.
pub open spec fn server_after(server: Server, replies: Seq<ServerReply>) -> Server
    decreases replies.len(),
{
    if replies.len() == 0 {
        server
    } else {
        server_after(server, replies.drop_last()).spec_next(replies.last())
    }
}

/// The actions that the replies are outcomes of, in order.
pub open spec fn server_actions(server: Server, replies: Seq<ServerReply>) -> Seq<
    Option<ServerWork>,
>
    decreases replies.len(),
{
    if replies.len() == 0 {
        Seq::empty()
    } else {
        server_actions(server, replies.drop_last()).push(
            server_after(server, replies.drop_last()).spec_action(),
        )
    }
}

/// The replies of a round in which all goes well until the daemon ends.
pub open spec fn round_replies(enable_sd_notify: bool, exit: DaemonExit) -> Seq<ServerReply> {
    let done = ServerReply::Succeeded;
    let listening = seq![done, done, done, done];
    let ready = if enable_sd_notify {
        listening.push(done)
    } else {
        listening
    };
    ready.push(done).push(ServerReply::Exited(exit)).push(done)
}

/// The work of a round. The service manager is told, if it is to be told, when
/// the socket is ready and before any guest is served.
pub open spec fn round_actions(enable_sd_notify: bool, socket: Seq<u8>) -> Seq<Option<ServerWork>> {
    let listening = seq![
        Some(ServerWork::CreateBackend),
        Some(ServerWork::CreateDaemon),
        Some(ServerWork::RegisterListener { device_event: SSR_EVENT_IN_VRING_EPOLL as u64 }),
        Some(ServerWork::Listen { socket }),
    ];
    let ready = if enable_sd_notify {
        listening.push(Some(ServerWork::NotifyReady))
    } else {
        listening
    };
    ready.push(Some(ServerWork::StartDaemon)).push(Some(ServerWork::WaitDaemon)).push(
        Some(ServerWork::SendExitEvent),
    )
}

/// The replies while the first `n` clients are made.
pub open spec fn client_replies(n: nat) -> Seq<ServerReply> {
    Seq::new(n, |i: int| ServerReply::Succeeded)
}

/// The making of the first `n` clients, one for each name, in the order of the
/// list.
pub open spec fn client_actions(server: Server, n: nat) -> Seq<Option<ServerWork>> {
    Seq::new(
        n,
        |i: int|
            Some(
                ServerWork::NewClient {
                    prefix_name: server.prefix_name@,
                    client_name: server.clients_list@[i]@,
                },
            ),
    )
}

/// The replies of one round after the other, whose daemons end as given.
pub open spec fn session_replies(enable_sd_notify: bool, exits: Seq<DaemonExit>) -> Seq<ServerReply>
    decreases exits.len(),
{
    if exits.len() == 0 {
        Seq::empty()
    } else {
        session_replies(enable_sd_notify, exits.drop_last()) + round_replies(
            enable_sd_notify,
            exits.last(),
        )
    }
}

/// The work of `n` rounds.
pub open spec fn session_actions(enable_sd_notify: bool, socket: Seq<u8>, n: nat) -> Seq<
    Option<ServerWork>,
>
    decreases n,
{
    if n == 0 {
        Seq::empty()
    } else {
        session_actions(enable_sd_notify, socket, (n - 1) as nat) + round_actions(
            enable_sd_notify,
            socket,
        )
    }
}

/// Whether each reply is an outcome of the action that was due.
pub open spec fn server_awaits(server: Server, replies: Seq<ServerReply>) -> bool
    decreases replies.len(),
{
    replies.len() > 0 ==> {
        &&& server_awaits(server, replies.drop_last())
        &&& server_after(server, replies.drop_last()).state.awaits(replies.last())
    }
}

/// Whether the action makes a client.
pub open spec fn is_new_client(action: Option<ServerWork>) -> bool {
    action matches Some(ServerWork::NewClient { .. })
}

proof fn lemma_server_push(server: Server, replies: Seq<ServerReply>, reply: ServerReply)
    ensures
        server_after(server, replies.push(reply)) == server_after(server, replies).spec_next(reply),
        server_actions(server, replies.push(reply)) == server_actions(server, replies).push(
            server_after(server, replies).spec_action(),
        ),
{
    assert(replies.push(reply).drop_last() =~= replies);
}

proof fn lemma_server_concat(server: Server, first: Seq<ServerReply>, second: Seq<ServerReply>)
    ensures
        server_after(server, first + second) == server_after(server_after(server, first), second),
        server_actions(server, first + second) == server_actions(server, first) + server_actions(
            server_after(server, first),
            second,
        ),
    decreases second.len(),
{
    if second.len() == 0 {
        assert(first + second =~= first);
        assert(server_actions(server, first) + server_actions(server_after(server, first), second)
            =~= server_actions(server, first));
    } else {
        let init = second.drop_last();
        let between = server_after(server, first);
        lemma_server_concat(server, first, init);
        assert(first + second =~= (first + init).push(second.last()));
        lemma_server_push(server, first + init, second.last());
        assert(server_actions(server, first + second) =~= server_actions(server, first)
            + server_actions(between, second));
    }
}

/// A round does its work in order, makes no client, and signals the daemon's
/// workers to exit however the daemon ended. Where the guest merely quit, the
/// next round starts; otherwise the serving is over, with an error where the
/// daemon had one.
pub proof fn law_round(server: Server, exit: DaemonExit)
    requires
        server.state == ServerState::CreateBackend,
    ensures
        server_actions(server, round_replies(server.enable_sd_notify, exit)) == round_actions(
            server.enable_sd_notify,
            server.socket@,
        ),
        server_after(server, round_replies(server.enable_sd_notify, exit)) == (Server {
            state: after_exit(exit),
            ..server
        }),
{
    let enable_sd_notify = server.enable_sd_notify;
    let done = ServerReply::Succeeded;
    let none = Seq::<ServerReply>::empty();
    let listening = none.push(done).push(done).push(done).push(done);
    lemma_server_push(server, none, done);
    lemma_server_push(server, none.push(done), done);
    lemma_server_push(server, none.push(done).push(done), done);
    lemma_server_push(server, none.push(done).push(done).push(done), done);
    assert(listening =~= seq![done, done, done, done]);
    let ready = if enable_sd_notify {
        listening.push(done)
    } else {
        listening
    };
    if enable_sd_notify {
        lemma_server_push(server, listening, done);
    }
    let started = ready.push(done);
    lemma_server_push(server, ready, done);
    lemma_server_push(server, started, ServerReply::Exited(exit));
    lemma_server_push(server, started.push(ServerReply::Exited(exit)), done);
    assert(server_actions(server, round_replies(enable_sd_notify, exit)) =~= round_actions(
        enable_sd_notify,
        server.socket@,
    ));
}

proof fn lemma_clients(server: Server, n: nat)
    requires
        server.state == client_state(server.clients_list@.len(), 0),
        n <= server.clients_list@.len(),
    ensures
        server_actions(server, client_replies(n)) == client_actions(server, n),
        server_after(server, client_replies(n)) == (Server {
            state: client_state(server.clients_list@.len(), n as int),
            ..server
        }),
    decreases n,
{
    if n == 0 {
        assert(server_actions(server, client_replies(n)) =~= client_actions(server, n));
    } else {
        let m = (n - 1) as nat;
        lemma_clients(server, m);
        assert(client_replies(n) =~= client_replies(m).push(ServerReply::Succeeded));
        lemma_server_push(server, client_replies(m), ServerReply::Succeeded);
        assert(server.clients_list.len() == server.clients_list@.len());
        assert(client_actions(server, n) =~= client_actions(server, m).push(
            client_actions(server, n)[m as int],
        ));
    }
}

proof fn lemma_sessions(server: Server, exits: Seq<DaemonExit>)
    requires
        server.state == ServerState::CreateBackend,
        forall|k: int|
            0 <= k < exits.len() - 1 ==> after_exit(#[trigger] exits[k])
                == ServerState::CreateBackend,
    ensures
        server_actions(server, session_replies(server.enable_sd_notify, exits)) == session_actions(
            server.enable_sd_notify,
            server.socket@,
            exits.len(),
        ),
        server_after(server, session_replies(server.enable_sd_notify, exits)) == (Server {
            state: if exits.len() == 0 {
                ServerState::CreateBackend
            } else {
                after_exit(exits.last())
            },
            ..server
        }),
    decreases exits.len(),
{
    if exits.len() > 0 {
        let init = exits.drop_last();
        let before = session_replies(server.enable_sd_notify, init);
        assert forall|k: int| 0 <= k < init.len() - 1 implies after_exit(#[trigger] init[k])
            == ServerState::CreateBackend by {
            assert(init[k] == exits[k]);
        }
        lemma_sessions(server, init);
        if init.len() > 0 {
            assert(init.last() == exits[exits.len() - 2]);
        }
        lemma_server_concat(
            server,
            before,
            round_replies(server.enable_sd_notify, exits.last()),
        );
        law_round(server_after(server, before), exits.last());
    }
}

/// Serving a socket makes each client of the list exactly once, in order and
/// before the first session. It then does the work of one session after the
/// other, for as long as guests merely quit, and makes no further client.
pub proof fn law_serve(server: Server, exits: Seq<DaemonExit>)
    requires
        server.state == client_state(server.clients_list@.len(), 0),
        exits.len() > 0,
        forall|k: int|
            0 <= k < exits.len() - 1 ==> after_exit(#[trigger] exits[k])
                == ServerState::CreateBackend,
    ensures
        ({
            let n = server.clients_list@.len();
            let replies = client_replies(n) + session_replies(server.enable_sd_notify, exits);
            &&& server_actions(server, replies) == client_actions(server, n) + session_actions(
                server.enable_sd_notify,
                server.socket@,
                exits.len(),
            )
            &&& server_after(server, replies).state == after_exit(exits.last())
        }),
{
    let n = server.clients_list@.len();
    lemma_clients(server, n);
    lemma_server_concat(
        server,
        client_replies(n),
        session_replies(server.enable_sd_notify, exits),
    );
    lemma_sessions(server_after(server, client_replies(n)), exits);
}

/// Serving ends without an error only once a daemon ended without one and its
/// workers were signalled.
pub proof fn law_success(server: Server, reply: ServerReply)
    requires
        server.state.awaits(reply),
        server.spec_next(reply).state == ServerState::Done(Ok(())),
    ensures
        server.state == ServerState::SendExitEvent(DaemonExit::Finished),
{
}

/// However serving goes, each client of the list is made exactly once, in order
/// and before anything else is done.
pub proof fn law_clients_once(server: Server, replies: Seq<ServerReply>)
    requires
        server.state == client_state(server.clients_list@.len(), 0),
        server_awaits(server, replies),
    ensures
        ({
            let n = server.clients_list@.len();
            let actions = server_actions(server, replies);
            let state = server_after(server, replies).state;
            &&& actions.len() == replies.len()
            &&& forall|k: int|
                0 <= k < replies.len() && k < n ==> #[trigger] actions[k] == client_actions(
                    server,
                    n,
                )[k]
            &&& forall|k: int|
                n <= k < replies.len() ==> !is_new_client(#[trigger] actions[k])
            &&& server_after(server, replies) == (Server { state, ..server })
            &&& replies.len() <= n ==> state == client_state(n, replies.len() as int)
            &&& replies.len() > n ==> state !is NewClient
        }),
    decreases replies.len(),
{
    if replies.len() > 0 {
        law_clients_once(server, replies.drop_last());
        assert(server.clients_list.len() == server.clients_list@.len());
    }
}

/// However serving goes, all sessions listen on the one socket.
pub proof fn law_one_socket(server: Server, replies: Seq<ServerReply>)
    ensures
        server_after(server, replies).socket == server.socket,
        forall|k: int|
            0 <= k < server_actions(server, replies).len() ==> (#[trigger] server_actions(
                server,
                replies,
            )[k] matches Some(ServerWork::Listen { socket }) ==> socket == server.socket@),
    decreases replies.len(),
{
    if replies.len() > 0 {
        law_one_socket(server, replies.drop_last());
    }
}

/// The device event that the daemon is told to report is none of those it keeps
/// for its rings and its exit, and is the one on which the device processes its
/// queue.
pub proof fn law_listener_event(server: Server, device_event: u64)
    requires
        server.spec_action() == Some(ServerWork::RegisterListener { device_event }),
    ensures
        device_event > NUM_QUEUES,
        device_event == SSR_EVENT_IN_VRING_EPOLL,
{
}

/// An action stands for the work it names, with the texts and numbers it holds.
pub proof fn law_action_views(
    prefix_name: String,
    client_name: String,
    device_event: u64,
    socket: Vec<u8>,
)
    ensures
        (ServerAction::NewClient { prefix_name, client_name })@ == (ServerWork::NewClient {
            prefix_name: prefix_name@,
            client_name: client_name@,
        }),
        ServerAction::CreateBackend@ == ServerWork::CreateBackend,
        ServerAction::CreateDaemon@ == ServerWork::CreateDaemon,
        (ServerAction::RegisterListener { device_event })@ == (ServerWork::RegisterListener {
            device_event,
        }),
        (ServerAction::Listen { socket })@ == (ServerWork::Listen { socket: socket@ }),
        ServerAction::NotifyReady@ == ServerWork::NotifyReady,
        ServerAction::StartDaemon@ == ServerWork::StartDaemon,
        ServerAction::WaitDaemon@ == ServerWork::WaitDaemon,
        ServerAction::SendExitEvent@ == ServerWork::SendExitEvent,
{
}

/// Each state calls for its own work. A client is made with the prefix and with
/// the name at its place in the list.
pub proof fn law_server_due(server: Server)
    ensures
        server.spec_action() == match server.state {
            ServerState::NewClient(i) => Some(
                ServerWork::NewClient {
                    prefix_name: server.prefix_name@,
                    client_name: server.clients_list@[i as int]@,
                },
            ),
            ServerState::CreateBackend => Some(ServerWork::CreateBackend),
            ServerState::CreateDaemon => Some(ServerWork::CreateDaemon),
            ServerState::RegisterListener => Some(
                ServerWork::RegisterListener { device_event: 256 },
            ),
            ServerState::Listen => Some(ServerWork::Listen { socket: server.socket@ }),
            ServerState::NotifyReady => Some(ServerWork::NotifyReady),
            ServerState::StartDaemon => Some(ServerWork::StartDaemon),
            ServerState::WaitDaemon => Some(ServerWork::WaitDaemon),
            ServerState::SendExitEvent(_) => Some(ServerWork::SendExitEvent),
            ServerState::Done(_) => None,
        },
{
}

/// The clients are made from the first of the list to the last, and then the
/// first session starts. Without clients it starts at once.
pub proof fn law_clients_in_turn(server: Server, i: usize)
    requires
        server.state == ServerState::NewClient(i),
        i < server.clients_list@.len(),
    ensures
        client_state(server.clients_list@.len(), 0) == ServerState::NewClient(0),
        client_state(0, 0) == ServerState::CreateBackend,
        server.state.awaits(ServerReply::Succeeded),
        i + 1 < server.clients_list@.len() ==> server.spec_next(ServerReply::Succeeded).state
            == ServerState::NewClient((i + 1) as usize),
        i + 1 == server.clients_list@.len() ==> server.spec_next(ServerReply::Succeeded).state
            == ServerState::CreateBackend,
{
    assert(server.clients_list.len() == server.clients_list@.len());
}

/// The steps of a session, each after the one before it succeeded: device,
/// daemon, listener of the eventfd, socket, the word to the service manager if
/// it is asked for, the daemon's run and its end. Where the device, the daemon or
/// the listener cannot be made, serving ends with the error for it.
pub proof fn law_session_steps(server: Server, exit: DaemonExit)
    ensures
        ({
            let done = ServerReply::Succeeded;
            let failed = ServerReply::Failed;
            let device = Server { state: ServerState::CreateBackend, ..server };
            let daemon = Server { state: ServerState::CreateDaemon, ..server };
            let listener = Server { state: ServerState::RegisterListener, ..server };
            let listen = Server { state: ServerState::Listen, ..server };
            let ready = Server { state: ServerState::NotifyReady, ..server };
            let start = Server { state: ServerState::StartDaemon, ..server };
            let wait = Server { state: ServerState::WaitDaemon, ..server };
            let send = Server { state: ServerState::SendExitEvent(exit), ..server };
            &&& device.state.awaits(done) && device.spec_next(done) == daemon
            &&& device.state.awaits(failed) && device.spec_next(failed).state == ServerState::Done(
                Err(ServerError::CouldNotCreateBackend),
            )
            &&& daemon.state.awaits(done) && daemon.spec_next(done) == listener
            &&& daemon.state.awaits(failed) && daemon.spec_next(failed).state == ServerState::Done(
                Err(ServerError::CouldNotCreateDaemon),
            )
            &&& listener.state.awaits(done) && listener.spec_next(done) == listen
            &&& listener.state.awaits(failed) && listener.spec_next(failed).state
                == ServerState::Done(Err(ServerError::CouldNotRegisterNotifyEvent))
            &&& listen.state.awaits(done)
            &&& server.enable_sd_notify ==> listen.spec_next(done) == ready
            &&& !server.enable_sd_notify ==> listen.spec_next(done) == start
            &&& ready.state.awaits(done) && ready.spec_next(done) == start
            &&& start.state.awaits(done) && start.spec_next(done) == wait
            &&& wait.state.awaits(ServerReply::Exited(exit)) && wait.spec_next(
                ServerReply::Exited(exit),
            ) == send
            &&& send.state.awaits(done)
        }),
{
}

/// A guest that disconnected or quit in the middle of a message is followed by
/// the next session. A daemon that ended by itself ends the serving with
/// success, and one that failed with an error.
pub proof fn law_session_end(server: Server, exit: DaemonExit)
    requires
        server.state == ServerState::SendExitEvent(exit),
    ensures
        ({
            let state = server.spec_next(ServerReply::Succeeded).state;
            &&& state == ServerState::CreateBackend <==> exit == DaemonExit::Disconnected || exit
                == DaemonExit::PartialMessage
            &&& state == ServerState::Done(Ok(())) <==> exit == DaemonExit::Finished
            &&& state == ServerState::Done(Err(ServerError::ServeFailed)) <==> exit
                == DaemonExit::Failed
        }),
{
}

/// Only the state changes in the course of serving.
pub proof fn law_server_constants(server: Server, reply: ServerReply)
    ensures
        server.spec_next(reply).socket == server.socket,
        server.spec_next(reply).prefix_name == server.prefix_name,
        server.spec_next(reply).clients_list == server.clients_list,
        server.spec_next(reply).enable_sd_notify == server.enable_sd_notify,
{
}

} // verus!
