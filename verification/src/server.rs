//! The settings of a TCP server and the decisions that are taken while it runs. Sockets and
//! the event loop are left to the program around it.

use std::marker::PhantomData;
use std::sync::Arc;
use vstd::prelude::*;

verus! {

/// An IP address and a port.
#[derive(Debug, Clone, Copy, PartialEq, Eq, Structural)]
pub enum SocketAddr {
    /// An IPv4 address, the first octet in the highest bits.
    V4 { ipv4: u32, port: u16 },
    /// An IPv6 address, the first octet in the highest bits.
    V6 { ipv6: u128, port: u16, flowinfo: u32, scope_id: u32 },
}

/// The kinds of systems that differ in what they allow sockets to do.
#[derive(Debug, Clone, Copy, PartialEq, Eq, Structural)]
pub enum Platform {
    /// Several event loops can listen on one port.
    Unix,
    /// Only one event loop can listen on a port.
    Windows,
}

/// A builder for TCP servers.
///
/// Setting up a server needs a protocol implementation and an address.
#[derive(Debug)]
pub struct TcpServer<Kind, P> {
    _kind: PhantomData<Kind>,
    proto: Arc<P>,
    threads: usize,
    addr: SocketAddr,
}

/// The model of a [`TcpServer`].
pub struct TcpServerView<P> {
    pub proto: P,
    pub threads: nat,
    pub addr: SocketAddr,
}

impl<Kind, P> View for TcpServer<Kind, P> {
    type V = TcpServerView<P>;

    closed spec fn view(&self) -> TcpServerView<P> {
        TcpServerView { proto: *self.proto, threads: self.threads as nat, addr: self.addr }
    }
}

impl<Kind, P> TcpServer<Kind, P> {
    /// There is at least one event loop.
    #[verifier::type_invariant]
    spec fn has_event_loop(self) -> bool {
        self.threads > 0
    }

    /// Starts building a server for the given protocol and address, with default
    /// configuration: a single event loop.
    pub fn new(protocol: P, addr: SocketAddr) -> (server: TcpServer<Kind, P>)
        ensures
            server@ == (TcpServerView { proto: protocol, threads: 1, addr }),
    {
        TcpServer { _kind: PhantomData, proto: Arc::new(protocol), threads: 1, addr }
    }

    /// Sets the address for the server.
    pub fn addr(&mut self, addr: SocketAddr)
        ensures
            final(self)@ == (TcpServerView { addr, ..old(self)@ }),
    {
        proof {
            use_type_invariant(&*self);
        }
        self.addr = addr;
    }

    /// Sets the number of threads running simultaneous event loops. There is a choice on Unix
    /// only; elsewhere the number stays what it is.
    pub fn threads(&mut self, threads: usize, platform: Platform)
        requires
            threads > 0,
        ensures
            final(self)@ == (if platform is Unix {
                TcpServerView { threads: threads as nat, ..old(self)@ }
            } else {
                old(self)@
            }),
    {
        if platform == Platform::Unix {
            self.threads = threads;
        }
    }

    /// The protocol that the server speaks.
    pub fn protocol(&self) -> (proto: &Arc<P>)
        ensures
            **proto == self@.proto,
    {
        &self.proto
    }

    /// The address that the server is to listen on.
    pub fn address(&self) -> (addr: SocketAddr)
        ensures
            addr == self@.addr,
    {
        self.addr
    }

    /// The number of event loops, which is never zero.
    pub fn workers(&self) -> (workers: usize)
        ensures
            workers == self@.threads,
            workers > 0,
    {
        proof {
            use_type_invariant(self);
        }
        self.threads
    }
}

/// How many connections may wait to be accepted.
pub const BACKLOG: i32 = 1024;

/// One step on the way to a socket that accepts connections.
#[derive(Debug, Clone, Copy, PartialEq, Eq, Structural)]
pub enum SocketStep {
    /// Create a socket for IPv4.
    OpenV4,
    /// Create a socket for IPv6.
    OpenV6,
    /// Let other sockets listen on the same port.
    ReusePort,
    /// Let the address be used again right after another socket has given it up.
    ReuseAddress,
    /// Give the socket its address.
    Bind(SocketAddr),
    /// Accept connections, with this many waiting at most.
    Listen(i32),
}

/// The port is shared where there are several event loops and the platform allows it.
pub open spec fn shares_port(workers: nat, platform: Platform) -> bool {
    platform is Unix && workers > 1
}

/// The step that creates a socket of the family of an address.
pub open spec fn open_step(addr: SocketAddr) -> SocketStep {
    if addr is V4 {
        SocketStep::OpenV4
    } else {
        SocketStep::OpenV6
    }
}

/// The steps to a listening socket: open it, set its options, bind it, listen.
pub open spec fn listener_plan(addr: SocketAddr, workers: nat, platform: Platform) -> Seq<
    SocketStep,
> {
    seq![open_step(addr)] + options_plan(workers, platform) + seq![
        SocketStep::ReuseAddress,
        SocketStep::Bind(addr),
        SocketStep::Listen(BACKLOG),
    ]
}

/// The options that depend on the platform.
pub open spec fn options_plan(workers: nat, platform: Platform) -> Seq<SocketStep> {
    if shares_port(workers, platform) {
        seq![SocketStep::ReusePort]
    } else {
        Seq::empty()
    }
}

/// Appends the options that depend on the platform.
pub fn configure_tcp(workers: usize, platform: Platform, steps: &mut Vec<SocketStep>)
    ensures
        final(steps)@ == old(steps)@ + options_plan(workers as nat, platform),
{
    if platform == Platform::Unix && workers > 1 {
        steps.push(SocketStep::ReusePort);
    }
    assert(steps@ =~= old(steps)@ + options_plan(workers as nat, platform));
}

/// The steps to a socket that listens on `addr` for one of `workers` event loops. Each is to
/// be taken only if the one before it has succeeded.
pub fn listener(addr: &SocketAddr, workers: usize, platform: Platform) -> (steps: Vec<SocketStep>)
    ensures
        steps@ == listener_plan(*addr, workers as nat, platform),
{
    let mut steps: Vec<SocketStep> = Vec::new();
    match *addr {
        SocketAddr::V4 { .. } => steps.push(SocketStep::OpenV4),
        SocketAddr::V6 { .. } => steps.push(SocketStep::OpenV6),
    }
    configure_tcp(workers, platform, &mut steps);
    steps.push(SocketStep::ReuseAddress);
    steps.push(SocketStep::Bind(*addr));
    steps.push(SocketStep::Listen(BACKLOG));
    assert(steps@ =~= listener_plan(*addr, workers as nat, platform));
    steps
}

/// Why a server has stopped.
#[derive(Debug, Clone, Copy, PartialEq, Eq, Structural)]
pub enum Ending {
    /// It was told to.
    Shutdown,
    /// It could not go on.
    Failure,
}

/// Whether a server is running.
#[derive(Debug, Clone, Copy, PartialEq, Eq, Structural)]
pub enum ServerState {
    Running,
    Stopped(Ending),
}

/// What happens to a server.
#[derive(Debug, Clone, Copy, PartialEq, Eq, Structural)]
pub enum ServerEvent {
    /// A connection was accepted, and there is a service for it.
    Connected,
    /// A connection was accepted, but no service could be created for it.
    ServiceFailed,
    /// Accepting a connection failed.
    AcceptFailed,
    /// There will be no more connections.
    ListenerClosed,
    /// The shutdown signal has come.
    ShutdownSignal,
    /// The source of the shutdown signal failed.
    ShutdownFailed,
}

/// What is to be done about it.
#[derive(Debug, Clone, Copy, PartialEq, Eq, Structural)]
pub enum ServerAction {
    /// Run the service on the connection.
    Serve,
    /// Drop the listener.
    Stop,
    /// Nothing, for the server has stopped before.
    Ignore,
}

/// The ending that an event brings about, if it does.
pub open spec fn ends(event: ServerEvent) -> Option<Ending> {
    match event {
        ServerEvent::Connected => None,
        ServerEvent::ListenerClosed => Some(Ending::Shutdown),
        ServerEvent::ShutdownSignal => Some(Ending::Shutdown),
        _ => Some(Ending::Failure),
    }
}

/// The state after an event.
pub open spec fn state_after(state: ServerState, event: ServerEvent) -> ServerState {
    match (state, ends(event)) {
        (ServerState::Running, Some(ending)) => ServerState::Stopped(ending),
        _ => state,
    }
}

/// The action on an event.
pub open spec fn action_on(state: ServerState, event: ServerEvent) -> ServerAction {
    if state != ServerState::Running {
        ServerAction::Ignore
    } else if ends(event) is Some {
        ServerAction::Stop
    } else {
        ServerAction::Serve
    }
}

/// Takes the decision on an event.
pub fn serve_step(state: ServerState, event: ServerEvent) -> (next: (ServerState, ServerAction))
    ensures
        next.0 == state_after(state, event),
        next.1 == action_on(state, event),
{
    match state {
        ServerState::Stopped(_) => (state, ServerAction::Ignore),
        ServerState::Running => match event {
            ServerEvent::Connected => (state, ServerAction::Serve),
            ServerEvent::ListenerClosed | ServerEvent::ShutdownSignal => (
                ServerState::Stopped(Ending::Shutdown),
                ServerAction::Stop,
            ),
            _ => (ServerState::Stopped(Ending::Failure), ServerAction::Stop),
        },
    }
}

/// Changes the types of both sides of a result, each by its own conversion.
pub fn change_types<A: Into<C>, B: Into<D>, C, D>(r: Result<A, B>) -> (changed: Result<C, D>)
    ensures
        match (r, changed) {
            (Ok(a), Ok(c)) => call_ensures(<A as Into<C>>::into, (a,), c),
            (Err(b), Err(d)) => call_ensures(<B as Into<D>>::into, (b,), d),
            _ => false,
        },
{
    match r {
        Ok(e) => Ok(e.into()),
        Err(e) => Err(e.into()),
    }
}

/// The state after a series of events.
pub open spec fn state_after_all(state: ServerState, events: Seq<ServerEvent>) -> ServerState
    decreases events.len(),
{
    if events.len() == 0 {
        state
    } else {
        state_after(state_after_all(state, events.drop_last()), events.last())
    }
}

/// A server that has stopped stays stopped, for the same reason, and serves no connection.
pub proof fn law_stopped_for_good(ending: Ending, events: Seq<ServerEvent>, event: ServerEvent)
    ensures
        state_after_all(ServerState::Stopped(ending), events) == ServerState::Stopped(ending),
        action_on(state_after_all(ServerState::Stopped(ending), events), event)
            == ServerAction::Ignore,
    decreases events.len(),
{
    if events.len() > 0 {
        law_stopped_for_good(ending, events.drop_last(), event);
    }
}

/// A server runs exactly as long as nothing but connections with a service have come in.
pub proof fn law_runs_on_connections(events: Seq<ServerEvent>)
    ensures
        state_after_all(ServerState::Running, events) == ServerState::Running <==> (forall|i: int|
            0 <= i < events.len() ==> events[i] == ServerEvent::Connected),
    decreases events.len(),
{
    if events.len() > 0 {
        let earlier = events.drop_last();
        law_runs_on_connections(earlier);
        assert forall|i: int| 0 <= i < earlier.len() implies earlier[i] == #[trigger] events[i] by {}
        if forall|i: int| 0 <= i < events.len() ==> events[i] == ServerEvent::Connected {
            assert(events.last() == ServerEvent::Connected);
        }
        if state_after_all(ServerState::Running, events) == ServerState::Running {
            assert(state_after_all(ServerState::Running, earlier) == ServerState::Running);
            assert(events.last() == ServerEvent::Connected);
            assert forall|i: int| 0 <= i < events.len() implies events[i]
                == ServerEvent::Connected by {
                if i < earlier.len() {
                    assert(earlier[i] == ServerEvent::Connected);
                }
            }
        }
    }
}

/// The first event that ends a server decides how it ends, whatever comes later.
pub proof fn law_first_ending_counts(
    before: Seq<ServerEvent>,
    event: ServerEvent,
    after: Seq<ServerEvent>,
)
    requires
        forall|i: int| 0 <= i < before.len() ==> before[i] == ServerEvent::Connected,
        ends(event) is Some,
    ensures
        state_after_all(ServerState::Running, before.push(event) + after) == ServerState::Stopped(
            ends(event)->0,
        ),
    decreases after.len(),
{
    if after.len() == 0 {
        law_runs_on_connections(before);
        assert(before.push(event) + after =~= before.push(event));
        assert(before.push(event).drop_last() =~= before);
    } else {
        law_first_ending_counts(before, event, after.drop_last());
        assert((before.push(event) + after).drop_last() =~= before.push(event)
            + after.drop_last());
    }
}

/// On the way to a listening socket every option is set before the socket is bound, it is
/// bound before it listens, and it listens in the last step.
pub proof fn law_options_precede_bind(addr: SocketAddr, workers: nat, platform: Platform, i: int)
    requires
        0 <= i < listener_plan(addr, workers, platform).len(),
    ensures
        ({
            let plan = listener_plan(addr, workers, platform);
            &&& plan[i] is Bind <==> i == plan.len() - 2
            &&& plan[i] is Listen <==> i == plan.len() - 1
            &&& plan[i] is ReuseAddress <==> i == plan.len() - 3
            &&& plan[i] is ReusePort <==> shares_port(workers, platform) && i == 1
            &&& plan[i] == open_step(addr) <==> i == 0
        }),
{
}

} // verus!
