//! The settings and decisions of a server: what every call gives, and what one call leaves to
//! the next.

use crate::server::{
    change_types, configure_tcp, listener, serve_step, Ending, Platform, ServerAction, ServerEvent,
    ServerState, SocketAddr, SocketStep, TcpServer,
};
use std::sync::Arc;
use vstd::prelude::*;

verus! {

/// A new server has the protocol and the address that it was given, and one event loop.
pub proof fn law_new_server<Kind, P>(
    protocol: P,
    addr: SocketAddr,
    server: TcpServer<Kind, P>,
    its_protocol: &Arc<P>,
    its_addr: SocketAddr,
    its_workers: usize,
)
    requires
        call_ensures(TcpServer::<Kind, P>::new, (protocol, addr), server),
        call_ensures(TcpServer::<Kind, P>::protocol, (&server,), its_protocol),
        call_ensures(TcpServer::<Kind, P>::address, (&server,), its_addr),
        call_ensures(TcpServer::<Kind, P>::workers, (&server,), its_workers),
    ensures
        **its_protocol == protocol,
        its_addr == addr,
        its_workers == 1,
{
}

/// Setting the address gives the server this address and changes nothing else.
pub proof fn law_address_is_set<Kind, P>(
    server: &mut TcpServer<Kind, P>,
    addr: SocketAddr,
    protocols: (&Arc<P>, &Arc<P>),
    workers: (usize, usize),
    its_addr: SocketAddr,
)
    requires
        call_ensures(TcpServer::<Kind, P>::addr, (server, addr), ()),
        call_ensures(TcpServer::<Kind, P>::protocol, (&*old(server),), protocols.0),
        call_ensures(TcpServer::<Kind, P>::protocol, (&*final(server),), protocols.1),
        call_ensures(TcpServer::<Kind, P>::workers, (&*old(server),), workers.0),
        call_ensures(TcpServer::<Kind, P>::workers, (&*final(server),), workers.1),
        call_ensures(TcpServer::<Kind, P>::address, (&*final(server),), its_addr),
    ensures
        its_addr == addr,
        **protocols.1 == **protocols.0,
        workers.1 == workers.0,
{
}

/// Any number of threads but none can be set. On Unix the server then has so many event loops,
/// elsewhere as many as before; nothing else changes.
pub proof fn law_threads_are_set<Kind, P>(
    server: &mut TcpServer<Kind, P>,
    threads: usize,
    platform: Platform,
    protocols: (&Arc<P>, &Arc<P>),
    workers: (usize, usize),
    addrs: (SocketAddr, SocketAddr),
)
    requires
        threads > 0,
        call_ensures(TcpServer::<Kind, P>::threads, (server, threads, platform), ()),
        call_ensures(TcpServer::<Kind, P>::protocol, (&*old(server),), protocols.0),
        call_ensures(TcpServer::<Kind, P>::protocol, (&*final(server),), protocols.1),
        call_ensures(TcpServer::<Kind, P>::workers, (&*old(server),), workers.0),
        call_ensures(TcpServer::<Kind, P>::workers, (&*final(server),), workers.1),
        call_ensures(TcpServer::<Kind, P>::address, (&*old(server),), addrs.0),
        call_ensures(TcpServer::<Kind, P>::address, (&*final(server),), addrs.1),
    ensures
        call_requires(TcpServer::<Kind, P>::threads, (server, threads, platform)),
        platform == Platform::Unix ==> workers.1 == threads,
        platform == Platform::Windows ==> workers.1 == workers.0,
        **protocols.1 == **protocols.0,
        addrs.1 == addrs.0,
{
}

/// There is always an event loop.
pub proof fn law_server_has_event_loop<Kind, P>(server: TcpServer<Kind, P>, workers: usize)
    requires
        call_ensures(TcpServer::<Kind, P>::workers, (&server,), workers),
    ensures
        workers > 0,
{
}

/// The port is shared exactly on Unix and among several event loops, and no other option is
/// set for them.
pub proof fn law_port_is_shared(workers: usize, platform: Platform, steps: &mut Vec<SocketStep>)
    requires
        call_ensures(configure_tcp, (workers, platform, steps), ()),
    ensures
        platform == Platform::Unix && workers > 1 ==> final(steps)@ == old(steps)@.push(
            SocketStep::ReusePort,
        ),
        platform == Platform::Windows || workers <= 1 ==> final(steps)@ == old(steps)@,
{
}

/// The socket is opened for the family of the address. It is bound to the address that was
/// given, with port and all, and then listens, with 1024 connections waiting at most. Before it
/// is bound the address is made available again, and so is the port where event loops share it.
pub proof fn law_listener_listens_on_address(
    addr: SocketAddr,
    workers: usize,
    platform: Platform,
    steps: Vec<SocketStep>,
)
    requires
        call_ensures(listener, (&addr, workers, platform), steps),
    ensures
        ({
            let n = steps@.len() as int;
            let shared = platform == Platform::Unix && workers > 1;
            &&& n == (if shared {
                5int
            } else {
                4int
            })
            &&& addr is V4 ==> steps@[0] == SocketStep::OpenV4
            &&& addr is V6 ==> steps@[0] == SocketStep::OpenV6
            &&& shared ==> steps@[1] == SocketStep::ReusePort
            &&& steps@[n - 3] == SocketStep::ReuseAddress
            &&& steps@[n - 2] == SocketStep::Bind(addr)
            &&& steps@[n - 1] == SocketStep::Listen(1024)
        }),
{
}

/// Two listeners with the same event loops and platform differ in nothing but the address and
/// its family.
pub proof fn law_listeners_differ_in_address(
    a: SocketAddr,
    b: SocketAddr,
    workers: usize,
    platform: Platform,
    for_a: Vec<SocketStep>,
    for_b: Vec<SocketStep>,
)
    requires
        call_ensures(listener, (&a, workers, platform), for_a),
        call_ensures(listener, (&b, workers, platform), for_b),
    ensures
        a is V4 == b is V4 ==> for_b@ == for_a@.update(for_a@.len() - 2, SocketStep::Bind(b)),
        for_a@ == for_b@ <==> a == b,
{
    let n = for_a@.len() as int;
    assert(for_a@[n - 2] == SocketStep::Bind(a));
    assert(for_b@[n - 2] == SocketStep::Bind(b));
    if a is V4 == b is V4 {
        assert(for_b@ =~= for_a@.update(n - 2, SocketStep::Bind(b)));
    }
}

/// A running server serves a connection and goes on. A signal to shut down and the end of the
/// listener stop it in good order; whatever fails, stops it as a failure.
pub proof fn law_running_server_decides(event: ServerEvent, next: (ServerState, ServerAction))
    requires
        call_ensures(serve_step, (ServerState::Running, event), next),
    ensures
        event == ServerEvent::Connected <==> next.0 == ServerState::Running,
        event == ServerEvent::Connected <==> next.1 == ServerAction::Serve,
        event != ServerEvent::Connected <==> next.1 == ServerAction::Stop,
        event == ServerEvent::ShutdownSignal || event == ServerEvent::ListenerClosed <==> next.0
            == ServerState::Stopped(Ending::Shutdown),
        event == ServerEvent::ServiceFailed || event == ServerEvent::AcceptFailed || event
            == ServerEvent::ShutdownFailed <==> next.0 == ServerState::Stopped(Ending::Failure),
{
}

/// A server that has stopped ignores every event and stays as it is.
pub proof fn law_stopped_server_ignores(
    ending: Ending,
    event: ServerEvent,
    next: (ServerState, ServerAction),
)
    requires
        call_ensures(serve_step, (ServerState::Stopped(ending), event), next),
    ensures
        next == (ServerState::Stopped(ending), ServerAction::Ignore),
{
}

/// A success stays one and a failure stays one, each converted as its type is.
pub proof fn law_types_are_changed<A: Into<C>, B: Into<D>, C, D>(
    r: Result<A, B>,
    changed: Result<C, D>,
)
    requires
        call_ensures(change_types::<A, B, C, D>, (r,), changed),
    ensures
        r is Ok == changed is Ok,
        r is Ok ==> call_ensures(<A as Into<C>>::into, (r->Ok_0,), changed->Ok_0),
        r is Err ==> call_ensures(<B as Into<D>>::into, (r->Err_0,), changed->Err_0),
{
}

} // verus!
