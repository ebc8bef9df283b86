use modbus_rtu::coupler::coupler_id;
use modbus_rtu::server::{
    change_types, listener, serve_step, Ending, Platform, ServerAction, ServerEvent, ServerState,
    SocketAddr, SocketStep, TcpServer,
};

const LOCAL: SocketAddr = SocketAddr::V4 { ipv4: 0x7F00_0001, port: 5502 };
const LOCAL_V6: SocketAddr = SocketAddr::V6 { ipv6: 1, port: 5502, flowinfo: 0, scope_id: 0 };

#[test]
fn server_starts_with_one_event_loop() {
    let server: TcpServer<(), &str> = TcpServer::new("proto", LOCAL);
    assert_eq!(server.workers(), 1);
    assert_eq!(server.address(), LOCAL);
    assert_eq!(**server.protocol(), "proto");
}

#[test]
fn settings_do_not_disturb_each_other() {
    let mut server: TcpServer<(), u8> = TcpServer::new(7, LOCAL);
    server.threads(4, Platform::Unix);
    server.addr(LOCAL_V6);
    assert_eq!(server.workers(), 4);
    assert_eq!(server.address(), LOCAL_V6);
    assert_eq!(**server.protocol(), 7);
}

#[test]
fn threads_are_a_matter_of_unix() {
    let mut server: TcpServer<(), u8> = TcpServer::new(7, LOCAL);
    server.threads(4, Platform::Windows);
    assert_eq!(server.workers(), 1);
}

#[test]
fn single_listener_keeps_its_port() {
    assert_eq!(
        listener(&LOCAL, 1, Platform::Unix),
        vec![
            SocketStep::OpenV4,
            SocketStep::ReuseAddress,
            SocketStep::Bind(LOCAL),
            SocketStep::Listen(1024),
        ]
    );
    assert_eq!(listener(&LOCAL, 2, Platform::Windows), listener(&LOCAL, 1, Platform::Unix));
}

#[test]
fn several_listeners_share_a_port() {
    assert_eq!(
        listener(&LOCAL_V6, 2, Platform::Unix),
        vec![
            SocketStep::OpenV6,
            SocketStep::ReusePort,
            SocketStep::ReuseAddress,
            SocketStep::Bind(LOCAL_V6),
            SocketStep::Listen(1024),
        ]
    );
}

#[test]
fn server_runs_on_connections() {
    let mut state = ServerState::Running;
    for _ in 0..3 {
        let (next, action) = serve_step(state, ServerEvent::Connected);
        assert_eq!(action, ServerAction::Serve);
        state = next;
    }
    assert_eq!(state, ServerState::Running);
}

#[test]
fn first_ending_counts() {
    let cases = vec![
        (ServerEvent::ShutdownSignal, Ending::Shutdown),
        (ServerEvent::ListenerClosed, Ending::Shutdown),
        (ServerEvent::ShutdownFailed, Ending::Failure),
        (ServerEvent::ServiceFailed, Ending::Failure),
        (ServerEvent::AcceptFailed, Ending::Failure),
    ];
    for (event, ending) in cases {
        let (state, action) = serve_step(ServerState::Running, event);
        assert_eq!(state, ServerState::Stopped(ending));
        assert_eq!(action, ServerAction::Stop);
        for later in vec![ServerEvent::Connected, ServerEvent::ServiceFailed] {
            assert_eq!(serve_step(state, later), (state, ServerAction::Ignore));
        }
    }
}

#[test]
fn both_sides_of_a_result_are_converted() {
    let ok: Result<u32, String> = change_types(Ok::<u8, &str>(7));
    assert_eq!(ok, Ok(7));
    let err: Result<u32, String> = change_types(Err::<u8, &str>("no"));
    assert_eq!(err, Err("no".to_string()));
}

#[test]
fn coupler_id_is_read_low_byte_first() {
    let data = [0x4B42, 0x3039, 0x3030];
    assert_eq!(coupler_id(&data), Some("BK9000".to_string()));
    assert_eq!(coupler_id(&[]), Some(String::new()));
    assert_eq!(coupler_id(&[0xA9C3]), Some("\u{e9}".to_string()));
}

#[test]
fn coupler_id_must_be_text() {
    assert_eq!(coupler_id(&[0x00FF]), None);
}
