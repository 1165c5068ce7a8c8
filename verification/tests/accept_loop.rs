use wolf_system::config::TcpServerConfig;
use wolf_system::handler::SocketAddress;
use wolf_system::listener::{
    AcceptLoop, AcceptOutcome, DispatchDecision, ListenerPhase, ShutdownDecision,
};
use wolf_system::tcp_protocol::TcpProtocol;

fn server_config() -> TcpServerConfig {
    TcpServerConfig {
        protocol: TcpProtocol::TcpNative,
        address: "0.0.0.0".to_string(),
        port: 8000,
        ttl: 100,
        accept_timeout_ms: 5000,
        io_timeout_ms: 3000,
        tls: false,
        tls_certificate_path: None,
        tls_private_key_path: None,
        tls_private_type: None,
    }
}

#[test]
fn accept_timeout_is_swallowed_and_loop_rechecks_shutdown() {
    // accept-timeout fires with no pending connection: nothing is
    // dispatched, no callback runs, and the next iteration polls the
    // shutdown flag again
    let mut lp = AcceptLoop::new(&server_config());
    assert_eq!(lp.poll_shutdown(false), ShutdownDecision::AwaitAccept(5000));
    let d = lp.on_accept_outcome(AcceptOutcome::TimedOut);
    assert_eq!(d, DispatchDecision::Retry);
    assert_eq!(lp.dispatched_count(), 0);
    assert_eq!(lp.phase(), ListenerPhase::Accepting);
    // the loop is back at the shutdown check
    assert_eq!(lp.poll_shutdown(false), ShutdownDecision::AwaitAccept(5000));
}

#[test]
fn accept_error_is_swallowed_too() {
    let mut lp = AcceptLoop::new(&server_config());
    assert_eq!(lp.poll_shutdown(false), ShutdownDecision::AwaitAccept(5000));
    let d = lp.on_accept_outcome(AcceptOutcome::Failed("too many open files".to_string()));
    assert_eq!(d, DispatchDecision::Retry);
    assert_eq!(lp.dispatched_count(), 0);
    assert_eq!(lp.phase(), ListenerPhase::Accepting);
}

#[test]
fn accepted_connection_is_dispatched_with_the_configuration() {
    let mut lp = AcceptLoop::new(&server_config());
    assert_eq!(lp.poll_shutdown(false), ShutdownDecision::AwaitAccept(5000));
    let peer = SocketAddress::new("192.168.1.5".to_string(), 50123);
    let d = lp.on_accept_outcome(AcceptOutcome::Connection(peer.clone()));
    match d {
        DispatchDecision::Dispatch(plan) => {
            assert_eq!(plan.peer, peer);
            assert!(!plan.use_tls);
            assert_eq!(plan.protocol, TcpProtocol::TcpNative);
            assert_eq!(plan.io_timeout_ms, 3000);
        }
        DispatchDecision::Retry => panic!("expected a dispatch"),
    }
    assert_eq!(lp.dispatched_count(), 1);
    // dispatching never stops the loop
    assert_eq!(lp.phase(), ListenerPhase::Accepting);
}

#[test]
fn tls_listener_plans_a_tls_dispatch() {
    let mut config = server_config();
    config.tls = true;
    config.protocol = TcpProtocol::TcpWebsocket;
    let mut lp = AcceptLoop::new(&config);
    let peer = SocketAddress::new("192.168.1.6".to_string(), 50124);
    let d = lp.on_accept_outcome(AcceptOutcome::Connection(peer));
    match d {
        DispatchDecision::Dispatch(plan) => {
            assert!(plan.use_tls);
            assert_eq!(plan.protocol, TcpProtocol::TcpWebsocket);
        }
        DispatchDecision::Retry => panic!("expected a dispatch"),
    }
}

#[test]
fn shutdown_signal_stops_the_loop_for_good() {
    let mut lp = AcceptLoop::new(&server_config());
    assert_eq!(lp.poll_shutdown(false), ShutdownDecision::AwaitAccept(5000));
    assert_eq!(lp.poll_shutdown(true), ShutdownDecision::Stop);
    assert_eq!(lp.phase(), ListenerPhase::Stopped);
    // stopped is final, whatever the signal says afterwards
    assert_eq!(lp.poll_shutdown(false), ShutdownDecision::Stop);
    assert_eq!(lp.phase(), ListenerPhase::Stopped);
}

#[test]
fn disabled_accept_timeout_blocks_indefinitely() {
    let mut config = server_config();
    config.accept_timeout_ms = 0;
    let mut lp = AcceptLoop::new(&config);
    assert_eq!(lp.poll_shutdown(false), ShutdownDecision::AwaitAccept(0));
}
