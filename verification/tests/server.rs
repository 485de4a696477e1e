//! Tests of the server builder's addresses and the serving loop's bookkeeping.

use mik::runtime::address::SocketAddress;
use mik::runtime::server::{AcceptDecision, ConnectionTracker, DrainStatus, ServerBuilder};

#[test]
fn test_server_builder_default_addr() {
    let server = ServerBuilder::new(()).build();
    let addr = server.addr();
    assert_eq!(addr.port, 3000);
    assert_eq!(addr.to_string(), "127.0.0.1:3000");
}

#[test]
fn test_server_builder_port() {
    let server = ServerBuilder::new(()).port(8080).build();
    let addr = server.addr();
    assert_eq!(addr.port, 8080);
    assert_eq!(addr.ip_string(), "0.0.0.0");
}

#[test]
fn server_builder_keeps_an_explicit_address() {
    let addr = SocketAddress { ip: [10, 0, 0, 7], port: 9000 };
    let server = ServerBuilder::new("rt").addr(addr).build();
    assert_eq!(server.addr(), addr);
    assert_eq!(*server.runtime(), "rt");
}

#[test]
fn tracker_counts_served_connections_until_shutdown() {
    let mut t = ConnectionTracker::new();
    assert_eq!(t.on_accept(true), AcceptDecision::Serve);
    assert_eq!(t.on_accept(false), AcceptDecision::Skip);
    assert_eq!(t.on_accept(true), AcceptDecision::Serve);
    assert_eq!(t.active(), 2);
    t.on_close();
    assert_eq!(t.active(), 1);
    t.on_shutdown();
    assert!(t.is_shutting_down());
    assert_eq!(t.on_accept(true), AcceptDecision::StopAccepting);
    assert_eq!(t.active(), 1);
    assert_eq!(t.drain_status(false), DrainStatus::Waiting);
    assert_eq!(t.drain_status(true), DrainStatus::TimedOut);
    t.on_close();
    assert_eq!(t.drain_status(false), DrainStatus::Drained);
}
