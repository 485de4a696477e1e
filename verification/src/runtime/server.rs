//! The HTTP server around a runtime: the runtime and the address it is
//! served on. Accepting connections and draining them at shutdown is I/O
//! that happens outside; the counting of live connections is
//! `ConnectionTracker`.

use crate::runtime::address::SocketAddress;
use crate::runtime::lb::backend::{wrap_dec, wrap_inc};
use vstd::prelude::*;

verus! {

/// A runtime `R` and the address it is served on.
pub struct Server<R> {
    runtime: R,
    addr: SocketAddress,
}

impl<R> Server<R> {
    /// The runtime.
    pub closed spec fn runtime_spec(&self) -> R {
        self.runtime
    }

    /// The address.
    pub closed spec fn addr_spec(&self) -> SocketAddress {
        self.addr
    }

    /// A server of `runtime` on `addr`.
    pub fn new(runtime: R, addr: SocketAddress) -> (s: Self)
        ensures
            s.runtime_spec() == runtime,
            s.addr_spec() == addr,
    {
        Server { runtime, addr }
    }

    /// The address the server binds to.
    pub fn addr(&self) -> (a: SocketAddress)
        ensures
            a == self.addr_spec(),
    {
        self.addr
    }

    /// The runtime.
    pub fn runtime(&self) -> (r: &R)
        ensures
            *r == self.runtime_spec(),
    {
        &self.runtime
    }

    /// The runtime, mutably.
    pub fn runtime_mut(&mut self) -> (r: &mut R)
        ensures
            *r == old(self).runtime_spec(),
            final(self).runtime_spec() == *final(r),
            final(self).addr_spec() == old(self).addr_spec(),
    {
        &mut self.runtime
    }
}

/// Builder for a [`Server`].
pub struct ServerBuilder<R> {
    runtime: R,
    addr: Option<SocketAddress>,
}

/// The address a server builder ends with: the one set, or `127.0.0.1:3000`.
pub open spec fn built_addr(addr: Option<SocketAddress>) -> SocketAddress {
    match addr {
        Some(a) => a,
        None => SocketAddress { ip: [127u8, 0u8, 0u8, 1u8], port: 3000 },
    }
}

impl<R> ServerBuilder<R> {
    /// The address set so far.
    pub closed spec fn addr_spec(&self) -> Option<SocketAddress> {
        self.addr
    }

    /// The runtime.
    pub closed spec fn runtime_spec(&self) -> R {
        self.runtime
    }

    /// A builder for a server of `runtime`, without address.
    pub fn new(runtime: R) -> (b: Self)
        ensures
            b.runtime_spec() == runtime,
            b.addr_spec() is None,
    {
        ServerBuilder { runtime, addr: None }
    }

    /// Sets the address to bind to.
    pub fn addr(self, addr: SocketAddress) -> (b: Self)
        ensures
            b.runtime_spec() == self.runtime_spec(),
            b.addr_spec() == Some(addr),
    {
        let mut b = self;
        b.addr = Some(addr);
        b
    }

    /// Binds to `port` on all interfaces (`0.0.0.0`).
    pub fn port(self, port: u16) -> (b: Self)
        ensures
            b.runtime_spec() == self.runtime_spec(),
            b.addr_spec() == Some(SocketAddress { ip: [0u8, 0u8, 0u8, 0u8], port }),
    {
        let mut b = self;
        b.addr = Some(SocketAddress { ip: [0u8, 0u8, 0u8, 0u8], port });
        b
    }

    /// Builds the server on the address set, or on `127.0.0.1:3000`.
    pub fn build(self) -> (s: Server<R>)
        ensures
            s.runtime_spec() == self.runtime_spec(),
            s.addr_spec() == built_addr(self.addr_spec()),
    {
        let addr = match self.addr {
            Some(a) => a,
            None => SocketAddress { ip: [127u8, 0u8, 0u8, 1u8], port: 3000 },
        };
        Server::new(self.runtime, addr)
    }
}

/// What becomes of a connection just accepted.
#[derive(Debug, Clone, Copy, PartialEq, Eq, Structural)]
pub enum AcceptDecision {
    /// Serve it; it now counts as active.
    Serve,
    /// No request slot could be had: drop it and go on accepting.
    Skip,
    /// Shutdown has begun: drop it and stop accepting.
    StopAccepting,
}

/// Where draining stands after shutdown.
#[derive(Debug, Clone, Copy, PartialEq, Eq, Structural)]
pub enum DrainStatus {
    /// No connection is active: shutdown completes cleanly.
    Drained,
    /// Connections are still active and time remains: keep waiting.
    Waiting,
    /// Connections are still active but the drain timeout passed.
    TimedOut,
}

/// The serving loop's bookkeeping: how many connections are active and
/// whether shutdown has begun.
pub struct ConnectionTracker {
    active: u64,
    shutting_down: bool,
}

impl ConnectionTracker {
    /// The number of active connections.
    pub closed spec fn active_spec(&self) -> u64 {
        self.active
    }

    /// Whether shutdown has begun.
    pub closed spec fn shutting_down_spec(&self) -> bool {
        self.shutting_down
    }

    /// No connection, shutdown not begun.
    pub fn new() -> (t: Self)
        ensures
            t.active_spec() == 0,
            !t.shutting_down_spec(),
    {
        ConnectionTracker { active: 0, shutting_down: false }
    }

    /// The number of active connections.
    pub fn active(&self) -> (n: u64)
        ensures
            n == self.active_spec(),
    {
        self.active
    }

    /// Whether shutdown has begun.
    pub fn is_shutting_down(&self) -> (b: bool)
        ensures
            b == self.shutting_down_spec(),
    {
        self.shutting_down
    }

    /// Decides on a connection just accepted, given whether a request slot
    /// was acquired for it: once shutdown has begun nothing more is served;
    /// without a slot the connection is skipped; otherwise it is served and
    /// counted.
    pub fn on_accept(&mut self, slot_acquired: bool) -> (d: AcceptDecision)
        ensures
            final(self).shutting_down_spec() == old(self).shutting_down_spec(),
            old(self).shutting_down_spec() ==> d == AcceptDecision::StopAccepting,
            !old(self).shutting_down_spec() && !slot_acquired ==> d == AcceptDecision::Skip,
            !old(self).shutting_down_spec() && slot_acquired ==> d == AcceptDecision::Serve,
            d == AcceptDecision::Serve ==> final(self).active_spec() == wrap_inc(old(self).active_spec()),
            d != AcceptDecision::Serve ==> final(self).active_spec() == old(self).active_spec(),
    {
        if self.shutting_down {
            AcceptDecision::StopAccepting
        } else if !slot_acquired {
            AcceptDecision::Skip
        } else {
            self.active = if self.active == u64::MAX { 0 } else { self.active + 1 };
            AcceptDecision::Serve
        }
    }

    /// A served connection ended.
    pub fn on_close(&mut self)
        ensures
            final(self).shutting_down_spec() == old(self).shutting_down_spec(),
            final(self).active_spec() == wrap_dec(old(self).active_spec()),
    {
        self.active = if self.active == 0 { u64::MAX } else { self.active - 1 };
    }

    /// A shutdown signal arrived.
    pub fn on_shutdown(&mut self)
        ensures
            final(self).shutting_down_spec(),
            final(self).active_spec() == old(self).active_spec(),
    {
        self.shutting_down = true;
    }

    /// Where draining stands, given whether the drain timeout has passed.
    pub fn drain_status(&self, timed_out: bool) -> (s: DrainStatus)
        ensures
            self.active_spec() == 0 ==> s == DrainStatus::Drained,
            self.active_spec() > 0 && timed_out ==> s == DrainStatus::TimedOut,
            self.active_spec() > 0 && !timed_out ==> s == DrainStatus::Waiting,
    {
        if self.active == 0 {
            DrainStatus::Drained
        } else if timed_out {
            DrainStatus::TimedOut
        } else {
            DrainStatus::Waiting
        }
    }
}

/// Serving a connection and then closing it leaves the count where it was
/// (below the wrap-around).
pub proof fn lemma_serve_then_close_restores(active: u64)
    requires
        active < u64::MAX,
    ensures
        wrap_dec(wrap_inc(active)) == active,
{
}

} // verus!
