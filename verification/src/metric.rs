//! What observers see of a tunnel: lifecycle, health and traffic.

use std::sync::atomic::{AtomicU64, Ordering};
use std::sync::Arc;
use vstd::prelude::*;

verus! {

/// The lifecycle of a tunnel, as the operator's commands and the fate
/// of its session shape it.
#[derive(Debug, PartialEq, Eq)]
pub enum TunnelState {
    Stopped,
    Starting,
    Running,
    Stopping,
    /// The tunnel failed; the message says why.
    Error(String),
}

/// The mathematical value of a [`TunnelState`].
pub enum TunnelStateView {
    Stopped,
    Starting,
    Running,
    Stopping,
    Error(Seq<char>),
}

impl View for TunnelState {
    type V = TunnelStateView;

    open spec fn view(&self) -> TunnelStateView {
        match self {
            TunnelState::Stopped => TunnelStateView::Stopped,
            TunnelState::Starting => TunnelStateView::Starting,
            TunnelState::Running => TunnelStateView::Running,
            TunnelState::Stopping => TunnelStateView::Stopping,
            TunnelState::Error(m) => TunnelStateView::Error(m@),
        }
    }
}

impl Clone for TunnelState {
    fn clone(&self) -> (r: Self)
        ensures
            r == *self,
    {
        match self {
            TunnelState::Stopped => TunnelState::Stopped,
            TunnelState::Starting => TunnelState::Starting,
            TunnelState::Running => TunnelState::Running,
            TunnelState::Stopping => TunnelState::Stopping,
            TunnelState::Error(m) => TunnelState::Error(m.clone()),
        }
    }
}

impl Default for TunnelState {
    fn default() -> (r: Self)
        ensures
            r == TunnelState::Stopped,
    {
        TunnelState::Stopped
    }
}

impl TunnelStateView {
    /// The text shown for the state: its lower-case name, or
    /// `error: ` followed by the message.
    pub open spec fn label(self) -> Seq<char> {
        match self {
            TunnelStateView::Stopped => "stopped"@,
            TunnelStateView::Starting => "starting"@,
            TunnelStateView::Running => "running"@,
            TunnelStateView::Stopping => "stopping"@,
            TunnelStateView::Error(m) => "error: "@ + m,
        }
    }
}

impl TunnelState {
    /// The text shown for the state.
    pub fn label(&self) -> (s: String)
        ensures
            s@ == self@.label(),
    {
        match self {
            TunnelState::Stopped => String::from_str("stopped"),
            TunnelState::Starting => String::from_str("starting"),
            TunnelState::Running => String::from_str("running"),
            TunnelState::Stopping => String::from_str("stopping"),
            TunnelState::Error(m) => {
                let mut s = String::from_str("error: ");
                s.append(m.as_str());
                s
            },
        }
    }

    /// Whether the tunnel is forwarding.
    pub fn is_running(&self) -> (b: bool)
        ensures
            b == (self@ == TunnelStateView::Running),
    {
        match self {
            TunnelState::Running => true,
            _ => false,
        }
    }

    /// Whether the tunnel has failed.
    pub fn is_error(&self) -> (b: bool)
        ensures
            b == (self@ is Error),
    {
        match self {
            TunnelState::Error(_) => true,
            _ => false,
        }
    }
}

/// The liveness of a session's control path.
#[derive(Debug, PartialEq, Eq)]
pub enum SSHStatus {
    /// The last probe was answered after `latency_ms` milliseconds.
    Healthy { latency_ms: u64 },
    /// The last probe failed, but the session is not known to be closed.
    Unstable { reason: String },
    /// There is no session, or it is closed.
    Disconnected,
}

/// The mathematical value of an [`SSHStatus`].
pub enum SSHStatusView {
    Healthy { latency_ms: u64 },
    Unstable { reason: Seq<char> },
    Disconnected,
}

impl View for SSHStatus {
    type V = SSHStatusView;

    open spec fn view(&self) -> SSHStatusView {
        match self {
            SSHStatus::Healthy { latency_ms } => SSHStatusView::Healthy { latency_ms: *latency_ms },
            SSHStatus::Unstable { reason } => SSHStatusView::Unstable { reason: reason@ },
            SSHStatus::Disconnected => SSHStatusView::Disconnected,
        }
    }
}

impl Clone for SSHStatus {
    fn clone(&self) -> (r: Self)
        ensures
            r == *self,
    {
        match self {
            SSHStatus::Healthy { latency_ms } => SSHStatus::Healthy { latency_ms: *latency_ms },
            SSHStatus::Unstable { reason } => SSHStatus::Unstable { reason: reason.clone() },
            SSHStatus::Disconnected => SSHStatus::Disconnected,
        }
    }
}

impl Default for SSHStatus {
    fn default() -> (r: Self)
        ensures
            r == SSHStatus::Disconnected,
    {
        SSHStatus::Disconnected
    }
}

impl SSHStatus {
    /// The latency of the last probe, if it was answered.
    pub fn latency_ms(&self) -> (l: Option<u64>)
        ensures
            l == match self@ {
                SSHStatusView::Healthy { latency_ms } => Some(latency_ms),
                _ => None,
            },
    {
        match self {
            SSHStatus::Healthy { latency_ms } => Some(*latency_ms),
            _ => None,
        }
    }
}

/// Bytes moved through a tunnel: `send_bytes` from the local clients
/// to the remote target, `recv_bytes` the other way.
#[derive(Clone, Copy, Debug, PartialEq, Eq, Structural)]
pub struct Traffic {
    pub send_bytes: u128,
    pub recv_bytes: u128,
}

impl Default for Traffic {
    fn default() -> (r: Self)
        ensures
            r == Traffic::zero(),
    {
        Traffic { send_bytes: 0, recv_bytes: 0 }
    }
}

impl Traffic {
    /// No traffic in either direction.
    pub open spec fn zero() -> Traffic {
        Traffic { send_bytes: 0, recv_bytes: 0 }
    }

    /// Whether `self` is at most `other` in both directions.
    pub open spec fn le(self, other: Traffic) -> bool {
        self.send_bytes <= other.send_bytes && self.recv_bytes <= other.recv_bytes
    }

    /// `self` grown by the given amounts, each direction stopping at
    /// the largest representable count.
    pub open spec fn grown(self, send_bytes: u128, recv_bytes: u128) -> Traffic {
        Traffic {
            send_bytes: self.send_bytes.saturating_add(send_bytes),
            recv_bytes: self.recv_bytes.saturating_add(recv_bytes),
        }
    }

    /// Adds the given amounts to both counters.
    pub fn append_traffic(&mut self, send_bytes: u128, recv_bytes: u128)
        requires
            old(self).send_bytes + send_bytes <= u128::MAX,
            old(self).recv_bytes + recv_bytes <= u128::MAX,
        ensures
            final(self).send_bytes == old(self).send_bytes + send_bytes,
            final(self).recv_bytes == old(self).recv_bytes + recv_bytes,
    {
        self.send_bytes += send_bytes;
        self.recv_bytes += recv_bytes;
    }

    /// Adds the given amounts to both counters, each stopping at the
    /// largest representable count instead of overflowing.
    pub fn grow(&mut self, send_bytes: u128, recv_bytes: u128)
        ensures
            *final(self) == old(self).grown(send_bytes, recv_bytes),
            old(self).le(*final(self)),
    {
        self.send_bytes = self.send_bytes.saturating_add(send_bytes);
        self.recv_bytes = self.recv_bytes.saturating_add(recv_bytes);
    }

    /// Overwrites both counters.
    pub fn set(&mut self, send_bytes: u128, recv_bytes: u128)
        ensures
            *final(self) == (Traffic { send_bytes, recv_bytes }),
    {
        self.send_bytes = send_bytes;
        self.recv_bytes = recv_bytes;
    }
}

/// What a session reports about itself during one start span: its
/// health now and the bytes moved since the span began.
#[derive(Debug, PartialEq, Eq)]
pub struct SSHEvent {
    pub ssh_status: SSHStatus,
    pub traffic: Traffic,
}

/// The mathematical value of an [`SSHEvent`].
pub struct SSHEventView {
    pub ssh_status: SSHStatusView,
    pub traffic: Traffic,
}

impl View for SSHEvent {
    type V = SSHEventView;

    open spec fn view(&self) -> SSHEventView {
        SSHEventView { ssh_status: self.ssh_status@, traffic: self.traffic }
    }
}

impl Clone for SSHEvent {
    fn clone(&self) -> (r: Self)
        ensures
            r == *self,
    {
        SSHEvent { ssh_status: self.ssh_status.clone(), traffic: self.traffic }
    }
}

impl Default for SSHEvent {
    fn default() -> (r: Self)
        ensures
            r == (SSHEvent { ssh_status: SSHStatus::Disconnected, traffic: Traffic::zero() }),
    {
        SSHEvent { ssh_status: SSHStatus::Disconnected, traffic: Traffic { send_bytes: 0, recv_bytes: 0 } }
    }
}

/// The snapshot delivered to observers of a tunnel.
#[derive(Debug, PartialEq, Eq)]
pub struct TunnelMetric {
    pub tunnel_state: TunnelState,
    pub ssh_status: SSHStatus,
    pub traffic: Traffic,
}

/// The mathematical value of a [`TunnelMetric`].
pub struct TunnelMetricView {
    pub tunnel_state: TunnelStateView,
    pub ssh_status: SSHStatusView,
    pub traffic: Traffic,
}

impl View for TunnelMetric {
    type V = TunnelMetricView;

    open spec fn view(&self) -> TunnelMetricView {
        TunnelMetricView {
            tunnel_state: self.tunnel_state@,
            ssh_status: self.ssh_status@,
            traffic: self.traffic,
        }
    }
}

impl TunnelMetricView {
    /// The snapshot of a tunnel that was never started: stopped,
    /// disconnected, no traffic.
    pub open spec fn initial() -> TunnelMetricView {
        TunnelMetricView {
            tunnel_state: TunnelStateView::Stopped,
            ssh_status: SSHStatusView::Disconnected,
            traffic: Traffic::zero(),
        }
    }
}

impl Clone for TunnelMetric {
    fn clone(&self) -> (r: Self)
        ensures
            r == *self,
    {
        TunnelMetric {
            tunnel_state: self.tunnel_state.clone(),
            ssh_status: self.ssh_status.clone(),
            traffic: self.traffic,
        }
    }
}

impl Default for TunnelMetric {
    fn default() -> (r: Self)
        ensures
            r@ == TunnelMetricView::initial(),
    {
        TunnelMetric {
            tunnel_state: TunnelState::Stopped,
            ssh_status: SSHStatus::Disconnected,
            traffic: Traffic { send_bytes: 0, recv_bytes: 0 },
        }
    }
}

/// What the operator can ask of a tunnel.
#[derive(Clone, Copy, Debug, PartialEq, Eq, Structural)]
pub enum TunnelCommand {
    Start,
    Stop,
    Remove,
}

/// A byte stream half together with a counter of the bytes that pass
/// through it.
///
/// The counter is shared: whoever holds the same [`Arc`] sees what is
/// added here, from any task. An add wraps around at `u64::MAX`.
pub struct TrafficCounter<T> {
    inner: T,
    count: Arc<AtomicU64>,
}

/// The bytes a read added to a buffer that held `before` filled bytes
/// and holds `after` now: the growth, or zero if there was none.
pub open spec fn buffer_growth(before: usize, after: usize) -> u64 {
    if after > before {
        (after - before) as u64
    } else {
        0
    }
}

impl<T> TrafficCounter<T> {
    /// The shared counter.
    pub closed spec fn counter(&self) -> Arc<AtomicU64> {
        self.count
    }

    /// The wrapped stream half.
    pub closed spec fn wrapped(&self) -> T {
        self.inner
    }

    /// Wraps `inner`, counting into `count`. The counter is the
    /// caller's own, not a copy, and is not touched.
    pub fn new(inner: T, count: Arc<AtomicU64>) -> (c: Self)
        ensures
            c.counter() == count,
            c.wrapped() == inner,
    {
        TrafficCounter { inner, count }
    }

    /// The bytes a read added to a buffer that held `before` filled
    /// bytes and holds `after` now.
    pub fn filled(before: usize, after: usize) -> (n: u64)
        ensures
            n == buffer_growth(before, after),
    {
        if after > before {
            (after - before) as u64
        } else {
            0
        }
    }

    /// Accounts for a read that grew the buffer from `before` to
    /// `after` filled bytes: the growth is added to the shared
    /// counter and returned. A read that filled nothing (pending, end
    /// of stream, error) adds nothing.
    pub fn record_read(&self, before: usize, after: usize) -> (added: u64)
        ensures
            added == buffer_growth(before, after),
    {
        let n = Self::filled(before, after);
        if n > 0 {
            self.count.fetch_add(n, Ordering::Relaxed);
        }
        n
    }

    /// Accounts for a write that accepted `size` bytes: they are added
    /// to the shared counter and returned.
    pub fn record_write(&self, size: usize) -> (added: u64)
        ensures
            added == buffer_growth(0, size),
    {
        let n = Self::filled(0, size);
        if n > 0 {
            self.count.fetch_add(n, Ordering::Relaxed);
        }
        n
    }

    /// The wrapped stream half, to read from or write to.
    pub fn get_mut(&mut self) -> (inner: &mut T)
        ensures
            *inner == old(self).wrapped(),
            final(self).wrapped() == *final(inner),
            final(self).counter() == old(self).counter(),
    {
        &mut self.inner
    }

    /// Gives the stream half back.
    pub fn into_inner(self) -> (inner: T)
        ensures
            inner == self.wrapped(),
    {
        self.inner
    }
}

} // verus!
