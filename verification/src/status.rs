//! What the user interface is told: the status of one tunnel and the
//! summary shown in the tray.

use vstd::prelude::*;
use crate::metric::{SSHStatusView, TunnelMetric, TunnelMetricView, TunnelStateView};
use crate::text::{decimal, push_decimal};

verus! {

/// `n` as a `u64`, stopping at the largest one.
pub open spec fn clamp_u64(n: u128) -> u64 {
    if n > u64::MAX {
        u64::MAX
    } else {
        n as u64
    }
}

fn to_u64(n: u128) -> (r: u64)
    ensures
        r == clamp_u64(n),
{
    if n > 0xffff_ffff_ffff_ffff {
        0xffff_ffff_ffff_ffff
    } else {
        n as u64
    }
}

/// The status of one tunnel as the user interface receives it.
#[derive(Debug, PartialEq, Eq)]
pub struct TunnelStatusResponse {
    pub is_running: bool,
    pub ping_ms: Option<u64>,
    pub state: String,
    pub send_bytes: u64,
    pub recv_bytes: u64,
}

/// The mathematical value of a [`TunnelStatusResponse`].
pub struct TunnelStatusResponseView {
    pub is_running: bool,
    pub ping_ms: Option<u64>,
    pub state: Seq<char>,
    pub send_bytes: u64,
    pub recv_bytes: u64,
}

impl View for TunnelStatusResponse {
    type V = TunnelStatusResponseView;

    open spec fn view(&self) -> TunnelStatusResponseView {
        TunnelStatusResponseView {
            is_running: self.is_running,
            ping_ms: self.ping_ms,
            state: self.state@,
            send_bytes: self.send_bytes,
            recv_bytes: self.recv_bytes,
        }
    }
}

/// The status that stands for a snapshot: running exactly in the
/// running state, the latency of the last answered probe if the
/// session is healthy, the label of the lifecycle state, and both
/// counters, each stopping at the largest `u64`.
pub open spec fn status_of(metric: TunnelMetricView) -> TunnelStatusResponseView {
    TunnelStatusResponseView {
        is_running: metric.tunnel_state == TunnelStateView::Running,
        ping_ms: match metric.ssh_status {
            SSHStatusView::Healthy { latency_ms } => Some(latency_ms),
            _ => None,
        },
        state: metric.tunnel_state.label(),
        send_bytes: clamp_u64(metric.traffic.send_bytes),
        recv_bytes: clamp_u64(metric.traffic.recv_bytes),
    }
}

impl TunnelStatusResponse {
    /// The status that stands for `metric`.
    pub fn from(metric: &TunnelMetric) -> (r: TunnelStatusResponse)
        ensures
            r@ == status_of(metric@),
    {
        TunnelStatusResponse {
            is_running: metric.tunnel_state.is_running(),
            ping_ms: metric.ssh_status.latency_ms(),
            state: metric.tunnel_state.label(),
            send_bytes: to_u64(metric.traffic.send_bytes),
            recv_bytes: to_u64(metric.traffic.recv_bytes),
        }
    }
}

/// Seconds between two summaries for the tray.
pub const TRAY_INTERVAL_SECS: u64 = 5;

/// How many tunnels run, how many failed, and how many are in any
/// other state.
#[derive(Clone, Copy, Debug, PartialEq, Eq, Structural)]
pub struct TrayStatusPayload {
    pub active_count: usize,
    pub unavailable_count: usize,
    pub error_count: usize,
}

/// Whether a tunnel in `state` is counted as failed (`failed` set) or
/// as active (`failed` clear).
pub open spec fn counts_as(state: TunnelStateView, failed: bool) -> bool {
    if failed {
        state is Error
    } else {
        state is Running
    }
}

/// The number of tunnels among `all` that count as failed or, with
/// `failed` clear, as active.
pub open spec fn tally(all: Seq<(u128, TunnelMetric)>, failed: bool) -> nat
    decreases all.len(),
{
    if all.len() == 0 {
        0
    } else {
        tally(all.drop_last(), failed) + if counts_as(all.last().1@.tunnel_state, failed) {
            1nat
        } else {
            0nat
        }
    }
}

/// The number of running tunnels among `all`.
pub open spec fn count_active(all: Seq<(u128, TunnelMetric)>) -> nat {
    tally(all, false)
}

/// The number of failed tunnels among `all`.
pub open spec fn count_errors(all: Seq<(u128, TunnelMetric)>) -> nat {
    tally(all, true)
}

/// Which icon the tray shows.
#[derive(Clone, Copy, Debug, PartialEq, Eq, Structural)]
pub enum TrayIcon {
    Gray,
    Green,
    Red,
}

/// The tray's status line for the given counts.
pub open spec fn tray_line(active: nat, errors: nat) -> Seq<char> {
    if errors > 0 {
        if active > 0 {
            "🔴 "@ + decimal(active) + " Active, "@ + decimal(errors) + " Failed"@
        } else {
            "🔴 "@ + decimal(errors) + " Tunnels Failed"@
        }
    } else if active > 0 {
        "🟢 "@ + decimal(active) + " Active Tunnels"@
    } else {
        "⚪️ No Active Tunnels"@
    }
}

impl TrayStatusPayload {
    /// Counts the tunnels of `all` by state: running ones as active,
    /// failed ones as errors, all others as unavailable.
    pub fn from_tunnel_metric_map(all: &Vec<(u128, TunnelMetric)>) -> (p: TrayStatusPayload)
        ensures
            p.active_count == count_active(all@),
            p.error_count == count_errors(all@),
            p.active_count + p.error_count + p.unavailable_count == all@.len(),
    {
        let mut active: usize = 0;
        let mut errors: usize = 0;
        let mut others: usize = 0;
        let mut k: usize = 0;
        while k < all.len()
            invariant
                k <= all@.len(),
                active == count_active(all@.take(k as int)),
                errors == count_errors(all@.take(k as int)),
                active + errors + others == k,
            decreases all.len() - k,
        {
            assert(all@.take(k + 1).drop_last() =~= all@.take(k as int));
            assert(all@.take(k + 1).last() == all@[k as int]);
            if all[k].1.tunnel_state.is_running() {
                active += 1;
            } else if all[k].1.tunnel_state.is_error() {
                errors += 1;
            } else {
                others += 1;
            }
            k += 1;
        }
        assert(all@.take(k as int) =~= all@);
        TrayStatusPayload { active_count: active, unavailable_count: others, error_count: errors }
    }

    /// Whether the summary counts any tunnel at all; a summary of no
    /// tunnels is not worth sending.
    pub fn has_tunnels(&self) -> (b: bool)
        ensures
            b == (self.active_count + self.unavailable_count + self.error_count > 0),
    {
        self.active_count > 0 || self.unavailable_count > 0 || self.error_count > 0
    }

    /// The tray's status line: failures first, then running tunnels,
    /// else that none is active.
    pub fn status_text(&self) -> (s: String)
        ensures
            s@ == tray_line(self.active_count as nat, self.error_count as nat),
    {
        if self.error_count > 0 {
            if self.active_count > 0 {
                let mut s = String::from_str("🔴 ");
                push_decimal(&mut s, self.active_count as u128);
                s.append(" Active, ");
                push_decimal(&mut s, self.error_count as u128);
                s.append(" Failed");
                s
            } else {
                let mut s = String::from_str("🔴 ");
                push_decimal(&mut s, self.error_count as u128);
                s.append(" Tunnels Failed");
                s
            }
        } else if self.active_count > 0 {
            let mut s = String::from_str("🟢 ");
            push_decimal(&mut s, self.active_count as u128);
            s.append(" Active Tunnels");
            s
        } else {
            String::from_str("⚪️ No Active Tunnels")
        }
    }

    /// The tray's icon: red if any tunnel failed, else green if any
    /// runs, else gray.
    pub fn icon(&self) -> (i: TrayIcon)
        ensures
            i == if self.error_count > 0 {
                TrayIcon::Red
            } else if self.active_count > 0 {
                TrayIcon::Green
            } else {
                TrayIcon::Gray
            },
    {
        if self.error_count > 0 {
            TrayIcon::Red
        } else if self.active_count > 0 {
            TrayIcon::Green
        } else {
            TrayIcon::Gray
        }
    }
}

} // verus!
