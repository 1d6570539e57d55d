//! Decisions taken around one SSH session: how it is set up, how a
//! remote command's result is gathered, what the keepalive monitor
//! publishes, and how forwarded connections account for their traffic.

use vstd::prelude::*;
use crate::error::{ErrorKind, TunnelError, TunnelErrorView};
use crate::metric::{SSHEvent, SSHStatus, SSHStatusView, Traffic};
use crate::model::{SshConfig, SshConnectConfig, SshForwardConfig};
use crate::remote_cmd::RemoteCommand;
use crate::text::{decimal, push_decimal};

verus! {

/// Seconds between the keepalive packets the client asks for.
pub const KEEPALIVE_SECS: u64 = 30;

/// Seconds between two probes of the health monitor.
pub const PING_INTERVAL_SECS: u64 = 5;

/// Seconds a probe may take before it counts as failed.
pub const PING_TIMEOUT_SECS: u64 = 5;

/// Seconds a forwarded channel may take to open.
pub const CHANNEL_OPEN_TIMEOUT_SECS: u64 = 10;

/// Milliseconds the accept loop waits after a failed accept.
pub const ACCEPT_BACKOFF_MILLIS: u64 = 100;

/// Seconds between two interim traffic reports of a connection.
pub const TRAFFIC_REPORT_SECS: u64 = 1;

/// The text `host:port`, with the port in decimal.
pub open spec fn host_port_text(host: Seq<char>, port: u16) -> Seq<char> {
    host + ":"@ + decimal(port as nat)
}

/// Renders `host:port`.
pub fn host_port(host: &str, port: u16) -> (s: String)
    ensures
        s@ == host_port_text(host@, port),
{
    let mut s = String::from_str(host);
    s.append(":");
    push_decimal(&mut s, port as u128);
    s
}

/// The name to resolve before connecting: the SSH host and port.
pub fn resolve_target(config: &SshConnectConfig) -> (s: String)
    ensures
        s@ == host_port_text(config.ssh_host@, config.ssh_port),
{
    host_port(config.ssh_host.as_str(), config.ssh_port)
}

/// The error for a name that resolved to no address.
pub open spec fn no_address() -> TunnelErrorView {
    TunnelErrorView { kind: ErrorKind::Resolution, message: "Hostname resolved but no IP found"@ }
}

/// Picks the address to connect to among those a name resolved to: the
/// first one. No address at all is a resolution error.
pub fn first_address(addrs: Vec<String>) -> (r: Result<String, TunnelError>)
    ensures
        match r {
            Ok(a) => addrs@.len() > 0 && a@ == addrs@[0]@,
            Err(e) => addrs@.len() == 0 && e@ == no_address(),
        },
{
    if addrs.len() == 0 {
        Err(TunnelError::new(ErrorKind::Resolution, "Hostname resolved but no IP found"))
    } else {
        Ok(addrs[0].clone())
    }
}

/// The error for credentials the server did not accept.
pub open spec fn auth_rejected() -> TunnelErrorView {
    TunnelErrorView { kind: ErrorKind::Auth, message: "Failed to authenticate"@ }
}

/// Judges the server's answer to an authentication request: anything
/// but success is an authentication error.
pub fn auth_verdict(success: bool) -> (r: Result<(), TunnelError>)
    ensures
        match r {
            Ok(_) => success,
            Err(e) => !success && e@ == auth_rejected(),
        },
{
    if success {
        Ok(())
    } else {
        Err(TunnelError::new(ErrorKind::Auth, "Failed to authenticate"))
    }
}

/// The local address a forwarding listens on, as `host:port`.
pub fn bind_address(forward_config: &SshForwardConfig) -> (s: String)
    ensures
        s@ == host_port_text(forward_config.local_host@, forward_config.local_port),
{
    host_port(forward_config.local_host.as_str(), forward_config.local_port)
}

/// The error for a listener that could not be bound to `addr`.
pub open spec fn bind_failed(addr: Seq<char>) -> TunnelErrorView {
    TunnelErrorView { kind: ErrorKind::Bind, message: "Failed to bind SSH server: "@ + addr }
}

/// The error for a forwarding whose local address could not be bound.
pub fn bind_failure(forward_config: &SshForwardConfig) -> (e: TunnelError)
    ensures
        e@ == bind_failed(
            host_port_text(forward_config.local_host@, forward_config.local_port),
        ),
{
    let addr = bind_address(forward_config);
    let mut message = String::from_str("Failed to bind SSH server: ");
    message.append(addr.as_str());
    TunnelError { kind: ErrorKind::Bind, message }
}

/// Records the forwarding a session has been asked to serve, and
/// starts its observable state afresh: disconnected, no traffic.
pub fn begin_forward(config: &mut SshConfig, forward_config: &SshForwardConfig) -> (event: SSHEvent)
    ensures
        final(config).connect_config == old(config).connect_config,
        final(config).forward_config == Some(*forward_config),
        event == (SSHEvent { ssh_status: SSHStatus::Disconnected, traffic: Traffic::zero() }),
{
    config.forward_config = Some(forward_config.clone());
    SSHEvent::default()
}

/// How opening a forwarded channel can fail.
#[derive(Debug, PartialEq, Eq)]
pub enum ChannelOpenFailure {
    /// The open did not finish within [`CHANNEL_OPEN_TIMEOUT_SECS`].
    TimedOut,
    /// The server refused, with the given reason.
    Refused(String),
}

/// The error for a forwarded channel that did not open, worded after
/// the failure.
pub open spec fn channel_open_error(
    timed_out: bool,
    reason: Seq<char>,
    remote_host: Seq<char>,
    remote_port: u16,
) -> TunnelErrorView {
    if timed_out {
        TunnelErrorView {
            kind: ErrorKind::ChannelOpenTimeout,
            message: "Open SSH channel time_out: "@ + decimal(CHANNEL_OPEN_TIMEOUT_SECS as nat),
        }
    } else {
        TunnelErrorView {
            kind: ErrorKind::Connect,
            message: "Failed to open SSH channel, "@ + remote_host + ", "@ + decimal(
                remote_port as nat,
            ) + ", "@ + reason,
        }
    }
}

/// The error with which one forwarded connection ends when its channel
/// does not open. It ends that connection only; the tunnel runs on.
pub fn channel_open_failure(failure: &ChannelOpenFailure, forward_config: &SshForwardConfig) -> (e:
    TunnelError)
    ensures
        e@ == match failure {
            ChannelOpenFailure::TimedOut => channel_open_error(
                true,
                Seq::<char>::empty(),
                forward_config.remote_host@,
                forward_config.remote_port,
            ),
            ChannelOpenFailure::Refused(reason) => channel_open_error(
                false,
                reason@,
                forward_config.remote_host@,
                forward_config.remote_port,
            ),
        },
{
    match failure {
        ChannelOpenFailure::TimedOut => {
            let mut message = String::from_str("Open SSH channel time_out: ");
            push_decimal(&mut message, CHANNEL_OPEN_TIMEOUT_SECS as u128);
            TunnelError { kind: ErrorKind::ChannelOpenTimeout, message }
        },
        ChannelOpenFailure::Refused(reason) => {
            let mut message = String::from_str("Failed to open SSH channel, ");
            message.append(forward_config.remote_host.as_str());
            message.append(", ");
            push_decimal(&mut message, forward_config.remote_port as u128);
            message.append(", ");
            message.append(reason.as_str());
            TunnelError { kind: ErrorKind::Connect, message }
        },
    }
}

// ---------------------------------------------------------------------
// Remote command execution
// ---------------------------------------------------------------------

/// What a session channel delivers while a command runs.
#[derive(Debug, PartialEq, Eq)]
pub enum ChannelEvent {
    /// Bytes of standard output.
    Data(Vec<u8>),
    /// Bytes of another stream; stream 1 is standard error.
    ExtendedData { data: Vec<u8>, ext: u32 },
    /// The command's exit status.
    ExitStatus(u32),
    /// The far side will send no more data.
    Eof,
    /// The channel is closed.
    Closed,
    /// Anything else.
    Other,
}

/// Gathers what a running command sends back.
#[derive(Debug, PartialEq, Eq)]
pub struct ExecCollector {
    pub stdout: Vec<u8>,
    pub stderr: Vec<u8>,
    pub exit_status: u32,
}

/// The text that `String::from_utf8_lossy` makes of `bytes`: their
/// decoding as UTF-8, with U+FFFD in place of what is malformed.
pub uninterp spec fn utf8_lossy(bytes: Seq<u8>) -> Seq<char>;

/// Decodes bytes as UTF-8, replacing what is malformed.
///
/// Wraps `String::from_utf8_lossy`. The result depends on the bytes
/// alone and is named [`utf8_lossy`] rather than restated.
#[verifier::external_body]
pub(crate) fn decode_lossy(bytes: &Vec<u8>) -> (s: String)
    ensures
        s@ == utf8_lossy(bytes@),
{
    String::from_utf8_lossy(bytes).into_owned()
}

/// The error for a command that exited with a nonzero status.
pub open spec fn command_failed(exit_status: u32, stderr: Seq<char>) -> TunnelErrorView {
    TunnelErrorView {
        kind: ErrorKind::Exec,
        message: "Command failed (exit code "@ + decimal(exit_status as nat) + "): "@ + stderr,
    }
}

/// The error for a command that ran longer than it was allowed to.
pub open spec fn command_timed_out(timeout_secs: u64) -> TunnelErrorView {
    TunnelErrorView {
        kind: ErrorKind::Timeout,
        message: "Command execution timed out after "@ + decimal(timeout_secs as nat) + "s"@,
    }
}

/// The outcome of a command that ran to completion: an error that
/// quotes standard error when the exit status is nonzero, else
/// whatever the command parses out of standard output.
pub fn conclude<C: RemoteCommand>(
    command: &C,
    exit_status: u32,
    stdout: &str,
    stderr: &str,
) -> (r: Result<Option<C::Output>, TunnelError>)
    ensures
        match r {
            Err(e) => exit_status != 0 && e@ == command_failed(exit_status, stderr@),
            Ok(None) => exit_status == 0 && command.parsed(stdout@) is None,
            Ok(Some(o)) => exit_status == 0 && command.parsed(stdout@) == Some(o.deep_view()),
        },
{
    if exit_status != 0 {
        let mut message = String::from_str("Command failed (exit code ");
        push_decimal(&mut message, exit_status as u128);
        message.append("): ");
        message.append(stderr);
        return Err(TunnelError { kind: ErrorKind::Exec, message });
    }
    Ok(command.parse_output(stdout))
}

impl ExecCollector {
    /// A collector that has seen nothing: no output, exit status zero.
    pub fn new() -> (c: ExecCollector)
        ensures
            c.stdout@ == Seq::<u8>::empty(),
            c.stderr@ == Seq::<u8>::empty(),
            c.exit_status == 0,
    {
        ExecCollector { stdout: Vec::new(), stderr: Vec::new(), exit_status: 0 }
    }

    /// The command line to run for `command`: always elevated.
    pub fn command_line<C: RemoteCommand>(command: &C) -> (s: String)
        ensures
            s@ == "sudo -n "@ + command.shell_string(),
    {
        command.build_shell_string(true)
    }

    /// Takes in one channel event. Standard output and standard error
    /// are appended to what was gathered, an exit status replaces the
    /// one held, bytes of other streams and other events are dropped.
    /// Returns whether to keep reading: `false` once the channel is
    /// closed.
    pub fn on_event(&mut self, event: ChannelEvent) -> (more: bool)
        ensures
            more == !(event is Closed),
            final(self).stdout@ == match event {
                ChannelEvent::Data(data) => old(self).stdout@ + data@,
                _ => old(self).stdout@,
            },
            final(self).stderr@ == match event {
                ChannelEvent::ExtendedData { data, ext } => if ext == 1 {
                    old(self).stderr@ + data@
                } else {
                    old(self).stderr@
                },
                _ => old(self).stderr@,
            },
            final(self).exit_status == match event {
                ChannelEvent::ExitStatus(code) => code,
                _ => old(self).exit_status,
            },
    {
        match event {
            ChannelEvent::Data(data) => {
                self.stdout.extend_from_slice(data.as_slice());
                assert(self.stdout@ =~= old(self).stdout@ + data@);
                true
            },
            ChannelEvent::ExtendedData { data, ext } => {
                if ext == 1 {
                    self.stderr.extend_from_slice(data.as_slice());
                    assert(self.stderr@ =~= old(self).stderr@ + data@);
                }
                true
            },
            ChannelEvent::ExitStatus(code) => {
                self.exit_status = code;
                true
            },
            ChannelEvent::Eof => true,
            ChannelEvent::Closed => false,
            ChannelEvent::Other => true,
        }
    }

    /// The outcome once the channel is closed: what [`conclude`] makes
    /// of the exit status and of the lossy decoding of both streams.
    pub fn finish<C: RemoteCommand>(self, command: &C) -> (r: Result<Option<C::Output>, TunnelError>)
        ensures
            match r {
                Err(e) => self.exit_status != 0 && e@ == command_failed(
                    self.exit_status,
                    utf8_lossy(self.stderr@),
                ),
                Ok(None) => self.exit_status == 0 && command.parsed(utf8_lossy(self.stdout@))
                    is None,
                Ok(Some(o)) => self.exit_status == 0 && command.parsed(utf8_lossy(self.stdout@))
                    == Some(o.deep_view()),
            },
    {
        let stdout = decode_lossy(&self.stdout);
        let stderr = decode_lossy(&self.stderr);
        conclude(command, self.exit_status, stdout.as_str(), stderr.as_str())
    }

    /// The error for a command that was still running after
    /// `timeout_secs` seconds; its channel is to be closed.
    pub fn timed_out(timeout_secs: u64) -> (e: TunnelError)
        ensures
            e@ == command_timed_out(timeout_secs),
    {
        let mut message = String::from_str("Command execution timed out after ");
        push_decimal(&mut message, timeout_secs as u128);
        message.append("s");
        TunnelError { kind: ErrorKind::Timeout, message }
    }
}

// ---------------------------------------------------------------------
// Health monitor
// ---------------------------------------------------------------------

/// How a probe of the session ended.
#[derive(Clone, Copy, Debug, PartialEq, Eq, Structural)]
pub enum PingOutcome {
    /// The server answered after this many milliseconds.
    Answered { latency_ms: u64 },
    /// No answer came within [`PING_TIMEOUT_SECS`].
    TimedOut,
    /// Sending the probe failed.
    Failed,
}

/// What the monitor does after looking at the session.
#[derive(Debug, PartialEq, Eq)]
pub struct MonitorStep {
    /// The health states to publish, in this order.
    pub publish: Vec<SSHStatus>,
    /// Whether to cancel the start scope and leave the loop.
    pub cancel: bool,
    /// Whether to probe the session now.
    pub ping: bool,
}

/// The reason given for a session whose probe was not answered.
pub open spec fn unstable_reason() -> Seq<char> {
    "Timeout/Err"@
}

/// The error that stands for a probe that was not answered.
pub open spec fn ping_timeout() -> TunnelErrorView {
    TunnelErrorView { kind: ErrorKind::PingTimeout, message: unstable_reason() }
}

/// The error of a probe: none for one that was answered, a ping
/// timeout for one that timed out or could not be sent.
pub fn probe_error(outcome: PingOutcome) -> (e: Option<TunnelError>)
    ensures
        match e {
            Some(error) => !(outcome is Answered) && error@ == ping_timeout(),
            None => outcome is Answered,
        },
{
    match outcome {
        PingOutcome::Answered { latency_ms } => None,
        _ => Some(TunnelError::new(ErrorKind::PingTimeout, "Timeout/Err")),
    }
}

/// The health states published after a probe, oldest first, given
/// whether the session is found closed afterwards.
pub open spec fn ping_trail(outcome: PingOutcome, closed: bool) -> Seq<SSHStatusView> {
    match outcome {
        PingOutcome::Answered { latency_ms } => seq![SSHStatusView::Healthy { latency_ms }],
        _ => if closed {
            seq![
                SSHStatusView::Unstable { reason: unstable_reason() },
                SSHStatusView::Disconnected,
            ]
        } else {
            seq![SSHStatusView::Unstable { reason: unstable_reason() }]
        },
    }
}

/// The views of a list of health states.
pub open spec fn status_views(v: Seq<SSHStatus>) -> Seq<SSHStatusView> {
    Seq::new(v.len(), |i: int| v[i]@)
}

/// Writes a health state that the monitor publishes into the session's
/// observable state. The traffic is left as it is: the monitor never
/// touches it.
pub fn publish_status(event: &mut SSHEvent, status: SSHStatus)
    ensures
        final(event).ssh_status == status,
        final(event).traffic == old(event).traffic,
{
    event.ssh_status = status;
}

/// The monitor's move at a tick, before any probe. A closed session is
/// published as disconnected and ends the scope; an open one is
/// probed.
pub fn monitor_tick(closed: bool) -> (step: MonitorStep)
    ensures
        step.cancel == closed,
        step.ping == !closed,
        status_views(step.publish@) == if closed {
            seq![SSHStatusView::Disconnected]
        } else {
            Seq::<SSHStatusView>::empty()
        },
{
    let mut publish: Vec<SSHStatus> = Vec::new();
    if closed {
        publish.push(SSHStatus::Disconnected);
        assert(status_views(publish@) =~= seq![SSHStatusView::Disconnected]);
    } else {
        assert(status_views(publish@) =~= Seq::<SSHStatusView>::empty());
    }
    MonitorStep { publish, cancel: closed, ping: !closed }
}

/// The monitor's move after a probe, given whether the session is
/// closed now. An answer is published as healthy with its latency. A
/// timeout or failure is published as unstable; if the session is
/// closed as well, disconnected follows and the scope ends.
pub fn monitor_probe(outcome: PingOutcome, closed: bool) -> (step: MonitorStep)
    ensures
        status_views(step.publish@) == ping_trail(outcome, closed),
        step.cancel == (closed && !(outcome is Answered)),
        !step.ping,
{
    let mut publish: Vec<SSHStatus> = Vec::new();
    match probe_error(outcome) {
        None => {
            match outcome {
                PingOutcome::Answered { latency_ms } => {
                    publish.push(SSHStatus::Healthy { latency_ms });
                },
                _ => {},
            }
            assert(status_views(publish@) =~= ping_trail(outcome, closed));
            MonitorStep { publish, cancel: false, ping: false }
        },
        Some(error) => {
            publish.push(SSHStatus::Unstable { reason: error.message });
            if closed {
                publish.push(SSHStatus::Disconnected);
            }
            assert(status_views(publish@) =~= ping_trail(outcome, closed));
            MonitorStep { publish, cancel: closed, ping: false }
        },
    }
}

// ---------------------------------------------------------------------
// Accept loop
// ---------------------------------------------------------------------

/// What the accept loop wakes up to.
#[derive(Clone, Copy, Debug, PartialEq, Eq, Structural)]
pub enum AcceptEvent {
    /// The start scope was cancelled.
    Cancelled,
    /// A client connected.
    Accepted,
    /// Accepting failed.
    Failed,
}

/// What the accept loop does next.
#[derive(Clone, Copy, Debug, PartialEq, Eq, Structural)]
pub enum AcceptAction {
    /// Drop the listener, which releases the port, and leave the loop.
    Release,
    /// Hand the connection to a task of its own and keep accepting.
    Spawn,
    /// Wait this many milliseconds and keep accepting.
    Backoff { millis: u64 },
}

/// The accept loop's move: cancellation releases the port, a client
/// gets a task, a failed accept is waited out.
pub fn accept_step(event: AcceptEvent) -> (action: AcceptAction)
    ensures
        action == match event {
            AcceptEvent::Cancelled => AcceptAction::Release,
            AcceptEvent::Accepted => AcceptAction::Spawn,
            AcceptEvent::Failed => AcceptAction::Backoff { millis: ACCEPT_BACKOFF_MILLIS },
        },
{
    match event {
        AcceptEvent::Cancelled => AcceptAction::Release,
        AcceptEvent::Accepted => AcceptAction::Spawn,
        AcceptEvent::Failed => AcceptAction::Backoff { millis: ACCEPT_BACKOFF_MILLIS },
    }
}

// ---------------------------------------------------------------------
// Traffic accounting of one forwarded connection
// ---------------------------------------------------------------------

/// The two byte counters of a connection at one moment: bytes read
/// from the client and bytes read from the server.
#[derive(Clone, Copy, Debug, PartialEq, Eq, Structural)]
pub struct Reading {
    pub tx: u64,
    pub rx: u64,
}

/// The growth from `last` to `current`, or zero where `current` is not
/// above `last`.
pub open spec fn growth(last: u64, current: u64) -> u64 {
    if current > last {
        (current - last) as u64
    } else {
        0
    }
}

/// Whether a report at `current` after one at `last` has anything to
/// publish.
pub open spec fn has_news(last: Reading, current: Reading) -> bool {
    growth(last.tx, current.tx) > 0 || growth(last.rx, current.rx) > 0
}

/// The reading a connection remembers after looking at `current`.
pub open spec fn remembered(last: Reading, current: Reading) -> Reading {
    if has_news(last, current) {
        current
    } else {
        last
    }
}

/// The reading remembered after looking at each of `readings` in turn,
/// starting from zero.
pub open spec fn remembered_after(readings: Seq<Reading>) -> Reading
    decreases readings.len(),
{
    if readings.len() == 0 {
        Reading { tx: 0, rx: 0 }
    } else {
        remembered(remembered_after(readings.drop_last()), readings.last())
    }
}

/// The bytes reported to the client-to-server counter over `readings`.
pub open spec fn reported_tx(readings: Seq<Reading>) -> int
    decreases readings.len(),
{
    if readings.len() == 0 {
        0
    } else {
        reported_tx(readings.drop_last()) + growth(
            remembered_after(readings.drop_last()).tx,
            readings.last().tx,
        )
    }
}

/// The bytes reported to the server-to-client counter over `readings`.
pub open spec fn reported_rx(readings: Seq<Reading>) -> int
    decreases readings.len(),
{
    if readings.len() == 0 {
        0
    } else {
        reported_rx(readings.drop_last()) + growth(
            remembered_after(readings.drop_last()).rx,
            readings.last().rx,
        )
    }
}

/// Whether neither counter ever goes down along `readings`.
pub open spec fn never_decreasing(readings: Seq<Reading>) -> bool {
    forall|i: int, j: int|
        0 <= i <= j < readings.len() ==> (#[trigger] readings[i]).tx <= (#[trigger] readings[j]).tx
            && readings[i].rx <= readings[j].rx
}

/// Over the life of a connection the reported deltas add up to the
/// bytes that were copied: if the counters never go down, the sum of
/// what was reported in each direction equals the counter's value at
/// the last report.
pub proof fn lemma_reports_add_up(readings: Seq<Reading>)
    requires
        never_decreasing(readings),
        readings.len() > 0,
    ensures
        reported_tx(readings) == readings.last().tx,
        reported_rx(readings) == readings.last().rx,
        remembered_after(readings) == readings.last(),
    decreases readings.len(),
{
    let before = readings.drop_last();
    if before.len() > 0 {
        assert(never_decreasing(before)) by {
            assert forall|i: int, j: int| 0 <= i <= j < before.len() implies (
            #[trigger] before[i]).tx <= (#[trigger] before[j]).tx && before[i].rx
                <= before[j].rx by {
                assert(before[i] == readings[i]);
                assert(before[j] == readings[j]);
            }
        }
        lemma_reports_add_up(before);
        let prev = readings[readings.len() - 2];
        let cur = readings[readings.len() - 1];
        assert(before.last() == prev);
        assert(readings.last() == cur);
        assert(prev.tx <= cur.tx && prev.rx <= cur.rx);
    } else {
        assert(reported_tx(before) == 0);
        assert(reported_rx(before) == 0);
        assert(remembered_after(before) == (Reading { tx: 0, rx: 0 }));
    }
    let kept = remembered_after(before);
    assert(reported_tx(readings) == reported_tx(before) + growth(kept.tx, readings.last().tx));
    assert(reported_rx(readings) == reported_rx(before) + growth(kept.rx, readings.last().rx));
}

/// The session's traffic after a connection that started from zero
/// reported at each of `readings` in turn, given the traffic before
/// its first report.
pub open spec fn traffic_after(start: Traffic, readings: Seq<Reading>) -> Traffic
    decreases readings.len(),
{
    if readings.len() == 0 {
        start
    } else {
        let kept = remembered_after(readings.drop_last());
        traffic_after(start, readings.drop_last()).grown(
            growth(kept.tx, readings.last().tx) as u128,
            growth(kept.rx, readings.last().rx) as u128,
        )
    }
}

/// When a connection ends, the session's traffic has grown by exactly
/// the bytes the connection copied: if its counters never go down,
/// then after its reports the traffic is what it was before the first
/// one, grown by the counters' values at the last one. Each direction
/// stops at the largest representable count; short of that, the
/// growth is the plain sum.
pub proof fn lemma_connection_adds_its_bytes(start: Traffic, readings: Seq<Reading>)
    requires
        never_decreasing(readings),
        readings.len() > 0,
    ensures
        traffic_after(start, readings) == start.grown(
            readings.last().tx as u128,
            readings.last().rx as u128,
        ),
        start.send_bytes + readings.last().tx <= u128::MAX ==> traffic_after(
            start,
            readings,
        ).send_bytes == start.send_bytes + readings.last().tx,
        start.recv_bytes + readings.last().rx <= u128::MAX ==> traffic_after(
            start,
            readings,
        ).recv_bytes == start.recv_bytes + readings.last().rx,
    decreases readings.len(),
{
    let before = readings.drop_last();
    if before.len() > 0 {
        assert(never_decreasing(before)) by {
            assert forall|i: int, j: int| 0 <= i <= j < before.len() implies (
            #[trigger] before[i]).tx <= (#[trigger] before[j]).tx && before[i].rx
                <= before[j].rx by {
                assert(before[i] == readings[i]);
                assert(before[j] == readings[j]);
            }
        }
        lemma_connection_adds_its_bytes(start, before);
        lemma_reports_add_up(before);
        let prev = readings[readings.len() - 2];
        let cur = readings[readings.len() - 1];
        assert(before.last() == prev);
        assert(readings.last() == cur);
        assert(prev.tx <= cur.tx && prev.rx <= cur.rx);
    } else {
        assert(traffic_after(start, before) == start);
        assert(remembered_after(before) == (Reading { tx: 0, rx: 0 }));
    }
}

/// Publishes what a connection moved since its last report.
///
/// `current_tx` and `current_rx` are the connection's counters now,
/// `last_tx` and `last_rx` their values at the last report. If either
/// counter grew, the growth is added to the session's traffic (each
/// direction stopping at the largest representable count) and the
/// current values are remembered; otherwise nothing changes. So for
/// counters that did not go down, the current values are remembered
/// either way, and short of the largest count the traffic grows by
/// exactly their growth. Returns whether anything was published.
pub fn report_traffic(
    event: &mut SSHEvent,
    current_tx: u64,
    current_rx: u64,
    last_tx: &mut u64,
    last_rx: &mut u64,
) -> (published: bool)
    ensures
        published == has_news(
            Reading { tx: *old(last_tx), rx: *old(last_rx) },
            Reading { tx: current_tx, rx: current_rx },
        ),
        (Reading { tx: *final(last_tx), rx: *final(last_rx) }) == remembered(
            Reading { tx: *old(last_tx), rx: *old(last_rx) },
            Reading { tx: current_tx, rx: current_rx },
        ),
        final(event).traffic == old(event).traffic.grown(
            growth(*old(last_tx), current_tx) as u128,
            growth(*old(last_rx), current_rx) as u128,
        ),
        final(event).ssh_status == old(event).ssh_status,
        *old(last_tx) <= current_tx && *old(last_rx) <= current_rx ==> {
            &&& *final(last_tx) == current_tx
            &&& *final(last_rx) == current_rx
            &&& old(event).traffic.send_bytes + (current_tx - *old(last_tx)) <= u128::MAX
                ==> final(event).traffic.send_bytes == old(event).traffic.send_bytes + (current_tx
                - *old(last_tx))
            &&& old(event).traffic.recv_bytes + (current_rx - *old(last_rx)) <= u128::MAX
                ==> final(event).traffic.recv_bytes == old(event).traffic.recv_bytes + (current_rx
                - *old(last_rx))
        },
{
    let delta_tx = current_tx.saturating_sub(*last_tx);
    let delta_rx = current_rx.saturating_sub(*last_rx);
    if delta_tx > 0 || delta_rx > 0 {
        *last_tx = current_tx;
        *last_rx = current_rx;
        event.traffic.grow(delta_tx as u128, delta_rx as u128);
        true
    } else {
        false
    }
}

/// What the task of one forwarded connection wakes up to.
#[derive(Clone, Copy, Debug, PartialEq, Eq, Structural)]
pub enum ConnectionEvent {
    /// The start scope was cancelled.
    Cancelled,
    /// Both copies ended, in success or in error.
    Finished,
    /// The report ticker fired.
    Tick,
}

/// The traffic bookkeeping of one forwarded connection.
#[derive(Debug, PartialEq, Eq)]
pub struct ConnectionTask {
    pub last_tx: u64,
    pub last_rx: u64,
}

impl ConnectionTask {
    /// The bookkeeping of a connection that has moved nothing yet.
    pub fn new() -> (t: ConnectionTask)
        ensures
            t.last_tx == 0,
            t.last_rx == 0,
    {
        ConnectionTask { last_tx: 0, last_rx: 0 }
    }

    /// Takes in one wake-up with the counters as they stand. Every
    /// wake-up reports, so that the last delta is published when the
    /// task ends. Returns whether the task goes on: only after a tick.
    pub fn on_event(
        &mut self,
        wake: ConnectionEvent,
        current_tx: u64,
        current_rx: u64,
        event: &mut SSHEvent,
    ) -> (more: bool)
        ensures
            more == (wake == ConnectionEvent::Tick),
            (Reading { tx: final(self).last_tx, rx: final(self).last_rx }) == remembered(
                Reading { tx: old(self).last_tx, rx: old(self).last_rx },
                Reading { tx: current_tx, rx: current_rx },
            ),
            final(event).traffic == old(event).traffic.grown(
                growth(old(self).last_tx, current_tx) as u128,
                growth(old(self).last_rx, current_rx) as u128,
            ),
            final(event).ssh_status == old(event).ssh_status,
            old(self).last_tx <= current_tx && old(self).last_rx <= current_rx ==> {
                &&& final(self).last_tx == current_tx
                &&& final(self).last_rx == current_rx
                &&& old(event).traffic.send_bytes + (current_tx - old(self).last_tx) <= u128::MAX
                    ==> final(event).traffic.send_bytes == old(event).traffic.send_bytes + (
                    current_tx - old(self).last_tx)
                &&& old(event).traffic.recv_bytes + (current_rx - old(self).last_rx) <= u128::MAX
                    ==> final(event).traffic.recv_bytes == old(event).traffic.recv_bytes + (
                    current_rx - old(self).last_rx)
            },
    {
        let mut last_tx = self.last_tx;
        let mut last_rx = self.last_rx;
        report_traffic(event, current_tx, current_rx, &mut last_tx, &mut last_rx);
        self.last_tx = last_tx;
        self.last_rx = last_rx;
        match wake {
            ConnectionEvent::Tick => true,
            _ => false,
        }
    }
}

} // verus!
