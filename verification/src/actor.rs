//! The supervisor of one tunnel: a state machine that takes commands
//! and the outcomes of the work it asked for, and answers with the next
//! piece of work and the snapshots to publish.

use vstd::prelude::*;
use crate::error::{ErrorKind, TunnelError, TunnelErrorView};
use crate::metric::{
    SSHEvent, SSHEventView, SSHStatus, SSHStatusView, Traffic, TunnelCommand, TunnelMetric,
    TunnelMetricView, TunnelState, TunnelStateView,
};
use crate::model::{
    SshConnectConfig, SshConnectConfigView, SshForwardConfig, SshForwardConfigView, StartPlan,
    StartPlanView, TunnelConfig, TunnelConfigView,
};

verus! {

/// Seconds the container lookup may take.
pub const CONTAINER_LOOKUP_TIMEOUT_SECS: u64 = 10;

/// Where the supervisor stands.
#[derive(Debug, PartialEq, Eq)]
pub enum Phase {
    /// Nothing is held; the tunnel is stopped.
    Stopped,
    /// Nothing is held; the tunnel failed with this error.
    Failed(TunnelError),
    /// Starting: the session is being opened.
    Connecting,
    /// Starting: the container's address is being looked up.
    Resolving,
    /// Starting: the listener is being bound.
    Binding,
    /// The tunnel forwards.
    Running,
    /// The start scope is cancelled and its tasks are being joined;
    /// `exit` says whether the supervisor ends afterwards.
    Stopping { exit: bool },
    /// The supervisor has ended.
    Exited,
}

/// The mathematical value of a [`Phase`].
pub enum PhaseView {
    Stopped,
    Failed(TunnelErrorView),
    Connecting,
    Resolving,
    Binding,
    Running,
    Stopping { exit: bool },
    Exited,
}

impl View for Phase {
    type V = PhaseView;

    open spec fn view(&self) -> PhaseView {
        match self {
            Phase::Stopped => PhaseView::Stopped,
            Phase::Failed(e) => PhaseView::Failed(e@),
            Phase::Connecting => PhaseView::Connecting,
            Phase::Resolving => PhaseView::Resolving,
            Phase::Binding => PhaseView::Binding,
            Phase::Running => PhaseView::Running,
            Phase::Stopping { exit } => PhaseView::Stopping { exit: *exit },
            Phase::Exited => PhaseView::Exited,
        }
    }
}

impl PhaseView {
    /// The lifecycle state that observers see in this phase.
    pub open spec fn lifecycle(self) -> TunnelStateView {
        match self {
            PhaseView::Stopped => TunnelStateView::Stopped,
            PhaseView::Failed(e) => TunnelStateView::Error(e.message),
            PhaseView::Connecting => TunnelStateView::Starting,
            PhaseView::Resolving => TunnelStateView::Starting,
            PhaseView::Binding => TunnelStateView::Starting,
            PhaseView::Running => TunnelStateView::Running,
            PhaseView::Stopping { exit } => TunnelStateView::Stopping,
            PhaseView::Exited => TunnelStateView::Stopped,
        }
    }

    /// Whether a command handler is in progress, so that a further
    /// command has to wait.
    pub open spec fn busy(self) -> bool {
        self is Connecting || self is Resolving || self is Binding || self is Stopping
    }
}

/// The mathematical value of the outcome of a container lookup.
pub open spec fn lookup_view(outcome: Result<Option<String>, TunnelError>) -> Result<
    Option<Seq<char>>,
    TunnelErrorView,
> {
    match outcome {
        Ok(Some(ip)) => Ok(Some(ip@)),
        Ok(None) => Ok(None),
        Err(e) => Err(e@),
    }
}

/// What happened, as far as the supervisor is concerned.
#[derive(Debug, PartialEq, Eq)]
pub enum ActorEvent {
    /// The operator asked for something.
    Command(TunnelCommand),
    /// The session asked for is open and authenticated.
    SessionOpened,
    /// The session asked for could not be opened.
    SessionFailed(TunnelError),
    /// The container lookup ended: with an address, with no address,
    /// or in error.
    ContainerResolved(Result<Option<String>, TunnelError>),
    /// The listener is bound and the monitor and accept loop run.
    Forwarding,
    /// The listener could not be bound.
    ForwardFailed(TunnelError),
    /// The session reported its health and the traffic of this span.
    Session(SSHEvent),
    /// A task of the start scope ended although no stop was asked for.
    SubordinateExited,
    /// Every task of the cancelled start scope has ended.
    TasksJoined,
}

/// The mathematical value of an [`ActorEvent`].
pub enum ActorEventView {
    Command(TunnelCommand),
    SessionOpened,
    SessionFailed(TunnelErrorView),
    ContainerResolved(Result<Option<Seq<char>>, TunnelErrorView>),
    Forwarding,
    ForwardFailed(TunnelErrorView),
    Session(SSHEventView),
    SubordinateExited,
    TasksJoined,
}

impl View for ActorEvent {
    type V = ActorEventView;

    open spec fn view(&self) -> ActorEventView {
        match self {
            ActorEvent::Command(c) => ActorEventView::Command(*c),
            ActorEvent::SessionOpened => ActorEventView::SessionOpened,
            ActorEvent::SessionFailed(e) => ActorEventView::SessionFailed(e@),
            ActorEvent::ContainerResolved(r) => ActorEventView::ContainerResolved(
                lookup_view(*r),
            ),
            ActorEvent::Forwarding => ActorEventView::Forwarding,
            ActorEvent::ForwardFailed(e) => ActorEventView::ForwardFailed(e@),
            ActorEvent::Session(ev) => ActorEventView::Session(ev@),
            ActorEvent::SubordinateExited => ActorEventView::SubordinateExited,
            ActorEvent::TasksJoined => ActorEventView::TasksJoined,
        }
    }
}

/// The work the supervisor asks for. The outcome of each piece of
/// work comes back as an [`ActorEvent`].
#[derive(Debug, PartialEq, Eq)]
pub enum ActorAction {
    /// Nothing; wait for the next event.
    Wait,
    /// The command cannot be handled while a handler is in progress;
    /// deliver it again afterwards.
    Defer(TunnelCommand),
    /// Open and authenticate a session.
    OpenSession(SshConnectConfig),
    /// Run the container lookup over the session, elevated, within the
    /// given number of seconds.
    ResolveContainer { container_name: String, timeout_secs: u64 },
    /// Bind the listener and spawn the monitor and the accept loop.
    Forward(SshForwardConfig),
    /// Cancel the start scope and join its tasks.
    CancelScope,
    /// Shut the session down and drop it, with whatever else is held.
    DropSession,
    /// End the supervisor.
    Exit,
}

/// The mathematical value of an [`ActorAction`].
pub enum ActorActionView {
    Wait,
    Defer(TunnelCommand),
    OpenSession(SshConnectConfigView),
    ResolveContainer { container_name: Seq<char>, timeout_secs: u64 },
    Forward(SshForwardConfigView),
    CancelScope,
    DropSession,
    Exit,
}

impl View for ActorAction {
    type V = ActorActionView;

    open spec fn view(&self) -> ActorActionView {
        match self {
            ActorAction::Wait => ActorActionView::Wait,
            ActorAction::Defer(c) => ActorActionView::Defer(*c),
            ActorAction::OpenSession(c) => ActorActionView::OpenSession(c@),
            ActorAction::ResolveContainer { container_name, timeout_secs } => {
                ActorActionView::ResolveContainer {
                    container_name: container_name@,
                    timeout_secs: *timeout_secs,
                }
            },
            ActorAction::Forward(f) => ActorActionView::Forward(f@),
            ActorAction::CancelScope => ActorActionView::CancelScope,
            ActorAction::DropSession => ActorActionView::DropSession,
            ActorAction::Exit => ActorActionView::Exit,
        }
    }
}

/// The supervisor's answer to one event.
#[derive(Debug, PartialEq, Eq)]
pub struct Step {
    /// The work to do next.
    pub action: ActorAction,
    /// The snapshots to put on the outbox, oldest first.
    pub published: Vec<TunnelMetric>,
}

/// The mathematical value of a [`Step`], together with the state the
/// supervisor is left in.
pub struct StepView {
    pub next: ActorView,
    pub action: ActorActionView,
    pub published: Seq<TunnelMetricView>,
}

/// The views of a list of snapshots.
pub open spec fn metric_views(v: Seq<TunnelMetric>) -> Seq<TunnelMetricView> {
    Seq::new(v.len(), |i: int| v[i]@)
}

/// The growth from `last` to `current`, or zero where `current` is not
/// above `last`.
pub open spec fn growth(last: u128, current: u128) -> u128 {
    if current > last {
        (current - last) as u128
    } else {
        0
    }
}

/// The error of a tunnel whose subordinate task ended unasked.
pub open spec fn connection_dropped() -> TunnelErrorView {
    TunnelErrorView { kind: ErrorKind::SessionDropped, message: "Connection Dropped"@ }
}

/// The error of a container lookup that printed no address.
pub open spec fn container_ip_not_found() -> TunnelErrorView {
    TunnelErrorView { kind: ErrorKind::Exec, message: "Container IP not found"@ }
}

/// The mathematical value of a [`TunnelActor`].
pub struct ActorView {
    pub config: TunnelConfigView,
    pub phase: PhaseView,
    pub health: SSHStatusView,
    pub traffic: Traffic,
    /// The traffic of the current span that is already counted.
    pub seen: Traffic,
    /// The forwarding in effect or being set up.
    pub forward: Option<SshForwardConfigView>,
}

impl ActorView {
    /// A supervisor that was never started.
    pub open spec fn initial(config: TunnelConfigView) -> ActorView {
        ActorView {
            config,
            phase: PhaseView::Stopped,
            health: SSHStatusView::Disconnected,
            traffic: Traffic::zero(),
            seen: Traffic::zero(),
            forward: None,
        }
    }

    /// The snapshot observers see.
    pub open spec fn metric(self) -> TunnelMetricView {
        TunnelMetricView {
            tunnel_state: self.phase.lifecycle(),
            ssh_status: self.health,
            traffic: self.traffic,
        }
    }

    /// The answer that changes nothing and asks for nothing.
    pub open spec fn ignore(self) -> StepView {
        StepView {
            next: self,
            action: ActorActionView::Wait,
            published: Seq::<TunnelMetricView>::empty(),
        }
    }

    /// The answer that puts a command off.
    pub open spec fn defer(self, command: TunnelCommand) -> StepView {
        StepView {
            next: self,
            action: ActorActionView::Defer(command),
            published: Seq::<TunnelMetricView>::empty(),
        }
    }

    /// The state after a failure with `error`: nothing held,
    /// disconnected, traffic kept.
    pub open spec fn failed(self, error: TunnelErrorView) -> ActorView {
        ActorView {
            phase: PhaseView::Failed(error),
            health: SSHStatusView::Disconnected,
            forward: None,
            ..self
        }
    }

    /// The answer to a failure with `error`: publish the error and
    /// drop what is held.
    pub open spec fn fail(self, error: TunnelErrorView) -> StepView {
        let next = self.failed(error);
        StepView { next, action: ActorActionView::DropSession, published: seq![next.metric()] }
    }

    /// The state in which a start is under way.
    pub open spec fn starting(self) -> ActorView {
        ActorView {
            phase: PhaseView::Connecting,
            health: SSHStatusView::Disconnected,
            forward: None,
            ..self
        }
    }

    /// The state after the operator took the tunnel out of service:
    /// disconnected, counters reset.
    pub open spec fn halted(self, phase: PhaseView) -> ActorView {
        ActorView {
            phase,
            health: SSHStatusView::Disconnected,
            traffic: Traffic::zero(),
            seen: Traffic::zero(),
            forward: None,
            ..self
        }
    }

    /// The state after the operator cleared a failure: as before, in
    /// the given phase.
    pub open spec fn cleared(self, phase: PhaseView) -> ActorView {
        ActorView { phase, ..self }
    }

    /// Start. A stopped or failed tunnel begins to start: with a start
    /// plan it asks for a session, without one it fails at once. A
    /// running tunnel is left alone. During a handler the command is
    /// put off.
    pub open spec fn on_start(self) -> StepView {
        match self.phase {
            PhaseView::Stopped | PhaseView::Failed(_) => {
                let starting = self.starting();
                match self.config.start_plan() {
                    Err(e) => {
                        let next = starting.failed(e);
                        StepView {
                            next,
                            action: ActorActionView::Wait,
                            published: seq![starting.metric(), next.metric()],
                        }
                    },
                    Ok(plan) => StepView {
                        next: starting,
                        action: ActorActionView::OpenSession(
                            match plan {
                                StartPlanView::Direct { connect, forward } => connect,
                                StartPlanView::Container { connect, container_name } => connect,
                            },
                        ),
                        published: seq![starting.metric()],
                    },
                }
            },
            PhaseView::Running | PhaseView::Exited => self.ignore(),
            _ => self.defer(TunnelCommand::Start),
        }
    }

    /// Stop, or Remove when `exit` is set. A running tunnel cancels its
    /// scope and resets its counters. A failed tunnel passes through
    /// stopping to stopped at once, since it holds nothing. A stopped
    /// tunnel is left alone. Remove ends the supervisor as soon as
    /// nothing is held. During a handler the command is put off.
    pub open spec fn on_stop(self, exit: bool) -> StepView {
        let command = if exit {
            TunnelCommand::Remove
        } else {
            TunnelCommand::Stop
        };
        let rest = if exit {
            PhaseView::Exited
        } else {
            PhaseView::Stopped
        };
        let done = if exit {
            ActorActionView::Exit
        } else {
            ActorActionView::Wait
        };
        match self.phase {
            PhaseView::Running => {
                let next = self.halted(PhaseView::Stopping { exit });
                StepView {
                    next,
                    action: ActorActionView::CancelScope,
                    published: seq![next.metric()],
                }
            },
            PhaseView::Failed(_) => {
                let stopping = self.cleared(PhaseView::Stopping { exit });
                let next = self.cleared(rest);
                StepView { next, action: done, published: seq![stopping.metric(), next.metric()] }
            },
            PhaseView::Stopped => StepView {
                next: self.cleared(rest),
                action: done,
                published: Seq::<TunnelMetricView>::empty(),
            },
            PhaseView::Exited => self.ignore(),
            _ => self.defer(command),
        }
    }

    /// The session is open. In direct mode the forwarding is asked for;
    /// in container mode the lookup is.
    pub open spec fn on_session_opened(self) -> StepView {
        if self.phase is Connecting {
            match self.config.start_plan() {
                Err(e) => self.fail(e),
                Ok(StartPlanView::Direct { connect, forward }) => StepView {
                    next: ActorView {
                        phase: PhaseView::Binding,
                        forward: Some(forward),
                        ..self
                    },
                    action: ActorActionView::Forward(forward),
                    published: Seq::<TunnelMetricView>::empty(),
                },
                Ok(StartPlanView::Container { connect, container_name }) => StepView {
                    next: ActorView { phase: PhaseView::Resolving, ..self },
                    action: ActorActionView::ResolveContainer {
                        container_name,
                        timeout_secs: CONTAINER_LOOKUP_TIMEOUT_SECS,
                    },
                    published: Seq::<TunnelMetricView>::empty(),
                },
            }
        } else {
            self.ignore()
        }
    }

    /// The container lookup ended. An address becomes the target of
    /// the forwarding; no address, or an error, fails the start.
    pub open spec fn on_container_resolved(
        self,
        outcome: Result<Option<Seq<char>>, TunnelErrorView>,
    ) -> StepView {
        if self.phase is Resolving {
            match outcome {
                Err(error) => self.fail(error),
                Ok(None) => self.fail(container_ip_not_found()),
                Ok(Some(ip)) => match self.config.container_forward(ip) {
                    Err(e) => self.fail(e),
                    Ok(forward) => StepView {
                        next: ActorView {
                            phase: PhaseView::Binding,
                            forward: Some(forward),
                            ..self
                        },
                        action: ActorActionView::Forward(forward),
                        published: Seq::<TunnelMetricView>::empty(),
                    },
                },
            }
        } else {
            self.ignore()
        }
    }

    /// The tunnel forwards: running, with a fresh span.
    pub open spec fn on_forwarding(self) -> StepView {
        if self.phase is Binding {
            let next = ActorView { phase: PhaseView::Running, seen: Traffic::zero(), ..self };
            StepView { next, action: ActorActionView::Wait, published: seq![next.metric()] }
        } else {
            self.ignore()
        }
    }

    /// The session reported. Its health replaces the one held; what
    /// its span traffic grew by since the last report is added to the
    /// counters, each stopping at the largest representable count.
    pub open spec fn on_session_event(self, event: SSHEventView) -> StepView {
        if self.phase is Running {
            let sent = growth(self.seen.send_bytes, event.traffic.send_bytes);
            let received = growth(self.seen.recv_bytes, event.traffic.recv_bytes);
            let news = sent > 0 || received > 0;
            let next = ActorView {
                health: event.ssh_status,
                traffic: if news {
                    self.traffic.grown(sent, received)
                } else {
                    self.traffic
                },
                seen: if news {
                    event.traffic
                } else {
                    self.seen
                },
                ..self
            };
            StepView { next, action: ActorActionView::Wait, published: seq![next.metric()] }
        } else {
            self.ignore()
        }
    }

    /// Every task of the cancelled scope has ended: stopped, and the
    /// session is dropped; after Remove the supervisor ends.
    pub open spec fn on_tasks_joined(self) -> StepView {
        match self.phase {
            PhaseView::Stopping { exit } => {
                let next = self.cleared(
                    if exit {
                        PhaseView::Exited
                    } else {
                        PhaseView::Stopped
                    },
                );
                StepView {
                    next,
                    action: if exit {
                        ActorActionView::Exit
                    } else {
                        ActorActionView::DropSession
                    },
                    published: seq![next.metric()],
                }
            },
            _ => self.ignore(),
        }
    }

    /// The supervisor's answer to `event`. An event that does not fit
    /// the phase changes nothing.
    pub open spec fn step(self, event: ActorEventView) -> StepView {
        match event {
            ActorEventView::Command(TunnelCommand::Start) => self.on_start(),
            ActorEventView::Command(TunnelCommand::Stop) => self.on_stop(false),
            ActorEventView::Command(TunnelCommand::Remove) => self.on_stop(true),
            ActorEventView::SessionOpened => self.on_session_opened(),
            ActorEventView::SessionFailed(error) => if self.phase is Connecting {
                self.fail(error)
            } else {
                self.ignore()
            },
            ActorEventView::ContainerResolved(outcome) => self.on_container_resolved(outcome),
            ActorEventView::Forwarding => self.on_forwarding(),
            ActorEventView::ForwardFailed(error) => if self.phase is Binding {
                self.fail(error)
            } else {
                self.ignore()
            },
            ActorEventView::Session(ev) => self.on_session_event(ev),
            ActorEventView::SubordinateExited => if self.phase is Running {
                self.fail(connection_dropped())
            } else {
                self.ignore()
            },
            ActorEventView::TasksJoined => self.on_tasks_joined(),
        }
    }
}

/// The supervisor of one tunnel.
#[derive(Debug, PartialEq, Eq)]
pub struct TunnelActor {
    config: TunnelConfig,
    phase: Phase,
    health: SSHStatus,
    traffic: Traffic,
    seen: Traffic,
    forward: Option<SshForwardConfig>,
}

impl View for TunnelActor {
    type V = ActorView;

    closed spec fn view(&self) -> ActorView {
        ActorView {
            config: self.config@,
            phase: self.phase@,
            health: self.health@,
            traffic: self.traffic,
            seen: self.seen,
            forward: match self.forward {
                Some(f) => Some(f@),
                None => None,
            },
        }
    }
}

/// Whether `step` asks for and publishes what `expected` says.
pub open spec fn step_shows(step: Step, expected: StepView) -> bool {
    &&& step.action@ == expected.action
    &&& step.published@.len() == expected.published.len()
    &&& metric_views(step.published@) == expected.published
}

/// Whether `step` and the state `after` are what `expected` says.
pub open spec fn step_matches(step: Step, after: ActorView, expected: StepView) -> bool {
    &&& after == expected.next
    &&& step_shows(step, expected)
}

fn no_metrics() -> (v: Vec<TunnelMetric>)
    ensures
        metric_views(v@) == Seq::<TunnelMetricView>::empty(),
{
    let v: Vec<TunnelMetric> = Vec::new();
    assert(metric_views(v@) =~= Seq::<TunnelMetricView>::empty());
    v
}

fn one_metric(m: TunnelMetric) -> (v: Vec<TunnelMetric>)
    ensures
        metric_views(v@) == seq![m@],
{
    let mut v: Vec<TunnelMetric> = Vec::new();
    v.push(m);
    assert(metric_views(v@) =~= seq![m@]);
    v
}

fn two_metrics(a: TunnelMetric, b: TunnelMetric) -> (v: Vec<TunnelMetric>)
    ensures
        metric_views(v@) == seq![a@, b@],
{
    let mut v: Vec<TunnelMetric> = Vec::new();
    v.push(a);
    v.push(b);
    assert(metric_views(v@) =~= seq![a@, b@]);
    v
}

fn lifecycle_of(phase: &Phase) -> (s: TunnelState)
    ensures
        s@ == phase@.lifecycle(),
{
    match phase {
        Phase::Stopped => TunnelState::Stopped,
        Phase::Failed(e) => TunnelState::Error(e.message.clone()),
        Phase::Connecting => TunnelState::Starting,
        Phase::Resolving => TunnelState::Starting,
        Phase::Binding => TunnelState::Starting,
        Phase::Running => TunnelState::Running,
        Phase::Stopping { exit } => TunnelState::Stopping,
        Phase::Exited => TunnelState::Stopped,
    }
}

impl TunnelActor {
    /// The supervisor of the tunnel that `config` defines: stopped,
    /// disconnected, no traffic.
    pub fn new(config: TunnelConfig) -> (actor: TunnelActor)
        ensures
            actor@ == ActorView::initial(config@),
    {
        TunnelActor {
            config,
            phase: Phase::Stopped,
            health: SSHStatus::Disconnected,
            traffic: Traffic { send_bytes: 0, recv_bytes: 0 },
            seen: Traffic { send_bytes: 0, recv_bytes: 0 },
            forward: None,
        }
    }

    /// The snapshot observers see now.
    pub fn metric(&self) -> (m: TunnelMetric)
        ensures
            m@ == self@.metric(),
    {
        TunnelMetric {
            tunnel_state: lifecycle_of(&self.phase),
            ssh_status: self.health.clone(),
            traffic: self.traffic,
        }
    }

    /// The definition of the tunnel.
    pub fn config(&self) -> (c: &TunnelConfig)
        ensures
            c@ == self@.config,
    {
        &self.config
    }

    /// The forwarding in effect or being set up, if any.
    pub fn forward(&self) -> (f: Option<SshForwardConfig>)
        ensures
            match f {
                Some(c) => self@.forward == Some(c@),
                None => self@.forward is None,
            },
    {
        match &self.forward {
            Some(c) => Some(c.clone()),
            None => None,
        }
    }

    /// The error the tunnel failed with, while it shows an error.
    pub fn failure(&self) -> (e: Option<TunnelError>)
        ensures
            match e {
                Some(error) => self@.phase == PhaseView::Failed(error@),
                None => !(self@.phase is Failed),
            },
    {
        match &self.phase {
            Phase::Failed(error) => Some(error.clone()),
            _ => None,
        }
    }

    /// Whether a command handler is in progress.
    pub fn is_busy(&self) -> (b: bool)
        ensures
            b == self@.phase.busy(),
    {
        match self.phase {
            Phase::Connecting | Phase::Resolving | Phase::Binding | Phase::Stopping { .. } => true,
            _ => false,
        }
    }

    /// Whether the supervisor has ended.
    pub fn has_exited(&self) -> (b: bool)
        ensures
            b == (self@.phase is Exited),
    {
        match self.phase {
            Phase::Exited => true,
            _ => false,
        }
    }

    /// Whether the supervisor is ending or has ended, so that it takes
    /// no further command.
    pub fn is_closing(&self) -> (b: bool)
        ensures
            b == (self@.phase is Exited || self@.phase == (PhaseView::Stopping { exit: true })),
    {
        match self.phase {
            Phase::Exited => true,
            Phase::Stopping { exit } => exit,
            _ => false,
        }
    }

    fn ignore(&self) -> (step: Step)
        ensures
            step_matches(step, self@, self@.ignore()),
    {
        Step { action: ActorAction::Wait, published: no_metrics() }
    }

    fn defer(&self, command: TunnelCommand) -> (step: Step)
        ensures
            step_matches(step, self@, self@.defer(command)),
    {
        Step { action: ActorAction::Defer(command), published: no_metrics() }
    }

    fn fail(&mut self, error: TunnelError) -> (step: Step)
        ensures
            step_matches(step, final(self)@, old(self)@.fail(error@)),
    {
        self.phase = Phase::Failed(error);
        self.health = SSHStatus::Disconnected;
        self.forward = None;
        Step { action: ActorAction::DropSession, published: one_metric(self.metric()) }
    }

    fn handle_start(&mut self) -> (step: Step)
        ensures
            step_matches(step, final(self)@, old(self)@.on_start()),
    {
        match self.phase {
            Phase::Stopped | Phase::Failed(_) => {
                self.phase = Phase::Connecting;
                self.health = SSHStatus::Disconnected;
                self.forward = None;
                let starting = self.metric();
                match self.config.start_plan() {
                    Err(e) => {
                        self.phase = Phase::Failed(e);
                        let failed = self.metric();
                        Step { action: ActorAction::Wait, published: two_metrics(starting, failed) }
                    },
                    Ok(plan) => {
                        let connect = match plan {
                            StartPlan::Direct { connect, forward } => connect,
                            StartPlan::Container { connect, container_name } => connect,
                        };
                        Step {
                            action: ActorAction::OpenSession(connect),
                            published: one_metric(starting),
                        }
                    },
                }
            },
            Phase::Running | Phase::Exited => self.ignore(),
            _ => self.defer(TunnelCommand::Start),
        }
    }

    fn handle_stop(&mut self, exit: bool) -> (step: Step)
        ensures
            step_matches(step, final(self)@, old(self)@.on_stop(exit)),
    {
        match self.phase {
            Phase::Running => {
                self.phase = Phase::Stopping { exit };
                self.health = SSHStatus::Disconnected;
                self.traffic.set(0, 0);
                self.seen.set(0, 0);
                self.forward = None;
                Step { action: ActorAction::CancelScope, published: one_metric(self.metric()) }
            },
            Phase::Failed(_) => {
                self.phase = Phase::Stopping { exit };
                let stopping = self.metric();
                self.phase = if exit {
                    Phase::Exited
                } else {
                    Phase::Stopped
                };
                let stopped = self.metric();
                Step {
                    action: if exit {
                        ActorAction::Exit
                    } else {
                        ActorAction::Wait
                    },
                    published: two_metrics(stopping, stopped),
                }
            },
            Phase::Stopped => {
                self.phase = if exit {
                    Phase::Exited
                } else {
                    Phase::Stopped
                };
                Step {
                    action: if exit {
                        ActorAction::Exit
                    } else {
                        ActorAction::Wait
                    },
                    published: no_metrics(),
                }
            },
            Phase::Exited => self.ignore(),
            _ => self.defer(
                if exit {
                    TunnelCommand::Remove
                } else {
                    TunnelCommand::Stop
                },
            ),
        }
    }

    fn handle_session_opened(&mut self) -> (step: Step)
        ensures
            step_matches(step, final(self)@, old(self)@.on_session_opened()),
    {
        match self.phase {
            Phase::Connecting => match self.config.start_plan() {
                Err(e) => self.fail(e),
                Ok(StartPlan::Direct { connect, forward }) => {
                    self.phase = Phase::Binding;
                    self.forward = Some(forward.clone());
                    Step { action: ActorAction::Forward(forward), published: no_metrics() }
                },
                Ok(StartPlan::Container { connect, container_name }) => {
                    self.phase = Phase::Resolving;
                    Step {
                        action: ActorAction::ResolveContainer {
                            container_name,
                            timeout_secs: CONTAINER_LOOKUP_TIMEOUT_SECS,
                        },
                        published: no_metrics(),
                    }
                },
            },
            _ => self.ignore(),
        }
    }

    fn handle_container_resolved(&mut self, outcome: Result<Option<String>, TunnelError>) -> (step:
        Step)
        ensures
            step_matches(
                step,
                final(self)@,
                old(self)@.on_container_resolved(lookup_view(outcome)),
            ),
    {
        match self.phase {
            Phase::Resolving => match outcome {
                Err(e) => self.fail(e),
                Ok(None) => self.fail(TunnelError::new(ErrorKind::Exec, "Container IP not found")),
                Ok(Some(ip)) => match self.config.container_forward(ip) {
                    Err(e) => self.fail(e),
                    Ok(forward) => {
                        self.phase = Phase::Binding;
                        self.forward = Some(forward.clone());
                        Step { action: ActorAction::Forward(forward), published: no_metrics() }
                    },
                },
            },
            _ => self.ignore(),
        }
    }

    fn handle_forwarding(&mut self) -> (step: Step)
        ensures
            step_matches(step, final(self)@, old(self)@.on_forwarding()),
    {
        match self.phase {
            Phase::Binding => {
                self.phase = Phase::Running;
                self.seen.set(0, 0);
                Step { action: ActorAction::Wait, published: one_metric(self.metric()) }
            },
            _ => self.ignore(),
        }
    }

    fn handle_session_event(&mut self, event: SSHEvent) -> (step: Step)
        ensures
            step_matches(step, final(self)@, old(self)@.on_session_event(event@)),
    {
        match self.phase {
            Phase::Running => {
                let sent = event.traffic.send_bytes.saturating_sub(self.seen.send_bytes);
                let received = event.traffic.recv_bytes.saturating_sub(self.seen.recv_bytes);
                if sent > 0 || received > 0 {
                    self.traffic.grow(sent, received);
                    self.seen = event.traffic;
                }
                self.health = event.ssh_status;
                Step { action: ActorAction::Wait, published: one_metric(self.metric()) }
            },
            _ => self.ignore(),
        }
    }

    fn handle_tasks_joined(&mut self) -> (step: Step)
        ensures
            step_matches(step, final(self)@, old(self)@.on_tasks_joined()),
    {
        match self.phase {
            Phase::Stopping { exit } => {
                self.phase = if exit {
                    Phase::Exited
                } else {
                    Phase::Stopped
                };
                Step {
                    action: if exit {
                        ActorAction::Exit
                    } else {
                        ActorAction::DropSession
                    },
                    published: one_metric(self.metric()),
                }
            },
            _ => self.ignore(),
        }
    }

    /// Takes in one event and answers with the work to do next and the
    /// snapshots to publish, as [`ActorView::step`] defines.
    pub fn handle(&mut self, event: ActorEvent) -> (step: Step)
        ensures
            step_matches(step, final(self)@, old(self)@.step(event@)),
    {
        match event {
            ActorEvent::Command(TunnelCommand::Start) => self.handle_start(),
            ActorEvent::Command(TunnelCommand::Stop) => self.handle_stop(false),
            ActorEvent::Command(TunnelCommand::Remove) => self.handle_stop(true),
            ActorEvent::SessionOpened => self.handle_session_opened(),
            ActorEvent::SessionFailed(e) => match self.phase {
                Phase::Connecting => self.fail(e),
                _ => self.ignore(),
            },
            ActorEvent::ContainerResolved(outcome) => self.handle_container_resolved(outcome),
            ActorEvent::Forwarding => self.handle_forwarding(),
            ActorEvent::ForwardFailed(e) => match self.phase {
                Phase::Binding => self.fail(e),
                _ => self.ignore(),
            },
            ActorEvent::Session(ev) => self.handle_session_event(ev),
            ActorEvent::SubordinateExited => match self.phase {
                Phase::Running => self.fail(
                    TunnelError::new(ErrorKind::SessionDropped, "Connection Dropped"),
                ),
                _ => self.ignore(),
            },
            ActorEvent::TasksJoined => self.handle_tasks_joined(),
        }
    }
}

} // verus!
