//! What holds of every supervisor, whatever it is fed.

use vstd::prelude::*;
use crate::actor::{
    connection_dropped, container_ip_not_found, ActorActionView, ActorEventView, ActorView,
    PhaseView,
};
use crate::error::TunnelErrorView;
use crate::metric::{
    SSHEventView, SSHStatusView, Traffic, TunnelCommand, TunnelMetricView, TunnelStateView,
};
use crate::model::StartPlanView;
use crate::remote_cmd::{GetContainerAddrCmd, RemoteCommand};
use crate::ssh::{ping_trail, unstable_reason, PingOutcome};
use crate::text::trim;

verus! {

/// Whether the lifecycle may pass from `from` to `to` in one move.
///
/// The moves are: stopped or error to starting (Start); starting to
/// running or to error; running to stopping (Stop, Remove) or to error
/// (a subordinate task ended); error to stopping (Stop or Remove of a
/// failed tunnel); stopping to stopped. A snapshot that repeats the
/// state it follows, because only health or traffic changed, is no
/// move and always allowed.
pub open spec fn defined_transition(from: TunnelStateView, to: TunnelStateView) -> bool {
    ||| from == to
    ||| (from is Stopped || from is Error) && to is Starting
    ||| from is Starting && (to is Running || to is Error)
    ||| from is Running && (to is Stopping || to is Error)
    ||| from is Error && to is Stopping
    ||| from is Stopping && to is Stopped
}

/// Whether the snapshots of `trail`, published one after the other on
/// an outbox that showed `from`, make only defined transitions.
pub open spec fn follows_table(from: TunnelStateView, trail: Seq<TunnelMetricView>) -> bool
    decreases trail.len(),
{
    trail.len() == 0 || (defined_transition(from, trail[0].tunnel_state) && follows_table(
        trail[0].tunnel_state,
        trail.drop_first(),
    ))
}

/// The lifecycle state on the outbox after `trail` was published on
/// one that showed `from`.
pub open spec fn last_state(from: TunnelStateView, trail: Seq<TunnelMetricView>) -> TunnelStateView {
    if trail.len() == 0 {
        from
    } else {
        trail.last().tunnel_state
    }
}

/// The state of a supervisor after it took in `events` in order.
pub open spec fn run(s: ActorView, events: Seq<ActorEventView>) -> ActorView
    decreases events.len(),
{
    if events.len() == 0 {
        s
    } else {
        run(s.step(events[0]).next, events.drop_first())
    }
}

/// Everything a supervisor published while it took in `events`.
pub open spec fn trail(s: ActorView, events: Seq<ActorEventView>) -> Seq<TunnelMetricView>
    decreases events.len(),
{
    if events.len() == 0 {
        Seq::<TunnelMetricView>::empty()
    } else {
        s.step(events[0]).published + trail(s.step(events[0]).next, events.drop_first())
    }
}

/// Whether a supervisor is running before, between and after `events`.
pub open spec fn stays_running(s: ActorView, events: Seq<ActorEventView>) -> bool
    decreases events.len(),
{
    s.phase is Running && (events.len() == 0 || stays_running(
        s.step(events[0]).next,
        events.drop_first(),
    ))
}

/// What holds of every supervisor that started out stopped: a
/// forwarding is held exactly while the listener is being bound or
/// the tunnel runs, and the health is disconnected whenever the
/// tunnel does not run.
pub open spec fn consistent(s: ActorView) -> bool {
    &&& s.forward is Some <==> (s.phase is Binding || s.phase is Running)
    &&& !(s.phase is Running) ==> s.health == SSHStatusView::Disconnected
}

/// A new supervisor is consistent, and no event makes a consistent
/// supervisor inconsistent.
pub proof fn lemma_consistency_is_kept(s: ActorView, event: ActorEventView)
    requires
        consistent(s),
    ensures
        consistent(ActorView::initial(s.config)),
        consistent(s.step(event).next),
        s.step(event).next.config == s.config,
{
}

/// One answer of a supervisor makes only defined transitions, and the
/// last snapshot it publishes shows the state it is left in.
pub proof fn lemma_step_follows_table(s: ActorView, event: ActorEventView)
    ensures
        follows_table(s.phase.lifecycle(), s.step(event).published),
        s.step(event).next.phase.lifecycle() == last_state(
            s.phase.lifecycle(),
            s.step(event).published,
        ),
{
    let step = s.step(event);
    let from = s.phase.lifecycle();
    if step.published.len() == 1 {
        assert(step.published.drop_first() =~= Seq::<TunnelMetricView>::empty());
        assert(follows_table(step.published[0].tunnel_state, step.published.drop_first()));
    } else if step.published.len() == 2 {
        let rest = step.published.drop_first();
        assert(rest.len() == 1);
        assert(rest[0] == step.published[1]);
        assert(rest.drop_first() =~= Seq::<TunnelMetricView>::empty());
        assert(follows_table(rest[0].tunnel_state, rest.drop_first()));
        assert(follows_table(step.published[0].tunnel_state, rest));
    }
}

proof fn lemma_trails_join(
    from: TunnelStateView,
    first: Seq<TunnelMetricView>,
    second: Seq<TunnelMetricView>,
)
    requires
        follows_table(from, first),
        follows_table(last_state(from, first), second),
    ensures
        follows_table(from, first + second),
        last_state(from, first + second) == last_state(last_state(from, first), second),
    decreases first.len(),
{
    if first.len() == 0 {
        assert(first + second =~= second);
    } else {
        let rest = first.drop_first();
        assert(last_state(first[0].tunnel_state, rest) == last_state(from, first)) by {
            if rest.len() > 0 {
                assert(rest.last() == first.last());
            }
        }
        lemma_trails_join(first[0].tunnel_state, rest, second);
        assert((first + second).drop_first() =~= rest + second);
        assert((first + second)[0] == first[0]);
        if second.len() == 0 {
            assert(first + second =~= first);
        } else {
            assert((first + second).last() == second.last());
        }
    }
}

/// Whatever events a supervisor is fed, in whatever order, the
/// lifecycle states it publishes make only defined transitions, and
/// the last one shows the state it is left in.
pub proof fn lemma_run_follows_table(s: ActorView, events: Seq<ActorEventView>)
    ensures
        follows_table(s.phase.lifecycle(), trail(s, events)),
        run(s, events).phase.lifecycle() == last_state(s.phase.lifecycle(), trail(s, events)),
    decreases events.len(),
{
    if events.len() > 0 {
        let step = s.step(events[0]);
        lemma_step_follows_table(s, events[0]);
        lemma_run_follows_table(step.next, events.drop_first());
        lemma_trails_join(
            s.phase.lifecycle(),
            step.published,
            trail(step.next, events.drop_first()),
        );
    }
}

/// While a tunnel stays running, neither traffic counter goes down.
pub proof fn lemma_traffic_never_falls(s: ActorView, events: Seq<ActorEventView>)
    requires
        stays_running(s, events),
    ensures
        s.traffic.le(run(s, events).traffic),
    decreases events.len(),
{
    if events.len() > 0 {
        let next = s.step(events[0]).next;
        assert(stays_running(next, events.drop_first()));
        assert(next.phase is Running);
        assert(s.traffic.le(next.traffic));
        lemma_traffic_never_falls(next, events.drop_first());
    }
}

/// While a command handler is in progress no further command is
/// handled: it is put off, and nothing changes or is published.
pub proof fn lemma_commands_wait_for_the_handler(s: ActorView, command: TunnelCommand)
    requires
        s.phase.busy(),
    ensures
        s.step(ActorEventView::Command(command)) == s.defer(command),
        s.defer(command).next == s,
        s.defer(command).published.len() == 0,
{
}

/// Start on a running tunnel and Stop on a stopped one change nothing
/// and ask for nothing.
pub proof fn lemma_repeated_commands_are_no_ops(s: ActorView)
    ensures
        s.phase is Running ==> s.step(ActorEventView::Command(TunnelCommand::Start)) == s.ignore(),
        s.phase is Stopped ==> s.step(ActorEventView::Command(TunnelCommand::Stop)) == s.ignore(),
        s.ignore().next == s,
        s.ignore().action == ActorActionView::Wait,
        s.ignore().published.len() == 0,
{
}

/// A running tunnel that is stopped cancels its scope, and once its
/// tasks are joined it is stopped, holds no forwarding and drops its
/// session.
pub proof fn lemma_stop_reaches_stopped(s: ActorView)
    requires
        s.phase is Running,
    ensures
        ({
            let stop = s.step(ActorEventView::Command(TunnelCommand::Stop));
            let joined = stop.next.step(ActorEventView::TasksJoined);
            &&& stop.action == ActorActionView::CancelScope
            &&& stop.next.phase.lifecycle() == TunnelStateView::Stopping
            &&& joined.action == ActorActionView::DropSession
            &&& joined.next.phase == PhaseView::Stopped
            &&& joined.next.forward is None
            &&& joined.next.metric() == TunnelMetricView::initial()
        }),
{
}

/// The state of a tunnel that has just begun to forward.
pub open spec fn fresh_running(s: ActorView) -> bool {
    &&& s.phase is Running
    &&& s.health == SSHStatusView::Disconnected
    &&& s.traffic == Traffic::zero()
    &&& s.seen == Traffic::zero()
}

/// The state of a stopped supervisor after a start that succeeds at
/// every step; `ip` is the address the container lookup yields, where
/// there is a lookup.
pub open spec fn started(s: ActorView, ip: Seq<char>) -> ActorView {
    let connecting = s.step(ActorEventView::Command(TunnelCommand::Start)).next;
    let opened = connecting.step(ActorEventView::SessionOpened).next;
    let bound = match s.config.start_plan() {
        Ok(StartPlanView::Container { connect, container_name }) => opened.step(
            ActorEventView::ContainerResolved(Ok(Some(ip))),
        ).next,
        _ => opened,
    };
    bound.step(ActorEventView::Forwarding).next
}

/// Start, Stop, Start: a running tunnel that is stopped and, once its
/// tasks are joined, started again comes back running with its
/// counters at zero, provided its definition has a start plan.
pub proof fn lemma_restart_is_fresh(s: ActorView, ip: Seq<char>)
    requires
        s.phase is Running,
        s.config.start_plan() is Ok,
    ensures
        ({
            let stopping = s.step(ActorEventView::Command(TunnelCommand::Stop)).next;
            let stopped = stopping.step(ActorEventView::TasksJoined).next;
            fresh_running(started(stopped, ip))
        }),
{
}

/// A listener that cannot be bound fails the start: the tunnel goes
/// from starting to the error it was told, holds no forwarding, and
/// drops its session.
pub proof fn lemma_bind_failure_fails_start(s: ActorView, error: TunnelErrorView)
    requires
        s.phase is Binding,
    ensures
        ({
            let step = s.step(ActorEventView::ForwardFailed(error));
            &&& s.phase.lifecycle() == TunnelStateView::Starting
            &&& step.next.phase == PhaseView::Failed(error)
            &&& step.next.metric().tunnel_state == TunnelStateView::Error(error.message)
            &&& step.next.forward is None
            &&& step.action == ActorActionView::DropSession
            &&& step.published == seq![step.next.metric()]
        }),
{
}

/// A container lookup that prints nothing but white space yields no
/// address, and a start that gets no address fails with "Container IP
/// not found" without ever asking for the listener to be bound.
pub proof fn lemma_empty_lookup_fails_start(
    s: ActorView,
    command: GetContainerAddrCmd,
    output: Seq<char>,
)
    requires
        s.phase is Resolving,
        trim(output).len() == 0,
    ensures
        command.parsed(output) is None,
        ({
            let step = s.step(ActorEventView::ContainerResolved(Ok(None)));
            &&& step.next.phase == PhaseView::Failed(container_ip_not_found())
            &&& step.next.metric().tunnel_state == TunnelStateView::Error(
                "Container IP not found"@,
            )
            &&& step.next.forward is None
            &&& step.action == ActorActionView::DropSession
            &&& step.published == seq![step.next.metric()]
        }),
{
}

/// A probe that is not answered on a session that is then found
/// closed makes the monitor publish unstable, then disconnected. A
/// running tunnel that sees these reports and then the end of its
/// subordinate tasks shows unstable, then disconnected, and only then
/// the error "Connection Dropped".
pub proof fn lemma_timeout_then_close(
    s: ActorView,
    outcome: PingOutcome,
    first: Traffic,
    second: Traffic,
)
    requires
        s.phase is Running,
        !(outcome is Answered),
    ensures
        ({
            let reports = ping_trail(outcome, true);
            let unstable = s.step(
                ActorEventView::Session(SSHEventView { ssh_status: reports[0], traffic: first }),
            ).next;
            let disconnected = unstable.step(
                ActorEventView::Session(SSHEventView { ssh_status: reports[1], traffic: second }),
            ).next;
            let dropped = disconnected.step(ActorEventView::SubordinateExited).next;
            &&& reports.len() == 2
            &&& unstable.metric().tunnel_state == TunnelStateView::Running
            &&& unstable.metric().ssh_status == (SSHStatusView::Unstable {
                reason: unstable_reason(),
            })
            &&& disconnected.metric().tunnel_state == TunnelStateView::Running
            &&& disconnected.metric().ssh_status == SSHStatusView::Disconnected
            &&& dropped.phase == PhaseView::Failed(connection_dropped())
            &&& dropped.metric().tunnel_state == TunnelStateView::Error("Connection Dropped"@)
            &&& dropped.metric().ssh_status == SSHStatusView::Disconnected
        }),
{
}

} // verus!
