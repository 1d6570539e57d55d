//! The registry of tunnels: one supervisor per identifier.

use std::collections::HashMap;
use vstd::prelude::*;
use vstd::std_specs::hash::group_hash_axioms;
use vstd::std_specs::iter::IteratorSpec;
use crate::actor::{
    step_shows, ActorEvent, ActorEventView, ActorView, PhaseView, Step, StepView, TunnelActor,
};
use crate::error::{ErrorKind, TunnelError, TunnelErrorView};
use crate::ident::{push_uuid, uuid_text};
use crate::metric::{SSHStatus, TunnelCommand, TunnelMetric, TunnelMetricView};
use crate::model::{TunnelConfig, TunnelConfigView};

verus! {

/// The error for an identifier that no tunnel is registered under:
/// it names the identifier in the usual text of a UUID.
pub open spec fn not_found(id: u128) -> TunnelErrorView {
    TunnelErrorView {
        kind: ErrorKind::NotFound,
        message: "Tunnel with id "@ + uuid_text(id) + " not found"@,
    }
}

/// The error for a tunnel whose supervisor takes no more commands:
/// it says that the send into the supervisor's inbox failed.
pub open spec fn actor_dead() -> TunnelErrorView {
    TunnelErrorView { kind: ErrorKind::Internal, message: "Actor died, SendError { .. }"@ }
}

/// The error for an identifier that no tunnel is registered under.
pub fn not_found_error(id: u128) -> (e: TunnelError)
    ensures
        e@ == not_found(id),
{
    let mut message = String::from_str("Tunnel with id ");
    push_uuid(&mut message, id);
    message.append(" not found");
    TunnelError { kind: ErrorKind::NotFound, message }
}

/// The error for a tunnel whose supervisor takes no more commands.
pub fn actor_dead_error() -> (e: TunnelError)
    ensures
        e@ == actor_dead(),
{
    TunnelError::new(ErrorKind::Internal, "Actor died, SendError { .. }")
}

/// Whether a supervisor takes no more commands: it is ending after a
/// Remove, or has ended.
pub open spec fn closing(actor: ActorView) -> bool {
    actor.phase is Exited || actor.phase == (PhaseView::Stopping { exit: true })
}

/// The registry after a tunnel was added under `id`. An identifier
/// that is already registered keeps its supervisor.
pub open spec fn added(
    tunnels: Map<u128, ActorView>,
    id: u128,
    config: TunnelConfigView,
) -> Map<u128, ActorView> {
    if tunnels.contains_key(id) {
        tunnels
    } else {
        tunnels.insert(id, ActorView::initial(config))
    }
}

/// What delivering `event` to the tunnel under `id` answers: an error
/// for an unknown identifier, or for a command to a supervisor that
/// takes none any more; otherwise the supervisor's own answer.
pub open spec fn answer(tunnels: Map<u128, ActorView>, id: u128, event: ActorEventView) -> Result<
    StepView,
    TunnelErrorView,
> {
    if !tunnels.contains_key(id) {
        Err(not_found(id))
    } else if event is Command && closing(tunnels[id]) {
        Err(actor_dead())
    } else {
        Ok(tunnels[id].step(event))
    }
}

/// The registry after `event` was delivered to the tunnel under `id`.
/// A supervisor that ends is taken out of the registry.
pub open spec fn delivered(tunnels: Map<u128, ActorView>, id: u128, event: ActorEventView) -> Map<
    u128,
    ActorView,
> {
    match answer(tunnels, id, event) {
        Err(_) => tunnels,
        Ok(step) => if step.next.phase is Exited {
            tunnels.remove(id)
        } else {
            tunnels.insert(id, step.next)
        },
    }
}

/// The snapshot shown for `id`: that of its supervisor, or the one of
/// a tunnel that was never started when none is registered.
pub open spec fn shown(tunnels: Map<u128, ActorView>, id: u128) -> TunnelMetricView {
    if tunnels.contains_key(id) {
        tunnels[id].metric()
    } else {
        TunnelMetricView::initial()
    }
}

/// Whether `r` is the outcome that `expected` describes.
pub open spec fn outcome_matches(
    r: Result<Step, TunnelError>,
    expected: Result<StepView, TunnelErrorView>,
) -> bool {
    match r {
        Ok(step) => match expected {
            Ok(view) => step_shows(step, view),
            Err(_) => false,
        },
        Err(e) => expected == Err::<StepView, TunnelErrorView>(e@),
    }
}

/// Whether `all` lists every tunnel of `tunnels` once, each with its
/// latest snapshot.
pub open spec fn lists(all: Seq<(u128, TunnelMetric)>, tunnels: Map<u128, ActorView>) -> bool {
    &&& all.len() == tunnels.dom().len()
    &&& forall|i: int|
        0 <= i < all.len() ==> tunnels.contains_key((#[trigger] all[i]).0) && all[i].1@
            == tunnels[all[i].0].metric()
    &&& forall|i: int, j: int|
        0 <= i < j < all.len() ==> (#[trigger] all[i]).0 != (#[trigger] all[j]).0
    &&& forall|id: u128|
        tunnels.contains_key(id) ==> exists|i: int|
            0 <= i < all.len() && (#[trigger] all[i]).0 == id
}

/// The registry of tunnels.
pub struct TunnelManager {
    tunnels: HashMap<u128, TunnelActor>,
}

impl View for TunnelManager {
    type V = Map<u128, ActorView>;

    closed spec fn view(&self) -> Map<u128, ActorView> {
        self.tunnels@.map_values(|a: TunnelActor| a@)
    }
}

impl TunnelManager {
    /// A registry without tunnels.
    pub fn new() -> (m: TunnelManager)
        ensures
            m@ == Map::<u128, ActorView>::empty(),
    {
        let m = TunnelManager { tunnels: HashMap::new() };
        assert(m@ =~= Map::<u128, ActorView>::empty());
        m
    }

    /// Whether a tunnel is registered under `id`.
    pub fn contains(&self, id: u128) -> (b: bool)
        ensures
            b == self@.contains_key(id),
    {
        broadcast use group_hash_axioms;

        self.tunnels.contains_key(&id)
    }

    /// Registers the tunnel that `config` defines under `id`, stopped.
    /// Where a tunnel is registered under `id` already, nothing
    /// changes. Returns whether the tunnel was registered by this call.
    pub fn add_tunnel(&mut self, id: u128, config: &TunnelConfig) -> (fresh: bool)
        ensures
            final(self)@ == added(old(self)@, id, config@),
            fresh == !old(self)@.contains_key(id),
    {
        broadcast use group_hash_axioms;

        if self.tunnels.contains_key(&id) {
            false
        } else {
            let actor = TunnelActor::new(config.clone());
            self.tunnels.insert(id, actor);
            assert(self@ =~= old(self)@.insert(id, ActorView::initial(config@)));
            true
        }
    }

    /// Delivers `event` to the tunnel under `id` and hands back its
    /// supervisor's answer. A supervisor that ends is taken out of the
    /// registry.
    pub fn deliver(&mut self, id: u128, event: ActorEvent) -> (r: Result<Step, TunnelError>)
        ensures
            final(self)@ == delivered(old(self)@, id, event@),
            outcome_matches(r, answer(old(self)@, id, event@)),
    {
        broadcast use group_hash_axioms;

        let is_command = match event {
            ActorEvent::Command(_) => true,
            _ => false,
        };
        match self.tunnels.remove(&id) {
            None => {
                assert(self@ =~= old(self)@);
                Err(not_found_error(id))
            },
            Some(mut actor) => {
                if is_command && actor.is_closing() {
                    self.tunnels.insert(id, actor);
                    assert(self@ =~= old(self)@);
                    Err(actor_dead_error())
                } else {
                    let step = actor.handle(event);
                    if actor.has_exited() {
                        assert(self@ =~= old(self)@.remove(id));
                    } else {
                        let ghost next = actor@;
                        self.tunnels.insert(id, actor);
                        assert(self@ =~= old(self)@.insert(id, next));
                    }
                    Ok(step)
                }
            },
        }
    }

    /// Asks the tunnel under `id` to start.
    pub fn start_tunnel(&mut self, id: u128) -> (r: Result<Step, TunnelError>)
        ensures
            final(self)@ == delivered(
                old(self)@,
                id,
                ActorEventView::Command(TunnelCommand::Start),
            ),
            outcome_matches(
                r,
                answer(old(self)@, id, ActorEventView::Command(TunnelCommand::Start)),
            ),
    {
        self.deliver(id, ActorEvent::Command(TunnelCommand::Start))
    }

    /// Asks the tunnel under `id` to stop.
    pub fn stop_tunnel(&mut self, id: u128) -> (r: Result<Step, TunnelError>)
        ensures
            final(self)@ == delivered(old(self)@, id, ActorEventView::Command(TunnelCommand::Stop)),
            outcome_matches(
                r,
                answer(old(self)@, id, ActorEventView::Command(TunnelCommand::Stop)),
            ),
    {
        self.deliver(id, ActorEvent::Command(TunnelCommand::Stop))
    }

    /// Asks the tunnel under `id` to stop for good. Its supervisor
    /// leaves the registry as soon as it holds nothing: at once if the
    /// tunnel was not running, else when its tasks are joined.
    pub fn remove_tunnel(&mut self, id: u128) -> (r: Result<Step, TunnelError>)
        ensures
            final(self)@ == delivered(
                old(self)@,
                id,
                ActorEventView::Command(TunnelCommand::Remove),
            ),
            outcome_matches(
                r,
                answer(old(self)@, id, ActorEventView::Command(TunnelCommand::Remove)),
            ),
    {
        self.deliver(id, ActorEvent::Command(TunnelCommand::Remove))
    }

    /// The latest snapshot of the tunnel under `id`, if one is
    /// registered.
    pub fn get_tunnel_metric(&self, id: u128) -> (m: Option<TunnelMetric>)
        ensures
            match m {
                Some(metric) => self@.contains_key(id) && metric@ == self@[id].metric(),
                None => !self@.contains_key(id),
            },
    {
        broadcast use group_hash_axioms;

        match self.tunnels.get(&id) {
            Some(actor) => Some(actor.metric()),
            None => None,
        }
    }

    /// The health of the tunnel under `id`, if one is registered.
    pub fn get_tunnel_health_state(&self, id: u128) -> (h: Option<SSHStatus>)
        ensures
            match h {
                Some(status) => self@.contains_key(id) && status@ == self@[id].health,
                None => !self@.contains_key(id),
            },
    {
        match self.get_tunnel_metric(id) {
            Some(metric) => Some(metric.ssh_status),
            None => None,
        }
    }

    /// The latest snapshot of every registered tunnel, each with its
    /// identifier, in no particular order: every tunnel occurs once.
    pub fn get_all_tunnel_health_state(&self) -> (all: Vec<(u128, TunnelMetric)>)
        ensures
            lists(all@, self@),
    {
        broadcast use group_hash_axioms;

        let mut all: Vec<(u128, TunnelMetric)> = Vec::new();
        let keys = self.tunnels.keys();
        let ghost ids = keys.remaining().unref();
        assert(ids.to_set() == self.tunnels@.dom());
        assert(ids.no_duplicates());
        for k in it: keys
            invariant
                ids == it.seq().unref(),
                ids.to_set() == self.tunnels@.dom(),
                all@.len() == it.index(),
                forall|i: int|
                    0 <= i < all@.len() ==> (#[trigger] all@[i]).0 == ids[i] && self@.contains_key(
                        ids[i],
                    ) && all@[i].1@ == self@[ids[i]].metric(),
        {
            let ghost i = it.index() as int;
            assert(ids[i] == *k);
            assert(ids.to_set().contains(ids[i]));
            match self.tunnels.get(k) {
                Some(actor) => {
                    all.push((*k, actor.metric()));
                },
                None => {
                    assert(false);
                },
            }
        }
        proof {
            ids.unique_seq_to_set();
            assert(self@.dom() =~= self.tunnels@.dom());
            assert forall|id: u128| self@.contains_key(id) implies exists|i: int|
                0 <= i < all@.len() && (#[trigger] all@[i]).0 == id by {
                assert(ids.to_set().contains(id));
                let i = choose|i: int| 0 <= i < ids.len() && ids[i] == id;
                assert(all@[i].0 == id);
            }
        }
        all
    }

    /// The snapshot shown for `id`: the latest one of its tunnel, or
    /// stopped, disconnected and no traffic when none is registered.
    pub fn metric(&self, id: u128) -> (m: TunnelMetric)
        ensures
            m@ == shown(self@, id),
    {
        match self.get_tunnel_metric(id) {
            Some(m) => m,
            None => TunnelMetric::default(),
        }
    }
}

/// Remove leaves no handle behind and is idempotent.
///
/// For a tunnel whose supervisor is not in the middle of a handler:
/// once Remove is delivered and, where the tunnel was running, its
/// tasks are joined, no tunnel is registered under the identifier any
/// more; a further Remove answers that the tunnel is not found and
/// changes nothing; and every other tunnel is as it was.
pub proof fn lemma_remove_leaves_no_handle(tunnels: Map<u128, ActorView>, id: u128)
    requires
        tunnels.contains_key(id) ==> !tunnels[id].phase.busy() && !(tunnels[id].phase is Exited),
    ensures
        ({
            let remove = ActorEventView::Command(TunnelCommand::Remove);
            let asked = delivered(tunnels, id, remove);
            let joined = delivered(asked, id, ActorEventView::TasksJoined);
            &&& !joined.contains_key(id)
            &&& answer(joined, id, remove) == Err::<StepView, TunnelErrorView>(not_found(id))
            &&& delivered(joined, id, remove) == joined
            &&& joined == tunnels.remove(id)
        }),
{
    let remove = ActorEventView::Command(TunnelCommand::Remove);
    let asked = delivered(tunnels, id, remove);
    let joined = delivered(asked, id, ActorEventView::TasksJoined);
    if tunnels.contains_key(id) {
        if tunnels[id].phase is Running {
            assert(asked == tunnels.insert(id, tunnels[id].step(remove).next));
            assert(asked[id].phase == (PhaseView::Stopping { exit: true }));
            assert(joined =~= tunnels.remove(id));
        } else {
            assert(asked =~= tunnels.remove(id));
            assert(joined =~= tunnels.remove(id));
        }
    } else {
        assert(asked =~= tunnels.remove(id));
        assert(joined =~= tunnels.remove(id));
    }
}

} // verus!
