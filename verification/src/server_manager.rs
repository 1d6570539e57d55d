//! The registry as the command layer uses it: tunnels are named by
//! the text of their identifier.

use vstd::prelude::*;
use crate::actor::{ActorEvent, ActorEventView, ActorView, Step};
use crate::error::TunnelError;
use crate::ident::{invalid_id, tunnel_id, uuid_value};
use crate::manager::{
    added, answer, delivered, lists, outcome_matches, shown, TunnelManager,
};
use crate::metric::{TunnelCommand, TunnelMetric, TunnelMetricView};
use crate::model::TunnelConfig;
use crate::status::{counts_as, tally, TrayStatusPayload};

verus! {

/// The identifiers of the tunnels of `tunnels` that count as failed
/// or, with `failed` clear, as active.
pub open spec fn ids_counted(tunnels: Map<u128, ActorView>, failed: bool) -> Set<u128> {
    Set::new(
        |id: u128| tunnels.contains_key(id) && counts_as(tunnels[id].metric().tunnel_state, failed),
    )
}

/// The identifiers of the running tunnels.
pub open spec fn running_ids(tunnels: Map<u128, ActorView>) -> Set<u128> {
    ids_counted(tunnels, false)
}

/// The identifiers of the failed tunnels.
pub open spec fn failed_ids(tunnels: Map<u128, ActorView>) -> Set<u128> {
    ids_counted(tunnels, true)
}

spec fn counted_so_far(all: Seq<(u128, TunnelMetric)>, k: int, failed: bool) -> Set<u128> {
    Set::new(
        |id: u128|
            exists|i: int|
                0 <= i < k && (#[trigger] all[i]).0 == id && counts_as(
                    all[i].1@.tunnel_state,
                    failed,
                ),
    )
}

proof fn lemma_counted_so_far(all: Seq<(u128, TunnelMetric)>, k: int, failed: bool)
    requires
        0 <= k <= all.len(),
        forall|i: int, j: int|
            0 <= i < j < all.len() ==> (#[trigger] all[i]).0 != (#[trigger] all[j]).0,
    ensures
        counted_so_far(all, k, failed).finite(),
        counted_so_far(all, k, failed).len() == tally(all.take(k), failed),
    decreases k,
{
    if k == 0 {
        assert(counted_so_far(all, 0, failed) =~= Set::<u128>::empty());
        assert(all.take(0) =~= Seq::<(u128, TunnelMetric)>::empty());
    } else {
        lemma_counted_so_far(all, k - 1, failed);
        let before = counted_so_far(all, k - 1, failed);
        let now = counted_so_far(all, k, failed);
        let entry = all[k - 1];
        assert(all.take(k).drop_last() =~= all.take(k - 1));
        assert(all.take(k).last() == entry);
        if counts_as(entry.1@.tunnel_state, failed) {
            assert(!before.contains(entry.0)) by {
                if before.contains(entry.0) {
                    let i = choose|i: int|
                        0 <= i < k - 1 && (#[trigger] all[i]).0 == entry.0 && counts_as(
                            all[i].1@.tunnel_state,
                            failed,
                        );
                    assert(all[i].0 != all[k - 1].0);
                }
            }
            assert(now =~= before.insert(entry.0)) by {
                assert forall|id: u128| now.contains(id) implies before.insert(entry.0).contains(
                    id,
                ) by {
                    let i = choose|i: int|
                        0 <= i < k && (#[trigger] all[i]).0 == id && counts_as(
                            all[i].1@.tunnel_state,
                            failed,
                        );
                    if i < k - 1 {
                        assert(before.contains(id));
                    }
                }
                assert forall|id: u128| before.insert(entry.0).contains(id) implies now.contains(
                    id,
                ) by {
                    if id == entry.0 {
                        assert(all[k - 1].0 == id);
                    } else {
                        let i = choose|i: int|
                            0 <= i < k - 1 && (#[trigger] all[i]).0 == id && counts_as(
                                all[i].1@.tunnel_state,
                                failed,
                            );
                        assert(0 <= i < k && all[i].0 == id);
                    }
                }
            }
        } else {
            assert(now =~= before) by {
                assert forall|id: u128| now.contains(id) implies before.contains(id) by {
                    let i = choose|i: int|
                        0 <= i < k && (#[trigger] all[i]).0 == id && counts_as(
                            all[i].1@.tunnel_state,
                            failed,
                        );
                    assert(i < k - 1);
                }
                assert forall|id: u128| before.contains(id) implies now.contains(id) by {
                    let i = choose|i: int|
                        0 <= i < k - 1 && (#[trigger] all[i]).0 == id && counts_as(
                            all[i].1@.tunnel_state,
                            failed,
                        );
                    assert(0 <= i < k && all[i].0 == id);
                }
            }
        }
    }
}

/// Counting over a listing of the registry counts tunnels: the number
/// of entries that count as failed (or as active) is the number of
/// registered tunnels that do.
pub proof fn lemma_listing_counts_tunnels(
    all: Seq<(u128, TunnelMetric)>,
    tunnels: Map<u128, ActorView>,
    failed: bool,
)
    requires
        lists(all, tunnels),
    ensures
        ids_counted(tunnels, failed).finite(),
        ids_counted(tunnels, failed).len() == tally(all, failed),
{
    lemma_counted_so_far(all, all.len() as int, failed);
    assert(all.take(all.len() as int) =~= all);
    let counted = counted_so_far(all, all.len() as int, failed);
    assert(counted =~= ids_counted(tunnels, failed)) by {
        assert forall|id: u128| counted.contains(id) implies ids_counted(tunnels, failed).contains(
            id,
        ) by {
            let i = choose|i: int|
                0 <= i < all.len() && (#[trigger] all[i]).0 == id && counts_as(
                    all[i].1@.tunnel_state,
                    failed,
                );
            assert(tunnels.contains_key(all[i].0));
        }
        assert forall|id: u128| ids_counted(tunnels, failed).contains(id) implies counted.contains(
            id,
        ) by {
            let i = choose|i: int| 0 <= i < all.len() && (#[trigger] all[i]).0 == id;
            assert(all[i].1@ == tunnels[id].metric());
        }
    }
}

/// The front of the registry.
pub struct ServerManager {
    tunnel_manager: TunnelManager,
}

impl View for ServerManager {
    type V = Map<u128, ActorView>;

    closed spec fn view(&self) -> Map<u128, ActorView> {
        self.tunnel_manager@
    }
}

impl ServerManager {
    /// A front of an empty registry.
    pub fn new() -> (m: ServerManager)
        ensures
            m@ == Map::<u128, ActorView>::empty(),
    {
        ServerManager { tunnel_manager: TunnelManager::new() }
    }

    /// Registers the tunnel that `config` defines, unless one is
    /// registered under its identifier already, and asks it to start.
    /// A definition that does not pass the check is rejected with the
    /// check's error and changes nothing.
    pub fn start_tunnel(&mut self, tunnel_config: &TunnelConfig) -> (r: Result<Step, TunnelError>)
        ensures
            match tunnel_config@.checked(uuid_value(tunnel_config.id@)) {
                Err(e) => final(self)@ == old(self)@ && r is Err && r->Err_0@ == e,
                Ok(id) => {
                    let start = ActorEventView::Command(TunnelCommand::Start);
                    let with = added(old(self)@, id, tunnel_config@);
                    &&& final(self)@ == delivered(with, id, start)
                    &&& outcome_matches(r, answer(with, id, start))
                },
            },
    {
        let id = match tunnel_config.validate() {
            Err(e) => {
                return Err(e);
            },
            Ok(id) => id,
        };
        self.tunnel_manager.add_tunnel(id, tunnel_config);
        self.tunnel_manager.start_tunnel(id)
    }

    /// Delivers `event` to the tunnel whose identifier is `id`. Text
    /// that is no identifier is rejected and changes nothing.
    pub fn deliver(&mut self, id: &str, event: ActorEvent) -> (r: Result<Step, TunnelError>)
        ensures
            match uuid_value(id@) {
                None => final(self)@ == old(self)@ && r is Err && r->Err_0@ == invalid_id(id@),
                Some(key) => final(self)@ == delivered(old(self)@, key, event@) && outcome_matches(
                    r,
                    answer(old(self)@, key, event@),
                ),
            },
    {
        match tunnel_id(id) {
            Err(e) => Err(e),
            Ok(key) => self.tunnel_manager.deliver(key, event),
        }
    }

    /// Asks the tunnel whose identifier is `id` to stop.
    pub fn stop_tunnel(&mut self, id: &str) -> (r: Result<Step, TunnelError>)
        ensures
            match uuid_value(id@) {
                None => final(self)@ == old(self)@ && r is Err && r->Err_0@ == invalid_id(id@),
                Some(key) => {
                    let stop = ActorEventView::Command(TunnelCommand::Stop);
                    final(self)@ == delivered(old(self)@, key, stop) && outcome_matches(
                        r,
                        answer(old(self)@, key, stop),
                    )
                },
            },
    {
        self.deliver(id, ActorEvent::Command(TunnelCommand::Stop))
    }

    /// Asks the tunnel whose identifier is `id` to stop for good.
    pub fn remove_tunnel(&mut self, id: &str) -> (r: Result<Step, TunnelError>)
        ensures
            match uuid_value(id@) {
                None => final(self)@ == old(self)@ && r is Err && r->Err_0@ == invalid_id(id@),
                Some(key) => {
                    let remove = ActorEventView::Command(TunnelCommand::Remove);
                    final(self)@ == delivered(old(self)@, key, remove) && outcome_matches(
                        r,
                        answer(old(self)@, key, remove),
                    )
                },
            },
    {
        self.deliver(id, ActorEvent::Command(TunnelCommand::Remove))
    }

    /// The snapshot shown for `id`: the latest one of its tunnel, or
    /// stopped, disconnected and no traffic when `id` is no identifier
    /// or names no registered tunnel.
    pub fn get_tunnel_metric(&self, id: &str) -> (m: TunnelMetric)
        ensures
            m@ == match uuid_value(id@) {
                Some(key) => shown(self@, key),
                None => TunnelMetricView::initial(),
            },
    {
        match tunnel_id(id) {
            Ok(key) => self.tunnel_manager.metric(key),
            Err(_) => TunnelMetric::default(),
        }
    }

    /// Whether `id` names a registered tunnel that is running.
    pub fn is_running(&self, id: &str) -> (b: bool)
        ensures
            b == match uuid_value(id@) {
                Some(key) => running_ids(self@).contains(key),
                None => false,
            },
    {
        self.get_tunnel_metric(id).tunnel_state.is_running()
    }

    /// The latest snapshot of every registered tunnel, each once.
    pub fn get_all_tunnel_health_state(&self) -> (all: Vec<(u128, TunnelMetric)>)
        ensures
            lists(all@, self@),
    {
        self.tunnel_manager.get_all_tunnel_health_state()
    }

    /// The summary for the tray: every registered tunnel is counted
    /// once, as active when it runs, as an error when it failed, as
    /// unavailable otherwise.
    pub fn tray_status(&self) -> (p: TrayStatusPayload)
        ensures
            p.active_count == running_ids(self@).len(),
            p.error_count == failed_ids(self@).len(),
            p.active_count + p.error_count + p.unavailable_count == self@.dom().len(),
    {
        let all = self.tunnel_manager.get_all_tunnel_health_state();
        proof {
            lemma_listing_counts_tunnels(all@, self@, false);
            lemma_listing_counts_tunnels(all@, self@, true);
        }
        TrayStatusPayload::from_tunnel_metric_map(&all)
    }
}

} // verus!
