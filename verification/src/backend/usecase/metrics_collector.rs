//! Metrics collection: for each stack, the statistics of each of its
//! containers are recorded; then old metrics are pruned. A stack whose
//! containers cannot be listed is skipped.
use vstd::prelude::*;
use crate::backend::services::container::ContainerInfo;
use crate::backend::usecase::stack::{of_stack, StackUsecase};
use crate::error::AppError;
use crate::ids::{clock_range, rfc3339_at, rfc3339_of};
use crate::json::views;

verus! {

/// Where a collection round stands.
#[derive(Debug, Clone, Copy, PartialEq, Eq, Structural)]
pub enum CollectStage {
    Loading,
    Listing,
    Collecting,
    Pruning,
    Finished,
}

/// A collection round: the stacks, the one at `i` being handled, its
/// containers, and the one at `j` being measured.
#[derive(Debug)]
pub struct CollectFlow {
    pub stacks: Vec<String>,
    pub i: usize,
    pub containers: Vec<String>,
    pub j: usize,
    pub stage: CollectStage,
}

/// The outcome of the last action.
#[derive(Debug)]
pub enum CollectEvent {
    /// The ids of all stacks.
    Stacks(Result<Vec<String>, AppError>),
    /// The containers of the host.
    Containers(Result<Vec<ContainerInfo>, AppError>),
    /// A container was measured (a failure is only reported).
    Collected,
    /// Old metrics were pruned (a failure is only reported).
    Pruned,
}

/// What the caller does next.
#[derive(Debug)]
pub enum CollectAction {
    ListStacks,
    ListContainers,
    /// Reads the statistics of the container and records them as a metric of
    /// the stack.
    CollectStats { container_id: String, stack_id: String },
    /// Deletes the metrics recorded more than `max_age_days` days before now.
    Prune { max_age_days: i64 },
    Finish(Result<(), AppError>),
}

/// How many days metrics are kept.
pub open spec fn retention_days() -> i64 {
    30
}

/// The instant before which metrics are pruned at `now`: `retention_days()`
/// days earlier, as RFC 3339 text (none when the clock library cannot hold
/// that instant).
pub fn prune_cutoff(now: i64) -> (r: Option<String>)
    requires
        -clock_range() <= now <= clock_range(),
    ensures
        r matches Some(t) ==> rfc3339_of((now - retention_days() * 86400) as i64) == Some(t@),
        r is None ==> rfc3339_of((now - retention_days() * 86400) as i64) is None,
{
    rfc3339_at(now - 30 * 86400)
}

/// Which outcome each stage waits for.
pub open spec fn collect_accepts(stage: CollectStage, e: CollectEvent) -> bool {
    match stage {
        CollectStage::Loading => e is Stacks,
        CollectStage::Listing => e is Containers,
        CollectStage::Collecting => e is Collected,
        CollectStage::Pruning => e is Pruned,
        CollectStage::Finished => false,
    }
}

/// Handling stack `i`, or with none left pruning.
pub open spec fn stack_at(s: CollectFlow, i: int, t: CollectFlow, a: CollectAction) -> bool {
    if i < s.stacks@.len() {
        t == (CollectFlow { i: t.i, stage: CollectStage::Listing, ..s }) && t.i == i && a
            == CollectAction::ListContainers
    } else {
        t == (CollectFlow { stage: CollectStage::Pruning, ..s }) && a == CollectAction::Prune {
            max_age_days: retention_days(),
        }
    }
}

/// Measuring container `j` of the current stack, or with none left going on
/// with the next stack.
pub open spec fn container_at(s: CollectFlow, j: int, t: CollectFlow, a: CollectAction) -> bool {
    if j < s.containers@.len() {
        t == (CollectFlow { j: t.j, stage: CollectStage::Collecting, ..s }) && t.j == j && a == (
        CollectAction::CollectStats { container_id: s.containers@[j], stack_id: s.stacks@[s.i as int] })
    } else {
        stack_at(s, s.i + 1, t, a)
    }
}

/// One step: listing the stacks failing ends the round with that error;
/// each stack's containers are those labelled with its id; every one of them
/// is measured; a stack whose containers cannot be listed is skipped; at the
/// end old metrics are pruned and the round succeeds.
pub open spec fn collect_next(s: CollectFlow, e: CollectEvent, t: CollectFlow, a: CollectAction) -> bool {
    match (s.stage, e) {
        (CollectStage::Loading, CollectEvent::Stacks(Err(err))) => t.stage == CollectStage::Finished
            && a == CollectAction::Finish(Err(err)),
        (CollectStage::Loading, CollectEvent::Stacks(Ok(ids))) => stack_at(
            CollectFlow { stacks: ids, ..s },
            0,
            t,
            a,
        ),
        (CollectStage::Listing, CollectEvent::Containers(Err(_))) => stack_at(s, s.i + 1, t, a),
        (CollectStage::Listing, CollectEvent::Containers(Ok(all))) => {
            &&& views(t.containers@) == all@.filter(of_stack(s.stacks@[s.i as int]@)).map_values(
                |c: ContainerInfo| c.id@,
            )
            &&& container_at(CollectFlow { containers: t.containers, j: 0, ..s }, 0, t, a)
        },
        (CollectStage::Collecting, CollectEvent::Collected) => container_at(s, s.j + 1, t, a),
        (CollectStage::Pruning, CollectEvent::Pruned) => t.stage == CollectStage::Finished && a
            == CollectAction::Finish(Ok(())),
        _ => false,
    }
}

/// The ids of `cs`, in order.
fn ids_of(cs: &Vec<ContainerInfo>) -> (r: Vec<String>)
    ensures
        views(r@) == cs@.map_values(|c: ContainerInfo| c.id@),
{
    let mut r: Vec<String> = Vec::new();
    let mut i: usize = 0;
    while i < cs.len()
        invariant
            i <= cs@.len(),
            views(r@) == cs@.subrange(0, i as int).map_values(|c: ContainerInfo| c.id@),
        decreases cs@.len() - i,
    {
        let ghost before = r@;
        r.push(cs[i].id.clone());
        proof {
            assert(views(r@) =~= views(before).push(cs@[i as int].id@));
            assert(cs@.subrange(0, i + 1).map_values(|c: ContainerInfo| c.id@) =~= cs@.subrange(
                0,
                i as int,
            ).map_values(|c: ContainerInfo| c.id@).push(cs@[i as int].id@));
        }
        i = i + 1;
    }
    proof {
        assert(cs@.subrange(0, cs@.len() as int) =~= cs@);
    }
    r
}

impl CollectFlow {
    /// The stack handled is one of the stacks, and the container measured one
    /// of its containers.
    pub open spec fn wf(self) -> bool {
        &&& (self.stage == CollectStage::Listing || self.stage == CollectStage::Collecting) ==> self.i
            < self.stacks@.len()
        &&& self.stage == CollectStage::Collecting ==> self.j < self.containers@.len()
    }

    fn stack_step(self, i: usize) -> (r: (CollectFlow, CollectAction))
        requires
            i <= self.stacks@.len(),
        ensures
            stack_at(self, i as int, r.0, r.1),
            r.0.wf(),
    {
        if i < self.stacks.len() {
            (CollectFlow { i, stage: CollectStage::Listing, ..self }, CollectAction::ListContainers)
        } else {
            (CollectFlow { stage: CollectStage::Pruning, ..self }, CollectAction::Prune { max_age_days: 30 })
        }
    }

    fn container_step(self, j: usize) -> (r: (CollectFlow, CollectAction))
        requires
            self.i < self.stacks@.len(),
            j <= self.containers@.len(),
        ensures
            container_at(self, j as int, r.0, r.1),
            r.0.wf(),
    {
        if j < self.containers.len() {
            let container_id = self.containers[j].clone();
            let stack_id = self.stacks[self.i].clone();
            (
                CollectFlow { j, stage: CollectStage::Collecting, ..self },
                CollectAction::CollectStats { container_id, stack_id },
            )
        } else {
            let n = self.stacks.len();
            assert(self.i < n);
            let i = self.i + 1;
            self.stack_step(i)
        }
    }

    /// Whether the flow waits for an outcome like `e`.
    pub fn accepts_event(&self, e: &CollectEvent) -> (r: bool)
        ensures
            r == collect_accepts(self.stage, *e),
    {
        match self.stage {
            CollectStage::Loading => matches!(e, CollectEvent::Stacks(_)),
            CollectStage::Listing => matches!(e, CollectEvent::Containers(_)),
            CollectStage::Collecting => matches!(e, CollectEvent::Collected),
            CollectStage::Pruning => matches!(e, CollectEvent::Pruned),
            CollectStage::Finished => false,
        }
    }

    /// Takes the outcome `e` of the last action and gives the next flow and
    /// action.
    pub fn step(self, e: CollectEvent) -> (r: (CollectFlow, CollectAction))
        requires
            self.wf(),
            collect_accepts(self.stage, e),
        ensures
            collect_next(self, e, r.0, r.1),
            r.0.wf(),
    {
        match e {
            CollectEvent::Stacks(Err(err)) => (
                CollectFlow { stage: CollectStage::Finished, ..self },
                CollectAction::Finish(Err(err)),
            ),
            CollectEvent::Stacks(Ok(ids)) => CollectFlow { stacks: ids, ..self }.stack_step(0),
            CollectEvent::Containers(Err(_)) => {
                let n = self.stacks.len();
                assert(self.i < n);
                let i = self.i + 1;
                self.stack_step(i)
            },
            CollectEvent::Containers(Ok(all)) => {
                let ours = StackUsecase::stack_containers(all, self.stacks[self.i].as_str());
                let containers = ids_of(&ours);
                CollectFlow { containers, j: 0, ..self }.container_step(0)
            },
            CollectEvent::Collected => {
                let n = self.containers.len();
                assert(self.j < n);
                let j = self.j + 1;
                self.container_step(j)
            },
            CollectEvent::Pruned => (
                CollectFlow { stage: CollectStage::Finished, ..self },
                CollectAction::Finish(Ok(())),
            ),
        }
    }
}

/// Periodic collection of container metrics.
pub struct MetricsCollector {}

impl MetricsCollector {
    pub fn new() -> (m: MetricsCollector) {
        MetricsCollector {}
    }

    /// Starts a collection round: first the stacks are listed.
    pub fn collect_metrics(&self) -> (r: (CollectFlow, CollectAction))
        ensures
            r.0.stage == CollectStage::Loading,
            r.0.wf(),
            r.0.stacks@.len() == 0,
            r.0.containers@.len() == 0,
            r.0.i == 0,
            r.0.j == 0,
            r.1 == CollectAction::ListStacks,
    {
        (
            CollectFlow {
                stacks: Vec::new(),
                i: 0,
                containers: Vec::new(),
                j: 0,
                stage: CollectStage::Loading,
            },
            CollectAction::ListStacks,
        )
    }
}

/// A container is measured only as a container of the stack being handled,
/// and a failure to list containers never ends the round.
pub proof fn law_only_listing_stacks_fails(s: CollectFlow, e: CollectEvent, t: CollectFlow, a: CollectAction)
    requires
        s.wf(),
        collect_accepts(s.stage, e),
        collect_next(s, e, t, a),
    ensures
        a matches CollectAction::Finish(Err(_)) ==> s.stage == CollectStage::Loading,
        a matches CollectAction::CollectStats { container_id, stack_id } ==> t.j < t.containers@.len()
            && container_id == t.containers@[t.j as int] && stack_id == t.stacks@[t.i as int],
{
}

} // verus!
