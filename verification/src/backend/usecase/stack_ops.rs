//! Operations over all containers of a stack: starting, stopping and
//! removing the stack, and recording the images of its running version so
//! that a failed deployment can be rolled back. The stores and the runtime
//! are driven by the caller, which performs each action and reports its
//! outcome.
use vstd::prelude::*;
use crate::backend::services::container::ContainerInfo;
use crate::backend::usecase::stack::{of_stack, stable_images_of, StackUsecase};
use crate::error::AppError;
use crate::json::{json_string_map, pair_views, views, write_string_map};
use crate::labels::{as_map, distinct_keys};
use crate::text::str_eq;

verus! {

/// What the stack operations read of a stored stack.
#[derive(Debug)]
pub struct StackInfo {
    pub id: String,
    pub name: String,
    pub team_id: String,
    pub user_id: String,
    pub compose_content: Option<String>,
    pub git_url: Option<String>,
    pub health_check_path: Option<String>,
    pub last_stable_images: Option<String>,
}

/// Which operation runs over the stack's containers.
#[derive(Debug, Clone, Copy, PartialEq, Eq, Structural)]
pub enum StackOp {
    /// Start the containers that do not run, then record the stack running.
    Start,
    /// Stop the running containers, then record the stack stopped.
    Stop,
    /// Stop and remove every container (best effort), then delete the stack.
    Remove,
}

/// Where a stack operation stands.
#[derive(Debug, Clone, Copy, PartialEq, Eq, Structural)]
pub enum StackOpStage {
    Loading,
    Listing,
    Acting,
    Removing,
    Recording,
    Finished,
}

/// An operation `op` on stack `id` on behalf of user `user_id`: the ids of
/// the containers it acts on, the one at `k` being handled.
pub struct StackOpFlow {
    pub op: StackOp,
    pub id: String,
    pub user_id: String,
    pub ids: Vec<String>,
    pub k: usize,
    pub stage: StackOpStage,
}

/// The outcome of the last action.
pub enum StackOpEvent {
    Stack(Result<StackInfo, AppError>),
    Containers(Result<Vec<ContainerInfo>, AppError>),
    Step(Result<(), AppError>),
    Ignored,
}

/// What the caller does next.
pub enum StackOpAction {
    /// Read stack `id` of user `user_id` (any user's when none is given).
    GetStack { id: String, user_id: Option<String> },
    /// List all containers of the runtime, stopped ones included.
    ListContainers,
    StartContainer { id: String },
    /// Stop the container; best effort when removing the stack.
    StopContainer { id: String },
    /// Best effort, forcibly.
    RemoveContainer { id: String },
    UpdateStatus { id: String, status: String },
    DeleteStack { id: String },
    /// Store the stable images of the stack as a JSON object.
    SaveStableImages { id: String, json: String },
    Finish(Result<(), AppError>),
}

/// The container runs.
pub open spec fn is_running(c: ContainerInfo) -> bool {
    c.state@ == "running"@
}

/// The containers of the stack that operation `op` acts on.
pub open spec fn acted_on(op: StackOp) -> spec_fn(ContainerInfo) -> bool {
    |c: ContainerInfo|
        match op {
            StackOp::Start => !is_running(c),
            StackOp::Stop => is_running(c),
            StackOp::Remove => true,
        }
}

/// The ids of the containers of stack `stack_id` in `all` that `op` acts on,
/// in listing order.
pub open spec fn op_ids(all: Seq<ContainerInfo>, stack_id: Seq<char>, op: StackOp) -> Seq<Seq<char>> {
    all.filter(of_stack(stack_id)).filter(acted_on(op)).map_values(|c: ContainerInfo| c.id@)
}

/// The status an operation records, if it records one.
pub open spec fn op_status(op: StackOp) -> Seq<char> {
    match op {
        StackOp::Start => "running"@,
        StackOp::Stop => "stopped"@,
        StackOp::Remove => Seq::empty(),
    }
}

/// Acting on container `k` of `s`, or, with none left, recording the
/// outcome: the status, or the deletion of a removed stack.
pub open spec fn acting_at(s: StackOpFlow, k: int, t: StackOpFlow, a: StackOpAction) -> bool {
    if k < s.ids@.len() {
        t.k == k && t == (StackOpFlow { k: t.k, stage: StackOpStage::Acting, ..s }) && a == match s.op {
            StackOp::Start => StackOpAction::StartContainer { id: s.ids@[k] },
            _ => StackOpAction::StopContainer { id: s.ids@[k] },
        }
    } else {
        &&& t == (StackOpFlow { stage: StackOpStage::Recording, ..s })
        &&& match s.op {
            StackOp::Remove => a == (StackOpAction::DeleteStack { id: s.id }),
            _ => a matches StackOpAction::UpdateStatus { id, status } && id == s.id && status@
                == op_status(s.op),
        }
    }
}

/// Which outcome each stage waits for.
pub open spec fn op_accepts(op: StackOp, stage: StackOpStage, e: StackOpEvent) -> bool {
    match stage {
        StackOpStage::Loading => e is Stack,
        StackOpStage::Listing => e is Containers,
        StackOpStage::Acting => if op == StackOp::Remove {
            e is Ignored
        } else {
            e is Step
        },
        StackOpStage::Removing => e is Ignored,
        StackOpStage::Recording => e is Step,
        StackOpStage::Finished => false,
    }
}

/// One step of a stack operation: the stack is read (which checks the
/// user's access), its containers listed, the ones the operation acts on
/// started or stopped in turn (a failure ends it), or stopped and removed
/// (failures ignored), and the outcome recorded.
pub open spec fn op_next(s: StackOpFlow, e: StackOpEvent, t: StackOpFlow, a: StackOpAction) -> bool {
    match s.stage {
        StackOpStage::Loading => match e {
            StackOpEvent::Stack(Err(err)) => t.stage == StackOpStage::Finished && a
                == StackOpAction::Finish(Err(err)),
            StackOpEvent::Stack(Ok(_)) => t == (StackOpFlow { stage: StackOpStage::Listing, ..s })
                && a == StackOpAction::ListContainers,
            _ => false,
        },
        StackOpStage::Listing => match e {
            StackOpEvent::Containers(Err(err)) => t.stage == StackOpStage::Finished && a
                == StackOpAction::Finish(Err(err)),
            StackOpEvent::Containers(Ok(all)) => {
                &&& views(t.ids@) == op_ids(all@, s.id@, s.op)
                &&& acting_at(StackOpFlow { ids: t.ids, k: 0, ..s }, 0, t, a)
            },
            _ => false,
        },
        StackOpStage::Acting => match s.op {
            StackOp::Remove => t == (StackOpFlow { stage: StackOpStage::Removing, ..s }) && a == (
            StackOpAction::RemoveContainer { id: s.ids@[s.k as int] }),
            _ => match e {
                StackOpEvent::Step(Err(err)) => t.stage == StackOpStage::Finished && a
                    == StackOpAction::Finish(Err(err)),
                StackOpEvent::Step(Ok(())) => acting_at(s, s.k + 1, t, a),
                _ => false,
            },
        },
        StackOpStage::Removing => acting_at(s, s.k + 1, t, a),
        StackOpStage::Recording => match e {
            StackOpEvent::Step(r) => t.stage == StackOpStage::Finished && a == StackOpAction::Finish(
                r,
            ),
            _ => false,
        },
        StackOpStage::Finished => false,
    }
}

impl StackOpFlow {
    /// While acting, the container at `k` is one the operation acts on; the
    /// event an action gets back is a result, except for best-effort ones.
    pub open spec fn wf(self) -> bool {
        (self.stage == StackOpStage::Acting || self.stage == StackOpStage::Removing) ==> self.k
            < self.ids@.len()
    }
}

impl StackOpFlow {
    fn act_at(self, k: usize) -> (r: (StackOpFlow, StackOpAction))
        requires
            k <= self.ids@.len(),
        ensures
            acting_at(self, k as int, r.0, r.1),
    {
        if k < self.ids.len() {
            let id = self.ids[k].clone();
            let a = match self.op {
                StackOp::Start => StackOpAction::StartContainer { id },
                _ => StackOpAction::StopContainer { id },
            };
            (StackOpFlow { k, stage: StackOpStage::Acting, ..self }, a)
        } else {
            let a = match self.op {
                StackOp::Remove => StackOpAction::DeleteStack { id: self.id.clone() },
                StackOp::Start => StackOpAction::UpdateStatus {
                    id: self.id.clone(),
                    status: "running".to_owned(),
                },
                StackOp::Stop => StackOpAction::UpdateStatus {
                    id: self.id.clone(),
                    status: "stopped".to_owned(),
                },
            };
            (StackOpFlow { stage: StackOpStage::Recording, ..self }, a)
        }
    }

    /// Whether the flow waits for an outcome like `e`.
    pub fn accepts_event(&self, e: &StackOpEvent) -> (r: bool)
        ensures
            r == op_accepts(self.op, self.stage, *e),
    {
        match self.stage {
            StackOpStage::Loading => matches!(e, StackOpEvent::Stack(_)),
            StackOpStage::Listing => matches!(e, StackOpEvent::Containers(_)),
            StackOpStage::Acting => if self.op == StackOp::Remove {
                matches!(e, StackOpEvent::Ignored)
            } else {
                matches!(e, StackOpEvent::Step(_))
            },
            StackOpStage::Removing => matches!(e, StackOpEvent::Ignored),
            StackOpStage::Recording => matches!(e, StackOpEvent::Step(_)),
            StackOpStage::Finished => false,
        }
    }

    /// Takes the outcome `e` of the last action and gives the next flow and
    /// action.
    pub fn step(self, e: StackOpEvent) -> (r: (StackOpFlow, StackOpAction))
        requires
            self.wf(),
            op_accepts(self.op, self.stage, e),
        ensures
            op_next(self, e, r.0, r.1),
            r.0.wf(),
    {
        match self.stage {
            StackOpStage::Loading => match e {
                StackOpEvent::Stack(Err(err)) => (
                    StackOpFlow { stage: StackOpStage::Finished, ..self },
                    StackOpAction::Finish(Err(err)),
                ),
                _ => (StackOpFlow { stage: StackOpStage::Listing, ..self }, StackOpAction::ListContainers),
            },
            StackOpStage::Listing => match e {
                StackOpEvent::Containers(Err(err)) => (
                    StackOpFlow { stage: StackOpStage::Finished, ..self },
                    StackOpAction::Finish(Err(err)),
                ),
                StackOpEvent::Containers(Ok(all)) => {
                    let ghost all_view = all@;
                    let ours = StackUsecase::stack_containers(all, self.id.as_str());
                    let mut ids: Vec<String> = Vec::new();
                    let mut i: usize = 0;
                    let ghost chosen = ours@.filter(acted_on(self.op));
                    proof {
                        assert(ours@.subrange(0, 0) =~= Seq::<ContainerInfo>::empty());
                        assert(Seq::<ContainerInfo>::empty().filter(acted_on(self.op)) =~= Seq::<ContainerInfo>::empty()) by {
                            reveal(Seq::filter);
                        }
                    }
                    while i < ours.len()
                        invariant
                            i <= ours.len(),
                            views(ids@) == ours@.subrange(0, i as int).filter(acted_on(self.op)).map_values(
                                |c: ContainerInfo| c.id@,
                            ),
                        decreases ours.len() - i,
                    {
                        let c = &ours[i];
                        let running = str_eq(c.state.as_str(), "running");
                        let take = match self.op {
                            StackOp::Start => !running,
                            StackOp::Stop => running,
                            StackOp::Remove => true,
                        };
                        let ghost before = ids@;
                        proof {
                            assert(ours@.subrange(0, i + 1) =~= ours@.subrange(0, i as int).push(ours@[i as int]));
                            ours@.subrange(0, i as int).lemma_filter_push(ours@[i as int], acted_on(self.op));
                        }
                        if take {
                            ids.push(c.id.clone());
                            proof {
                                assert(views(ids@) =~= views(before).push(ours@[i as int].id@));
                            }
                        }
                        i = i + 1;
                    }
                    proof {
                        assert(ours@.subrange(0, ours@.len() as int) =~= ours@);
                    }
                    StackOpFlow { ids, k: 0, ..self }.act_at(0)
                },
                _ => {
                    proof {
                        assert(false);
                    }
                    (self, StackOpAction::ListContainers)
                },
            },
            StackOpStage::Acting => {
                if self.op == StackOp::Remove {
                    let id = self.ids[self.k].clone();
                    (
                        StackOpFlow { stage: StackOpStage::Removing, ..self },
                        StackOpAction::RemoveContainer { id },
                    )
                } else {
                    match e {
                        StackOpEvent::Step(Err(err)) => (
                            StackOpFlow { stage: StackOpStage::Finished, ..self },
                            StackOpAction::Finish(Err(err)),
                        ),
                        _ => {
                            let n = self.ids.len();
                            assert(self.k < n);
                            let k = self.k + 1;
                            self.act_at(k)
                        },
                    }
                }
            },
            StackOpStage::Removing => {
                let n = self.ids.len();
                assert(self.k < n);
                let k = self.k + 1;
                self.act_at(k)
            },
            StackOpStage::Recording => match e {
                StackOpEvent::Step(r) => (
                    StackOpFlow { stage: StackOpStage::Finished, ..self },
                    StackOpAction::Finish(r),
                ),
                _ => {
                    proof {
                        assert(false);
                    }
                    (self, StackOpAction::ListContainers)
                },
            },
            StackOpStage::Finished => {
                proof {
                    assert(false);
                }
                (self, StackOpAction::ListContainers)
            },
        }
    }
}

impl StackUsecase {
    fn stack_op(op: StackOp, id: &str, user_id: &str) -> (r: (StackOpFlow, StackOpAction))
        ensures
            r.0.op == op,
            r.0.id@ == id@,
            r.0.user_id@ == user_id@,
            r.0.stage == StackOpStage::Loading,
            r.0.wf(),
            r.1 matches StackOpAction::GetStack { id: i, user_id: Some(x) },
            r.1->GetStack_id@ == id@,
            r.1->GetStack_user_id->0@ == user_id@,
    {
        let flow = StackOpFlow {
            op,
            id: id.to_owned(),
            user_id: user_id.to_owned(),
            ids: Vec::new(),
            k: 0,
            stage: StackOpStage::Loading,
        };
        let a = StackOpAction::GetStack { id: id.to_owned(), user_id: Some(user_id.to_owned()) };
        (flow, a)
    }

    /// Starts starting stack `id` of user `user_id`.
    pub fn start_stack(id: &str, user_id: &str) -> (r: (StackOpFlow, StackOpAction))
        ensures
            r.0.op == StackOp::Start,
            r.0.id@ == id@,
            r.0.stage == StackOpStage::Loading,
            r.0.wf(),
            r.1 matches StackOpAction::GetStack { id: i, user_id: Some(x) },
            r.1->GetStack_id@ == id@,
            r.1->GetStack_user_id->0@ == user_id@,
    {
        Self::stack_op(StackOp::Start, id, user_id)
    }

    /// Starts stopping stack `id` of user `user_id`.
    pub fn stop_stack(id: &str, user_id: &str) -> (r: (StackOpFlow, StackOpAction))
        ensures
            r.0.op == StackOp::Stop,
            r.0.id@ == id@,
            r.0.stage == StackOpStage::Loading,
            r.0.wf(),
            r.1 matches StackOpAction::GetStack { id: i, user_id: Some(x) },
            r.1->GetStack_id@ == id@,
            r.1->GetStack_user_id->0@ == user_id@,
    {
        Self::stack_op(StackOp::Stop, id, user_id)
    }

    /// Starts removing stack `id` of user `user_id` with its containers.
    pub fn remove_stack(id: &str, user_id: &str) -> (r: (StackOpFlow, StackOpAction))
        ensures
            r.0.op == StackOp::Remove,
            r.0.id@ == id@,
            r.0.stage == StackOpStage::Loading,
            r.0.wf(),
            r.1 matches StackOpAction::GetStack { id: i, user_id: Some(x) },
            r.1->GetStack_id@ == id@,
            r.1->GetStack_user_id->0@ == user_id@,
    {
        Self::stack_op(StackOp::Remove, id, user_id)
    }

    /// The JSON object of the images a rollback restores, recorded before a
    /// redeployment, from all containers of the runtime: none (and nothing
    /// recorded) when the stack runs no such image.
    pub fn save_stable_images(all: Vec<ContainerInfo>, stack_id: &str, stack_name: &str) -> (r: Option<
        String,
    >)
        ensures
            stable_images_of(all@.filter(of_stack(stack_id@)), stack_name@).len() == 0 ==> r is None,
            stable_images_of(all@.filter(of_stack(stack_id@)), stack_name@).len() > 0 ==> (r matches Some(
                j,
            ) && exists|entries: Seq<(String, String)>|
                distinct_keys(entries) && as_map(entries) == stable_images_of(
                    all@.filter(of_stack(stack_id@)),
                    stack_name@,
                ) && j@ == json_string_map(pair_views(entries))),
    {
        let ours = StackUsecase::stack_containers(all, stack_id);
        let images = StackUsecase::stable_images(&ours, stack_name);
        if images.len() == 0 {
            proof {
                assert(images@ =~= Seq::<(String, String)>::empty());
                assert(as_map(images@) =~= Map::<Seq<char>, Seq<char>>::empty());
            }
            None
        } else {
            proof {
                lemma_map_of_nonempty(images@);
            }
            Some(write_string_map(&images))
        }
    }
}

proof fn lemma_map_of_nonempty(entries: Seq<(String, String)>)
    requires
        entries.len() > 0,
        distinct_keys(entries),
    ensures
        as_map(entries).len() > 0,
{
    crate::labels::lemma_as_map_finite(entries);
    let dom = as_map(entries).dom();
    assert(dom.contains(entries.last().0@));
    if dom.len() == 0 {
        dom.lemma_len0_is_empty();
        assert(!Set::<Seq<char>>::empty().contains(entries.last().0@));
    }
}

/// Starting acts exactly on the stack's containers that do not run,
/// stopping on those that run; a stack is recorded running or stopped only
/// once every one of them was started or stopped.
pub proof fn law_stack_op_acts_on_the_right_containers(
    s: StackOpFlow,
    e: StackOpEvent,
    t: StackOpFlow,
    a: StackOpAction,
    all: Vec<ContainerInfo>,
)
    requires
        s.wf(),
        op_accepts(s.op, s.stage, e),
        op_next(s, e, t, a),
        s.stage == StackOpStage::Listing,
        e == StackOpEvent::Containers(Ok(all)),
    ensures
        views(t.ids@) == op_ids(all@, s.id@, s.op),
        a is UpdateStatus || a is DeleteStack ==> op_ids(all@, s.id@, s.op).len() == 0,
{
}

/// A status is recorded only after the last container was handled.
pub proof fn law_status_recorded_last(s: StackOpFlow, e: StackOpEvent, t: StackOpFlow, a: StackOpAction)
    requires
        s.wf(),
        op_accepts(s.op, s.stage, e),
        op_next(s, e, t, a),
        a is UpdateStatus || a is DeleteStack,
    ensures
        s.stage == StackOpStage::Listing || s.k + 1 >= s.ids@.len(),
{
}

} // verus!
