//! Deploying a stack: building its services (all or one), starting it,
//! checking its health, and rolling it back to the images of its last
//! stable version. Each operation is a sequence of steps the caller
//! performs, some of them whole operations of their own (building, starting,
//! recording the stable images), reported back as one outcome.
use vstd::prelude::*;
use crate::backend::services::container::ContainerInfo;
use crate::backend::usecase::stack::{git_dir, ids_named, of_stack, StackUsecase};
use crate::backend::usecase::stack_build::{copy_strings, ComposeService};
use crate::backend::usecase::stack_ops::StackInfo;
use crate::env::{env_views, merge_env, merged_env};
use crate::error::AppError;
use crate::json::{pair_views, parsed_string_map, read_string_map, views};
use crate::labels::{find_value, lookup};
use crate::naming::service_container;
use crate::proxy::HttpReply;
use crate::text::{chars_of, concat2, concat3, has_prefix, starts_with, string_of};

verus! {

// ---------------------------------------------------------------- pipelines

/// Which pipeline runs.
#[derive(Debug, Clone, Copy, PartialEq, Eq, Structural)]
pub enum PipelineOp {
    /// Record the stable images, mark the stack deploying, build every
    /// service, start the stack, check its health and roll back on failure.
    Redeploy,
    /// Build one service and start the stack.
    RedeployService,
    /// Build every service and announce the end of the build.
    Build,
    /// Build one service and announce the end of its build.
    BuildService,
}

/// Where a pipeline stands.
#[derive(Debug, Clone, Copy, PartialEq, Eq, Structural)]
pub enum PipelineStage {
    Loading,
    SavingImages,
    MarkingDeploying,
    Building,
    Starting,
    Checking,
    RollingBack,
    Finished,
}

/// A pipeline `op` on stack `id` (on behalf of `user_id` when the operation
/// checks access); `service` is the one service to build, if any; `stack`
/// the stack once read; `error` the failed health check being rolled back.
pub struct PipelineFlow {
    pub op: PipelineOp,
    pub id: String,
    pub user_id: Option<String>,
    pub service: Option<String>,
    pub stack: Option<StackInfo>,
    pub error: Option<AppError>,
    pub stage: PipelineStage,
}

/// The outcome of the last step.
pub enum PipelineEvent {
    Stack(Result<StackInfo, AppError>),
    Step(Result<(), AppError>),
}

/// What the caller does next.
pub enum PipelineAction {
    GetStack { id: String, user_id: Option<String> },
    /// Record the images of the stack's running version.
    SaveStableImages { id: String },
    UpdateStatus { id: String, status: String },
    /// Parse the compose file and build its services (all, or `target`),
    /// from the Git checkout `base_path` if any.
    BuildServices { id: String, compose: String, base_path: Option<String>, target: Option<String> },
    /// Start the stack on behalf of `user_id`.
    StartStack { id: String, user_id: String },
    /// Check the health of the stack.
    HealthCheck { id: String },
    /// Roll the stack back on behalf of `user_id`.
    Rollback { id: String, user_id: String },
    /// Announce on the build log of the stack that `service` is done.
    AnnounceBuild { id: String, service: String, message: String },
    Finish(Result<(), AppError>),
}

/// The Git checkout of a stack built from Git.
pub open spec fn base_path_of(st: StackInfo, id: Seq<char>) -> Option<Seq<char>> {
    if st.git_url is Some {
        Some(git_dir(id))
    } else {
        None
    }
}

/// Building the services of the loaded stack.
pub open spec fn building(s: PipelineFlow, t: PipelineFlow, a: PipelineAction) -> bool {
    let st = s.stack->0;
    &&& t == (PipelineFlow { stage: PipelineStage::Building, ..s })
    &&& a matches PipelineAction::BuildServices { id, compose, base_path, target }
    &&& id == s.id
    &&& compose == st.compose_content->0
    &&& match base_path_of(st, s.id@) {
        Some(p) => base_path matches Some(b) && b@ == p,
        None => base_path is None,
    }
    &&& target == s.service
}

/// The end of a build: announced on the log, for the system or the service.
pub open spec fn announcing(s: PipelineFlow, t: PipelineFlow, a: PipelineAction) -> bool {
    &&& t.stage == PipelineStage::Finished
    &&& a matches PipelineAction::AnnounceBuild { id, service, message }
    &&& id == s.id
    &&& if s.op == PipelineOp::Build {
        service@ == "system"@ && message@ == "Build process finished successfully"@
    } else {
        service == s.service->0 && message@ == "Build for service '"@ + s.service->0@
            + "' finished successfully"@
    }
}

/// One step of a pipeline.
pub open spec fn pipeline_next(
    s: PipelineFlow,
    e: PipelineEvent,
    t: PipelineFlow,
    a: PipelineAction,
) -> bool {
    let st = s.stack->0;
    match (s.stage, e) {
        (PipelineStage::Loading, PipelineEvent::Stack(Err(err))) => t.stage
            == PipelineStage::Finished && a == PipelineAction::Finish(Err(err)),
        (PipelineStage::Loading, PipelineEvent::Stack(Ok(loaded))) => if loaded.compose_content
            is None {
            t.stage == PipelineStage::Finished && (a matches PipelineAction::Finish(
                Err(AppError::BadRequest(m)),
            ) && m@ == "Stack has no compose content"@)
        } else {
            let s2 = PipelineFlow { stack: Some(loaded), ..s };
            if s.op == PipelineOp::Redeploy {
                t == (PipelineFlow { stage: PipelineStage::SavingImages, ..s2 }) && a == (
                PipelineAction::SaveStableImages { id: s.id })
            } else {
                building(s2, t, a)
            }
        },
        (PipelineStage::SavingImages, PipelineEvent::Step(Err(err))) => t.stage
            == PipelineStage::Finished && a == PipelineAction::Finish(Err(err)),
        (PipelineStage::SavingImages, PipelineEvent::Step(Ok(()))) => t == (PipelineFlow {
            stage: PipelineStage::MarkingDeploying,
            ..s
        }) && (a matches PipelineAction::UpdateStatus { id, status } && id == s.id && status@
            == "deploying"@),
        (PipelineStage::MarkingDeploying, PipelineEvent::Step(Err(err))) => t.stage
            == PipelineStage::Finished && a == PipelineAction::Finish(Err(err)),
        (PipelineStage::MarkingDeploying, PipelineEvent::Step(Ok(()))) => building(s, t, a),
        (PipelineStage::Building, PipelineEvent::Step(Err(err))) => t.stage
            == PipelineStage::Finished && a == PipelineAction::Finish(Err(err)),
        (PipelineStage::Building, PipelineEvent::Step(Ok(()))) => match s.op {
            PipelineOp::Redeploy | PipelineOp::RedeployService => t == (PipelineFlow {
                stage: PipelineStage::Starting,
                ..s
            }) && a == (PipelineAction::StartStack {
                id: s.id,
                user_id: match s.user_id {
                    Some(u) => u,
                    None => st.user_id,
                },
            }),
            _ => announcing(s, t, a),
        },
        (PipelineStage::Starting, PipelineEvent::Step(Err(err))) => t.stage
            == PipelineStage::Finished && a == PipelineAction::Finish(Err(err)),
        (PipelineStage::Starting, PipelineEvent::Step(Ok(()))) => if s.op == PipelineOp::Redeploy {
            t == (PipelineFlow { stage: PipelineStage::Checking, ..s }) && a == (
            PipelineAction::HealthCheck { id: s.id })
        } else {
            t.stage == PipelineStage::Finished && a == PipelineAction::Finish(Ok(()))
        },
        (PipelineStage::Checking, PipelineEvent::Step(Ok(()))) => t.stage
            == PipelineStage::Finished && a == PipelineAction::Finish(Ok(())),
        (PipelineStage::Checking, PipelineEvent::Step(Err(err))) => t == (PipelineFlow {
            stage: PipelineStage::RollingBack,
            error: Some(err),
            ..s
        }) && a == (PipelineAction::Rollback { id: s.id, user_id: st.user_id }),
        (PipelineStage::RollingBack, PipelineEvent::Step(Err(err))) => t.stage
            == PipelineStage::Finished && a == PipelineAction::Finish(Err(err)),
        (PipelineStage::RollingBack, PipelineEvent::Step(Ok(()))) => t.stage
            == PipelineStage::Finished && a == PipelineAction::Finish(Err(s.error->0)),
        _ => false,
    }
}

/// Which outcome each stage waits for.
pub open spec fn pipeline_accepts(stage: PipelineStage, e: PipelineEvent) -> bool {
    match stage {
        PipelineStage::Loading => e is Stack,
        PipelineStage::Finished => false,
        _ => e is Step,
    }
}

impl PipelineFlow {
    /// Past the loading the stack is known and has a compose file; the one
    /// service is named exactly for the single-service pipelines; a health
    /// failure is kept while rolling back.
    pub open spec fn wf(self) -> bool {
        &&& self.stage != PipelineStage::Finished ==> ((self.op == PipelineOp::RedeployService
            || self.op == PipelineOp::BuildService) <==> self.service is Some)
        &&& (self.stage != PipelineStage::Loading && self.stage != PipelineStage::Finished ==> {
            &&& self.stack is Some
            &&& self.stack->0.compose_content is Some
        })
        &&& (self.stage == PipelineStage::RollingBack ==> self.error is Some)
        &&& (self.stage == PipelineStage::SavingImages || self.stage
            == PipelineStage::MarkingDeploying || self.stage == PipelineStage::Checking
            || self.stage == PipelineStage::RollingBack ==> self.op == PipelineOp::Redeploy)
    }
}

fn copy_opt_str(o: &Option<String>) -> (r: Option<String>)
    ensures
        r == *o,
{
    match o {
        Some(x) => Some(x.clone()),
        None => None,
    }
}

impl PipelineFlow {
    fn build(self) -> (r: (PipelineFlow, PipelineAction))
        requires
            self.stack matches Some(st) && st.compose_content is Some,
        ensures
            building(self, r.0, r.1),
    {
        let (compose, base_path) = match &self.stack {
            Some(st) => (
                match &st.compose_content {
                    Some(c) => c.clone(),
                    None => "".to_owned(),
                },
                if st.git_url.is_some() {
                    Some(StackUsecase::git_dir_of(self.id.as_str()))
                } else {
                    None
                },
            ),
            None => ("".to_owned(), None),
        };
        let a = PipelineAction::BuildServices {
            id: self.id.clone(),
            compose,
            base_path,
            target: copy_opt_str(&self.service),
        };
        (PipelineFlow { stage: PipelineStage::Building, ..self }, a)
    }

    /// Whether the flow waits for an outcome like `e`.
    pub fn accepts_event(&self, e: &PipelineEvent) -> (r: bool)
        ensures
            r == pipeline_accepts(self.stage, *e),
    {
        match self.stage {
            PipelineStage::Loading => matches!(e, PipelineEvent::Stack(_)),
            PipelineStage::Finished => false,
            _ => matches!(e, PipelineEvent::Step(_)),
        }
    }

    /// Takes the outcome `e` of the last step and gives the next flow and
    /// action.
    pub fn step(self, e: PipelineEvent) -> (r: (PipelineFlow, PipelineAction))
        requires
            self.wf(),
            pipeline_accepts(self.stage, e),
        ensures
            pipeline_next(self, e, r.0, r.1),
    {
        let done = PipelineStage::Finished;
        match e {
            PipelineEvent::Stack(Err(err)) => (PipelineFlow { stage: done, ..self }, PipelineAction::Finish(Err(err))),
            PipelineEvent::Stack(Ok(loaded)) => {
                if loaded.compose_content.is_none() {
                    return (
                        PipelineFlow { stage: done, ..self },
                        PipelineAction::Finish(
                            Err(AppError::BadRequest("Stack has no compose content".to_owned())),
                        ),
                    );
                }
                let redeploy = self.op == PipelineOp::Redeploy;
                let flow = PipelineFlow { stack: Some(loaded), ..self };
                if redeploy {
                    let a = PipelineAction::SaveStableImages { id: flow.id.clone() };
                    (PipelineFlow { stage: PipelineStage::SavingImages, ..flow }, a)
                } else {
                    flow.build()
                }
            },
            PipelineEvent::Step(Err(err)) => {
                if self.stage == PipelineStage::Checking {
                    let user_id = match &self.stack {
                        Some(st) => st.user_id.clone(),
                        None => "".to_owned(),
                    };
                    let a = PipelineAction::Rollback { id: self.id.clone(), user_id };
                    (PipelineFlow { stage: PipelineStage::RollingBack, error: Some(err), ..self }, a)
                } else {
                    (PipelineFlow { stage: done, ..self }, PipelineAction::Finish(Err(err)))
                }
            },
            PipelineEvent::Step(Ok(())) => match self.stage {
                PipelineStage::SavingImages => {
                    let a = PipelineAction::UpdateStatus {
                        id: self.id.clone(),
                        status: "deploying".to_owned(),
                    };
                    (PipelineFlow { stage: PipelineStage::MarkingDeploying, ..self }, a)
                },
                PipelineStage::MarkingDeploying => self.build(),
                PipelineStage::Building => match self.op {
                    PipelineOp::Redeploy | PipelineOp::RedeployService => {
                        let user_id = match &self.user_id {
                            Some(u) => u.clone(),
                            None => match &self.stack {
                                Some(st) => st.user_id.clone(),
                                None => "".to_owned(),
                            },
                        };
                        let a = PipelineAction::StartStack { id: self.id.clone(), user_id };
                        (PipelineFlow { stage: PipelineStage::Starting, ..self }, a)
                    },
                    PipelineOp::Build => {
                        let a = PipelineAction::AnnounceBuild {
                            id: self.id.clone(),
                            service: "system".to_owned(),
                            message: "Build process finished successfully".to_owned(),
                        };
                        (PipelineFlow { stage: done, ..self }, a)
                    },
                    PipelineOp::BuildService => {
                        let service = match &self.service {
                            Some(x) => x.clone(),
                            None => "".to_owned(),
                        };
                        let message = concat3(
                            "Build for service '",
                            service.as_str(),
                            "' finished successfully",
                        );
                        let a = PipelineAction::AnnounceBuild { id: self.id.clone(), service, message };
                        (PipelineFlow { stage: done, ..self }, a)
                    },
                },
                PipelineStage::Starting => if self.op == PipelineOp::Redeploy {
                    let a = PipelineAction::HealthCheck { id: self.id.clone() };
                    (PipelineFlow { stage: PipelineStage::Checking, ..self }, a)
                } else {
                    (PipelineFlow { stage: done, ..self }, PipelineAction::Finish(Ok(())))
                },
                PipelineStage::Checking => (PipelineFlow { stage: done, ..self }, PipelineAction::Finish(Ok(()))),
                _ => {
                    let mut flow = self;
                    let err = match flow.error.take() {
                        Some(err) => err,
                        None => AppError::Hash,
                    };
                    (PipelineFlow { stage: done, ..flow }, PipelineAction::Finish(Err(err)))
                },
            },
        }
    }
}

impl StackUsecase {
    fn pipeline(op: PipelineOp, id: &str, user_id: Option<&str>, service: Option<&str>) -> (r: (
        PipelineFlow,
        PipelineAction,
    ))
        requires
            (op == PipelineOp::RedeployService || op == PipelineOp::BuildService) <==> service is Some,
        ensures
            r.0.op == op,
            r.0.id@ == id@,
            match user_id {
                Some(u) => r.0.user_id matches Some(x) && x@ == u@,
                None => r.0.user_id is None,
            },
            match service {
                Some(u) => r.0.service matches Some(x) && x@ == u@,
                None => r.0.service is None,
            },
            r.0.stack is None,
            r.0.error is None,
            r.0.stage == PipelineStage::Loading,
            r.0.wf(),
            r.1 == (PipelineAction::GetStack { id: r.0.id, user_id: r.0.user_id }),
    {
        let flow = PipelineFlow {
            op,
            id: id.to_owned(),
            user_id: match user_id {
                Some(u) => Some(u.to_owned()),
                None => None,
            },
            service: match service {
                Some(x) => Some(x.to_owned()),
                None => None,
            },
            stack: None,
            error: None,
            stage: PipelineStage::Loading,
        };
        let a = PipelineAction::GetStack { id: flow.id.clone(), user_id: copy_opt_str(&flow.user_id) };
        (flow, a)
    }

    /// Starts redeploying stack `id`: stable images recorded, stack marked
    /// deploying, every service built, stack started and checked, rolled back
    /// when the check fails.
    pub fn redeploy_stack(id: &str) -> (r: (PipelineFlow, PipelineAction))
        ensures
            r.0.op == PipelineOp::Redeploy,
            r.0.id@ == id@,
            r.0.user_id is None,
            r.0.stage == PipelineStage::Loading,
            r.0.wf(),
            r.1 == (PipelineAction::GetStack { id: r.0.id, user_id: None }),
    {
        Self::pipeline(PipelineOp::Redeploy, id, None, None)
    }

    /// Starts rebuilding service `service_name` of stack `stack_id` of user
    /// `user_id` and starting the stack.
    pub fn redeploy_service(stack_id: &str, service_name: &str, user_id: &str) -> (r: (
        PipelineFlow,
        PipelineAction,
    ))
        ensures
            r.0.op == PipelineOp::RedeployService,
            r.0.id@ == stack_id@,
            r.0.user_id matches Some(u) && u@ == user_id@,
            r.0.service matches Some(x) && x@ == service_name@,
            r.0.stage == PipelineStage::Loading,
            r.0.wf(),
            r.1 == (PipelineAction::GetStack { id: r.0.id, user_id: r.0.user_id }),
    {
        Self::pipeline(PipelineOp::RedeployService, stack_id, Some(user_id), Some(service_name))
    }

    /// Starts building every service of stack `id` of user `user_id`.
    pub fn build_stack(id: &str, user_id: &str) -> (r: (PipelineFlow, PipelineAction))
        ensures
            r.0.op == PipelineOp::Build,
            r.0.id@ == id@,
            r.0.user_id matches Some(u) && u@ == user_id@,
            r.0.stage == PipelineStage::Loading,
            r.0.wf(),
            r.1 == (PipelineAction::GetStack { id: r.0.id, user_id: r.0.user_id }),
    {
        Self::pipeline(PipelineOp::Build, id, Some(user_id), None)
    }

    /// Starts building service `service_name` of stack `id` of user `user_id`.
    pub fn build_service(id: &str, service_name: &str, user_id: &str) -> (r: (
        PipelineFlow,
        PipelineAction,
    ))
        ensures
            r.0.op == PipelineOp::BuildService,
            r.0.id@ == id@,
            r.0.user_id matches Some(u) && u@ == user_id@,
            r.0.service matches Some(x) && x@ == service_name@,
            r.0.stage == PipelineStage::Loading,
            r.0.wf(),
            r.1 == (PipelineAction::GetStack { id: r.0.id, user_id: r.0.user_id }),
    {
        Self::pipeline(PipelineOp::BuildService, id, Some(user_id), Some(service_name))
    }
}

/// A redeployment rolls back only after a failed health check, and then
/// fails with the health check's error (or the rollback's own); every
/// pipeline step keeps the pipeline's invariant.
pub proof fn law_redeploy_rolls_back_only_failed_checks(
    s: PipelineFlow,
    e: PipelineEvent,
    t: PipelineFlow,
    a: PipelineAction,
    e2: PipelineEvent,
    t2: PipelineFlow,
    a2: PipelineAction,
)
    requires
        s.wf(),
        pipeline_accepts(s.stage, e),
        pipeline_next(s, e, t, a),
    ensures
        t.wf(),
        a is Rollback ==> s.op == PipelineOp::Redeploy && s.stage == PipelineStage::Checking
            && e matches PipelineEvent::Step(Err(_)),
        a is Rollback && e2 == PipelineEvent::Step(Ok(())) && pipeline_next(t, e2, t2, a2) ==> a2
            == PipelineAction::Finish(Err(e->Step_0->Err_0)),
{
}

// ---------------------------------------------------------------- rollback

/// Where a rollback stands.
#[derive(Debug, Clone, Copy, PartialEq, Eq, Structural)]
pub enum RollbackStage {
    Loading,
    Marking,
    Parsing,
    LoadingEnv,
    Pulling,
    Listing,
    Stopping,
    Removing,
    Creating,
    Starting,
    MarkingDone,
    Finished,
}

/// A rollback of stack `id` on behalf of user `user_id`: the stack once
/// read, the stable image of each service, the parsed services, and at
/// service `index` its merged `env` and the containers it `replaced`.
pub struct RollbackFlow {
    pub id: String,
    pub user_id: String,
    pub stack: Option<StackInfo>,
    pub images: Vec<(String, String)>,
    pub services: Vec<ComposeService>,
    pub index: usize,
    pub env: Option<Vec<String>>,
    pub replaced: Vec<String>,
    pub k: usize,
    pub stage: RollbackStage,
}

/// The outcome of the last action of a rollback.
pub enum RollbackEvent {
    Stack(Result<StackInfo, AppError>),
    Step(Result<(), AppError>),
    Services(Result<Vec<ComposeService>, AppError>),
    ServiceEnv(Vec<(String, String)>),
    Containers(Result<Vec<ContainerInfo>, AppError>),
    Ignored,
}

/// What the caller does next in a rollback.
pub enum RollbackAction {
    GetStack { id: String, user_id: String },
    UpdateStatus { id: String, status: String },
    ParseCompose { compose: String },
    LoadEnv { stack_id: String, service: String },
    PullImage { team_id: String, image: String },
    ListContainers,
    StopContainer { id: String },
    RemoveContainer { id: String },
    /// Create the container of service `service` with `image` in place of
    /// the one the compose file names, and with environment `env`.
    CreateContainer { service: usize, image: String, env: Option<Vec<String>> },
    StartStack { id: String, user_id: String },
    Finish(Result<(), AppError>),
}

/// The stable image of service `name`, if the last stable version ran it.
pub open spec fn stable_image(f: RollbackFlow, name: Seq<char>) -> Option<Seq<char>> {
    lookup(f.images@, name)
}

/// The first service from `i` on that has a stable image, or the number of
/// services.
pub open spec fn next_restored(f: RollbackFlow, i: int) -> int
    decreases f.services@.len() - i,
{
    if i >= f.services@.len() {
        f.services@.len() as int
    } else if stable_image(f, f.services@[i].name@) is Some {
        i
    } else {
        next_restored(f, i + 1)
    }
}

/// Going on with the first service from `i` on with a stable image; with
/// none left, starting the stack.
pub open spec fn restoring_from(f: RollbackFlow, i: int, t: RollbackFlow, a: RollbackAction) -> bool {
    let j = next_restored(f, i);
    if j >= f.services@.len() {
        t == (RollbackFlow { stage: RollbackStage::Starting, ..f }) && a == (
        RollbackAction::StartStack { id: f.id, user_id: f.stack->0.user_id })
    } else {
        t.index == j && t == (RollbackFlow { index: t.index, stage: RollbackStage::LoadingEnv, ..f })
            && a == (RollbackAction::LoadEnv { stack_id: f.id, service: f.services@[j].name })
    }
}

/// Creating the current service's container with its stable image.
pub open spec fn recreating(s: RollbackFlow, t: RollbackFlow, a: RollbackAction) -> bool {
    let svc = s.services@[s.index as int];
    &&& t == (RollbackFlow { stage: RollbackStage::Creating, env: None, ..s })
    &&& a matches RollbackAction::CreateContainer { service, image, env }
    &&& service == s.index
    &&& Some(image@) == stable_image(s, svc.name@)
    &&& env == s.env
}

/// Which outcome each stage of a rollback waits for.
pub open spec fn rollback_accepts(stage: RollbackStage, e: RollbackEvent) -> bool {
    match stage {
        RollbackStage::Loading => e is Stack,
        RollbackStage::Parsing => e is Services,
        RollbackStage::LoadingEnv => e is ServiceEnv,
        RollbackStage::Listing => e is Containers,
        RollbackStage::Stopping | RollbackStage::Removing => e is Ignored,
        RollbackStage::Finished => false,
        _ => e is Step,
    }
}

/// One step of a rollback: a stack without a recorded stable version, with
/// an unreadable record, or without a compose file cannot be rolled back;
/// else it is marked rolling back, and each service with a stable image gets
/// its environment merged, the image pulled, its old containers stopped and
/// removed and a container of that image created; then the stack is started
/// and marked rolled back. Any failed step ends it.
pub open spec fn rollback_next(
    s: RollbackFlow,
    e: RollbackEvent,
    t: RollbackFlow,
    a: RollbackAction,
) -> bool {
    let st = s.stack->0;
    let svc = s.services@[s.index as int];
    let fail = |err: AppError| t.stage == RollbackStage::Finished && a == RollbackAction::Finish(Err(err));
    match (s.stage, e) {
        (RollbackStage::Loading, RollbackEvent::Stack(Err(err))) => fail(err),
        (RollbackStage::Loading, RollbackEvent::Stack(Ok(loaded))) => match loaded.last_stable_images {
            None => t.stage == RollbackStage::Finished && (a matches RollbackAction::Finish(
                Err(AppError::BadRequest(m)),
            ) && m@ == "No stable version available for rollback"@),
            Some(json) => match parsed_string_map(json@) {
                Err(msg) => t.stage == RollbackStage::Finished && (a matches RollbackAction::Finish(
                    Err(AppError::Internal(m)),
                ) && m@ == msg),
                Ok(entries) => match loaded.compose_content {
                    None => t.stage == RollbackStage::Finished && (a matches RollbackAction::Finish(
                        Err(AppError::BadRequest(m)),
                    ) && m@ == "Stack has no compose content"@),
                    Some(_) => {
                        &&& t == (RollbackFlow {
                            stack: Some(loaded),
                            images: t.images,
                            stage: RollbackStage::Marking,
                            ..s
                        })
                        &&& pair_views(t.images@) == entries
                        &&& a matches RollbackAction::UpdateStatus { id, status }
                        &&& id == s.id
                        &&& status@ == "rolling_back"@
                    },
                },
            },
        },
        (RollbackStage::Marking, RollbackEvent::Step(Err(err))) => fail(err),
        (RollbackStage::Marking, RollbackEvent::Step(Ok(()))) => t == (RollbackFlow {
            stage: RollbackStage::Parsing,
            ..s
        }) && a == (RollbackAction::ParseCompose { compose: st.compose_content->0 }),
        (RollbackStage::Parsing, RollbackEvent::Services(Err(err))) => fail(err),
        (RollbackStage::Parsing, RollbackEvent::Services(Ok(svcs))) => restoring_from(
            RollbackFlow { services: svcs, ..s },
            0,
            t,
            a,
        ),
        (RollbackStage::LoadingEnv, RollbackEvent::ServiceEnv(vars)) => {
            &&& t == (RollbackFlow { stage: RollbackStage::Pulling, env: t.env, ..s })
            &&& match t.env {
                Some(e2) => merged_env(
                    match svc.env {
                        Some(d) => Some(env_views(d@)),
                        None => None,
                    },
                    vars@,
                ) == Some(env_views(e2@)),
                None => merged_env(
                    match svc.env {
                        Some(d) => Some(env_views(d@)),
                        None => None,
                    },
                    vars@,
                ) is None,
            }
            &&& a matches RollbackAction::PullImage { team_id, image }
            &&& team_id == st.team_id
            &&& Some(image@) == stable_image(s, svc.name@)
        },
        (RollbackStage::Pulling, RollbackEvent::Step(Err(err))) => fail(err),
        (RollbackStage::Pulling, RollbackEvent::Step(Ok(()))) => t == (RollbackFlow {
            stage: RollbackStage::Listing,
            ..s
        }) && a == RollbackAction::ListContainers,
        (RollbackStage::Listing, RollbackEvent::Containers(Err(err))) => fail(err),
        (RollbackStage::Listing, RollbackEvent::Containers(Ok(cs))) => {
            let s2 = RollbackFlow { replaced: t.replaced, k: 0, ..s };
            &&& views(t.replaced@) == ids_named(
                cs@.filter(of_stack(st.id@)),
                service_container(st.name@, svc.name@),
            )
            &&& if t.replaced@.len() > 0 {
                t == (RollbackFlow { stage: RollbackStage::Stopping, ..s2 }) && a
                    == (RollbackAction::StopContainer { id: t.replaced@[0] })
            } else {
                recreating(s2, t, a)
            }
        },
        (RollbackStage::Stopping, RollbackEvent::Ignored) => t == (RollbackFlow {
            stage: RollbackStage::Removing,
            ..s
        }) && a == (RollbackAction::RemoveContainer { id: s.replaced@[s.k as int] }),
        (RollbackStage::Removing, RollbackEvent::Ignored) => if s.k + 1 < s.replaced@.len() {
            t == (RollbackFlow { stage: RollbackStage::Stopping, k: (s.k + 1) as usize, ..s }) && a
                == (RollbackAction::StopContainer { id: s.replaced@[s.k + 1] })
        } else {
            recreating(s, t, a)
        },
        (RollbackStage::Creating, RollbackEvent::Step(Err(err))) => fail(err),
        (RollbackStage::Creating, RollbackEvent::Step(Ok(()))) => restoring_from(
            s,
            s.index + 1,
            t,
            a,
        ),
        (RollbackStage::Starting, RollbackEvent::Step(Err(err))) => fail(err),
        (RollbackStage::Starting, RollbackEvent::Step(Ok(()))) => t == (RollbackFlow {
            stage: RollbackStage::MarkingDone,
            ..s
        }) && (a matches RollbackAction::UpdateStatus { id, status } && id == s.id && status@
            == "rolled_back"@),
        (RollbackStage::MarkingDone, RollbackEvent::Step(r)) => t.stage == RollbackStage::Finished
            && a == RollbackAction::Finish(r),
        _ => false,
    }
}

impl RollbackFlow {
    /// Past the loading the stack is known with its compose file; at a
    /// service, it exists and has a stable image; while replacing, the
    /// container at `k` is one of those replaced.
    pub open spec fn wf(self) -> bool {
        &&& (self.stage != RollbackStage::Loading && self.stage != RollbackStage::Finished) ==> (
        self.stack matches Some(st) && st.compose_content is Some)
        &&& (self.stage == RollbackStage::LoadingEnv || self.stage == RollbackStage::Pulling
            || self.stage == RollbackStage::Listing || self.stage == RollbackStage::Stopping
            || self.stage == RollbackStage::Removing || self.stage == RollbackStage::Creating) ==> (
        self.index < self.services@.len() && stable_image(
            self,
            self.services@[self.index as int].name@,
        ) is Some)
        &&& (self.stage == RollbackStage::Stopping || self.stage == RollbackStage::Removing) ==> self.k
            < self.replaced@.len()
    }
}

impl RollbackFlow {
    fn next_restored_from(&self, i: usize) -> (j: usize)
        requires
            i <= self.services@.len(),
        ensures
            j == next_restored(*self, i as int),
    {
        let mut j = i;
        while j < self.services.len()
            invariant
                i <= j <= self.services@.len(),
                next_restored(*self, i as int) == next_restored(*self, j as int),
            decreases self.services@.len() - j,
        {
            if find_value(&self.images, self.services[j].name.as_str()).is_some() {
                return j;
            }
            j = j + 1;
        }
        j
    }

    fn restore_from(self, i: usize) -> (r: (RollbackFlow, RollbackAction))
        requires
            i <= self.services@.len(),
            self.stack is Some,
        ensures
            restoring_from(self, i as int, r.0, r.1),
    {
        let j = self.next_restored_from(i);
        if j >= self.services.len() {
            let user_id = match &self.stack {
                Some(st) => st.user_id.clone(),
                None => "".to_owned(),
            };
            let a = RollbackAction::StartStack { id: self.id.clone(), user_id };
            (RollbackFlow { stage: RollbackStage::Starting, ..self }, a)
        } else {
            let a = RollbackAction::LoadEnv {
                stack_id: self.id.clone(),
                service: self.services[j].name.clone(),
            };
            (RollbackFlow { index: j, stage: RollbackStage::LoadingEnv, ..self }, a)
        }
    }

    fn recreate(self) -> (r: (RollbackFlow, RollbackAction))
        requires
            self.index < self.services@.len(),
            stable_image(self, self.services@[self.index as int].name@) is Some,
        ensures
            recreating(self, r.0, r.1),
    {
        let image = match find_value(&self.images, self.services[self.index].name.as_str()) {
            Some(i) => i,
            None => "".to_owned(),
        };
        let mut flow = self;
        let env = flow.env.take();
        let a = RollbackAction::CreateContainer { service: flow.index, image, env };
        (RollbackFlow { stage: RollbackStage::Creating, ..flow }, a)
    }

    /// Whether the flow waits for an outcome like `e`.
    pub fn accepts_event(&self, e: &RollbackEvent) -> (r: bool)
        ensures
            r == rollback_accepts(self.stage, *e),
    {
        match self.stage {
            RollbackStage::Loading => matches!(e, RollbackEvent::Stack(_)),
            RollbackStage::Parsing => matches!(e, RollbackEvent::Services(_)),
            RollbackStage::LoadingEnv => matches!(e, RollbackEvent::ServiceEnv(_)),
            RollbackStage::Listing => matches!(e, RollbackEvent::Containers(_)),
            RollbackStage::Stopping | RollbackStage::Removing => matches!(e, RollbackEvent::Ignored),
            RollbackStage::Finished => false,
            _ => matches!(e, RollbackEvent::Step(_)),
        }
    }

    /// Takes the outcome `e` of the last action and gives the next flow and
    /// action.
    pub fn step(self, e: RollbackEvent) -> (r: (RollbackFlow, RollbackAction))
        requires
            self.wf(),
            rollback_accepts(self.stage, e),
        ensures
            rollback_next(self, e, r.0, r.1),
    {
        let done = RollbackStage::Finished;
        match e {
            RollbackEvent::Stack(Err(err)) | RollbackEvent::Services(Err(err))
            | RollbackEvent::Containers(Err(err)) => (
                RollbackFlow { stage: done, ..self },
                RollbackAction::Finish(Err(err)),
            ),
            RollbackEvent::Stack(Ok(loaded)) => {
                let images = match &loaded.last_stable_images {
                    None => {
                        return (
                            RollbackFlow { stage: done, ..self },
                            RollbackAction::Finish(
                                Err(
                                    AppError::BadRequest(
                                        "No stable version available for rollback".to_owned(),
                                    ),
                                ),
                            ),
                        );
                    },
                    Some(json) => match read_string_map(json.as_str()) {
                        Err(m) => {
                            return (
                                RollbackFlow { stage: done, ..self },
                                RollbackAction::Finish(Err(AppError::Internal(m))),
                            );
                        },
                        Ok(images) => images,
                    },
                };
                if loaded.compose_content.is_none() {
                    return (
                        RollbackFlow { stage: done, ..self },
                        RollbackAction::Finish(
                            Err(AppError::BadRequest("Stack has no compose content".to_owned())),
                        ),
                    );
                }
                let a = RollbackAction::UpdateStatus {
                    id: self.id.clone(),
                    status: "rolling_back".to_owned(),
                };
                (RollbackFlow { stack: Some(loaded), images, stage: RollbackStage::Marking, ..self }, a)
            },
            RollbackEvent::Services(Ok(svcs)) => RollbackFlow { services: svcs, ..self }.restore_from(0),
            RollbackEvent::ServiceEnv(vars) => {
                let svc = &self.services[self.index];
                let declared = match &svc.env {
                    Some(d) => Some(copy_strings(d)),
                    None => None,
                };
                let env = merge_env(declared, &vars);
                let image = match find_value(&self.images, svc.name.as_str()) {
                    Some(i) => i,
                    None => "".to_owned(),
                };
                let team_id = match &self.stack {
                    Some(st) => st.team_id.clone(),
                    None => "".to_owned(),
                };
                let a = RollbackAction::PullImage { team_id, image };
                (RollbackFlow { stage: RollbackStage::Pulling, env, ..self }, a)
            },
            RollbackEvent::Containers(Ok(cs)) => {
                let (stack_id, stack_name) = match &self.stack {
                    Some(st) => (st.id.clone(), st.name.clone()),
                    None => ("".to_owned(), "".to_owned()),
                };
                let ours = StackUsecase::stack_containers(cs, stack_id.as_str());
                let replaced = StackUsecase::replaced_containers(
                    &ours,
                    stack_name.as_str(),
                    self.services[self.index].name.as_str(),
                );
                if replaced.len() > 0 {
                    let a = RollbackAction::StopContainer { id: replaced[0].clone() };
                    (RollbackFlow { stage: RollbackStage::Stopping, replaced, k: 0, ..self }, a)
                } else {
                    RollbackFlow { replaced, k: 0, ..self }.recreate()
                }
            },
            RollbackEvent::Ignored => {
                if self.stage == RollbackStage::Stopping {
                    let a = RollbackAction::RemoveContainer { id: self.replaced[self.k].clone() };
                    (RollbackFlow { stage: RollbackStage::Removing, ..self }, a)
                } else {
                    let n = self.replaced.len();
                    if self.k + 1 < n {
                        let k = self.k + 1;
                        let a = RollbackAction::StopContainer { id: self.replaced[k].clone() };
                        (RollbackFlow { stage: RollbackStage::Stopping, k, ..self }, a)
                    } else {
                        self.recreate()
                    }
                }
            },
            RollbackEvent::Step(r) if self.stage == RollbackStage::MarkingDone => (
                RollbackFlow { stage: done, ..self },
                RollbackAction::Finish(r),
            ),
            RollbackEvent::Step(Err(err)) => (
                RollbackFlow { stage: done, ..self },
                RollbackAction::Finish(Err(err)),
            ),
            RollbackEvent::Step(Ok(())) => match self.stage {
                RollbackStage::Marking => {
                    let compose = match &self.stack {
                        Some(st) => match &st.compose_content {
                            Some(c) => c.clone(),
                            None => "".to_owned(),
                        },
                        None => "".to_owned(),
                    };
                    (
                        RollbackFlow { stage: RollbackStage::Parsing, ..self },
                        RollbackAction::ParseCompose { compose },
                    )
                },
                RollbackStage::Pulling => (
                    RollbackFlow { stage: RollbackStage::Listing, ..self },
                    RollbackAction::ListContainers,
                ),
                RollbackStage::Creating => {
                    let n = self.services.len();
                    assert(self.index < n);
                    let next = self.index + 1;
                    self.restore_from(next)
                },
                RollbackStage::Starting => {
                    let a = RollbackAction::UpdateStatus {
                        id: self.id.clone(),
                        status: "rolled_back".to_owned(),
                    };
                    (RollbackFlow { stage: RollbackStage::MarkingDone, ..self }, a)
                },
                _ => (RollbackFlow { stage: done, ..self }, RollbackAction::Finish(Ok(()))),
            },
        }
    }
}

impl StackUsecase {
    /// Starts rolling stack `id` of user `user_id` back to its last stable
    /// images.
    pub fn rollback_stack(id: &str, user_id: &str) -> (r: (RollbackFlow, RollbackAction))
        ensures
            r.0.id@ == id@,
            r.0.user_id@ == user_id@,
            r.0.stack is None,
            r.0.stage == RollbackStage::Loading,
            r.0.wf(),
            r.1 == (RollbackAction::GetStack { id: r.0.id, user_id: r.0.user_id }),
    {
        let flow = RollbackFlow {
            id: id.to_owned(),
            user_id: user_id.to_owned(),
            stack: None,
            images: Vec::new(),
            services: Vec::new(),
            index: 0,
            env: None,
            replaced: Vec::new(),
            k: 0,
            stage: RollbackStage::Loading,
        };
        let a = RollbackAction::GetStack { id: flow.id.clone(), user_id: flow.user_id.clone() };
        (flow, a)
    }
}

proof fn lemma_next_restored(f: RollbackFlow, i: int)
    requires
        0 <= i <= f.services@.len(),
    ensures
        i <= next_restored(f, i) <= f.services@.len(),
        next_restored(f, i) < f.services@.len() ==> stable_image(
            f,
            f.services@[next_restored(f, i)].name@,
        ) is Some,
    decreases f.services@.len() - i,
{
    if i < f.services@.len() && stable_image(f, f.services@[i].name@) is None {
        lemma_next_restored(f, i + 1);
    }
}

/// Every step of a rollback keeps its invariant; only services that ran in
/// the last stable version are touched, and each is pulled and recreated
/// with its stable image.
pub proof fn law_rollback_restores_stable_images(
    s: RollbackFlow,
    e: RollbackEvent,
    t: RollbackFlow,
    a: RollbackAction,
)
    requires
        s.wf(),
        rollback_accepts(s.stage, e),
        rollback_next(s, e, t, a),
    ensures
        t.wf(),
        a matches RollbackAction::CreateContainer { service, image, .. } ==> service == s.index
            && Some(image@) == stable_image(s, s.services@[service as int].name@),
        a matches RollbackAction::PullImage { image, .. } ==> Some(image@) == stable_image(
            s,
            s.services@[s.index as int].name@,
        ),
{
    match (s.stage, e) {
        (RollbackStage::Parsing, RollbackEvent::Services(Ok(svcs))) => {
            lemma_next_restored(RollbackFlow { services: svcs, ..s }, 0);
        },
        (RollbackStage::Creating, RollbackEvent::Step(Ok(_))) => {
            lemma_next_restored(s, s.index + 1);
        },
        _ => {},
    }
}

/// A stack without a recorded stable version is not rolled back.
pub proof fn law_rollback_needs_a_stable_version(
    s: RollbackFlow,
    loaded: StackInfo,
    t: RollbackFlow,
    a: RollbackAction,
)
    requires
        s.stage == RollbackStage::Loading,
        loaded.last_stable_images is None,
        rollback_next(s, RollbackEvent::Stack(Ok(loaded)), t, a),
    ensures
        t.stage == RollbackStage::Finished,
        a matches RollbackAction::Finish(Err(AppError::BadRequest(m))) && m@
            == "No stable version available for rollback"@,
{
}

} // verus!
