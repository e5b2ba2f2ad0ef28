//! Building the services of a stack: for each selected service of its
//! compose file, its image is built (from the Git checkout) or pulled, its
//! environment merged with the stored variables, its resource limits
//! applied, the containers it replaces stopped and removed, and its new
//! container created. The runtime and the stores are driven by the caller,
//! which performs each action and reports its outcome.
use vstd::prelude::*;
use crate::backend::services::container::ContainerInfo;
use crate::backend::usecase::stack::{ids_named, of_stack, ImageSource, StackUsecase};
use crate::env::{env_views, merge_env, merged_env};
use crate::error::AppError;
use crate::json::views;
use crate::naming::service_container;

verus! {

/// A service of a stack's compose file, as the compose parser gives it:
/// its name, the image of its container, its build (context and Dockerfile)
/// if it declares one, and the environment of its container.
#[derive(Debug)]
pub struct ComposeService {
    pub name: String,
    pub image: String,
    pub build: Option<(String, String)>,
    pub env: Option<Vec<String>>,
}

/// Where a build stands.
#[derive(Debug, Clone, Copy, PartialEq, Eq, Structural)]
pub enum BuildStage {
    Preparing,
    LoadingEnv,
    Limiting,
    Listing,
    Stopping,
    Removing,
    Creating,
    Finished,
}

/// A build of the services of stack `stack_id` (named `stack_name`, of team
/// `team_id`); `base_path` is the Git checkout of a Git stack, `target` the
/// one service to build, if any. At service `index`: its merged `env`, the
/// containers it `replaced`, the one at `k` being handled.
pub struct BuildFlow {
    pub stack_id: String,
    pub stack_name: String,
    pub team_id: String,
    pub base_path: Option<String>,
    pub target: Option<String>,
    pub services: Vec<ComposeService>,
    pub index: usize,
    pub env: Option<Vec<String>>,
    pub replaced: Vec<String>,
    pub k: usize,
    pub stage: BuildStage,
}

/// The outcome of the last action.
pub enum BuildEvent {
    Step(Result<(), AppError>),
    /// The variables stored for the service (none when they cannot be read).
    ServiceEnv(Vec<(String, String)>),
    /// All containers of the runtime, stopped ones included.
    Containers(Result<Vec<ContainerInfo>, AppError>),
    Ignored,
}

/// What the caller does next.
pub enum BuildAction {
    /// Build the image of service `service` from `context_path` with
    /// `dockerfile`, publishing the build log.
    BuildImage { service: usize, image: String, context_path: String, dockerfile: String },
    /// Pull `image` with the team's registry credentials for it.
    PullImage { team_id: String, image: String },
    LoadEnv { stack_id: String, service: String },
    /// Apply the stored resource limits of the service to its container.
    ApplyLimits { stack_id: String, service: String },
    ListContainers,
    /// Best effort.
    StopContainer { id: String },
    /// Best effort, forcibly.
    RemoveContainer { id: String },
    /// Create the container of service `service` with environment `env`.
    CreateContainer { service: usize, env: Option<Vec<String>> },
    Finish(Result<(), AppError>),
}

/// The service is built: every service when no target is named, else the
/// one named by its own name or by `<stack>-<service>`.
pub open spec fn selected(name: Seq<char>, stack_name: Seq<char>, target: Option<String>) -> bool {
    match target {
        None => true,
        Some(t) => name == t@ || stack_name + "-"@ + name == t@,
    }
}

/// The first selected service from `i` on, or the number of services.
pub open spec fn next_selected(f: BuildFlow, i: int) -> int
    decreases f.services@.len() - i,
{
    if i >= f.services@.len() {
        f.services@.len() as int
    } else if selected(f.services@[i].name@, f.stack_name@, f.target) {
        i
    } else {
        next_selected(f, i + 1)
    }
}

/// The message of a service with a build but no checkout to build from.
pub open spec fn no_base_message(service: Seq<char>) -> Seq<char> {
    "Service '"@ + service
        + "' specifies a build context but no base path is provided (is this a Git stack?)"@
}

/// Going on with the first selected service from `i` on: building its image
/// from the checkout, or pulling it; a build without a checkout fails; with
/// no service left, the build succeeds.
pub open spec fn begin_service(f: BuildFlow, i: int, t: BuildFlow, a: BuildAction) -> bool {
    let j = next_selected(f, i);
    if j >= f.services@.len() {
        t == (BuildFlow { stage: BuildStage::Finished, ..f }) && a == BuildAction::Finish(Ok(()))
    } else {
        let svc = f.services@[j];
        match svc.build {
            None => t.index == j && t == (BuildFlow {
                index: t.index,
                stage: BuildStage::Preparing,
                ..f
            }) && a == (BuildAction::PullImage { team_id: f.team_id, image: svc.image }),
            Some((context, dockerfile)) => match f.base_path {
                Some(base) => {
                    &&& t.index == j
                    &&& t == (BuildFlow { index: t.index, stage: BuildStage::Preparing, ..f })
                    &&& a matches BuildAction::BuildImage {
                        service,
                        image,
                        context_path,
                        dockerfile: d,
                    }
                    &&& service == j
                    &&& image == svc.image
                    &&& context_path@ == base@ + "/"@ + context@
                    &&& d@ == dockerfile@
                },
                None => t == (BuildFlow { stage: BuildStage::Finished, ..f }) && (a matches BuildAction::Finish(
                    Err(AppError::BadRequest(m)),
                ) && m@ == no_base_message(svc.name@)),
            },
        }
    }
}

/// The ids of the containers a service replaces: those of the stack named
/// `/<stack>-<service>`.
pub open spec fn replaced_ids(f: BuildFlow, cs: Seq<ContainerInfo>) -> Seq<Seq<char>> {
    ids_named(
        cs.filter(of_stack(f.stack_id@)),
        service_container(f.stack_name@, f.services@[f.index as int].name@),
    )
}

/// Creating the current service's container.
pub open spec fn creating(s: BuildFlow, t: BuildFlow, a: BuildAction) -> bool {
    t == (BuildFlow { stage: BuildStage::Creating, env: None, ..s }) && a == (BuildAction::CreateContainer {
        service: s.index,
        env: s.env,
    })
}

/// Which outcome each stage waits for.
pub open spec fn build_accepts(stage: BuildStage, e: BuildEvent) -> bool {
    match stage {
        BuildStage::LoadingEnv => e is ServiceEnv,
        BuildStage::Listing => e is Containers,
        BuildStage::Stopping | BuildStage::Removing => e is Ignored,
        BuildStage::Finished => false,
        _ => e is Step,
    }
}

/// One step of a build.
pub open spec fn build_next(s: BuildFlow, e: BuildEvent, t: BuildFlow, a: BuildAction) -> bool {
    let svc = s.services@[s.index as int];
    match s.stage {
        BuildStage::Preparing => match e {
            BuildEvent::Step(Err(err)) => t.stage == BuildStage::Finished && a == BuildAction::Finish(
                Err(err),
            ),
            BuildEvent::Step(Ok(())) => t == (BuildFlow { stage: BuildStage::LoadingEnv, ..s }) && a
                == (BuildAction::LoadEnv { stack_id: s.stack_id, service: svc.name }),
            _ => false,
        },
        BuildStage::LoadingEnv => match e {
            BuildEvent::ServiceEnv(vars) => {
                &&& t == (BuildFlow { stage: BuildStage::Limiting, env: t.env, ..s })
                &&& match t.env {
                    Some(e2) => merged_env(
                        match svc.env {
                            Some(d) => Some(env_views(d@)),
                            None => None,
                        },
                        vars@,
                    ) == Some(env_views(e2@)),
                    None => merged_env(
                        match svc.env {
                            Some(d) => Some(env_views(d@)),
                            None => None,
                        },
                        vars@,
                    ) is None,
                }
                &&& a == (BuildAction::ApplyLimits { stack_id: s.stack_id, service: svc.name })
            },
            _ => false,
        },
        BuildStage::Limiting => match e {
            BuildEvent::Step(Err(err)) => t.stage == BuildStage::Finished && a == BuildAction::Finish(
                Err(err),
            ),
            BuildEvent::Step(Ok(())) => t == (BuildFlow { stage: BuildStage::Listing, ..s }) && a
                == BuildAction::ListContainers,
            _ => false,
        },
        BuildStage::Listing => match e {
            BuildEvent::Containers(Err(err)) => t.stage == BuildStage::Finished && a
                == BuildAction::Finish(Err(err)),
            BuildEvent::Containers(Ok(cs)) => {
                let s2 = BuildFlow { replaced: t.replaced, k: 0, ..s };
                &&& views(t.replaced@) == replaced_ids(s, cs@)
                &&& if t.replaced@.len() > 0 {
                    t == (BuildFlow { stage: BuildStage::Stopping, ..s2 }) && a
                        == (BuildAction::StopContainer { id: t.replaced@[0] })
                } else {
                    creating(s2, t, a)
                }
            },
            _ => false,
        },
        BuildStage::Stopping => t == (BuildFlow { stage: BuildStage::Removing, ..s }) && a == (
        BuildAction::RemoveContainer { id: s.replaced@[s.k as int] }),
        BuildStage::Removing => if s.k + 1 < s.replaced@.len() {
            t == (BuildFlow { stage: BuildStage::Stopping, k: (s.k + 1) as usize, ..s }) && a == (
            BuildAction::StopContainer { id: s.replaced@[s.k + 1] })
        } else {
            creating(s, t, a)
        },
        BuildStage::Creating => match e {
            BuildEvent::Step(Err(err)) => t.stage == BuildStage::Finished && a == BuildAction::Finish(
                Err(err),
            ),
            BuildEvent::Step(Ok(())) => begin_service(s, s.index + 1, t, a),
            _ => false,
        },
        BuildStage::Finished => false,
    }
}

impl BuildFlow {
    /// Past the start the current service exists and is selected; while
    /// replacing, the container at `k` is one of those replaced.
    pub open spec fn wf(self) -> bool {
        &&& self.stage != BuildStage::Finished ==> {
            &&& self.index < self.services@.len()
            &&& selected(self.services@[self.index as int].name@, self.stack_name@, self.target)
        }
        &&& (self.stage == BuildStage::Stopping || self.stage == BuildStage::Removing) ==> self.k
            < self.replaced@.len()
    }
}

/// A copy of a list of strings.
pub fn copy_strings(v: &Vec<String>) -> (r: Vec<String>)
    ensures
        r@ == v@,
{
    let mut r: Vec<String> = Vec::new();
    let mut i: usize = 0;
    while i < v.len()
        invariant
            i <= v.len(),
            r@ == v@.subrange(0, i as int),
        decreases v.len() - i,
    {
        r.push(v[i].clone());
        proof {
            assert(r@ =~= v@.subrange(0, i + 1));
        }
        i = i + 1;
    }
    proof {
        assert(v@.subrange(0, v.len() as int) =~= v@);
    }
    r
}

impl BuildFlow {
    fn next_selected_from(&self, i: usize) -> (j: usize)
        requires
            i <= self.services@.len(),
        ensures
            j == next_selected(*self, i as int),
    {
        let mut j = i;
        while j < self.services.len()
            invariant
                i <= j <= self.services@.len(),
                next_selected(*self, i as int) == next_selected(*self, j as int),
            decreases self.services@.len() - j,
        {
            let target = match &self.target {
                Some(t) => Some(t.as_str()),
                None => None,
            };
            if StackUsecase::service_selected(
                self.services[j].name.as_str(),
                self.stack_name.as_str(),
                target,
            ) {
                return j;
            }
            j = j + 1;
        }
        j
    }

    fn begin(self, i: usize) -> (r: (BuildFlow, BuildAction))
        requires
            i <= self.services@.len(),
        ensures
            begin_service(self, i as int, r.0, r.1),
    {
        let j = self.next_selected_from(i);
        if j >= self.services.len() {
            return (BuildFlow { stage: BuildStage::Finished, ..self }, BuildAction::Finish(Ok(())));
        }
        let svc = &self.services[j];
        let build = match &svc.build {
            Some((c, d)) => Some((c.as_str(), d.as_str())),
            None => None,
        };
        let base = match &self.base_path {
            Some(b) => Some(b.as_str()),
            None => None,
        };
        match StackUsecase::image_source(svc.name.as_str(), build, base) {
            Ok(ImageSource::Pull) => {
                let a = BuildAction::PullImage { team_id: self.team_id.clone(), image: svc.image.clone() };
                (BuildFlow { index: j, stage: BuildStage::Preparing, ..self }, a)
            },
            Ok(ImageSource::Build { context_path, dockerfile }) => {
                let a = BuildAction::BuildImage {
                    service: j,
                    image: svc.image.clone(),
                    context_path,
                    dockerfile,
                };
                (BuildFlow { index: j, stage: BuildStage::Preparing, ..self }, a)
            },
            Err(err) => (BuildFlow { stage: BuildStage::Finished, ..self }, BuildAction::Finish(Err(err))),
        }
    }

    fn create(self) -> (r: (BuildFlow, BuildAction))
        ensures
            creating(self, r.0, r.1),
    {
        let mut flow = self;
        let env = flow.env.take();
        let a = BuildAction::CreateContainer { service: flow.index, env };
        (BuildFlow { stage: BuildStage::Creating, ..flow }, a)
    }

    /// Whether the flow waits for an outcome like `e`.
    pub fn accepts_event(&self, e: &BuildEvent) -> (r: bool)
        ensures
            r == build_accepts(self.stage, *e),
    {
        match self.stage {
            BuildStage::LoadingEnv => matches!(e, BuildEvent::ServiceEnv(_)),
            BuildStage::Listing => matches!(e, BuildEvent::Containers(_)),
            BuildStage::Stopping | BuildStage::Removing => matches!(e, BuildEvent::Ignored),
            BuildStage::Finished => false,
            _ => matches!(e, BuildEvent::Step(_)),
        }
    }

    /// Takes the outcome `e` of the last action and gives the next flow and
    /// action.
    pub fn step(self, e: BuildEvent) -> (r: (BuildFlow, BuildAction))
        requires
            self.wf(),
            build_accepts(self.stage, e),
        ensures
            build_next(self, e, r.0, r.1),
    {
        match self.stage {
            BuildStage::Preparing => match e {
                BuildEvent::Step(Err(err)) => (
                    BuildFlow { stage: BuildStage::Finished, ..self },
                    BuildAction::Finish(Err(err)),
                ),
                BuildEvent::Step(Ok(())) => {
                    let a = BuildAction::LoadEnv {
                        stack_id: self.stack_id.clone(),
                        service: self.services[self.index].name.clone(),
                    };
                    (BuildFlow { stage: BuildStage::LoadingEnv, ..self }, a)
                },
                _ => {
                    proof {
                        assert(false);
                    }
                    (self, BuildAction::ListContainers)
                },
            },
            BuildStage::LoadingEnv => match e {
                BuildEvent::ServiceEnv(vars) => {
                    let declared = match &self.services[self.index].env {
                        Some(d) => Some(copy_strings(d)),
                        None => None,
                    };
                    let env = merge_env(declared, &vars);
                    let a = BuildAction::ApplyLimits {
                        stack_id: self.stack_id.clone(),
                        service: self.services[self.index].name.clone(),
                    };
                    (BuildFlow { stage: BuildStage::Limiting, env, ..self }, a)
                },
                _ => {
                    proof {
                        assert(false);
                    }
                    (self, BuildAction::ListContainers)
                },
            },
            BuildStage::Limiting => match e {
                BuildEvent::Step(Err(err)) => (
                    BuildFlow { stage: BuildStage::Finished, ..self },
                    BuildAction::Finish(Err(err)),
                ),
                BuildEvent::Step(Ok(())) => (
                    BuildFlow { stage: BuildStage::Listing, ..self },
                    BuildAction::ListContainers,
                ),
                _ => {
                    proof {
                        assert(false);
                    }
                    (self, BuildAction::ListContainers)
                },
            },
            BuildStage::Listing => match e {
                BuildEvent::Containers(Err(err)) => (
                    BuildFlow { stage: BuildStage::Finished, ..self },
                    BuildAction::Finish(Err(err)),
                ),
                BuildEvent::Containers(Ok(cs)) => {
                    let ours = StackUsecase::stack_containers(cs, self.stack_id.as_str());
                    let replaced = StackUsecase::replaced_containers(
                        &ours,
                        self.stack_name.as_str(),
                        self.services[self.index].name.as_str(),
                    );
                    if replaced.len() > 0 {
                        let a = BuildAction::StopContainer { id: replaced[0].clone() };
                        (BuildFlow { stage: BuildStage::Stopping, replaced, k: 0, ..self }, a)
                    } else {
                        BuildFlow { replaced, k: 0, ..self }.create()
                    }
                },
                _ => {
                    proof {
                        assert(false);
                    }
                    (self, BuildAction::ListContainers)
                },
            },
            BuildStage::Stopping => {
                let a = BuildAction::RemoveContainer { id: self.replaced[self.k].clone() };
                (BuildFlow { stage: BuildStage::Removing, ..self }, a)
            },
            BuildStage::Removing => {
                let n = self.replaced.len();
                if self.k + 1 < n {
                    let k = self.k + 1;
                    let a = BuildAction::StopContainer { id: self.replaced[k].clone() };
                    (BuildFlow { stage: BuildStage::Stopping, k, ..self }, a)
                } else {
                    self.create()
                }
            },
            BuildStage::Creating => match e {
                BuildEvent::Step(Err(err)) => (
                    BuildFlow { stage: BuildStage::Finished, ..self },
                    BuildAction::Finish(Err(err)),
                ),
                BuildEvent::Step(Ok(())) => {
                    let n = self.services.len();
                    assert(self.index < n);
                    let next = self.index + 1;
                    self.begin(next)
                },
                _ => {
                    proof {
                        assert(false);
                    }
                    (self, BuildAction::ListContainers)
                },
            },
            BuildStage::Finished => {
                proof {
                    assert(false);
                }
                (self, BuildAction::ListContainers)
            },
        }
    }
}

impl StackUsecase {
    /// Starts building the services of stack `stack_id` (named `stack_name`,
    /// of team `team_id`) parsed from its compose file; `base_path` is its
    /// Git checkout, if any; `target` the one service to build, if any.
    pub fn build_stack_services(
        stack_id: &str,
        stack_name: &str,
        team_id: &str,
        services: Vec<ComposeService>,
        base_path: Option<&str>,
        target: Option<&str>,
    ) -> (r: (BuildFlow, BuildAction))
        ensures
            r.0.stack_id@ == stack_id@,
            r.0.stack_name@ == stack_name@,
            r.0.team_id@ == team_id@,
            r.0.services == services,
            match base_path {
                Some(b) => r.0.base_path matches Some(p) && p@ == b@,
                None => r.0.base_path is None,
            },
            match target {
                Some(x) => r.0.target matches Some(y) && y@ == x@,
                None => r.0.target is None,
            },
            begin_service(
                BuildFlow { index: 0, stage: BuildStage::Preparing, ..r.0 },
                0,
                r.0,
                r.1,
            ),
            r.0.env is None,
            r.0.k == 0,
            r.0.replaced@.len() == 0,
    {
        let flow = BuildFlow {
            stack_id: stack_id.to_owned(),
            stack_name: stack_name.to_owned(),
            team_id: team_id.to_owned(),
            base_path: match base_path {
                Some(b) => Some(b.to_owned()),
                None => None,
            },
            target: match target {
                Some(x) => Some(x.to_owned()),
                None => None,
            },
            services,
            index: 0,
            env: None,
            replaced: Vec::new(),
            k: 0,
            stage: BuildStage::Preparing,
        };
        flow.begin(0)
    }
}

proof fn lemma_next_selected(f: BuildFlow, i: int)
    requires
        0 <= i <= f.services@.len(),
    ensures
        i <= next_selected(f, i) <= f.services@.len(),
        next_selected(f, i) < f.services@.len() ==> selected(
            f.services@[next_selected(f, i)].name@,
            f.stack_name@,
            f.target,
        ),
    decreases f.services@.len() - i,
{
    if i < f.services@.len() && !selected(f.services@[i].name@, f.stack_name@, f.target) {
        lemma_next_selected(f, i + 1);
    }
}

/// Every step of a build keeps its invariant; only selected services are
/// built, pulled, or get a container, and a service's container is created
/// only after the containers it replaces were stopped and removed.
pub proof fn law_build_works_only_on_selected_services(
    s: BuildFlow,
    e: BuildEvent,
    t: BuildFlow,
    a: BuildAction,
)
    requires
        s.wf(),
        build_accepts(s.stage, e),
        build_next(s, e, t, a),
    ensures
        t.wf(),
        a matches BuildAction::BuildImage { service, .. } ==> selected(
            s.services@[service as int].name@,
            s.stack_name@,
            s.target,
        ),
        a matches BuildAction::CreateContainer { service, .. } ==> service == s.index
            && selected(s.services@[service as int].name@, s.stack_name@, s.target),
        a is CreateContainer ==> s.stage == BuildStage::Listing || (s.stage == BuildStage::Removing
            && s.k + 1 >= s.replaced@.len()),
{
    if s.stage == BuildStage::Creating && s.index + 1 <= s.services@.len() {
        lemma_next_selected(s, s.index + 1);
    }
}

/// Starting a build selects the first selected service.
pub proof fn law_build_starts_at_first_selected(f: BuildFlow, t: BuildFlow, a: BuildAction)
    requires
        begin_service(f, 0, t, a),
    ensures
        t.stage != BuildStage::Finished ==> t.wf() && t.index == next_selected(f, 0),
{
    lemma_next_selected(f, 0);
}

} // verus!
