//! Deploying a project: replacing its container by a fresh one of its image
//! with its environment, recording it and routing `<slug>.<base domain>` to
//! it; stopping and restarting it. The store, the runtime and the proxy are
//! driven by the caller, which performs each action and reports its outcome.
use vstd::prelude::*;
use crate::error::AppError;
use crate::json::{parsed_object_members, read_object_members};
use crate::server::models::project::Project;
use crate::server::services::container::CreateContainerRequest;
use crate::text::{chars_of, concat2, concat3, decimal, decimal_string, push_str, string_of};

verus! {

/// Deployment of projects; routes go to `<slug>.<base_domain>`.
pub struct DeployService {
    pub base_domain: String,
}

/// Which operation a flow performs.
#[derive(Debug, Clone, Copy, PartialEq, Eq, Structural)]
pub enum DeployOp {
    Deploy,
    Stop,
    Restart,
}

/// Where an operation stands.
#[derive(Debug, Clone, Copy, PartialEq, Eq, Structural)]
pub enum DeployStage {
    Loading,
    StoppingOld,
    RemovingOld,
    Pulling,
    Creating,
    Starting,
    Stopping,
    Restarting,
    Recording,
    Routing,
    Unrouting,
    Reloading,
    Finished,
}

/// An operation on project `project_id` on behalf of user `user_id`;
/// `project` is the project once loaded, `container_id` the container the
/// operation works on.
pub struct DeployFlow {
    pub op: DeployOp,
    pub project_id: String,
    pub user_id: String,
    pub base_domain: String,
    pub project: Option<Project>,
    pub container_id: Option<String>,
    pub stage: DeployStage,
}

/// The outcome of the last action.
pub enum DeployEvent {
    Project(Result<Project, AppError>),
    Step(Result<(), AppError>),
    ContainerId(Result<String, AppError>),
    Ignored,
}

/// What the caller does next.
pub enum DeployAction {
    /// Read project `project_id` of user `user_id`.
    GetProject { project_id: String, user_id: String },
    /// Stop the container; best effort when replacing it.
    StopContainer { id: String },
    /// Best effort: remove the container, forcibly.
    RemoveContainer { id: String },
    PullImage { image: String },
    CreateContainer { request: CreateContainerRequest },
    StartContainer { id: String },
    RestartContainer { id: String },
    /// Record the status and container of the project.
    UpdateStatus { project_id: String, status: String, container_id: String },
    /// Best effort: route `domain` to `upstream`.
    AddRoute { domain: String, upstream: String },
    /// Best effort: remove the route of `domain`.
    RemoveRoute { domain: String },
    Finish(Result<Project, AppError>),
}

/// The `KEY=value` entries of a project's environment text: each member of
/// the JSON object with its string value (empty for other values); none
/// when the text is not a JSON object.
pub open spec fn env_entries(env_vars: Option<String>) -> Option<Seq<Seq<char>>> {
    match env_vars {
        None => None,
        Some(text) => match parsed_object_members(text@) {
            None => None,
            Some(ms) => Some(
                ms.map_values(
                    |m: (Seq<char>, Option<Seq<char>>)|
                        m.0 + "="@ + match m.1 {
                            Some(v) => v,
                            None => Seq::empty(),
                        },
                ),
            ),
        },
    }
}

/// The container of a project: `labuh-<slug>`.
pub open spec fn project_container(slug: Seq<char>) -> Seq<char> {
    "labuh-"@ + slug
}

/// The domain of a project: `<slug>.<base domain>`.
pub open spec fn project_domain(slug: Seq<char>, base: Seq<char>) -> Seq<char> {
    slug + "."@ + base
}

/// The creation request of a project's container: named after its slug, of
/// its image, with its environment, without ports or volumes.
pub open spec fn deploy_request_ok(r: CreateContainerRequest, p: Project) -> bool {
    &&& r.name@ == project_container(p.slug@)
    &&& r.image == p.image->0
    &&& match env_entries(p.env_vars) {
        None => r.env is None,
        Some(es) => r.env matches Some(v) && crate::json::views(v@) == es,
    }
    &&& r.ports is None
    &&& r.volumes is None
}

/// Reading the project again, to end with it.
pub open spec fn reloading(s: DeployFlow, t: DeployFlow, a: DeployAction) -> bool {
    t == (DeployFlow { stage: DeployStage::Reloading, ..s }) && a == (DeployAction::GetProject {
        project_id: s.project_id,
        user_id: s.user_id,
    })
}

/// Ending with result `r`.
pub open spec fn deploy_ends(t: DeployFlow, a: DeployAction, r: Result<Project, AppError>) -> bool {
    t.stage == DeployStage::Finished && a == DeployAction::Finish(r)
}

/// Removing the project's route.
pub open spec fn unrouting(s: DeployFlow, t: DeployFlow, a: DeployAction) -> bool {
    &&& t == (DeployFlow { stage: DeployStage::Unrouting, ..s })
    &&& a matches DeployAction::RemoveRoute { domain }
    &&& domain@ == project_domain(s.project->0.slug@, s.base_domain@)
}

/// Pulling the project's image.
pub open spec fn pulling(s: DeployFlow, t: DeployFlow, a: DeployAction) -> bool {
    t == (DeployFlow { stage: DeployStage::Pulling, ..s }) && a == (DeployAction::PullImage {
        image: s.project->0.image->0,
    })
}

/// Which outcome each stage waits for.
pub open spec fn deploy_accepts(stage: DeployStage, e: DeployEvent) -> bool {
    match stage {
        DeployStage::Loading | DeployStage::Reloading => e is Project,
        DeployStage::StoppingOld | DeployStage::RemovingOld | DeployStage::Routing
        | DeployStage::Unrouting => e is Ignored,
        DeployStage::Creating => e is ContainerId,
        DeployStage::Finished => false,
        _ => e is Step,
    }
}

/// One step of an operation. Deploying: a project needs an image; its old
/// container is stopped and removed (best effort), the image pulled, a new
/// container created and started, the project recorded as running with it,
/// and, when it has a port, `<slug>.<base>` routed to `labuh-<slug>:<port>`.
/// Stopping: its container (if any) is stopped and the project recorded as
/// stopped, then its route removed. Restarting: its container is restarted
/// and the project recorded as running; without a container it fails. Every
/// operation ends with the project read again; any failed required step ends
/// it with that failure.
pub open spec fn deploy_next(s: DeployFlow, e: DeployEvent, t: DeployFlow, a: DeployAction) -> bool {
    let p = s.project->0;
    match s.stage {
        DeployStage::Loading => match e {
            DeployEvent::Project(Err(err)) => deploy_ends(t, a, Err(err)),
            DeployEvent::Project(Ok(loaded)) => {
                let s2 = DeployFlow { project: Some(loaded), ..s };
                match s.op {
                    DeployOp::Deploy => if loaded.image is None {
                        t.stage == DeployStage::Finished && (a matches DeployAction::Finish(
                            Err(AppError::Validation(m)),
                        ) && m@ == "Project must have an image configured"@)
                    } else {
                        match loaded.container_id {
                            Some(cid) => t == (DeployFlow {
                                stage: DeployStage::StoppingOld,
                                container_id: Some(cid),
                                ..s2
                            }) && a == (DeployAction::StopContainer { id: cid }),
                            None => pulling(s2, t, a),
                        }
                    },
                    DeployOp::Stop => match loaded.container_id {
                        Some(cid) => t == (DeployFlow {
                            stage: DeployStage::Stopping,
                            container_id: Some(cid),
                            ..s2
                        }) && a == (DeployAction::StopContainer { id: cid }),
                        None => unrouting(s2, t, a),
                    },
                    DeployOp::Restart => match loaded.container_id {
                        Some(cid) => t == (DeployFlow {
                            stage: DeployStage::Restarting,
                            container_id: Some(cid),
                            ..s2
                        }) && a == (DeployAction::RestartContainer { id: cid }),
                        None => t.stage == DeployStage::Finished && (a matches DeployAction::Finish(
                            Err(AppError::Validation(m)),
                        ) && m@ == "Project has no container to restart"@),
                    },
                }
            },
            _ => false,
        },
        DeployStage::StoppingOld => t == (DeployFlow { stage: DeployStage::RemovingOld, ..s }) && a
            == (DeployAction::RemoveContainer { id: s.container_id->0 }),
        DeployStage::RemovingOld => pulling(s, t, a),
        DeployStage::Pulling => match e {
            DeployEvent::Step(Err(err)) => deploy_ends(t, a, Err(err)),
            DeployEvent::Step(Ok(())) => {
                &&& t == (DeployFlow { stage: DeployStage::Creating, ..s })
                &&& a matches DeployAction::CreateContainer { request }
                &&& deploy_request_ok(request, p)
            },
            _ => false,
        },
        DeployStage::Creating => match e {
            DeployEvent::ContainerId(Err(err)) => deploy_ends(t, a, Err(err)),
            DeployEvent::ContainerId(Ok(cid)) => t == (DeployFlow {
                stage: DeployStage::Starting,
                container_id: Some(cid),
                ..s
            }) && a == (DeployAction::StartContainer { id: cid }),
            _ => false,
        },
        DeployStage::Starting | DeployStage::Stopping | DeployStage::Restarting => match e {
            DeployEvent::Step(Err(err)) => deploy_ends(t, a, Err(err)),
            DeployEvent::Step(Ok(())) => {
                &&& t == (DeployFlow { stage: DeployStage::Recording, ..s })
                &&& a matches DeployAction::UpdateStatus { project_id, status, container_id }
                &&& project_id == s.project_id
                &&& status@ == (if s.op == DeployOp::Stop {
                    "stopped"@
                } else {
                    "running"@
                })
                &&& container_id == s.container_id->0
            },
            _ => false,
        },
        DeployStage::Recording => match e {
            DeployEvent::Step(Err(err)) => deploy_ends(t, a, Err(err)),
            DeployEvent::Step(Ok(())) => match s.op {
                DeployOp::Deploy => match p.port {
                    Some(port) => {
                        &&& t == (DeployFlow { stage: DeployStage::Routing, ..s })
                        &&& a matches DeployAction::AddRoute { domain, upstream }
                        &&& domain@ == project_domain(p.slug@, s.base_domain@)
                        &&& upstream@ == project_container(p.slug@) + ":"@ + decimal(port as int)
                    },
                    None => reloading(s, t, a),
                },
                DeployOp::Stop => unrouting(s, t, a),
                DeployOp::Restart => reloading(s, t, a),
            },
            _ => false,
        },
        DeployStage::Routing | DeployStage::Unrouting => reloading(s, t, a),
        DeployStage::Reloading => match e {
            DeployEvent::Project(r) => deploy_ends(t, a, r),
            _ => false,
        },
        DeployStage::Finished => false,
    }
}

impl DeployFlow {
    /// What holds past the loading: the project is known; a deployment's
    /// project has an image; the container is known where it is worked on.
    pub open spec fn wf(self) -> bool {
        match self.stage {
            DeployStage::Loading | DeployStage::Finished => true,
            _ => {
                &&& self.project is Some
                &&& (self.op == DeployOp::Deploy ==> self.project->0.image is Some)
                &&& (self.stage == DeployStage::StoppingOld || self.stage == DeployStage::RemovingOld
                    || self.stage == DeployStage::Starting || self.stage == DeployStage::Stopping
                    || self.stage == DeployStage::Restarting || self.stage == DeployStage::Recording
                    ==> self.container_id is Some)
                &&& (self.stage == DeployStage::StoppingOld || self.stage == DeployStage::RemovingOld
                    || self.stage == DeployStage::Pulling || self.stage == DeployStage::Creating
                    || self.stage == DeployStage::Starting || self.stage == DeployStage::Routing
                    ==> self.op == DeployOp::Deploy)
                &&& (self.stage == DeployStage::Stopping || self.stage == DeployStage::Unrouting
                    ==> self.op == DeployOp::Stop)
                &&& (self.stage == DeployStage::Restarting ==> self.op == DeployOp::Restart)
            },
        }
    }
}

/// The `KEY=value` entries of a project's environment text.
pub fn env_list(env_vars: &Option<String>) -> (r: Option<Vec<String>>)
    ensures
        match env_entries(*env_vars) {
            None => r is None,
            Some(es) => r matches Some(v) && crate::json::views(v@) == es,
        },
{
    match env_vars {
        None => None,
        Some(text) => match read_object_members(text.as_str()) {
            None => None,
            Some(ms) => {
                let ghost parsed = parsed_object_members(text@)->0;
                let ghost want = env_entries(*env_vars)->0;
                let mut r: Vec<String> = Vec::new();
                let mut i: usize = 0;
                while i < ms.len()
                    invariant
                        i <= ms.len(),
                        ms@.len() == parsed.len(),
                        want == parsed.map_values(
                            |m: (Seq<char>, Option<Seq<char>>)|
                                m.0 + "="@ + match m.1 {
                                    Some(v) => v,
                                    None => Seq::empty(),
                                },
                        ),
                        forall|k: int|
                            0 <= k < ms@.len() ==> (#[trigger] ms@[k]).0@ == parsed[k].0 && match ms@[k].1 {
                                Some(v) => parsed[k].1 == Some(v@),
                                None => parsed[k].1 is None,
                            },
                        r@.len() == i,
                        forall|k: int| 0 <= k < i ==> (#[trigger] r@[k])@ == want[k],
                    decreases ms.len() - i,
                {
                    proof {
                        reveal_strlit("");
                        let _ = ms@[i as int];
                    }
                    let value = match &ms[i].1 {
                        Some(v) => v.clone(),
                        None => "".to_owned(),
                    };
                    r.push(concat3(ms[i].0.as_str(), "=", value.as_str()));
                    proof {
                        assert(want[i as int] == parsed[i as int].0 + "="@ + match parsed[i as int].1 {
                            Some(v) => v,
                            None => Seq::<char>::empty(),
                        });
                        assert(value@ == match parsed[i as int].1 {
                            Some(v) => v,
                            None => Seq::<char>::empty(),
                        });
                    }
                    i = i + 1;
                }
                proof {
                    assert(crate::json::views(r@) =~= want);
                }
                Some(r)
            },
        },
    }
}

impl DeployFlow {
    /// Whether the flow waits for an outcome like `e`.
    pub fn accepts_event(&self, e: &DeployEvent) -> (r: bool)
        ensures
            r == deploy_accepts(self.stage, *e),
    {
        match self.stage {
            DeployStage::Loading | DeployStage::Reloading => matches!(e, DeployEvent::Project(_)),
            DeployStage::StoppingOld | DeployStage::RemovingOld | DeployStage::Routing
            | DeployStage::Unrouting => matches!(e, DeployEvent::Ignored),
            DeployStage::Creating => matches!(e, DeployEvent::ContainerId(_)),
            DeployStage::Finished => false,
            _ => matches!(e, DeployEvent::Step(_)),
        }
    }

    fn reload(self) -> (r: (DeployFlow, DeployAction))
        ensures
            reloading(self, r.0, r.1),
    {
        let a = DeployAction::GetProject {
            project_id: self.project_id.clone(),
            user_id: self.user_id.clone(),
        };
        (DeployFlow { stage: DeployStage::Reloading, ..self }, a)
    }

    fn unroute(self) -> (r: (DeployFlow, DeployAction))
        requires
            self.project is Some,
        ensures
            unrouting(self, r.0, r.1),
    {
        let domain = match &self.project {
            Some(p) => concat3(p.slug.as_str(), ".", self.base_domain.as_str()),
            None => "".to_owned(),
        };
        (DeployFlow { stage: DeployStage::Unrouting, ..self }, DeployAction::RemoveRoute { domain })
    }

    fn pull(self) -> (r: (DeployFlow, DeployAction))
        requires
            self.project matches Some(p) && p.image is Some,
        ensures
            pulling(self, r.0, r.1),
    {
        let image = match &self.project {
            Some(p) => match &p.image {
                Some(i) => i.clone(),
                None => "".to_owned(),
            },
            None => "".to_owned(),
        };
        (DeployFlow { stage: DeployStage::Pulling, ..self }, DeployAction::PullImage { image })
    }

    /// Takes the outcome `e` of the last action and gives the next flow and
    /// action.
    pub fn step(self, e: DeployEvent) -> (r: (DeployFlow, DeployAction))
        requires
            self.wf(),
            deploy_accepts(self.stage, e),
        ensures
            deploy_next(self, e, r.0, r.1),
    {
        match self.stage {
            DeployStage::Loading => match e {
                DeployEvent::Project(Err(err)) => (
                    DeployFlow { stage: DeployStage::Finished, ..self },
                    DeployAction::Finish(Err(err)),
                ),
                DeployEvent::Project(Ok(loaded)) => {
                    let cid = match &loaded.container_id {
                        Some(c) => Some(c.clone()),
                        None => None,
                    };
                    let has_image = loaded.image.is_some();
                    let op = self.op;
                    let flow = DeployFlow { project: Some(loaded), ..self };
                    match op {
                        DeployOp::Deploy => if !has_image {
                            (
                                DeployFlow { stage: DeployStage::Finished, ..flow },
                                DeployAction::Finish(
                                    Err(AppError::Validation("Project must have an image configured".to_owned())),
                                ),
                            )
                        } else {
                            match cid {
                                Some(c) => {
                                    let a = DeployAction::StopContainer { id: c.clone() };
                                    (
                                        DeployFlow {
                                            stage: DeployStage::StoppingOld,
                                            container_id: Some(c),
                                            ..flow
                                        },
                                        a,
                                    )
                                },
                                None => flow.pull(),
                            }
                        },
                        DeployOp::Stop => match cid {
                            Some(c) => {
                                let a = DeployAction::StopContainer { id: c.clone() };
                                (
                                    DeployFlow { stage: DeployStage::Stopping, container_id: Some(c), ..flow },
                                    a,
                                )
                            },
                            None => flow.unroute(),
                        },
                        DeployOp::Restart => match cid {
                            Some(c) => {
                                let a = DeployAction::RestartContainer { id: c.clone() };
                                (
                                    DeployFlow {
                                        stage: DeployStage::Restarting,
                                        container_id: Some(c),
                                        ..flow
                                    },
                                    a,
                                )
                            },
                            None => (
                                DeployFlow { stage: DeployStage::Finished, ..flow },
                                DeployAction::Finish(
                                    Err(AppError::Validation("Project has no container to restart".to_owned())),
                                ),
                            ),
                        },
                    }
                },
                _ => {
                    proof {
                        assert(false);
                    }
                    (self, DeployAction::Finish(Err(AppError::Hash)))
                },
            },
            DeployStage::StoppingOld => {
                let id = match &self.container_id {
                    Some(c) => c.clone(),
                    None => "".to_owned(),
                };
                (DeployFlow { stage: DeployStage::RemovingOld, ..self }, DeployAction::RemoveContainer { id })
            },
            DeployStage::RemovingOld => self.pull(),
            DeployStage::Pulling => match e {
                DeployEvent::Step(Err(err)) => (
                    DeployFlow { stage: DeployStage::Finished, ..self },
                    DeployAction::Finish(Err(err)),
                ),
                DeployEvent::Step(Ok(())) => {
                    let request = match &self.project {
                        Some(p) => CreateContainerRequest {
                            name: concat2("labuh-", p.slug.as_str()),
                            image: match &p.image {
                                Some(i) => i.clone(),
                                None => "".to_owned(),
                            },
                            env: env_list(&p.env_vars),
                            ports: None,
                            volumes: None,
                        },
                        None => CreateContainerRequest {
                            name: "".to_owned(),
                            image: "".to_owned(),
                            env: None,
                            ports: None,
                            volumes: None,
                        },
                    };
                    (DeployFlow { stage: DeployStage::Creating, ..self }, DeployAction::CreateContainer { request })
                },
                _ => {
                    proof {
                        assert(false);
                    }
                    (self, DeployAction::Finish(Err(AppError::Hash)))
                },
            },
            DeployStage::Creating => match e {
                DeployEvent::ContainerId(Err(err)) => (
                    DeployFlow { stage: DeployStage::Finished, ..self },
                    DeployAction::Finish(Err(err)),
                ),
                DeployEvent::ContainerId(Ok(cid)) => {
                    let a = DeployAction::StartContainer { id: cid.clone() };
                    (DeployFlow { stage: DeployStage::Starting, container_id: Some(cid), ..self }, a)
                },
                _ => {
                    proof {
                        assert(false);
                    }
                    (self, DeployAction::Finish(Err(AppError::Hash)))
                },
            },
            DeployStage::Starting | DeployStage::Stopping | DeployStage::Restarting => match e {
                DeployEvent::Step(Err(err)) => (
                    DeployFlow { stage: DeployStage::Finished, ..self },
                    DeployAction::Finish(Err(err)),
                ),
                DeployEvent::Step(Ok(())) => {
                    let status = if self.op == DeployOp::Stop {
                        "stopped".to_owned()
                    } else {
                        "running".to_owned()
                    };
                    let a = DeployAction::UpdateStatus {
                        project_id: self.project_id.clone(),
                        status,
                        container_id: match &self.container_id {
                            Some(c) => c.clone(),
                            None => "".to_owned(),
                        },
                    };
                    (DeployFlow { stage: DeployStage::Recording, ..self }, a)
                },
                _ => {
                    proof {
                        assert(false);
                    }
                    (self, DeployAction::Finish(Err(AppError::Hash)))
                },
            },
            DeployStage::Recording => match e {
                DeployEvent::Step(Err(err)) => (
                    DeployFlow { stage: DeployStage::Finished, ..self },
                    DeployAction::Finish(Err(err)),
                ),
                DeployEvent::Step(Ok(())) => match self.op {
                    DeployOp::Deploy => {
                        let route = match &self.project {
                            Some(p) => match p.port {
                                Some(port) => {
                                    let domain = concat3(p.slug.as_str(), ".", self.base_domain.as_str());
                                    let mut up = chars_of("labuh-");
                                    push_str(&mut up, p.slug.as_str());
                                    push_str(&mut up, ":");
                                    let digits = decimal_string(port);
                                    push_str(&mut up, digits.as_str());
                                    Some((domain, string_of(&up)))
                                },
                                None => None,
                            },
                            None => None,
                        };
                        match route {
                            Some((domain, upstream)) => (
                                DeployFlow { stage: DeployStage::Routing, ..self },
                                DeployAction::AddRoute { domain, upstream },
                            ),
                            None => self.reload(),
                        }
                    },
                    DeployOp::Stop => self.unroute(),
                    DeployOp::Restart => self.reload(),
                },
                _ => {
                    proof {
                        assert(false);
                    }
                    (self, DeployAction::Finish(Err(AppError::Hash)))
                },
            },
            DeployStage::Routing | DeployStage::Unrouting => self.reload(),
            DeployStage::Reloading => match e {
                DeployEvent::Project(r) => (
                    DeployFlow { stage: DeployStage::Finished, ..self },
                    DeployAction::Finish(r),
                ),
                _ => {
                    proof {
                        assert(false);
                    }
                    (self, DeployAction::Finish(Err(AppError::Hash)))
                },
            },
            DeployStage::Finished => {
                proof {
                    assert(false);
                }
                (self, DeployAction::Finish(Err(AppError::Hash)))
            },
        }
    }
}

impl DeployService {
    pub fn new(base_domain: String) -> (s: DeployService)
        ensures
            s.base_domain == base_domain,
    {
        DeployService { base_domain }
    }

    fn start(&self, op: DeployOp, project_id: &str, user_id: &str) -> (r: (DeployFlow, DeployAction))
        ensures
            r.0.op == op,
            r.0.project_id@ == project_id@,
            r.0.user_id@ == user_id@,
            r.0.base_domain == self.base_domain,
            r.0.project is None,
            r.0.container_id is None,
            r.0.stage == DeployStage::Loading,
            r.0.wf(),
            r.1 == (DeployAction::GetProject { project_id: r.0.project_id, user_id: r.0.user_id }),
    {
        let flow = DeployFlow {
            op,
            project_id: project_id.to_owned(),
            user_id: user_id.to_owned(),
            base_domain: self.base_domain.clone(),
            project: None,
            container_id: None,
            stage: DeployStage::Loading,
        };
        let a = DeployAction::GetProject {
            project_id: flow.project_id.clone(),
            user_id: flow.user_id.clone(),
        };
        (flow, a)
    }

    /// Starts deploying project `project_id` of user `user_id`.
    pub fn deploy(&self, project_id: &str, user_id: &str) -> (r: (DeployFlow, DeployAction))
        ensures
            r.0.op == DeployOp::Deploy,
            r.0.project_id@ == project_id@,
            r.0.user_id@ == user_id@,
            r.0.base_domain == self.base_domain,
            r.0.stage == DeployStage::Loading,
            r.0.wf(),
            r.1 == (DeployAction::GetProject { project_id: r.0.project_id, user_id: r.0.user_id }),
    {
        self.start(DeployOp::Deploy, project_id, user_id)
    }

    /// Starts stopping project `project_id` of user `user_id`.
    pub fn stop(&self, project_id: &str, user_id: &str) -> (r: (DeployFlow, DeployAction))
        ensures
            r.0.op == DeployOp::Stop,
            r.0.project_id@ == project_id@,
            r.0.user_id@ == user_id@,
            r.0.base_domain == self.base_domain,
            r.0.stage == DeployStage::Loading,
            r.0.wf(),
            r.1 == (DeployAction::GetProject { project_id: r.0.project_id, user_id: r.0.user_id }),
    {
        self.start(DeployOp::Stop, project_id, user_id)
    }

    /// Starts restarting project `project_id` of user `user_id`.
    pub fn restart(&self, project_id: &str, user_id: &str) -> (r: (DeployFlow, DeployAction))
        ensures
            r.0.op == DeployOp::Restart,
            r.0.project_id@ == project_id@,
            r.0.user_id@ == user_id@,
            r.0.base_domain == self.base_domain,
            r.0.stage == DeployStage::Loading,
            r.0.wf(),
            r.1 == (DeployAction::GetProject { project_id: r.0.project_id, user_id: r.0.user_id }),
    {
        self.start(DeployOp::Restart, project_id, user_id)
    }
}

/// Every step keeps what holds of an operation at each stage.
pub proof fn law_deploy_step_keeps_wf(s: DeployFlow, e: DeployEvent, t: DeployFlow, a: DeployAction)
    requires
        s.wf(),
        deploy_accepts(s.stage, e),
        deploy_next(s, e, t, a),
    ensures
        t.wf(),
{
}

/// A deployment records the project as running only with the container it
/// just created and started, and routes the project only after that.
pub proof fn law_deploy_records_the_new_container(
    s: DeployFlow,
    e: DeployEvent,
    t: DeployFlow,
    a: DeployAction,
)
    requires
        s.wf(),
        s.op == DeployOp::Deploy,
        deploy_accepts(s.stage, e),
        deploy_next(s, e, t, a),
    ensures
        a is UpdateStatus ==> s.stage == DeployStage::Starting && e matches DeployEvent::Step(Ok(_)),
        a is AddRoute ==> s.stage == DeployStage::Recording && e matches DeployEvent::Step(Ok(_)),
        a is RemoveRoute ==> false,
{
}

} // verus!
