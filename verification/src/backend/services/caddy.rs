//! The reverse proxy of the backend: bringing up its container (with the
//! admin API published and a Caddyfile on the host), and the admin API calls
//! that add and remove routes. The runtime, the file system and the admin API
//! are driven by the caller, which performs each action and reports its
//! outcome.
use vstd::prelude::*;
use crate::backend::services::container::ContainerInfo;
use crate::backend::usecase::domain::{any_name_contains, some_name_contains};
use crate::error::AppError;
use crate::infra::{caddy_container, caddy_container_name, caddy_container_ok, caddy_image, ContainerSpec};
use crate::proxy::{
    caddyfile, fallback_admin_url, fallback_admin_url_of, find_route, first_route_for,
    generate_caddyfile, hosts_name, lemma_first_route_for, lemma_no_domain_route,
    lemma_remove_domain_route, routes_of_others, start_reload, CaddyRoute, HttpReply, ReloadAction,
    ReloadFlow, ReloadStage, auth_route_json, host_lists_of, read_host_lists, route_json,
    write_auth_route, write_route,
};
use crate::json::route_listing;
use crate::search::{first_index, lemma_first_index_at, lemma_first_index_none};
use crate::text::{chars_of, concat2, concat3, contains_sub, str_eq};

verus! {

/// The admin API client of the proxy, at `admin_api_url`.
pub struct CaddyService {
    pub admin_api_url: String,
}

/// The Caddyfile written when none exists on the host.
pub open spec fn fresh_caddyfile() -> Seq<char> {
    "{\n    admin 0.0.0.0:2019\n}\n\n:80 {\n    handle /api/* {\n        reverse_proxy labuh:3000\n    }\n\n    # Frontend fallback (Proxies to Labuh host-gateway for now)\n    handle {\n        reverse_proxy labuh:3000\n    }\n}\n"@
}

/// The Caddyfile written in place of a directory of that name.
pub open spec fn repaired_caddyfile() -> Seq<char> {
    "{\n    admin 0.0.0.0:2019\n}\n\n:80 {\n    handle /api/* {\n        reverse_proxy labuh:3000\n    }\n\n    handle {\n        reverse_proxy labuh:3000\n    }\n}\n"@
}

/// What the host's `Caddyfile` is.
#[derive(Debug, Clone, Copy, PartialEq, Eq, Structural)]
pub enum CaddyfileState {
    Missing,
    /// A file of size zero (or whose size cannot be read).
    Empty,
    /// A directory of that name.
    Directory,
    /// A non-empty file, or anything else.
    Present,
}

/// Where a bootstrap stands.
#[derive(Debug, Clone, Copy, PartialEq, Eq, Structural)]
pub enum BootstrapStage {
    Listing,
    StoppingOld,
    RemovingOld,
    StartingExisting,
    Pulling,
    CheckingCaddyfile,
    RemovingCaddyfileDir,
    WritingCaddyfile,
    Creating,
    StartingNew,
    Finished,
}

/// A bootstrap of the proxy container; `cwd` is the working directory the
/// Caddyfile lives in; `old_id` the container being replaced, if any.
pub struct BootstrapFlow {
    pub cwd: String,
    pub old_id: Option<String>,
    pub stage: BootstrapStage,
}

/// The outcome of the last action of a bootstrap.
pub enum BootstrapEvent {
    /// The containers of the runtime, stopped ones included.
    Containers(Result<Vec<ContainerInfo>, AppError>),
    /// An action that yields nothing succeeded or failed.
    Step(Result<(), AppError>),
    /// A best-effort action is over.
    Ignored,
    /// What the host's Caddyfile is.
    Caddyfile(CaddyfileState),
    /// A file system action, with the system's message on failure.
    Fs(Result<(), String>),
    /// The creation of the container, with the runtime's message on failure.
    Created(Result<(), String>),
}

/// What the caller does next in a bootstrap.
pub enum BootstrapAction {
    ListContainers,
    /// Best effort: stop the container.
    StopContainer { id: String },
    /// Best effort: remove the container, forcibly.
    RemoveContainer { id: String },
    StartContainer { id: String },
    PullImage { image: String },
    /// Find out what the host's Caddyfile is.
    InspectCaddyfile,
    /// Remove the directory that stands where the Caddyfile should.
    RemoveCaddyfileDir,
    /// Write the Caddyfile with `content`.
    WriteCaddyfile { content: String },
    CreateContainer { spec: ContainerSpec },
    Finish(Result<(), AppError>),
}

/// The container is the proxy: one of its names contains `labuh-caddy`.
pub open spec fn is_caddy(c: ContainerInfo) -> bool {
    some_name_contains(c.names@, caddy_container_name())
}

/// The container publishes the admin port 2019.
pub open spec fn has_admin_port(c: ContainerInfo) -> bool {
    exists|i: int| 0 <= i < c.ports@.len() && (#[trigger] c.ports@[i]).private_port == 2019
}

/// Selects proxy containers.
pub open spec fn caddy_pred() -> spec_fn(ContainerInfo) -> bool {
    |c: ContainerInfo| is_caddy(c)
}

/// Creating the proxy container.
pub open spec fn creating(s: BootstrapFlow, t: BootstrapFlow, a: BootstrapAction) -> bool {
    &&& t == (BootstrapFlow { stage: BootstrapStage::Creating, ..s })
    &&& a matches BootstrapAction::CreateContainer { spec }
    &&& caddy_container_ok(spec, s.cwd@, true)
}

/// Ends with result `r`.
pub open spec fn boot_ends(t: BootstrapFlow, a: BootstrapAction, r: Result<(), AppError>) -> bool {
    t.stage == BootstrapStage::Finished && a == BootstrapAction::Finish(r)
}

/// Ends with an internal error `prefix` + `msg`.
pub open spec fn boot_fails_internal(
    t: BootstrapFlow,
    a: BootstrapAction,
    prefix: Seq<char>,
    msg: Seq<char>,
) -> bool {
    t.stage == BootstrapStage::Finished && (a matches BootstrapAction::Finish(
        Err(AppError::Internal(m)),
    ) && m@ == prefix + msg)
}

/// Which outcome each stage waits for.
pub open spec fn boot_accepts(stage: BootstrapStage, e: BootstrapEvent) -> bool {
    match stage {
        BootstrapStage::Listing => e is Containers,
        BootstrapStage::StoppingOld => e is Ignored,
        BootstrapStage::RemovingOld => e is Ignored,
        BootstrapStage::StartingExisting => e is Step,
        BootstrapStage::Pulling => e is Step,
        BootstrapStage::CheckingCaddyfile => e is Caddyfile,
        BootstrapStage::RemovingCaddyfileDir => e is Fs,
        BootstrapStage::WritingCaddyfile => e is Fs,
        BootstrapStage::Creating => e is Created,
        BootstrapStage::StartingNew => e is Step,
        BootstrapStage::Finished => false,
    }
}

/// One step of a bootstrap: a running proxy with its admin port is kept; a
/// stopped one with it is started; one without it is stopped and removed and
/// a new one created, as when there is none: the image is pulled, a default
/// Caddyfile written when the host has none (or a directory in its place),
/// and the container created and started.
pub open spec fn boot_next(
    s: BootstrapFlow,
    e: BootstrapEvent,
    t: BootstrapFlow,
    a: BootstrapAction,
) -> bool {
    match s.stage {
        BootstrapStage::Listing => match e {
            BootstrapEvent::Containers(Err(err)) => boot_ends(t, a, Err(err)),
            BootstrapEvent::Containers(Ok(cs)) => match first_index(cs@, caddy_pred()) {
                None => t == (BootstrapFlow { stage: BootstrapStage::Pulling, ..s }) && (a matches BootstrapAction::PullImage { image } && image@ == caddy_image()),
                Some(i) => {
                    let c = cs@[i];
                    if c.state@ == "running"@ && has_admin_port(c) {
                        boot_ends(t, a, Ok(()))
                    } else if !has_admin_port(c) {
                        t == (BootstrapFlow {
                            stage: BootstrapStage::StoppingOld,
                            old_id: Some(c.id),
                            ..s
                        }) && a == (BootstrapAction::StopContainer { id: c.id })
                    } else {
                        t == (BootstrapFlow { stage: BootstrapStage::StartingExisting, ..s }) && a
                            == (BootstrapAction::StartContainer { id: c.id })
                    }
                },
            },
            _ => false,
        },
        BootstrapStage::StoppingOld => t == (BootstrapFlow {
            stage: BootstrapStage::RemovingOld,
            ..s
        }) && a == (BootstrapAction::RemoveContainer { id: s.old_id->0 }),
        BootstrapStage::RemovingOld => t == (BootstrapFlow {
            stage: BootstrapStage::Pulling,
            ..s
        }) && (a matches BootstrapAction::PullImage { image } && image@ == caddy_image()),
        BootstrapStage::StartingExisting | BootstrapStage::StartingNew => match e {
            BootstrapEvent::Step(r) => boot_ends(t, a, r),
            _ => false,
        },
        BootstrapStage::Pulling => match e {
            BootstrapEvent::Step(Err(err)) => boot_ends(t, a, Err(err)),
            BootstrapEvent::Step(Ok(())) => t == (BootstrapFlow {
                stage: BootstrapStage::CheckingCaddyfile,
                ..s
            }) && a == BootstrapAction::InspectCaddyfile,
            _ => false,
        },
        BootstrapStage::CheckingCaddyfile => match e {
            BootstrapEvent::Caddyfile(state) => match state {
                CaddyfileState::Missing | CaddyfileState::Empty => {
                    &&& t == (BootstrapFlow { stage: BootstrapStage::WritingCaddyfile, ..s })
                    &&& a matches BootstrapAction::WriteCaddyfile { content }
                    &&& content@ == fresh_caddyfile()
                },
                CaddyfileState::Directory => t == (BootstrapFlow {
                    stage: BootstrapStage::RemovingCaddyfileDir,
                    ..s
                }) && a == BootstrapAction::RemoveCaddyfileDir,
                CaddyfileState::Present => creating(s, t, a),
            },
            _ => false,
        },
        BootstrapStage::RemovingCaddyfileDir => match e {
            BootstrapEvent::Fs(Err(msg)) => boot_fails_internal(
                t,
                a,
                "Failed to remove Caddyfile directory: "@,
                msg@,
            ),
            BootstrapEvent::Fs(Ok(())) => {
                &&& t == (BootstrapFlow { stage: BootstrapStage::WritingCaddyfile, ..s })
                &&& a matches BootstrapAction::WriteCaddyfile { content }
                &&& content@ == repaired_caddyfile()
            },
            _ => false,
        },
        BootstrapStage::WritingCaddyfile => match e {
            BootstrapEvent::Fs(Err(msg)) => boot_fails_internal(
                t,
                a,
                "Failed to create default Caddyfile: "@,
                msg@,
            ),
            BootstrapEvent::Fs(Ok(())) => creating(s, t, a),
            _ => false,
        },
        BootstrapStage::Creating => match e {
            BootstrapEvent::Created(Err(msg)) => t.stage == BootstrapStage::Finished && (a matches BootstrapAction::Finish(
                Err(AppError::ContainerRuntime(m)),
            ) && m == msg),
            BootstrapEvent::Created(Ok(())) => t == (BootstrapFlow {
                stage: BootstrapStage::StartingNew,
                ..s
            }) && (a matches BootstrapAction::StartContainer { id } && id@
                == caddy_container_name()),
            _ => false,
        },
        BootstrapStage::Finished => false,
    }
}

impl BootstrapFlow {
    /// While the old container is stopped and removed, its id is known.
    pub open spec fn wf(self) -> bool {
        self.stage == BootstrapStage::StoppingOld || self.stage == BootstrapStage::RemovingOld
            ==> self.old_id is Some
    }
}

/// Whether the container publishes the admin port.
fn admin_port_of(c: &ContainerInfo) -> (r: bool)
    ensures
        r == has_admin_port(*c),
{
    let mut i: usize = 0;
    while i < c.ports.len()
        invariant
            i <= c.ports.len(),
            forall|k: int| 0 <= k < i ==> (#[trigger] c.ports@[k]).private_port != 2019,
        decreases c.ports.len() - i,
    {
        if c.ports[i].private_port == 2019 {
            return true;
        }
        i = i + 1;
    }
    false
}

/// The index of the first proxy container, if any.
pub fn find_caddy(cs: &Vec<ContainerInfo>) -> (r: Option<usize>)
    ensures
        match r {
            Some(i) => first_index(cs@, caddy_pred()) == Some(i as int) && i < cs@.len(),
            None => first_index(cs@, caddy_pred()) is None,
        },
{
    let name = chars_of("labuh-caddy");
    let mut i: usize = 0;
    while i < cs.len()
        invariant
            i <= cs.len(),
            name@ == caddy_container_name(),
            forall|k: int| 0 <= k < i ==> !(#[trigger] caddy_pred()(cs@[k])),
        decreases cs.len() - i,
    {
        if any_name_contains(&cs[i].names, &name) {
            proof {
                lemma_first_index_at(cs@, caddy_pred(), i as int);
            }
            return Some(i);
        }
        i = i + 1;
    }
    proof {
        lemma_first_index_none(cs@, caddy_pred());
    }
    None
}

impl BootstrapFlow {
    /// Whether the flow waits for an outcome like `e`.
    pub fn accepts_event(&self, e: &BootstrapEvent) -> (r: bool)
        ensures
            r == boot_accepts(self.stage, *e),
    {
        match self.stage {
            BootstrapStage::Listing => matches!(e, BootstrapEvent::Containers(_)),
            BootstrapStage::StoppingOld => matches!(e, BootstrapEvent::Ignored),
            BootstrapStage::RemovingOld => matches!(e, BootstrapEvent::Ignored),
            BootstrapStage::StartingExisting => matches!(e, BootstrapEvent::Step(_)),
            BootstrapStage::Pulling => matches!(e, BootstrapEvent::Step(_)),
            BootstrapStage::CheckingCaddyfile => matches!(e, BootstrapEvent::Caddyfile(_)),
            BootstrapStage::RemovingCaddyfileDir => matches!(e, BootstrapEvent::Fs(_)),
            BootstrapStage::WritingCaddyfile => matches!(e, BootstrapEvent::Fs(_)),
            BootstrapStage::Creating => matches!(e, BootstrapEvent::Created(_)),
            BootstrapStage::StartingNew => matches!(e, BootstrapEvent::Step(_)),
            BootstrapStage::Finished => false,
        }
    }

    fn create(self) -> (r: (BootstrapFlow, BootstrapAction))
        ensures
            creating(self, r.0, r.1),
    {
        let spec = caddy_container(self.cwd.as_str(), true);
        (BootstrapFlow { stage: BootstrapStage::Creating, ..self }, BootstrapAction::CreateContainer { spec })
    }

    /// Takes the outcome `e` of the last action and gives the next flow and
    /// action.
    pub fn step(self, e: BootstrapEvent) -> (r: (BootstrapFlow, BootstrapAction))
        requires
            self.wf(),
            boot_accepts(self.stage, e),
        ensures
            boot_next(self, e, r.0, r.1),
            r.0.wf(),
    {
        match self.stage {
            BootstrapStage::Listing => match e {
                BootstrapEvent::Containers(Err(err)) => (
                    BootstrapFlow { stage: BootstrapStage::Finished, ..self },
                    BootstrapAction::Finish(Err(err)),
                ),
                BootstrapEvent::Containers(Ok(cs)) => match find_caddy(&cs) {
                    None => (
                        BootstrapFlow { stage: BootstrapStage::Pulling, ..self },
                        BootstrapAction::PullImage { image: "caddy:2-alpine".to_owned() },
                    ),
                    Some(i) => {
                        let c = &cs[i];
                        let admin = admin_port_of(c);
                        if str_eq(c.state.as_str(), "running") && admin {
                            (
                                BootstrapFlow { stage: BootstrapStage::Finished, ..self },
                                BootstrapAction::Finish(Ok(())),
                            )
                        } else if !admin {
                            let id = c.id.clone();
                            let a = BootstrapAction::StopContainer { id: c.id.clone() };
                            (
                                BootstrapFlow {
                                    stage: BootstrapStage::StoppingOld,
                                    old_id: Some(id),
                                    ..self
                                },
                                a,
                            )
                        } else {
                            let a = BootstrapAction::StartContainer { id: c.id.clone() };
                            (BootstrapFlow { stage: BootstrapStage::StartingExisting, ..self }, a)
                        }
                    },
                },
                _ => {
                    proof {
                        assert(false);
                    }
                    (self, BootstrapAction::ListContainers)
                },
            },
            BootstrapStage::StoppingOld => {
                let id = match &self.old_id {
                    Some(id) => id.clone(),
                    None => "".to_owned(),
                };
                (
                    BootstrapFlow { stage: BootstrapStage::RemovingOld, ..self },
                    BootstrapAction::RemoveContainer { id },
                )
            },
            BootstrapStage::RemovingOld => (
                BootstrapFlow { stage: BootstrapStage::Pulling, ..self },
                BootstrapAction::PullImage { image: "caddy:2-alpine".to_owned() },
            ),
            BootstrapStage::StartingExisting | BootstrapStage::StartingNew => match e {
                BootstrapEvent::Step(r) => (
                    BootstrapFlow { stage: BootstrapStage::Finished, ..self },
                    BootstrapAction::Finish(r),
                ),
                _ => {
                    proof {
                        assert(false);
                    }
                    (self, BootstrapAction::ListContainers)
                },
            },
            BootstrapStage::Pulling => match e {
                BootstrapEvent::Step(Err(err)) => (
                    BootstrapFlow { stage: BootstrapStage::Finished, ..self },
                    BootstrapAction::Finish(Err(err)),
                ),
                BootstrapEvent::Step(Ok(())) => (
                    BootstrapFlow { stage: BootstrapStage::CheckingCaddyfile, ..self },
                    BootstrapAction::InspectCaddyfile,
                ),
                _ => {
                    proof {
                        assert(false);
                    }
                    (self, BootstrapAction::ListContainers)
                },
            },
            BootstrapStage::CheckingCaddyfile => match e {
                BootstrapEvent::Caddyfile(state) => match state {
                    CaddyfileState::Missing | CaddyfileState::Empty => (
                        BootstrapFlow { stage: BootstrapStage::WritingCaddyfile, ..self },
                        BootstrapAction::WriteCaddyfile {
                            content: "{\n    admin 0.0.0.0:2019\n}\n\n:80 {\n    handle /api/* {\n        reverse_proxy labuh:3000\n    }\n\n    # Frontend fallback (Proxies to Labuh host-gateway for now)\n    handle {\n        reverse_proxy labuh:3000\n    }\n}\n".to_owned(),
                        },
                    ),
                    CaddyfileState::Directory => (
                        BootstrapFlow { stage: BootstrapStage::RemovingCaddyfileDir, ..self },
                        BootstrapAction::RemoveCaddyfileDir,
                    ),
                    CaddyfileState::Present => self.create(),
                },
                _ => {
                    proof {
                        assert(false);
                    }
                    (self, BootstrapAction::ListContainers)
                },
            },
            BootstrapStage::RemovingCaddyfileDir => match e {
                BootstrapEvent::Fs(Err(msg)) => (
                    BootstrapFlow { stage: BootstrapStage::Finished, ..self },
                    BootstrapAction::Finish(
                        Err(AppError::Internal(concat2("Failed to remove Caddyfile directory: ", msg.as_str()))),
                    ),
                ),
                BootstrapEvent::Fs(Ok(())) => (
                    BootstrapFlow { stage: BootstrapStage::WritingCaddyfile, ..self },
                    BootstrapAction::WriteCaddyfile {
                        content: "{\n    admin 0.0.0.0:2019\n}\n\n:80 {\n    handle /api/* {\n        reverse_proxy labuh:3000\n    }\n\n    handle {\n        reverse_proxy labuh:3000\n    }\n}\n".to_owned(),
                    },
                ),
                _ => {
                    proof {
                        assert(false);
                    }
                    (self, BootstrapAction::ListContainers)
                },
            },
            BootstrapStage::WritingCaddyfile => match e {
                BootstrapEvent::Fs(Err(msg)) => (
                    BootstrapFlow { stage: BootstrapStage::Finished, ..self },
                    BootstrapAction::Finish(
                        Err(AppError::Internal(concat2("Failed to create default Caddyfile: ", msg.as_str()))),
                    ),
                ),
                BootstrapEvent::Fs(Ok(())) => self.create(),
                _ => {
                    proof {
                        assert(false);
                    }
                    (self, BootstrapAction::ListContainers)
                },
            },
            BootstrapStage::Creating => match e {
                BootstrapEvent::Created(Err(msg)) => (
                    BootstrapFlow { stage: BootstrapStage::Finished, ..self },
                    BootstrapAction::Finish(Err(AppError::ContainerRuntime(msg))),
                ),
                BootstrapEvent::Created(Ok(())) => (
                    BootstrapFlow { stage: BootstrapStage::StartingNew, ..self },
                    BootstrapAction::StartContainer { id: "labuh-caddy".to_owned() },
                ),
                _ => {
                    proof {
                        assert(false);
                    }
                    (self, BootstrapAction::ListContainers)
                },
            },
            BootstrapStage::Finished => {
                proof {
                    assert(false);
                }
                (self, BootstrapAction::ListContainers)
            },
        }
    }
}

impl CaddyService {
    pub fn new(admin_api_url: String) -> (s: CaddyService)
        ensures
            s.admin_api_url == admin_api_url,
    {
        CaddyService { admin_api_url }
    }

    /// Starts making sure the proxy container runs with its admin port
    /// published; `cwd` is the working directory holding the Caddyfile.
    pub fn bootstrap(&self, cwd: String) -> (r: (BootstrapFlow, BootstrapAction))
        ensures
            r.0 == (BootstrapFlow { cwd, old_id: None, stage: BootstrapStage::Listing }),
            r.0.wf(),
            r.1 == BootstrapAction::ListContainers,
    {
        (BootstrapFlow { cwd, old_id: None, stage: BootstrapStage::Listing }, BootstrapAction::ListContainers)
    }

    /// The Caddyfile for `routes`, with the platform's API and frontend
    /// behind port 80.
    pub fn generate_caddyfile(
        &self,
        routes: &Vec<CaddyRoute>,
        api_upstream: &str,
        frontend_upstream: &str,
    ) -> (r: String)
        ensures
            r@ == caddyfile(routes@, api_upstream@, frontend_upstream@),
    {
        generate_caddyfile(routes, api_upstream, frontend_upstream)
    }

    /// The URL of admin API path `path`.
    pub fn request_url(&self, path: &str) -> (r: String)
        ensures
            r@ == self.admin_api_url@ + path@,
    {
        concat2(self.admin_api_url.as_str(), path)
    }

    /// The URL to retry admin API path `path` at after the connection to the
    /// configured address was refused: on `caddy` in place of `localhost`;
    /// none unless the configured address names `localhost`.
    pub fn request_with_fallback(&self, path: &str) -> (r: Option<String>)
        ensures
            match fallback_admin_url(self.admin_api_url@) {
                Some(base) => r is Some && r->0@ == base + path@,
                None => r is None,
            },
    {
        match fallback_admin_url_of(self.admin_api_url.as_str()) {
            Some(base) => Some(concat2(base.as_str(), path)),
            None => None,
        }
    }
}

/// A running proxy that publishes its admin port is left as it is.
pub proof fn law_bootstrap_keeps_a_healthy_proxy(
    s: BootstrapFlow,
    cs: Vec<ContainerInfo>,
    t: BootstrapFlow,
    a: BootstrapAction,
)
    requires
        s.stage == BootstrapStage::Listing,
        first_index(cs@, caddy_pred()) matches Some(i) && cs@[i].state@ == "running"@
            && has_admin_port(cs@[i]),
        boot_next(s, BootstrapEvent::Containers(Ok(cs)), t, a),
    ensures
        boot_ends(t, a, Ok(())),
{
}

/// The host's Caddyfile is written only when it is missing or empty, or
/// after the directory standing in its place was removed; an existing one is
/// never replaced. Whatever container is created publishes the admin port.
pub proof fn law_bootstrap_keeps_an_existing_caddyfile(
    s: BootstrapFlow,
    e: BootstrapEvent,
    t: BootstrapFlow,
    a: BootstrapAction,
)
    requires
        s.wf(),
        boot_accepts(s.stage, e),
        boot_next(s, e, t, a),
    ensures
        a is WriteCaddyfile ==> (s.stage == BootstrapStage::CheckingCaddyfile && (e
            == BootstrapEvent::Caddyfile(CaddyfileState::Missing) || e == BootstrapEvent::Caddyfile(
            CaddyfileState::Empty,
        ))) || (s.stage == BootstrapStage::RemovingCaddyfileDir && e == BootstrapEvent::Fs(
            Ok(()),
        )),
        a matches BootstrapAction::CreateContainer { spec } ==> caddy_container_ok(spec, s.cwd@, true),
{
    if s.stage == BootstrapStage::RemovingCaddyfileDir {
        if let BootstrapEvent::Fs(Ok(x)) = e {
            assert(e == BootstrapEvent::Fs(Ok(())));
        }
    }
}

// ---------------------------------------------------------------- routes

/// Where an addition of a route stands.
#[derive(Debug, Clone, Copy, PartialEq, Eq, Structural)]
pub enum RouteStage {
    CheckingServer,
    CreatingServer,
    CreatingHttpApp,
    ListingRoutes,
    DeletingRoute,
    Posting,
    Finished,
}

/// An addition of a route for `domain` to `upstream`, behind basic
/// authentication with `auth` (user name, password hash) when given. With
/// `replace`, earlier routes of the domain are removed first.
pub struct RouteFlow {
    pub domain: String,
    pub upstream: String,
    pub auth: Option<(String, String)>,
    pub replace: bool,
    pub stage: RouteStage,
}

/// The outcome of the last admin API call of a route change.
pub enum RouteEvent {
    Reply(Result<HttpReply, AppError>),
    /// The JSON text of the proxy's routes, or none when the listing was
    /// refused.
    Routes(Result<Option<String>, AppError>),
}

/// The admin API call to make next in a route change.
pub enum RouteAction {
    /// Read the configuration of server `srv0`.
    GetServer,
    /// Create server `srv0` from `body`: listening on port 80 without routes.
    PutServer { body: String },
    /// Create the HTTP app from `body`: holding such a server.
    PutHttpApp { body: String },
    ListRoutes,
    DeleteRoute { index: usize },
    /// Add the route, with its basic authentication if any; `body` is its
    /// JSON.
    PostRoute { domain: String, upstream: String, auth: Option<(String, String)>, body: String },
    Finish(Result<(), AppError>),
}

/// The message of a refused route, after the admin API's reply.
pub open spec fn refusal_message(f: RouteFlow, r: HttpReply) -> Seq<char> {
    match f.auth {
        None => "Failed to add route: "@ + r.body@,
        Some(_) => "Failed to add route with basic auth: "@ + r.status@,
    }
}

/// The JSON of the route a flow posts.
pub open spec fn posted_route_json(s: RouteFlow) -> Seq<char> {
    match s.auth {
        None => route_json(s.domain@, s.upstream@),
        Some((user, hash)) => auth_route_json(s.domain@, s.upstream@, user@, hash@),
    }
}

/// The JSON of server `srv0` listening on port 80 without routes.
pub open spec fn server_json() -> Seq<char> {
    "{\"listen\":[\":80\"],\"routes\":[]}"@
}

/// The JSON of the HTTP app holding only that server.
pub open spec fn http_app_json() -> Seq<char> {
    "{\"servers\":{\"srv0\":{\"listen\":[\":80\"],\"routes\":[]}}}"@
}

/// Posting the route.
pub open spec fn posting(s: RouteFlow, t: RouteFlow, a: RouteAction) -> bool {
    t == (RouteFlow { stage: RouteStage::Posting, ..s }) && (a matches RouteAction::PostRoute {
        domain,
        upstream,
        auth,
        body,
    } && domain == s.domain && upstream == s.upstream && auth == s.auth && body@ == posted_route_json(s))
}

/// Once server `srv0` exists: remove the domain's earlier routes when
/// replacing, else post the route.
pub open spec fn after_server(s: RouteFlow, t: RouteFlow, a: RouteAction) -> bool {
    if s.replace {
        t == (RouteFlow { stage: RouteStage::ListingRoutes, ..s }) && a == RouteAction::ListRoutes
    } else {
        posting(s, t, a)
    }
}

/// Which outcome each stage waits for.
pub open spec fn route_accepts(stage: RouteStage, e: RouteEvent) -> bool {
    match stage {
        RouteStage::ListingRoutes => e is Routes,
        RouteStage::Finished => false,
        _ => e is Reply,
    }
}

/// One step of adding a route: make sure server `srv0` exists (creating it,
/// or failing that the HTTP app around it); when replacing, delete the
/// domain's routes one by one (a failure there only ends the removal); then
/// post the route, whose refusal ends the addition with the reply.
pub open spec fn route_next(s: RouteFlow, e: RouteEvent, t: RouteFlow, a: RouteAction) -> bool {
    match s.stage {
        RouteStage::CheckingServer => match e {
            RouteEvent::Reply(Ok(r)) if r.success => after_server(s, t, a),
            RouteEvent::Reply(_) => t == (RouteFlow { stage: RouteStage::CreatingServer, ..s })
                && (a matches RouteAction::PutServer { body } && body@ == server_json()),
            _ => false,
        },
        RouteStage::CreatingServer => match e {
            RouteEvent::Reply(Err(err)) => t.stage == RouteStage::Finished && a
                == RouteAction::Finish(Err(err)),
            RouteEvent::Reply(Ok(r)) => if r.success {
                after_server(s, t, a)
            } else {
                t == (RouteFlow { stage: RouteStage::CreatingHttpApp, ..s }) && (a matches RouteAction::PutHttpApp {
                    body,
                } && body@ == http_app_json())
            },
            _ => false,
        },
        RouteStage::CreatingHttpApp => match e {
            RouteEvent::Reply(Err(err)) => t.stage == RouteStage::Finished && a
                == RouteAction::Finish(Err(err)),
            RouteEvent::Reply(Ok(_)) => after_server(s, t, a),
            _ => false,
        },
        RouteStage::ListingRoutes => match e {
            RouteEvent::Routes(Ok(Some(body))) => match route_listing(body@) {
                Ok(l) => match first_route_for(host_lists_of(l), s.domain@) {
                    Some(i) => t == (RouteFlow { stage: RouteStage::DeletingRoute, ..s }) && (a matches RouteAction::DeleteRoute { index } && index == i),
                    None => posting(s, t, a),
                },
                Err(_) => posting(s, t, a),
            },
            RouteEvent::Routes(_) => posting(s, t, a),
            _ => false,
        },
        RouteStage::DeletingRoute => match e {
            RouteEvent::Reply(Err(_)) => posting(s, t, a),
            RouteEvent::Reply(Ok(_)) => t == (RouteFlow { stage: RouteStage::ListingRoutes, ..s })
                && a == RouteAction::ListRoutes,
            _ => false,
        },
        RouteStage::Posting => match e {
            RouteEvent::Reply(Err(err)) => t.stage == RouteStage::Finished && a
                == RouteAction::Finish(Err(err)),
            RouteEvent::Reply(Ok(r)) => if r.success {
                t.stage == RouteStage::Finished && a == RouteAction::Finish(Ok(()))
            } else {
                t.stage == RouteStage::Finished && (a matches RouteAction::Finish(
                    Err(AppError::CaddyApi(m)),
                ) && m@ == refusal_message(s, r))
            },
            _ => false,
        },
        RouteStage::Finished => false,
    }
}

/// The call that creates server `srv0`.
fn put_server() -> (a: RouteAction)
    ensures
        a matches RouteAction::PutServer { body } && body@ == server_json(),
{
    proof {
        reveal_strlit("{\"listen\":[\":80\"],\"routes\":[]}");
    }
    RouteAction::PutServer { body: "{\"listen\":[\":80\"],\"routes\":[]}".to_owned() }
}

/// The call that creates the HTTP app around server `srv0`.
fn put_http_app() -> (a: RouteAction)
    ensures
        a matches RouteAction::PutHttpApp { body } && body@ == http_app_json(),
{
    proof {
        reveal_strlit("{\"servers\":{\"srv0\":{\"listen\":[\":80\"],\"routes\":[]}}}");
    }
    RouteAction::PutHttpApp { body: "{\"servers\":{\"srv0\":{\"listen\":[\":80\"],\"routes\":[]}}}".to_owned() }
}

impl RouteFlow {
    fn post(self) -> (r: (RouteFlow, RouteAction))
        ensures
            posting(self, r.0, r.1),
    {
        let auth = match &self.auth {
            Some((u, p)) => Some((u.clone(), p.clone())),
            None => None,
        };
        let body = match &self.auth {
            None => write_route(self.domain.as_str(), self.upstream.as_str()),
            Some((u, p)) => write_auth_route(self.domain.as_str(), self.upstream.as_str(), u.as_str(), p.as_str()),
        };
        let a = RouteAction::PostRoute {
            domain: self.domain.clone(),
            upstream: self.upstream.clone(),
            auth,
            body,
        };
        (RouteFlow { stage: RouteStage::Posting, ..self }, a)
    }

    fn server_ready(self) -> (r: (RouteFlow, RouteAction))
        ensures
            after_server(self, r.0, r.1),
    {
        if self.replace {
            (RouteFlow { stage: RouteStage::ListingRoutes, ..self }, RouteAction::ListRoutes)
        } else {
            self.post()
        }
    }

    /// Whether the flow waits for an outcome like `e`.
    pub fn accepts_event(&self, e: &RouteEvent) -> (r: bool)
        ensures
            r == route_accepts(self.stage, *e),
    {
        match self.stage {
            RouteStage::ListingRoutes => matches!(e, RouteEvent::Routes(_)),
            RouteStage::Finished => false,
            _ => matches!(e, RouteEvent::Reply(_)),
        }
    }

    /// Takes the outcome `e` of the last call and gives the next flow and
    /// action.
    pub fn step(self, e: RouteEvent) -> (r: (RouteFlow, RouteAction))
        requires
            route_accepts(self.stage, e),
        ensures
            route_next(self, e, r.0, r.1),
    {
        match self.stage {
            RouteStage::CheckingServer => {
                let ok = match &e {
                    RouteEvent::Reply(Ok(r)) => r.success,
                    _ => false,
                };
                if ok {
                    self.server_ready()
                } else {
                    (RouteFlow { stage: RouteStage::CreatingServer, ..self }, put_server())
                }
            },
            RouteStage::CreatingServer => match e {
                RouteEvent::Reply(Err(err)) => (
                    RouteFlow { stage: RouteStage::Finished, ..self },
                    RouteAction::Finish(Err(err)),
                ),
                RouteEvent::Reply(Ok(r)) => if r.success {
                    self.server_ready()
                } else {
                    (RouteFlow { stage: RouteStage::CreatingHttpApp, ..self }, put_http_app())
                },
                _ => {
                    proof {
                        assert(false);
                    }
                    (self, RouteAction::ListRoutes)
                },
            },
            RouteStage::CreatingHttpApp => match e {
                RouteEvent::Reply(Err(err)) => (
                    RouteFlow { stage: RouteStage::Finished, ..self },
                    RouteAction::Finish(Err(err)),
                ),
                RouteEvent::Reply(Ok(_)) => self.server_ready(),
                _ => {
                    proof {
                        assert(false);
                    }
                    (self, RouteAction::ListRoutes)
                },
            },
            RouteStage::ListingRoutes => match e {
                RouteEvent::Routes(Ok(Some(body))) => match read_host_lists(body.as_str()) {
                    Ok(hosts) => match find_route(&hosts, self.domain.as_str()) {
                        Some(i) => (
                            RouteFlow { stage: RouteStage::DeletingRoute, ..self },
                            RouteAction::DeleteRoute { index: i },
                        ),
                        None => self.post(),
                    },
                    Err(_) => self.post(),
                },
                RouteEvent::Routes(_) => self.post(),
                _ => {
                    proof {
                        assert(false);
                    }
                    (self, RouteAction::ListRoutes)
                },
            },
            RouteStage::DeletingRoute => match e {
                RouteEvent::Reply(Err(_)) => self.post(),
                RouteEvent::Reply(Ok(_)) => (
                    RouteFlow { stage: RouteStage::ListingRoutes, ..self },
                    RouteAction::ListRoutes,
                ),
                _ => {
                    proof {
                        assert(false);
                    }
                    (self, RouteAction::ListRoutes)
                },
            },
            RouteStage::Posting => match e {
                RouteEvent::Reply(Err(err)) => (
                    RouteFlow { stage: RouteStage::Finished, ..self },
                    RouteAction::Finish(Err(err)),
                ),
                RouteEvent::Reply(Ok(r)) => if r.success {
                    (RouteFlow { stage: RouteStage::Finished, ..self }, RouteAction::Finish(Ok(())))
                } else {
                    let m = match &self.auth {
                        None => concat2("Failed to add route: ", r.body.as_str()),
                        Some(_) => concat2("Failed to add route with basic auth: ", r.status.as_str()),
                    };
                    (
                        RouteFlow { stage: RouteStage::Finished, ..self },
                        RouteAction::Finish(Err(AppError::CaddyApi(m))),
                    )
                },
                _ => {
                    proof {
                        assert(false);
                    }
                    (self, RouteAction::ListRoutes)
                },
            },
            RouteStage::Finished => {
                proof {
                    assert(false);
                }
                (self, RouteAction::ListRoutes)
            },
        }
    }
}

/// Where a removal of routes stands.
#[derive(Debug, Clone, Copy, PartialEq, Eq, Structural)]
pub enum RemoveRouteStage {
    Listing,
    Deleting,
    Finished,
}

/// A removal of every route of `domain`; `found_any` records whether one was
/// deleted.
pub struct RemoveRouteFlow {
    pub domain: String,
    pub found_any: bool,
    pub stage: RemoveRouteStage,
}

/// The end of a removal: success when a route was deleted, else not found.
pub open spec fn removal_ends(s: RemoveRouteFlow, t: RemoveRouteFlow, a: RouteAction) -> bool {
    &&& t.stage == RemoveRouteStage::Finished
    &&& if s.found_any {
        a == RouteAction::Finish(Ok(()))
    } else {
        a matches RouteAction::Finish(Err(AppError::NotFound(m))) && m@ == "Route for domain "@
            + s.domain@ + " not found"@
    }
}

/// Which outcome each stage of a removal waits for.
pub open spec fn remove_route_accepts(stage: RemoveRouteStage, e: RouteEvent) -> bool {
    match stage {
        RemoveRouteStage::Listing => e is Routes,
        RemoveRouteStage::Deleting => e is Reply,
        RemoveRouteStage::Finished => false,
    }
}

/// One step of a removal: list the routes, delete the first one of the
/// domain, and again, until none is left or the listing is refused; any
/// failed call ends it with its error.
pub open spec fn remove_route_next(
    s: RemoveRouteFlow,
    e: RouteEvent,
    t: RemoveRouteFlow,
    a: RouteAction,
) -> bool {
    match s.stage {
        RemoveRouteStage::Listing => match e {
            RouteEvent::Routes(Err(err)) => t.stage == RemoveRouteStage::Finished && a
                == RouteAction::Finish(Err(err)),
            RouteEvent::Routes(Ok(None)) => removal_ends(s, t, a),
            RouteEvent::Routes(Ok(Some(body))) => match route_listing(body@) {
                Ok(l) => match first_route_for(host_lists_of(l), s.domain@) {
                    Some(i) => t == (RemoveRouteFlow { stage: RemoveRouteStage::Deleting, ..s }) && (a matches RouteAction::DeleteRoute { index } && index == i),
                    None => removal_ends(s, t, a),
                },
                Err(m) => t.stage == RemoveRouteStage::Finished && (a matches RouteAction::Finish(
                    Err(AppError::CaddyApi(x)),
                ) && x@ == m),
            },
            _ => false,
        },
        RemoveRouteStage::Deleting => match e {
            RouteEvent::Reply(Err(err)) => t.stage == RemoveRouteStage::Finished && a
                == RouteAction::Finish(Err(err)),
            RouteEvent::Reply(Ok(_)) => t == (RemoveRouteFlow {
                stage: RemoveRouteStage::Listing,
                found_any: true,
                ..s
            }) && a == RouteAction::ListRoutes,
            _ => false,
        },
        RemoveRouteStage::Finished => false,
    }
}

impl RemoveRouteFlow {
    fn end(self) -> (r: (RemoveRouteFlow, RouteAction))
        ensures
            removal_ends(self, r.0, r.1),
    {
        let a = if self.found_any {
            RouteAction::Finish(Ok(()))
        } else {
            RouteAction::Finish(
                Err(AppError::NotFound(concat3("Route for domain ", self.domain.as_str(), " not found"))),
            )
        };
        (RemoveRouteFlow { stage: RemoveRouteStage::Finished, ..self }, a)
    }

    /// Whether the flow waits for an outcome like `e`.
    pub fn accepts_event(&self, e: &RouteEvent) -> (r: bool)
        ensures
            r == remove_route_accepts(self.stage, *e),
    {
        match self.stage {
            RemoveRouteStage::Listing => matches!(e, RouteEvent::Routes(_)),
            RemoveRouteStage::Deleting => matches!(e, RouteEvent::Reply(_)),
            RemoveRouteStage::Finished => false,
        }
    }

    /// Takes the outcome `e` of the last call and gives the next flow and
    /// action.
    pub fn step(self, e: RouteEvent) -> (r: (RemoveRouteFlow, RouteAction))
        requires
            remove_route_accepts(self.stage, e),
        ensures
            remove_route_next(self, e, r.0, r.1),
    {
        match self.stage {
            RemoveRouteStage::Listing => match e {
                RouteEvent::Routes(Err(err)) => (
                    RemoveRouteFlow { stage: RemoveRouteStage::Finished, ..self },
                    RouteAction::Finish(Err(err)),
                ),
                RouteEvent::Routes(Ok(None)) => self.end(),
                RouteEvent::Routes(Ok(Some(body))) => match read_host_lists(body.as_str()) {
                    Ok(hosts) => match find_route(&hosts, self.domain.as_str()) {
                        Some(i) => (
                            RemoveRouteFlow { stage: RemoveRouteStage::Deleting, ..self },
                            RouteAction::DeleteRoute { index: i },
                        ),
                        None => self.end(),
                    },
                    Err(m) => (
                        RemoveRouteFlow { stage: RemoveRouteStage::Finished, ..self },
                        RouteAction::Finish(Err(AppError::CaddyApi(m))),
                    ),
                },
                _ => {
                    proof {
                        assert(false);
                    }
                    (self, RouteAction::ListRoutes)
                },
            },
            RemoveRouteStage::Deleting => match e {
                RouteEvent::Reply(Err(err)) => (
                    RemoveRouteFlow { stage: RemoveRouteStage::Finished, ..self },
                    RouteAction::Finish(Err(err)),
                ),
                RouteEvent::Reply(Ok(_)) => (
                    RemoveRouteFlow { stage: RemoveRouteStage::Listing, found_any: true, ..self },
                    RouteAction::ListRoutes,
                ),
                _ => {
                    proof {
                        assert(false);
                    }
                    (self, RouteAction::ListRoutes)
                },
            },
            RemoveRouteStage::Finished => {
                proof {
                    assert(false);
                }
                (self, RouteAction::ListRoutes)
            },
        }
    }
}

impl CaddyService {
    /// Starts adding a route for `domain` to `upstream`, replacing the
    /// domain's earlier routes.
    pub fn add_route(&self, domain: &str, upstream: &str) -> (r: (RouteFlow, RouteAction))
        ensures
            r.0.domain@ == domain@,
            r.0.upstream@ == upstream@,
            r.0.auth is None,
            r.0.replace,
            r.0.stage == RouteStage::CheckingServer,
            r.1 == RouteAction::GetServer,
    {
        (
            RouteFlow {
                domain: domain.to_owned(),
                upstream: upstream.to_owned(),
                auth: None,
                replace: true,
                stage: RouteStage::CheckingServer,
            },
            RouteAction::GetServer,
        )
    }

    /// Starts adding a route for `domain` to `upstream` behind basic
    /// authentication of `username` with the bcrypt `password_hash`.
    pub fn add_route_with_basic_auth(
        &self,
        domain: &str,
        upstream: &str,
        username: &str,
        password_hash: &str,
    ) -> (r: (RouteFlow, RouteAction))
        ensures
            r.0.domain@ == domain@,
            r.0.upstream@ == upstream@,
            r.0.auth matches Some((u, p)) && u@ == username@ && p@ == password_hash@,
            !r.0.replace,
            r.0.stage == RouteStage::CheckingServer,
            r.1 == RouteAction::GetServer,
    {
        (
            RouteFlow {
                domain: domain.to_owned(),
                upstream: upstream.to_owned(),
                auth: Some((username.to_owned(), password_hash.to_owned())),
                replace: false,
                stage: RouteStage::CheckingServer,
            },
            RouteAction::GetServer,
        )
    }

    /// Starts removing every route of `domain`.
    pub fn remove_route(&self, domain: &str) -> (r: (RemoveRouteFlow, RouteAction))
        ensures
            r.0.domain@ == domain@,
            !r.0.found_any,
            r.0.stage == RemoveRouteStage::Listing,
            r.1 == RouteAction::ListRoutes,
    {
        (
            RemoveRouteFlow {
                domain: domain.to_owned(),
                found_any: false,
                stage: RemoveRouteStage::Listing,
            },
            RouteAction::ListRoutes,
        )
    }

    /// Starts reloading the configuration from `caddyfile_content`.
    pub fn reload_config(&self, caddyfile_content: &str) -> (r: (ReloadFlow, ReloadAction))
        ensures
            r.0.stage == ReloadStage::Adapting,
            r.1 matches ReloadAction::Adapt { caddyfile } && caddyfile@ == caddyfile_content@,
    {
        start_reload(caddyfile_content.to_owned())
    }
}

/// An addition of a route succeeds only when the admin API accepted the
/// posted route.
pub proof fn law_route_added_only_when_accepted(
    s: RouteFlow,
    e: RouteEvent,
    t: RouteFlow,
    a: RouteAction,
)
    requires
        route_accepts(s.stage, e),
        route_next(s, e, t, a),
        a == RouteAction::Finish(Ok(())),
    ensures
        s.stage == RouteStage::Posting,
        e matches RouteEvent::Reply(Ok(r)) && r.success,
{
}

/// The route deleted before an addition is always the first route of the
/// latest listing that names the domain.
pub proof fn law_addition_deletes_only_the_domains_routes(
    s: RouteFlow,
    e: RouteEvent,
    t: RouteFlow,
    a: RouteAction,
)
    requires
        route_accepts(s.stage, e),
        route_next(s, e, t, a),
    ensures
        a matches RouteAction::DeleteRoute { index } ==> (e matches RouteEvent::Routes(
            Ok(Some(body)),
        ) && route_listing(body@) matches Ok(l) && first_route_for(host_lists_of(l), s.domain@) == Some(
            index as int,
        )),
{
}

/// What an addition does to the proxy's routes, given a listing of them: a
/// deletion before the addition leaves the routes of other domains as they
/// were, in order; the route is posted after a listing that could be read
/// only once no listed route names the domain. So with a proxy that lists
/// its routes as they are and deletes the route at the index it is given,
/// the routes end as those of other domains, in order, followed by the new
/// route (see `law_adding_a_route_twice_is_adding_it_once`).
pub proof fn law_addition_keeps_other_routes(s: RouteFlow, e: RouteEvent, t: RouteFlow, a: RouteAction)
    requires
        route_accepts(s.stage, e),
        route_next(s, e, t, a),
        e matches RouteEvent::Routes(Ok(Some(_))),
    ensures
        e matches RouteEvent::Routes(Ok(Some(body))) && (route_listing(body@) matches Ok(l) ==> ({
            let hosts = host_lists_of(l);
            &&& a matches RouteAction::DeleteRoute { index } ==> (index < hosts.len() && hosts_name(
                hosts[index as int],
                s.domain@,
            ) && routes_of_others(hosts.remove(index as int), s.domain@) == routes_of_others(hosts, s.domain@))
            &&& a is PostRoute ==> routes_of_others(hosts, s.domain@) == hosts
        })),
{
    if let RouteEvent::Routes(Ok(Some(body))) = e {
        if let Ok(l) = route_listing(body@) {
            let hosts = host_lists_of(l);
            lemma_first_route_for(hosts, s.domain@);
            if let Some(i) = first_route_for(hosts, s.domain@) {
                lemma_remove_domain_route(hosts, s.domain@, i);
            } else {
                lemma_no_domain_route(hosts, s.domain@);
            }
        }
    }
}

/// No route kept for other domains names `domain`.
proof fn lemma_others_never_name(routes: Seq<Seq<Seq<char>>>, domain: Seq<char>)
    ensures
        forall|k: int|
            0 <= k < routes_of_others(routes, domain).len() ==> !hosts_name(
                #[trigger] routes_of_others(routes, domain)[k],
                domain,
            ),
    decreases routes.len(),
{
    if routes.len() > 0 {
        lemma_others_never_name(routes.drop_last(), domain);
        let init = routes_of_others(routes.drop_last(), domain);
        if !hosts_name(routes.last(), domain) {
            let r = init.push(routes.last());
            assert forall|k: int| 0 <= k < r.len() implies !hosts_name(#[trigger] r[k], domain) by {
                if k < init.len() {
                    assert(r[k] == init[k]);
                }
            }
        }
    }
}

/// Adding a route for `domain` leaves the routes of other domains followed
/// by the new route (`new`, whose hosts name the domain); adding it again
/// to those routes gives the same routes: adding the same route twice is
/// adding it once.
pub proof fn law_adding_a_route_twice_is_adding_it_once(
    routes: Seq<Seq<Seq<char>>>,
    domain: Seq<char>,
    new: Seq<Seq<char>>,
)
    requires
        hosts_name(new, domain),
    ensures
        routes_of_others(routes_of_others(routes, domain).push(new), domain).push(new) == routes_of_others(
            routes,
            domain,
        ).push(new),
{
    let once = routes_of_others(routes, domain);
    lemma_others_never_name(routes, domain);
    lemma_no_domain_route(once, domain);
    assert(once.push(new).drop_last() =~= once);
}

/// The route a removal deletes is always the first route of the latest
/// listing that names the domain.
pub proof fn law_removal_deletes_only_the_domains_routes(
    s: RemoveRouteFlow,
    e: RouteEvent,
    t: RemoveRouteFlow,
    a: RouteAction,
)
    requires
        remove_route_accepts(s.stage, e),
        remove_route_next(s, e, t, a),
    ensures
        a matches RouteAction::DeleteRoute { index } ==> (e matches RouteEvent::Routes(
            Ok(Some(body)),
        ) && route_listing(body@) matches Ok(l) && first_route_for(host_lists_of(l), s.domain@) == Some(
            index as int,
        )),
{
}

/// A removal reports success exactly when it deleted at least one route
/// (once a listing came that could be read, or none came).
pub proof fn law_removal_succeeds_iff_a_route_was_deleted(
    s: RemoveRouteFlow,
    e: RouteEvent,
    t: RemoveRouteFlow,
    a: RouteAction,
)
    requires
        remove_route_accepts(s.stage, e),
        remove_route_next(s, e, t, a),
        a is Finish,
        s.stage == RemoveRouteStage::Listing,
        e matches RouteEvent::Routes(Ok(listing)) && (listing matches Some(body) ==> route_listing(body@) is Ok),
    ensures
        (a == RouteAction::Finish(Ok(()))) <==> s.found_any,
{
}

} // verus!
