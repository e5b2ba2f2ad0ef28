//! The reverse proxy of the server: bringing up its container, and the admin
//! API calls that add and remove routes. The runtime and the admin API are
//! driven by the caller, which performs each action and reports its outcome.
use vstd::prelude::*;
use crate::backend::usecase::domain::{any_name_contains, some_name_contains};
use crate::error::AppError;
use crate::infra::{caddy_container, caddy_container_name, caddy_container_ok, caddy_image, ContainerSpec};
use crate::json::route_listing;
use crate::proxy::{
    auth_route_json, caddyfile, find_route, first_route_for, generate_caddyfile, host_lists_of,
    read_host_lists, route_json, route_views, start_reload, write_auth_route, write_route,
    CaddyRoute, HttpReply, ReloadAction, ReloadFlow, ReloadStage,
};
use crate::search::{first_index, lemma_first_index_at, lemma_first_index_none};
use crate::server::services::container::ContainerInfo;
use crate::text::{chars_of, concat2, concat3, str_eq};

verus! {

/// The admin API client of the proxy, at `admin_api_url`.
pub struct CaddyService {
    pub admin_api_url: String,
}

/// The container is the proxy: one of its names contains `labuh-caddy`.
pub open spec fn is_proxy(c: ContainerInfo) -> bool {
    some_name_contains(c.names@, caddy_container_name())
}

/// Selects proxy containers.
pub open spec fn proxy_pred() -> spec_fn(ContainerInfo) -> bool {
    |c: ContainerInfo| is_proxy(c)
}

/// Where a bootstrap stands.
#[derive(Debug, Clone, Copy, PartialEq, Eq, Structural)]
pub enum ProxyBootStage {
    Listing,
    StartingExisting,
    Pulling,
    Creating,
    StartingNew,
    Finished,
}

/// A bootstrap of the proxy container; `cwd` is the working directory the
/// Caddyfile is mounted from.
pub struct ProxyBootFlow {
    pub cwd: String,
    pub stage: ProxyBootStage,
}

/// The outcome of the last action of a bootstrap.
pub enum ProxyBootEvent {
    Containers(Result<Vec<ContainerInfo>, AppError>),
    Step(Result<(), AppError>),
    /// The creation of the container, with the runtime's message on failure.
    Created(Result<(), String>),
}

/// What the caller does next in a bootstrap.
pub enum ProxyBootAction {
    ListContainers,
    StartContainer { id: String },
    PullImage { image: String },
    CreateContainer { spec: ContainerSpec },
    Finish(Result<(), AppError>),
}

/// Which outcome each stage waits for.
pub open spec fn proxy_boot_accepts(stage: ProxyBootStage, e: ProxyBootEvent) -> bool {
    match stage {
        ProxyBootStage::Listing => e is Containers,
        ProxyBootStage::Creating => e is Created,
        ProxyBootStage::Finished => false,
        _ => e is Step,
    }
}

/// One step of a bootstrap: an existing proxy is started unless it runs;
/// without one, the image is pulled and the container created and started.
pub open spec fn proxy_boot_next(
    s: ProxyBootFlow,
    e: ProxyBootEvent,
    t: ProxyBootFlow,
    a: ProxyBootAction,
) -> bool {
    match s.stage {
        ProxyBootStage::Listing => match e {
            ProxyBootEvent::Containers(Err(err)) => t.stage == ProxyBootStage::Finished && a
                == ProxyBootAction::Finish(Err(err)),
            ProxyBootEvent::Containers(Ok(cs)) => match first_index(cs@, proxy_pred()) {
                None => t == (ProxyBootFlow { stage: ProxyBootStage::Pulling, ..s }) && (a matches ProxyBootAction::PullImage { image } && image@ == caddy_image()),
                Some(i) => if cs@[i].state@ == "running"@ {
                    t.stage == ProxyBootStage::Finished && a == ProxyBootAction::Finish(Ok(()))
                } else {
                    t == (ProxyBootFlow { stage: ProxyBootStage::StartingExisting, ..s }) && a
                        == (ProxyBootAction::StartContainer { id: cs@[i].id })
                },
            },
            _ => false,
        },
        ProxyBootStage::StartingExisting | ProxyBootStage::StartingNew => match e {
            ProxyBootEvent::Step(r) => t.stage == ProxyBootStage::Finished && a
                == ProxyBootAction::Finish(r),
            _ => false,
        },
        ProxyBootStage::Pulling => match e {
            ProxyBootEvent::Step(Err(err)) => t.stage == ProxyBootStage::Finished && a
                == ProxyBootAction::Finish(Err(err)),
            ProxyBootEvent::Step(Ok(())) => {
                &&& t == (ProxyBootFlow { stage: ProxyBootStage::Creating, ..s })
                &&& a matches ProxyBootAction::CreateContainer { spec }
                &&& caddy_container_ok(spec, s.cwd@, false)
            },
            _ => false,
        },
        ProxyBootStage::Creating => match e {
            ProxyBootEvent::Created(Err(msg)) => t.stage == ProxyBootStage::Finished && (a matches ProxyBootAction::Finish(
                Err(AppError::ContainerRuntime(m)),
            ) && m == msg),
            ProxyBootEvent::Created(Ok(())) => t == (ProxyBootFlow {
                stage: ProxyBootStage::StartingNew,
                ..s
            }) && (a matches ProxyBootAction::StartContainer { id } && id@
                == caddy_container_name()),
            _ => false,
        },
        ProxyBootStage::Finished => false,
    }
}

/// The index of the first proxy container, if any.
fn find_proxy(cs: &Vec<ContainerInfo>) -> (r: Option<usize>)
    ensures
        match r {
            Some(i) => first_index(cs@, proxy_pred()) == Some(i as int) && i < cs@.len(),
            None => first_index(cs@, proxy_pred()) is None,
        },
{
    let name = chars_of("labuh-caddy");
    let mut i: usize = 0;
    while i < cs.len()
        invariant
            i <= cs.len(),
            name@ == caddy_container_name(),
            forall|k: int| 0 <= k < i ==> !(#[trigger] proxy_pred()(cs@[k])),
        decreases cs.len() - i,
    {
        if any_name_contains(&cs[i].names, &name) {
            proof {
                lemma_first_index_at(cs@, proxy_pred(), i as int);
            }
            return Some(i);
        }
        i = i + 1;
    }
    proof {
        lemma_first_index_none(cs@, proxy_pred());
    }
    None
}

impl ProxyBootFlow {
    /// Whether the flow waits for an outcome like `e`.
    pub fn accepts_event(&self, e: &ProxyBootEvent) -> (r: bool)
        ensures
            r == proxy_boot_accepts(self.stage, *e),
    {
        match self.stage {
            ProxyBootStage::Listing => matches!(e, ProxyBootEvent::Containers(_)),
            ProxyBootStage::Creating => matches!(e, ProxyBootEvent::Created(_)),
            ProxyBootStage::Finished => false,
            _ => matches!(e, ProxyBootEvent::Step(_)),
        }
    }

    /// Takes the outcome `e` of the last action and gives the next flow and
    /// action.
    pub fn step(self, e: ProxyBootEvent) -> (r: (ProxyBootFlow, ProxyBootAction))
        requires
            proxy_boot_accepts(self.stage, e),
        ensures
            proxy_boot_next(self, e, r.0, r.1),
    {
        match e {
            ProxyBootEvent::Containers(Err(err)) => (
                ProxyBootFlow { stage: ProxyBootStage::Finished, ..self },
                ProxyBootAction::Finish(Err(err)),
            ),
            ProxyBootEvent::Containers(Ok(cs)) => match find_proxy(&cs) {
                None => (
                    ProxyBootFlow { stage: ProxyBootStage::Pulling, ..self },
                    ProxyBootAction::PullImage { image: "caddy:2-alpine".to_owned() },
                ),
                Some(i) => if str_eq(cs[i].state.as_str(), "running") {
                    (
                        ProxyBootFlow { stage: ProxyBootStage::Finished, ..self },
                        ProxyBootAction::Finish(Ok(())),
                    )
                } else {
                    let id = cs[i].id.clone();
                    (
                        ProxyBootFlow { stage: ProxyBootStage::StartingExisting, ..self },
                        ProxyBootAction::StartContainer { id },
                    )
                },
            },
            ProxyBootEvent::Step(r) => {
                if self.stage == ProxyBootStage::Pulling {
                    match r {
                        Err(err) => (
                            ProxyBootFlow { stage: ProxyBootStage::Finished, ..self },
                            ProxyBootAction::Finish(Err(err)),
                        ),
                        Ok(()) => {
                            let spec = caddy_container(self.cwd.as_str(), false);
                            (
                                ProxyBootFlow { stage: ProxyBootStage::Creating, ..self },
                                ProxyBootAction::CreateContainer { spec },
                            )
                        },
                    }
                } else {
                    (ProxyBootFlow { stage: ProxyBootStage::Finished, ..self }, ProxyBootAction::Finish(r))
                }
            },
            ProxyBootEvent::Created(Err(msg)) => (
                ProxyBootFlow { stage: ProxyBootStage::Finished, ..self },
                ProxyBootAction::Finish(Err(AppError::ContainerRuntime(msg))),
            ),
            ProxyBootEvent::Created(Ok(())) => (
                ProxyBootFlow { stage: ProxyBootStage::StartingNew, ..self },
                ProxyBootAction::StartContainer { id: "labuh-caddy".to_owned() },
            ),
        }
    }
}

/// The answer to a posted route: the transport's error, the admin API's
/// refusal as `<prefix><body>`, or success.
pub open spec fn posted(reply: Result<HttpReply, AppError>, prefix: Seq<char>, r: Result<(), AppError>) -> bool {
    match reply {
        Err(err) => r == Err::<(), AppError>(err),
        Ok(h) => if h.success {
            r is Ok
        } else {
            r matches Err(AppError::CaddyApi(m)) && m@ == prefix + h.body@
        },
    }
}

fn posted_result(reply: Result<HttpReply, AppError>, prefix: &str) -> (r: Result<(), AppError>)
    ensures
        posted(reply, prefix@, r),
{
    match reply {
        Err(err) => Err(err),
        Ok(h) => if h.success {
            Ok(())
        } else {
            Err(AppError::CaddyApi(concat2(prefix, h.body.as_str())))
        },
    }
}

/// The routes of the proxy as a listing gives them: refused with the admin
/// API's reply, or the JSON text of its routes.
pub type RouteListing = Result<Result<String, HttpReply>, AppError>;

/// What a removal does after the listing: the index to delete, or its
/// result. A listing that is no JSON array is refused with the parser's
/// message.
pub open spec fn route_to_delete(listing: RouteListing, domain: Seq<char>, r: Result<usize, AppError>) -> bool {
    match listing {
        Err(err) => r == Err::<usize, AppError>(err),
        Ok(Err(h)) => r matches Err(AppError::CaddyApi(m)) && m@ == "Failed to get routes: "@
            + h.body@,
        Ok(Ok(body)) => match route_listing(body@) {
            Err(m) => r matches Err(AppError::CaddyApi(x)) && x@ == m,
            Ok(l) => match first_route_for(host_lists_of(l), domain) {
                Some(i) => r == Ok::<usize, AppError>(i as usize),
                None => r matches Err(AppError::NotFound(m)) && m@ == "Route for domain "@ + domain
                    + " not found"@,
            },
        },
    }
}

/// The admin API path of the proxy's routes.
pub open spec fn routes_path() -> Seq<char> {
    "/config/apps/http/servers/srv0/routes"@
}

impl CaddyService {
    pub fn new(admin_api_url: String) -> (s: CaddyService)
        ensures
            s.admin_api_url == admin_api_url,
    {
        CaddyService { admin_api_url }
    }

    /// Starts making sure the proxy container runs; `cwd` is the working
    /// directory holding the Caddyfile.
    pub fn bootstrap(&self, cwd: String) -> (r: (ProxyBootFlow, ProxyBootAction))
        ensures
            r.0 == (ProxyBootFlow { cwd, stage: ProxyBootStage::Listing }),
            r.1 == ProxyBootAction::ListContainers,
    {
        (ProxyBootFlow { cwd, stage: ProxyBootStage::Listing }, ProxyBootAction::ListContainers)
    }

    /// The Caddyfile for `routes`, with the platform's API and frontend
    /// behind port 80.
    pub fn generate_caddyfile(
        &self,
        routes: &Vec<CaddyRoute>,
        api_upstream: &str,
        frontend_upstream: &str,
    ) -> (r: String)
        ensures
            r@ == caddyfile(routes@, api_upstream@, frontend_upstream@),
    {
        generate_caddyfile(routes, api_upstream, frontend_upstream)
    }

    /// Starts reloading the configuration from `caddyfile_content`.
    pub fn reload_config(&self, caddyfile_content: &str) -> (r: (ReloadFlow, ReloadAction))
        ensures
            r.0.stage == ReloadStage::Adapting,
            r.1 matches ReloadAction::Adapt { caddyfile } && caddyfile@ == caddyfile_content@,
    {
        start_reload(caddyfile_content.to_owned())
    }

    /// The URL the routes are listed at and posted to.
    pub fn routes_url(&self) -> (r: String)
        ensures
            r@ == self.admin_api_url@ + routes_path(),
    {
        proof {
            reveal_strlit("/config/apps/http/servers/srv0/routes");
        }
        concat2(self.admin_api_url.as_str(), "/config/apps/http/servers/srv0/routes")
    }

    /// The route to post for serving `domain` from `upstream`.
    pub fn route_body(&self, domain: &str, upstream: &str) -> (r: String)
        ensures
            r@ == route_json(domain@, upstream@),
    {
        write_route(domain, upstream)
    }

    /// The route to post for serving `domain` from `upstream` behind basic
    /// authentication of `username` with the bcrypt hash `password_hash`.
    pub fn auth_route_body(&self, domain: &str, upstream: &str, username: &str, password_hash: &str) -> (r:
        String)
        ensures
            r@ == auth_route_json(domain@, upstream@, username@, password_hash@),
    {
        write_auth_route(domain, upstream, username, password_hash)
    }

    /// The result of adding a route, from the admin API's reply to the posted
    /// route.
    pub fn add_route(&self, reply: Result<HttpReply, AppError>) -> (r: Result<(), AppError>)
        ensures
            posted(reply, "Failed to add route: "@, r),
    {
        posted_result(reply, "Failed to add route: ")
    }

    /// The result of adding a route behind basic authentication, from the
    /// admin API's reply to the posted route.
    pub fn add_route_with_basic_auth(&self, reply: Result<HttpReply, AppError>) -> (r: Result<
        (),
        AppError,
    >)
        ensures
            posted(reply, "Failed to add authenticated route: "@, r),
    {
        posted_result(reply, "Failed to add authenticated route: ")
    }

    /// The route to delete to remove `domain`, from the listing of the
    /// routes: the first route whose hosts name it; else the error the
    /// removal ends with. Deleting that route ends the removal.
    pub fn remove_route(&self, domain: &str, listing: RouteListing) -> (r: Result<usize, AppError>)
        ensures
            route_to_delete(listing, domain@, r),
    {
        match listing {
            Err(err) => Err(err),
            Ok(Err(h)) => Err(AppError::CaddyApi(concat2("Failed to get routes: ", h.body.as_str()))),
            Ok(Ok(body)) => match read_host_lists(body.as_str()) {
                Err(m) => Err(AppError::CaddyApi(m)),
                Ok(hosts) => match find_route(&hosts, domain) {
                    Some(i) => Ok(i),
                    None => Err(
                        AppError::NotFound(concat3("Route for domain ", domain, " not found")),
                    ),
                },
            },
        }
    }
}

} // verus!
