//! The Cloudflare tunnel container: bringing it up for a tunnel token. The
//! runtime is driven by the caller, which performs each action and reports
//! its outcome.
use vstd::prelude::*;
use crate::backend::services::container::ContainerInfo;
use crate::error::AppError;
use crate::infra::{tunnel_container, tunnel_container_name, tunnel_container_ok, ContainerSpec};
use crate::naming::{any_name_is, has_name};
use crate::search::{first_index, lemma_first_index_at, lemma_first_index_none};
use crate::text::{chars_of, concat2, str_eq};

verus! {

/// The tunnel service of the backend.
pub struct TunnelService {}

/// The container is the tunnel: it is named `/labuh-tunnel`.
pub open spec fn is_tunnel(c: ContainerInfo) -> bool {
    has_name(c.names@, "/"@ + tunnel_container_name())
}

/// Selects tunnel containers.
pub open spec fn tunnel_pred() -> spec_fn(ContainerInfo) -> bool {
    |c: ContainerInfo| is_tunnel(c)
}

/// Where the bringing up of the tunnel stands.
#[derive(Debug, Clone, Copy, PartialEq, Eq, Structural)]
pub enum TunnelStage {
    Listing,
    StartingExisting,
    Pulling,
    Creating,
    StartingNew,
    Connecting,
    Finished,
}

/// Bringing up the tunnel of `token`.
pub struct TunnelFlow {
    pub token: String,
    pub stage: TunnelStage,
}

/// The outcome of the last action.
pub enum TunnelEvent {
    Containers(Result<Vec<ContainerInfo>, AppError>),
    Step(Result<(), AppError>),
    /// The id of the created container, or the runtime's message.
    Created(Result<String, String>),
    Ignored,
}

/// What the caller does next.
pub enum TunnelAction {
    ListContainers,
    StartContainer { id: String },
    PullImage { image: String },
    CreateContainer { spec: ContainerSpec },
    /// Best effort: connect the container to the platform network.
    ConnectNetwork { container: String },
    Finish(Result<(), AppError>),
}

/// Which outcome each stage waits for.
pub open spec fn tunnel_accepts(stage: TunnelStage, e: TunnelEvent) -> bool {
    match stage {
        TunnelStage::Listing => e is Containers,
        TunnelStage::Creating => e is Created,
        TunnelStage::Connecting => e is Ignored,
        TunnelStage::Finished => false,
        _ => e is Step,
    }
}

/// One step: a running tunnel is kept, a stopped one started; without one,
/// the image is pulled, the container created for the token, started and
/// connected to the platform network.
pub open spec fn tunnel_next(s: TunnelFlow, e: TunnelEvent, t: TunnelFlow, a: TunnelAction) -> bool {
    match s.stage {
        TunnelStage::Listing => match e {
            TunnelEvent::Containers(Err(err)) => t.stage == TunnelStage::Finished && a
                == TunnelAction::Finish(Err(err)),
            TunnelEvent::Containers(Ok(cs)) => match first_index(cs@, tunnel_pred()) {
                Some(i) => if cs@[i].state@ == "running"@ {
                    t.stage == TunnelStage::Finished && a == TunnelAction::Finish(Ok(()))
                } else {
                    t == (TunnelFlow { stage: TunnelStage::StartingExisting, ..s }) && a
                        == (TunnelAction::StartContainer { id: cs@[i].id })
                },
                None => t == (TunnelFlow { stage: TunnelStage::Pulling, ..s }) && (a matches TunnelAction::PullImage { image } && image@ == "cloudflare/cloudflared:latest"@),
            },
            _ => false,
        },
        TunnelStage::StartingExisting => match e {
            TunnelEvent::Step(r) => t.stage == TunnelStage::Finished && a == TunnelAction::Finish(r),
            _ => false,
        },
        TunnelStage::Pulling => match e {
            TunnelEvent::Step(Err(err)) => t.stage == TunnelStage::Finished && a
                == TunnelAction::Finish(Err(err)),
            TunnelEvent::Step(Ok(())) => {
                &&& t == (TunnelFlow { stage: TunnelStage::Creating, ..s })
                &&& a matches TunnelAction::CreateContainer { spec }
                &&& tunnel_container_ok(spec, s.token@)
            },
            _ => false,
        },
        TunnelStage::Creating => match e {
            TunnelEvent::Created(Err(msg)) => t.stage == TunnelStage::Finished && (a matches TunnelAction::Finish(
                Err(AppError::ContainerRuntime(m)),
            ) && m@ == "Failed to create tunnel container: "@ + msg@),
            TunnelEvent::Created(Ok(id)) => t == (TunnelFlow {
                stage: TunnelStage::StartingNew,
                ..s
            }) && a == (TunnelAction::StartContainer { id }),
            _ => false,
        },
        TunnelStage::StartingNew => match e {
            TunnelEvent::Step(Err(err)) => t.stage == TunnelStage::Finished && a
                == TunnelAction::Finish(Err(err)),
            TunnelEvent::Step(Ok(())) => t == (TunnelFlow { stage: TunnelStage::Connecting, ..s })
                && (a matches TunnelAction::ConnectNetwork { container } && container@
                == tunnel_container_name()),
            _ => false,
        },
        TunnelStage::Connecting => t.stage == TunnelStage::Finished && a == TunnelAction::Finish(
            Ok(()),
        ),
        TunnelStage::Finished => false,
    }
}

fn find_tunnel(cs: &Vec<ContainerInfo>) -> (r: Option<usize>)
    ensures
        match r {
            Some(i) => first_index(cs@, tunnel_pred()) == Some(i as int) && i < cs@.len(),
            None => first_index(cs@, tunnel_pred()) is None,
        },
{
    let name = chars_of("/labuh-tunnel");
    proof {
        reveal_strlit("/labuh-tunnel");
        reveal_strlit("/");
        reveal_strlit("labuh-tunnel");
        assert(name@ =~= "/"@ + tunnel_container_name());
    }
    let mut i: usize = 0;
    while i < cs.len()
        invariant
            i <= cs.len(),
            name@ == "/"@ + tunnel_container_name(),
            forall|k: int| 0 <= k < i ==> !(#[trigger] tunnel_pred()(cs@[k])),
        decreases cs.len() - i,
    {
        if any_name_is(&cs[i].names, &name) {
            proof {
                lemma_first_index_at(cs@, tunnel_pred(), i as int);
            }
            return Some(i);
        }
        i = i + 1;
    }
    proof {
        lemma_first_index_none(cs@, tunnel_pred());
    }
    None
}

impl TunnelFlow {
    /// Whether the flow waits for an outcome like `e`.
    pub fn accepts_event(&self, e: &TunnelEvent) -> (r: bool)
        ensures
            r == tunnel_accepts(self.stage, *e),
    {
        match self.stage {
            TunnelStage::Listing => matches!(e, TunnelEvent::Containers(_)),
            TunnelStage::Creating => matches!(e, TunnelEvent::Created(_)),
            TunnelStage::Connecting => matches!(e, TunnelEvent::Ignored),
            TunnelStage::Finished => false,
            _ => matches!(e, TunnelEvent::Step(_)),
        }
    }

    /// Takes the outcome `e` of the last action and gives the next flow and
    /// action.
    pub fn step(self, e: TunnelEvent) -> (r: (TunnelFlow, TunnelAction))
        requires
            tunnel_accepts(self.stage, e),
        ensures
            tunnel_next(self, e, r.0, r.1),
    {
        match self.stage {
            TunnelStage::Listing => match e {
                TunnelEvent::Containers(Err(err)) => (
                    TunnelFlow { stage: TunnelStage::Finished, ..self },
                    TunnelAction::Finish(Err(err)),
                ),
                TunnelEvent::Containers(Ok(cs)) => match find_tunnel(&cs) {
                    Some(i) => if str_eq(cs[i].state.as_str(), "running") {
                        (TunnelFlow { stage: TunnelStage::Finished, ..self }, TunnelAction::Finish(Ok(())))
                    } else {
                        let id = cs[i].id.clone();
                        (
                            TunnelFlow { stage: TunnelStage::StartingExisting, ..self },
                            TunnelAction::StartContainer { id },
                        )
                    },
                    None => (
                        TunnelFlow { stage: TunnelStage::Pulling, ..self },
                        TunnelAction::PullImage { image: "cloudflare/cloudflared:latest".to_owned() },
                    ),
                },
                _ => {
                    proof {
                        assert(false);
                    }
                    (self, TunnelAction::ListContainers)
                },
            },
            TunnelStage::StartingExisting => match e {
                TunnelEvent::Step(r) => (TunnelFlow { stage: TunnelStage::Finished, ..self }, TunnelAction::Finish(r)),
                _ => {
                    proof {
                        assert(false);
                    }
                    (self, TunnelAction::ListContainers)
                },
            },
            TunnelStage::Pulling => match e {
                TunnelEvent::Step(Err(err)) => (
                    TunnelFlow { stage: TunnelStage::Finished, ..self },
                    TunnelAction::Finish(Err(err)),
                ),
                TunnelEvent::Step(Ok(())) => {
                    let spec = tunnel_container(self.token.as_str());
                    (TunnelFlow { stage: TunnelStage::Creating, ..self }, TunnelAction::CreateContainer { spec })
                },
                _ => {
                    proof {
                        assert(false);
                    }
                    (self, TunnelAction::ListContainers)
                },
            },
            TunnelStage::Creating => match e {
                TunnelEvent::Created(Err(msg)) => (
                    TunnelFlow { stage: TunnelStage::Finished, ..self },
                    TunnelAction::Finish(
                        Err(AppError::ContainerRuntime(concat2("Failed to create tunnel container: ", msg.as_str()))),
                    ),
                ),
                TunnelEvent::Created(Ok(id)) => (
                    TunnelFlow { stage: TunnelStage::StartingNew, ..self },
                    TunnelAction::StartContainer { id },
                ),
                _ => {
                    proof {
                        assert(false);
                    }
                    (self, TunnelAction::ListContainers)
                },
            },
            TunnelStage::StartingNew => match e {
                TunnelEvent::Step(Err(err)) => (
                    TunnelFlow { stage: TunnelStage::Finished, ..self },
                    TunnelAction::Finish(Err(err)),
                ),
                TunnelEvent::Step(Ok(())) => (
                    TunnelFlow { stage: TunnelStage::Connecting, ..self },
                    TunnelAction::ConnectNetwork { container: "labuh-tunnel".to_owned() },
                ),
                _ => {
                    proof {
                        assert(false);
                    }
                    (self, TunnelAction::ListContainers)
                },
            },
            TunnelStage::Connecting => (TunnelFlow { stage: TunnelStage::Finished, ..self }, TunnelAction::Finish(Ok(()))),
            TunnelStage::Finished => {
                proof {
                    assert(false);
                }
                (self, TunnelAction::ListContainers)
            },
        }
    }
}

impl TunnelService {
    pub fn new() -> (s: TunnelService) {
        TunnelService {}
    }

    /// Starts making sure the tunnel container of `token` runs.
    pub fn ensure_tunnel(&self, token: &str) -> (r: (TunnelFlow, TunnelAction))
        ensures
            r.0.token@ == token@,
            r.0.stage == TunnelStage::Listing,
            r.1 == TunnelAction::ListContainers,
    {
        (TunnelFlow { token: token.to_owned(), stage: TunnelStage::Listing }, TunnelAction::ListContainers)
    }
}

/// A tunnel that runs is left alone; the tunnel is created only when there
/// is none, and then always for the token asked for.
pub proof fn law_tunnel_created_only_when_missing(
    s: TunnelFlow,
    e: TunnelEvent,
    t: TunnelFlow,
    a: TunnelAction,
)
    requires
        tunnel_accepts(s.stage, e),
        tunnel_next(s, e, t, a),
    ensures
        s.stage == TunnelStage::Listing ==> (e matches TunnelEvent::Containers(Ok(cs)) ==> (
        first_index(cs@, tunnel_pred()) matches Some(i) && cs@[i].state@ == "running"@ ==> a
            == TunnelAction::Finish(Ok(())))),
        a matches TunnelAction::CreateContainer { spec } ==> tunnel_container_ok(spec, s.token@),
{
}

} // verus!
