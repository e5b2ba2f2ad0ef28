//! Swarm membership: after this node creates or joins a swarm, the platform
//! network becomes an overlay network and the proxy is connected to it again;
//! failures of those two steps are tolerated.
use vstd::prelude::*;
use crate::error::AppError;

verus! {

/// The platform network.
pub open spec fn platform_network() -> Seq<char> {
    "labuh-network"@
}

/// The proxy container.
pub open spec fn proxy_container() -> Seq<char> {
    "labuh-caddy"@
}

/// Where a swarm operation stands.
#[derive(Debug, Clone, Copy, PartialEq, Eq, Structural)]
pub enum SwarmStage {
    Entering,
    Migrating,
    Connecting,
    Finished,
}

/// A swarm operation: the join token the swarm gave (none when joining).
#[derive(Debug)]
pub struct SwarmFlow {
    pub token: Option<String>,
    pub stage: SwarmStage,
}

/// The outcome of the last action.
#[derive(Debug)]
pub enum SwarmEvent {
    /// A swarm was created, with its join token.
    Initialized(Result<String, AppError>),
    /// The swarm was joined.
    Joined(Result<(), AppError>),
    /// A network step ended.
    Step(Result<(), AppError>),
}

/// What the caller does next.
#[derive(Debug)]
pub enum SwarmAction {
    Init { listen_addr: String },
    Join { listen_addr: String, remote_addr: String, token: String },
    MigrateNetwork { network: String },
    ConnectNetwork { container: String, network: String },
    /// The operation ends: the join token of a created swarm, none after
    /// joining one.
    Finish(Result<Option<String>, AppError>),
}

/// Which outcome each stage waits for.
pub open spec fn swarm_accepts(stage: SwarmStage, e: SwarmEvent) -> bool {
    match stage {
        SwarmStage::Entering => e is Initialized || e is Joined,
        SwarmStage::Migrating | SwarmStage::Connecting => e is Step,
        SwarmStage::Finished => false,
    }
}

/// One step: a failure to create or join the swarm ends the operation;
/// otherwise the network is migrated, then the proxy connected, whatever
/// each step gives, and the operation succeeds.
pub open spec fn swarm_next(s: SwarmFlow, e: SwarmEvent, t: SwarmFlow, a: SwarmAction) -> bool {
    match (s.stage, e) {
        (SwarmStage::Entering, SwarmEvent::Initialized(Err(err))) => t.stage == SwarmStage::Finished
            && a == SwarmAction::Finish(Err(err)),
        (SwarmStage::Entering, SwarmEvent::Joined(Err(err))) => t.stage == SwarmStage::Finished && a
            == SwarmAction::Finish(Err(err)),
        (SwarmStage::Entering, SwarmEvent::Initialized(Ok(token))) => t == (SwarmFlow {
            token: Some(token),
            stage: SwarmStage::Migrating,
        }) && (a matches SwarmAction::MigrateNetwork { network } && network@ == platform_network()),
        (SwarmStage::Entering, SwarmEvent::Joined(Ok(_))) => t == (SwarmFlow {
            token: None,
            stage: SwarmStage::Migrating,
        }) && (a matches SwarmAction::MigrateNetwork { network } && network@ == platform_network()),
        (SwarmStage::Migrating, SwarmEvent::Step(_)) => t == (SwarmFlow {
            stage: SwarmStage::Connecting,
            ..s
        }) && (a matches SwarmAction::ConnectNetwork { container, network } && container@
            == proxy_container() && network@ == platform_network()),
        (SwarmStage::Connecting, SwarmEvent::Step(_)) => t.stage == SwarmStage::Finished && a
            == SwarmAction::Finish(Ok(s.token)),
        _ => false,
    }
}

impl SwarmFlow {
    /// Whether the flow waits for an outcome like `e`.
    pub fn accepts_event(&self, e: &SwarmEvent) -> (r: bool)
        ensures
            r == swarm_accepts(self.stage, *e),
    {
        match self.stage {
            SwarmStage::Entering => matches!(e, SwarmEvent::Initialized(_)) || matches!(e, SwarmEvent::Joined(_)),
            SwarmStage::Migrating | SwarmStage::Connecting => matches!(e, SwarmEvent::Step(_)),
            SwarmStage::Finished => false,
        }
    }

    /// Takes the outcome `e` of the last action and gives the next flow and
    /// action.
    pub fn step(self, e: SwarmEvent) -> (r: (SwarmFlow, SwarmAction))
        requires
            swarm_accepts(self.stage, e),
        ensures
            swarm_next(self, e, r.0, r.1),
    {
        proof {
            reveal_strlit("labuh-network");
            reveal_strlit("labuh-caddy");
        }
        match e {
            SwarmEvent::Initialized(Err(err)) => (
                SwarmFlow { stage: SwarmStage::Finished, ..self },
                SwarmAction::Finish(Err(err)),
            ),
            SwarmEvent::Joined(Err(err)) => (
                SwarmFlow { stage: SwarmStage::Finished, ..self },
                SwarmAction::Finish(Err(err)),
            ),
            SwarmEvent::Initialized(Ok(token)) => (
                SwarmFlow { token: Some(token), stage: SwarmStage::Migrating },
                SwarmAction::MigrateNetwork { network: "labuh-network".to_owned() },
            ),
            SwarmEvent::Joined(Ok(_)) => (
                SwarmFlow { token: None, stage: SwarmStage::Migrating },
                SwarmAction::MigrateNetwork { network: "labuh-network".to_owned() },
            ),
            SwarmEvent::Step(_) => if self.stage == SwarmStage::Migrating {
                (
                    SwarmFlow { stage: SwarmStage::Connecting, ..self },
                    SwarmAction::ConnectNetwork {
                        container: "labuh-caddy".to_owned(),
                        network: "labuh-network".to_owned(),
                    },
                )
            } else {
                let token = self.token;
                (SwarmFlow { token: None, stage: SwarmStage::Finished }, SwarmAction::Finish(Ok(token)))
            },
        }
    }
}

/// Swarm operations.
pub struct NodeUsecase {}

impl NodeUsecase {
    pub fn new() -> (u: NodeUsecase) {
        NodeUsecase {}
    }

    /// Starts creating a swarm listening on `listen_addr`.
    pub fn init_swarm(&self, listen_addr: &str) -> (r: (SwarmFlow, SwarmAction))
        ensures
            r.0.stage == SwarmStage::Entering,
            r.0.token is None,
            r.1 matches SwarmAction::Init { listen_addr: l } && l@ == listen_addr@,
    {
        (
            SwarmFlow { token: None, stage: SwarmStage::Entering },
            SwarmAction::Init { listen_addr: listen_addr.to_owned() },
        )
    }

    /// Starts joining the swarm at `remote_addr` with `token`, listening on
    /// `listen_addr`.
    pub fn join_swarm(&self, listen_addr: &str, remote_addr: &str, token: &str) -> (r: (
        SwarmFlow,
        SwarmAction,
    ))
        ensures
            r.0.stage == SwarmStage::Entering,
            r.0.token is None,
            r.1 matches SwarmAction::Join { listen_addr: l, remote_addr: m, token: t } && l@
                == listen_addr@ && m@ == remote_addr@ && t@ == token@,
    {
        (
            SwarmFlow { token: None, stage: SwarmStage::Entering },
            SwarmAction::Join {
                listen_addr: listen_addr.to_owned(),
                remote_addr: remote_addr.to_owned(),
                token: token.to_owned(),
            },
        )
    }
}

/// Once the swarm is created or joined, the operation succeeds whatever the
/// network steps give: a network step never leads to a failure.
pub proof fn law_network_steps_never_fail_the_operation(
    s: SwarmFlow,
    e: SwarmEvent,
    t: SwarmFlow,
    a: SwarmAction,
)
    requires
        swarm_accepts(s.stage, e),
        swarm_next(s, e, t, a),
        e is Step,
    ensures
        !(a matches SwarmAction::Finish(Err(_))),
{
}

/// A created swarm's join token is what the operation finally gives.
pub proof fn law_token_is_kept(s: SwarmFlow, e: SwarmEvent, t: SwarmFlow, a: SwarmAction)
    requires
        swarm_accepts(s.stage, e),
        swarm_next(s, e, t, a),
        s.stage == SwarmStage::Connecting,
    ensures
        a == SwarmAction::Finish(Ok(s.token)),
{
}

} // verus!
