//! Webhooks: a call with a stack's token redeploys the stack, and each
//! deployment it triggers is logged with its outcome.
use vstd::prelude::*;
use crate::backend::models::stack::Stack;
use crate::backend::usecase::deployment_log::{pending, text_of, str_text_of, DeploymentLog, DeploymentLogUsecase};
use crate::error::AppError;
use crate::server::services::stack::StackService;
use crate::ids::{new_uuid, now_rfc3339, uuid_shaped};

verus! {

/// One call of a webhook and how it ended.
#[derive(Debug)]
pub struct WebhookLog {
    pub id: String,
    pub stack_id: String,
    pub trigger_type: String,
    pub status: String,
    pub payload: Option<String>,
    pub response: Option<String>,
    pub triggered_at: String,
    pub completed_at: Option<String>,
}

/// The status of a completed call.
pub open spec fn completion_status(success: bool) -> Seq<char> {
    if success {
        "success"@
    } else {
        "failed"@
    }
}

/// Webhook call logs.
pub struct WebhookLogService {}

impl WebhookLogService {
    pub fn new() -> (s: WebhookLogService) {
        WebhookLogService {}
    }

    /// The log of a new call for `stack_id`, pending.
    pub fn create(&self, stack_id: &str, trigger_type: &str, payload: Option<&str>) -> (r: WebhookLog)
        ensures
            uuid_shaped(r.id@),
            r.stack_id@ == stack_id@,
            r.trigger_type@ == trigger_type@,
            r.status@ == pending(),
            text_of(r.payload) == str_text_of(payload),
            r.response is None,
            r.completed_at is None,
    {
        proof {
            reveal_strlit("pending");
        }
        WebhookLog {
            id: new_uuid(),
            stack_id: stack_id.to_owned(),
            trigger_type: trigger_type.to_owned(),
            status: "pending".to_owned(),
            payload: match payload {
                Some(p) => Some(p.to_owned()),
                None => None,
            },
            response: None,
            triggered_at: now_rfc3339(),
            completed_at: None,
        }
    }

    /// `log` completed now, successfully or not, with `response`.
    pub fn complete(&self, log: WebhookLog, success: bool, response: Option<&str>) -> (r: WebhookLog)
        ensures
            r.id == log.id,
            r.stack_id == log.stack_id,
            r.trigger_type == log.trigger_type,
            r.payload == log.payload,
            r.triggered_at == log.triggered_at,
            r.status@ == completion_status(success),
            text_of(r.response) == str_text_of(response),
            r.completed_at is Some,
    {
        proof {
            reveal_strlit("success");
            reveal_strlit("failed");
        }
        let status = if success {
            "success".to_owned()
        } else {
            "failed".to_owned()
        };
        WebhookLog {
            status,
            response: match response {
                Some(x) => Some(x.to_owned()),
                None => None,
            },
            completed_at: Some(now_rfc3339()),
            ..log
        }
    }

    /// How many logs a listing gives: 50 unless asked otherwise.
    pub fn list(&self, limit: Option<usize>) -> (n: usize)
        ensures
            n == match limit {
                Some(l) => l,
                None => 50,
            },
    {
        match limit {
            Some(l) => l,
            None => 50,
        }
    }
}

// ---------------------------------------------------------------- triggering a deployment

/// Where a webhook call stands.
#[derive(Debug, Clone, Copy, PartialEq, Eq, Structural)]
pub enum TriggerStage {
    Validating,
    Logging,
    Deploying,
    Recording,
    Finished,
}

/// A webhook call: the token it carries, the deployment log of the stack
/// being redeployed, and the failure of the redeployment, if any.
#[derive(Debug)]
pub struct TriggerFlow {
    pub stack_id: String,
    pub token: String,
    pub log_id: String,
    pub failure: Option<AppError>,
    pub stage: TriggerStage,
}

/// The outcome of the last action.
#[derive(Debug)]
pub enum TriggerEvent {
    /// The stored stack the call names, if any.
    Found(Result<Option<Stack>, AppError>),
    /// The deployment log stored.
    Logged(Result<DeploymentLog, AppError>),
    /// The redeployment ended.
    Deployed(Result<(), AppError>),
    Step(Result<(), AppError>),
}

/// What the caller does next.
#[derive(Debug)]
pub enum TriggerAction {
    /// Read stack `stack_id`.
    FindStack { stack_id: String },
    /// Store the new deployment log.
    CreateLog(DeploymentLog),
    Redeploy { stack_id: String },
    /// Record that deployment `id` succeeded, with `logs`.
    MarkSucceeded { id: String, logs: String },
    /// Record that deployment `id` failed, with `Deployment failed: ` and the
    /// error as its logs.
    MarkFailed { id: String, error: AppError },
    /// The call ends: the deployment id, or the error.
    Finish(Result<String, AppError>),
}

/// The call's token is the stack's own webhook token.
pub open spec fn token_matches(st: Stack, token: Seq<char>) -> bool {
    st.webhook_token matches Some(tk) && tk@ == token
}

/// Which outcome each stage waits for.
pub open spec fn trigger_accepts(stage: TriggerStage, e: TriggerEvent) -> bool {
    match stage {
        TriggerStage::Validating => e is Found,
        TriggerStage::Logging => e is Logged,
        TriggerStage::Deploying => e is Deployed,
        TriggerStage::Recording => e is Step,
        TriggerStage::Finished => false,
    }
}

/// One step: a call for a stack that is not stored, or whose token is not
/// the stack's own, ends with that error and deploys nothing; else a
/// pending deployment log is stored for the stack, triggered by `webhook`;
/// the stack is redeployed and the outcome recorded; the call succeeds with
/// the deployment id exactly when the redeployment and its record did, and
/// a failed redeployment gives its own error.
pub open spec fn trigger_next(s: TriggerFlow, e: TriggerEvent, t: TriggerFlow, a: TriggerAction) -> bool {
    match (s.stage, e) {
        (TriggerStage::Validating, TriggerEvent::Found(Err(err))) => t.stage == TriggerStage::Finished
            && a == TriggerAction::Finish(Err(err)),
        (TriggerStage::Validating, TriggerEvent::Found(Ok(None))) => t.stage == TriggerStage::Finished
            && (a matches TriggerAction::Finish(Err(AppError::NotFound(m))) && m@ == "Stack not found"@),
        (TriggerStage::Validating, TriggerEvent::Found(Ok(Some(st)))) => if token_matches(st, s.token@) {
            &&& t == (TriggerFlow { stack_id: st.id, stage: TriggerStage::Logging, ..s })
            &&& a matches TriggerAction::CreateLog(log) && uuid_shaped(log.id@) && log.stack_id@ == st.id@
                && log.trigger_type@ == "webhook"@ && log.status@ == pending()
        } else {
            t.stage == TriggerStage::Finished && (a matches TriggerAction::Finish(Err(AppError::Auth(m)))
                && m@ == "Invalid webhook token"@)
        },
        (TriggerStage::Logging, TriggerEvent::Logged(Err(err))) => t.stage == TriggerStage::Finished
            && a == TriggerAction::Finish(Err(err)),
        (TriggerStage::Logging, TriggerEvent::Logged(Ok(log))) => t == (TriggerFlow {
            log_id: log.id,
            stage: TriggerStage::Deploying,
            ..s
        }) && a == (TriggerAction::Redeploy { stack_id: s.stack_id }),
        (TriggerStage::Deploying, TriggerEvent::Deployed(Ok(_))) => t == (TriggerFlow {
            failure: None,
            stage: TriggerStage::Recording,
            ..s
        }) && (a matches TriggerAction::MarkSucceeded { id, logs } && id == s.log_id && logs@
            == "Stack redeployed successfully"@),
        (TriggerStage::Deploying, TriggerEvent::Deployed(Err(err))) => t == (TriggerFlow {
            failure: Some(err),
            stage: TriggerStage::Recording,
            ..s
        }) && a == (TriggerAction::MarkFailed { id: s.log_id, error: err }),
        (TriggerStage::Recording, TriggerEvent::Step(Err(err))) => t.stage == TriggerStage::Finished
            && a == TriggerAction::Finish(Err(err)),
        (TriggerStage::Recording, TriggerEvent::Step(Ok(_))) => t.stage == TriggerStage::Finished && a
            == TriggerAction::Finish(
            match s.failure {
                None => Ok(s.log_id),
                Some(err) => Err(err),
            },
        ),
        _ => false,
    }
}

impl TriggerFlow {
    /// Whether the flow waits for an outcome like `e`.
    pub fn accepts_event(&self, e: &TriggerEvent) -> (r: bool)
        ensures
            r == trigger_accepts(self.stage, *e),
    {
        match self.stage {
            TriggerStage::Validating => matches!(e, TriggerEvent::Found(_)),
            TriggerStage::Logging => matches!(e, TriggerEvent::Logged(_)),
            TriggerStage::Deploying => matches!(e, TriggerEvent::Deployed(_)),
            TriggerStage::Recording => matches!(e, TriggerEvent::Step(_)),
            TriggerStage::Finished => false,
        }
    }

    /// Takes the outcome `e` of the last action and gives the next flow and
    /// action.
    pub fn step(self, e: TriggerEvent) -> (r: (TriggerFlow, TriggerAction))
        requires
            trigger_accepts(self.stage, e),
        ensures
            trigger_next(self, e, r.0, r.1),
    {
        proof {
            reveal_strlit("webhook");
            reveal_strlit("Stack redeployed successfully");
        }
        let done = TriggerStage::Finished;
        match e {
            TriggerEvent::Found(Err(err)) => (TriggerFlow { stage: done, ..self }, TriggerAction::Finish(Err(err))),
            TriggerEvent::Found(Ok(None)) => {
                proof {
                    reveal_strlit("Stack not found");
                }
                (
                    TriggerFlow { stage: done, ..self },
                    TriggerAction::Finish(Err(AppError::NotFound("Stack not found".to_owned()))),
                )
            },
            TriggerEvent::Found(Ok(Some(st))) => {
                let stacks = StackService::new();
                match stacks.validate_webhook_token(st, self.token.as_str()) {
                    Err(e) => (TriggerFlow { stage: done, ..self }, TriggerAction::Finish(Err(e))),
                    Ok(st) => {
                        let logs = DeploymentLogUsecase::new();
                        let log = logs.create_log(st.id.as_str(), "webhook");
                        (
                            TriggerFlow { stack_id: st.id, stage: TriggerStage::Logging, ..self },
                            TriggerAction::CreateLog(log),
                        )
                    },
                }
            },
            TriggerEvent::Logged(Err(err)) => (TriggerFlow { stage: done, ..self }, TriggerAction::Finish(Err(err))),
            TriggerEvent::Logged(Ok(log)) => {
                let stack_id = self.stack_id.clone();
                (
                    TriggerFlow { log_id: log.id, stage: TriggerStage::Deploying, ..self },
                    TriggerAction::Redeploy { stack_id },
                )
            },
            TriggerEvent::Deployed(Ok(_)) => {
                let id = self.log_id.clone();
                (
                    TriggerFlow { failure: None, stage: TriggerStage::Recording, ..self },
                    TriggerAction::MarkSucceeded { id, logs: "Stack redeployed successfully".to_owned() },
                )
            },
            TriggerEvent::Deployed(Err(err)) => {
                let id = self.log_id.clone();
                let copy = err.duplicate();
                (
                    TriggerFlow { failure: Some(err), stage: TriggerStage::Recording, ..self },
                    TriggerAction::MarkFailed { id, error: copy },
                )
            },
            TriggerEvent::Step(Err(err)) => (TriggerFlow { stage: done, ..self }, TriggerAction::Finish(Err(err))),
            TriggerEvent::Step(Ok(_)) => {
                let r = match self.failure {
                    None => Ok(self.log_id),
                    Some(err) => Err(err),
                };
                (
                    TriggerFlow {
                        stack_id: String::new(),
                        token: String::new(),
                        log_id: String::new(),
                        failure: None,
                        stage: done,
                    },
                    TriggerAction::Finish(r),
                )
            },
        }
    }
}

/// Starts a webhook call for stack `stack_id` with `token`: the stack is
/// read first, and its token checked against `token`.
pub fn trigger_deploy(stack_id: &str, token: &str) -> (r: (TriggerFlow, TriggerAction))
    ensures
        r.0.stage == TriggerStage::Validating,
        r.0.token@ == token@,
        r.0.failure is None,
        r.1 matches TriggerAction::FindStack { stack_id: s } && s@ == stack_id@,
{
    (
        TriggerFlow {
            stack_id: stack_id.to_owned(),
            token: token.to_owned(),
            log_id: String::new(),
            failure: None,
            stage: TriggerStage::Validating,
        },
        TriggerAction::FindStack { stack_id: stack_id.to_owned() },
    )
}

/// Only the stack's own token triggers anything: a call goes on past the
/// check (to store a deployment log) exactly when the stack is stored and
/// its webhook token is the one the call carries.
pub proof fn law_only_the_stacks_token_triggers(s: TriggerFlow, e: TriggerEvent, t: TriggerFlow, a: TriggerAction)
    requires
        s.stage == TriggerStage::Validating,
        trigger_accepts(s.stage, e),
        trigger_next(s, e, t, a),
    ensures
        a is CreateLog <==> (e matches TriggerEvent::Found(Ok(Some(st))) && token_matches(st, s.token@)),
        !(a is CreateLog) ==> a matches TriggerAction::Finish(Err(_)),
{
}

/// A webhook call succeeds only after its deployment succeeded and was
/// recorded, and gives the id of the deployment log.
pub proof fn law_success_means_recorded_deployment(
    s: TriggerFlow,
    e: TriggerEvent,
    t: TriggerFlow,
    a: TriggerAction,
)
    requires
        trigger_accepts(s.stage, e),
        trigger_next(s, e, t, a),
    ensures
        a matches TriggerAction::Finish(Ok(id)) ==> s.stage == TriggerStage::Recording && s.failure is None
            && id == s.log_id,
{
}

} // verus!
