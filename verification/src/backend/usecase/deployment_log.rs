//! Deployment logs: a new log is pending, and finishing one records its
//! status, its output and the time it ended.
use vstd::prelude::*;
use crate::ids::{new_uuid, now_timestamp, uuid_shaped};

verus! {

/// One deployment of a stack and how it went.
#[derive(Debug)]
pub struct DeploymentLog {
    pub id: String,
    pub stack_id: String,
    pub trigger_type: String,
    pub status: String,
    pub logs: Option<String>,
    pub started_at: String,
    pub finished_at: Option<String>,
}

/// A deployment to record: the stack and what triggered it.
#[derive(Debug)]
pub struct CreateDeploymentLog {
    pub stack_id: String,
    pub trigger_type: String,
}

/// The text of an optional string.
pub open spec fn text_of(o: Option<String>) -> Option<Seq<char>> {
    match o {
        Some(s) => Some(s@),
        None => None,
    }
}

/// The text of an optional string slice.
pub open spec fn str_text_of(o: Option<&str>) -> Option<Seq<char>> {
    match o {
        Some(s) => Some(s@),
        None => None,
    }
}

/// The status of a log that has not finished.
pub open spec fn pending() -> Seq<char> {
    "pending"@
}

/// Deployment log operations.
pub struct DeploymentLogUsecase {}

impl DeploymentLogUsecase {
    pub fn new() -> (u: DeploymentLogUsecase) {
        DeploymentLogUsecase {}
    }

    /// The record of a new deployment of `stack_id` triggered by
    /// `trigger_type`: a fresh id, pending, without output, started now.
    pub fn create_log(&self, stack_id: &str, trigger_type: &str) -> (log: DeploymentLog)
        ensures
            uuid_shaped(log.id@),
            log.stack_id@ == stack_id@,
            log.trigger_type@ == trigger_type@,
            log.status@ == pending(),
            log.logs is None,
            log.finished_at is None,
    {
        let id = new_uuid();
        let now = now_timestamp();
        DeploymentLog {
            id,
            stack_id: stack_id.to_owned(),
            trigger_type: trigger_type.to_owned(),
            status: "pending".to_owned(),
            logs: None,
            started_at: now,
            finished_at: None,
        }
    }

    /// `log` finished now with `status` and the output `logs`; the rest of the
    /// record is kept.
    pub fn update_status(&self, log: DeploymentLog, status: &str, logs: Option<&str>) -> (r:
        DeploymentLog)
        ensures
            r.id == log.id,
            r.stack_id == log.stack_id,
            r.trigger_type == log.trigger_type,
            r.started_at == log.started_at,
            r.status@ == status@,
            text_of(r.logs) == str_text_of(logs),
            r.finished_at is Some,
    {
        let output = match logs {
            Some(l) => Some(l.to_owned()),
            None => None,
        };
        let now = now_timestamp();
        DeploymentLog { status: status.to_owned(), logs: output, finished_at: Some(now), ..log }
    }
}

} // verus!
