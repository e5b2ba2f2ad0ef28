//! Team stacks: creating one (from a compose file or from a Git repository),
//! syncing a Git-backed stack, health checks, backups and ownership of a
//! container.
use vstd::prelude::*;
use crate::backend::services::container::ContainerInfo;
use crate::backend::usecase::stack::{git_dir, stack_label, StackUsecase};
use crate::backend::usecase::team::TeamRole;
use crate::env::StackEnvVar;
use crate::backend::usecase::environment::EnvironmentUsecase;
use crate::server::services::environment::new_record;
use crate::error::AppError;
use crate::ids::{generate_token, is_ascii_alphanumeric, new_uuid, now_rfc3339, token_length, uuid_shaped};
use crate::labels::{find_value, lookup};
use crate::text::{chars_of, concat2, has_prefix, starts_with};

verus! {

/// A stack of a team as stored.
#[derive(Debug)]
pub struct StackRecord {
    pub id: String,
    pub name: String,
    pub user_id: String,
    pub team_id: String,
    pub compose_content: Option<String>,
    pub status: String,
    pub webhook_token: Option<String>,
    pub cron_schedule: Option<String>,
    pub health_check_path: Option<String>,
    pub health_check_interval: i32,
    pub last_stable_images: Option<String>,
    pub git_url: Option<String>,
    pub git_branch: Option<String>,
    pub last_commit_hash: Option<String>,
    pub created_at: String,
    pub updated_at: String,
}

/// Where a Git-backed stack comes from: its repository, branch and the
/// commit checked out.
#[derive(Debug)]
pub struct GitSource {
    pub url: String,
    pub branch: String,
    pub commit: String,
}

/// The record of a new stack: a fresh id and webhook token, creating, with
/// the default health check interval and no automation, linked to `git`
/// when it comes from a repository.
pub open spec fn new_stack(
    r: StackRecord,
    name: Seq<char>,
    compose: Seq<char>,
    user_id: Seq<char>,
    team_id: Seq<char>,
    git: Option<GitSource>,
) -> bool {
    &&& uuid_shaped(r.id@)
    &&& r.name@ == name
    &&& r.user_id@ == user_id
    &&& r.team_id@ == team_id
    &&& r.compose_content matches Some(c) && c@ == compose
    &&& r.status@ == "creating"@
    &&& r.webhook_token matches Some(tok) && tok@.len() == token_length() && forall|i: int|
        0 <= i < tok@.len() ==> is_ascii_alphanumeric(#[trigger] tok@[i])
    &&& r.cron_schedule is None
    &&& r.health_check_path is None
    &&& r.health_check_interval == 30
    &&& r.last_stable_images is None
    &&& match git {
        Some(g) => r.git_url == Some(g.url) && r.git_branch == Some(g.branch) && r.last_commit_hash
            == Some(g.commit),
        None => r.git_url is None && r.git_branch is None && r.last_commit_hash is None,
    }
    &&& r.created_at == r.updated_at
}

/// The record of a new stack with id `id`.
fn stack_record(id: String, name: &str, compose: &str, user_id: &str, team_id: &str, git: Option<GitSource>) -> (r:
    StackRecord)
    requires
        uuid_shaped(id@),
    ensures
        new_stack(r, name@, compose@, user_id@, team_id@, git),
        r.id == id,
{
    proof {
        reveal_strlit("creating");
    }
    let now = now_rfc3339();
    let (git_url, git_branch, last_commit_hash) = match git {
        Some(g) => (Some(g.url), Some(g.branch), Some(g.commit)),
        None => (None, None, None),
    };
    StackRecord {
        id,
        name: name.to_owned(),
        user_id: user_id.to_owned(),
        team_id: team_id.to_owned(),
        compose_content: Some(compose.to_owned()),
        status: "creating".to_owned(),
        webhook_token: Some(generate_token()),
        cron_schedule: None,
        health_check_path: None,
        health_check_interval: 30,
        last_stable_images: None,
        git_url,
        git_branch,
        last_commit_hash,
        created_at: now.clone(),
        updated_at: now,
    }
}

/// The refusal of a user who is no member of the team.
pub open spec fn refused(r: Result<StackRecord, AppError>) -> bool {
    r matches Err(AppError::Forbidden(m)) && m@ == "Access denied"@
}

impl StackUsecase {
    /// The record of a new stack `name` of team `team_id` from
    /// `compose_content`, for a user with `role` in the team (refused when
    /// none). Its services are built next, then it is marked stopped.
    pub fn create_stack(
        &self,
        role: Option<TeamRole>,
        name: &str,
        compose_content: &str,
        user_id: &str,
        team_id: &str,
    ) -> (r: Result<StackRecord, AppError>)
        ensures
            role is None ==> refused(r),
            role is Some ==> (r matches Ok(s) && new_stack(s, name@, compose_content@, user_id@, team_id@, None)),
    {
        match role {
            None => {
                proof {
                    reveal_strlit("Access denied");
                }
                Err(AppError::Forbidden("Access denied".to_owned()))
            },
            Some(_) => Ok(stack_record(new_uuid(), name, compose_content, user_id, team_id, None)),
        }
    }

    /// The stack a container belongs to, by its stack label: containers
    /// without one are not managed by the platform.
    pub fn verify_container_ownership(&self, container: &ContainerInfo) -> (r: Result<String, AppError>)
        ensures
            match lookup(container.labels@, stack_label()) {
                Some(id) => r matches Ok(s) && s@ == id,
                None => r matches Err(AppError::Forbidden(m)) && m@ == "Container not managed by Labuh"@,
            },
    {
        proof {
            reveal_strlit("labuh.stack.id");
            reveal_strlit("Container not managed by Labuh");
        }
        match find_value(&container.labels, "labuh.stack.id") {
            Some(id) => Ok(id),
            None => Err(AppError::Forbidden("Container not managed by Labuh".to_owned())),
        }
    }
}

/// The automation settings of a stack: its cron schedule, health check path
/// and health check interval.
#[derive(Debug)]
pub struct Automation {
    pub cron_schedule: Option<String>,
    pub health_check_path: Option<String>,
    pub health_check_interval: i32,
}

impl StackUsecase {
    /// The stack, for a user with `role` in its team (refused when none).
    pub fn get_stack(&self, stack: StackRecord, role: Option<TeamRole>) -> (r: Result<StackRecord, AppError>)
        ensures
            role is None ==> refused(r),
            role is Some ==> r == Ok::<StackRecord, AppError>(stack),
    {
        match role {
            None => {
                proof {
                    reveal_strlit("Access denied");
                }
                Err(AppError::Forbidden("Access denied".to_owned()))
            },
            Some(_) => Ok(stack),
        }
    }

    /// A fresh webhook token, for a user with `role` in the stack's team
    /// (refused when none).
    pub fn regenerate_webhook_token(&self, role: Option<TeamRole>) -> (r: Result<String, AppError>)
        ensures
            role is None ==> (r matches Err(AppError::Forbidden(m)) && m@ == "Access denied"@),
            role is Some ==> (r matches Ok(t) && t@.len() == token_length() && forall|i: int|
                0 <= i < t@.len() ==> is_ascii_alphanumeric(#[trigger] t@[i])),
    {
        match role {
            None => {
                proof {
                    reveal_strlit("Access denied");
                }
                Err(AppError::Forbidden("Access denied".to_owned()))
            },
            Some(_) => Ok(generate_token()),
        }
    }

    /// The automation settings to store, for a user with `role` in the
    /// stack's team (refused when none).
    pub fn update_automation(
        &self,
        role: Option<TeamRole>,
        cron: Option<String>,
        health_path: Option<String>,
        health_interval: i32,
    ) -> (r: Result<Automation, AppError>)
        ensures
            role is None ==> (r matches Err(AppError::Forbidden(m)) && m@ == "Access denied"@),
            role is Some ==> r == Ok::<Automation, AppError>(
                Automation {
                    cron_schedule: cron,
                    health_check_path: health_path,
                    health_check_interval: health_interval,
                },
            ),
    {
        match role {
            None => {
                proof {
                    reveal_strlit("Access denied");
                }
                Err(AppError::Forbidden("Access denied".to_owned()))
            },
            Some(_) => Ok(
                Automation {
                    cron_schedule: cron,
                    health_check_path: health_path,
                    health_check_interval: health_interval,
                },
            ),
        }
    }
}

/// A backed-up variable.
#[derive(Debug)]
pub struct BackupEnvVar {
    pub container_name: String,
    pub key: String,
    pub value: String,
    pub is_secret: bool,
}

/// A stack as backed up: its name, compose file and variables.
#[derive(Debug)]
pub struct StackBackup {
    pub name: String,
    pub compose_content: String,
    pub env_vars: Vec<BackupEnvVar>,
}

/// `b` backs up `v`.
pub open spec fn backs_up(b: BackupEnvVar, v: StackEnvVar) -> bool {
    b.container_name == v.container_name && b.key == v.key && b.value == v.value && b.is_secret
        == v.is_secret
}

impl StackUsecase {
    /// The backup of stack `stack` with its variables `vars`: the compose
    /// file (empty when it has none) and every variable, secret values
    /// included.
    pub fn get_stack_backup(&self, stack: StackRecord, vars: Vec<StackEnvVar>) -> (r: StackBackup)
        ensures
            r.name == stack.name,
            r.compose_content@ == match stack.compose_content {
                Some(c) => c@,
                None => Seq::<char>::empty(),
            },
            r.env_vars@.len() == vars@.len(),
            forall|i: int| 0 <= i < vars@.len() ==> backs_up(#[trigger] r.env_vars@[i], vars@[i]),
    {
        let ghost orig = vars@;
        let mut rest = vars;
        let mut out: Vec<BackupEnvVar> = Vec::new();
        let mut i: usize = 0;
        proof {
            assert(rest@ =~= orig.subrange(0, orig.len() as int));
            assert(orig.len() == rest.len());
        }
        while rest.len() > 0
            invariant
                i <= orig.len() <= usize::MAX,
                rest@ == orig.subrange(i as int, orig.len() as int),
                out@.len() == i,
                forall|j: int| 0 <= j < i ==> backs_up(#[trigger] out@[j], orig[j]),
            decreases rest.len(),
        {
            let v = rest.remove(0);
            proof {
                assert(v == orig[i as int]);
                assert(rest@ =~= orig.subrange(i + 1, orig.len() as int));
            }
            out.push(
                BackupEnvVar {
                    container_name: v.container_name,
                    key: v.key,
                    value: v.value,
                    is_secret: v.is_secret,
                },
            );
            i = i + 1;
        }
        let compose_content = match stack.compose_content {
            Some(c) => c,
            None => String::new(),
        };
        StackBackup { name: stack.name, compose_content, env_vars: out }
    }
}

// ---------------------------------------------------------------- health checks

/// What a health check does: nothing without a path; else it waits for the
/// containers to settle and, for an HTTP address, requests it.
#[derive(Debug)]
pub enum HealthCheck {
    Skip,
    Probe { url: Option<String> },
}

/// The health check of a stack with path `path`.
pub open spec fn health_check_of(path: Option<String>, h: HealthCheck) -> bool {
    match path {
        Some(p) => if p@.len() > 0 {
            h matches HealthCheck::Probe { url } && if has_prefix(p@, "http"@) {
                url == Some(p)
            } else {
                url is None
            }
        } else {
            h is Skip
        },
        None => h is Skip,
    }
}

/// The outcome of the request of a health check: `Err(m)` when it failed
/// with message `m`, else whether the status is a success and how it reads.
pub open spec fn health_outcome(reply: Result<(bool, String), String>, r: Result<(), AppError>) -> bool {
    match reply {
        Err(m) => r matches Err(AppError::Internal(x)) && x@ == "Health check request failed: "@ + m@,
        Ok((true, _)) => r is Ok,
        Ok((false, status)) => r matches Err(AppError::Internal(x)) && x@
            == "Health check returned non-success status: "@ + status@,
    }
}

impl StackUsecase {
    /// What the health check of a stack with `health_check_path` does.
    pub fn perform_health_check(&self, health_check_path: Option<String>) -> (h: HealthCheck)
        ensures
            health_check_of(health_check_path, h),
    {
        proof {
            reveal_strlit("http");
        }
        match health_check_path {
            Some(p) => {
                let v = chars_of(p.as_str());
                if v.len() == 0 {
                    HealthCheck::Skip
                } else {
                    let http = chars_of("http");
                    if starts_with(&v, &http) {
                        HealthCheck::Probe { url: Some(p) }
                    } else {
                        HealthCheck::Probe { url: None }
                    }
                }
            },
            None => HealthCheck::Skip,
        }
    }

    /// The result of a health check from the reply to its request.
    pub fn health_check_result(&self, reply: Result<(bool, String), String>) -> (r: Result<(), AppError>)
        ensures
            health_outcome(reply, r),
    {
        match reply {
            Err(m) => Err(AppError::Internal(concat2("Health check request failed: ", m.as_str()))),
            Ok((ok, status)) => if ok {
                Ok(())
            } else {
                Err(
                    AppError::Internal(
                        concat2("Health check returned non-success status: ", status.as_str()),
                    ),
                )
            },
        }
    }
}

// ---------------------------------------------------------------- Git-backed stacks

/// Which Git operation runs.
#[derive(Debug, Clone, Copy, PartialEq, Eq, Structural)]
pub enum GitOp {
    Create,
    Sync,
}

/// Where a Git operation stands.
#[derive(Debug, Clone, Copy, PartialEq, Eq, Structural)]
pub enum GitStage {
    Loading,
    Cloning,
    Reading,
    Inserting,
    Building,
    MarkingStopped,
    Fetching,
    UpdatingCompose,
    UpdatingCommit,
    Redeploying,
    Finished,
}

/// A Git operation on stack `id` (named `name`, of `user_id` and `team_id`):
/// the repository, branch and compose file path, the commit checked out and
/// the compose file read.
#[derive(Debug)]
pub struct GitFlow {
    pub op: GitOp,
    pub id: String,
    pub name: String,
    pub user_id: String,
    pub team_id: String,
    pub url: String,
    pub branch: String,
    pub compose_path: String,
    pub commit: String,
    pub compose: String,
    pub stage: GitStage,
}

/// The outcome of the last action.
#[derive(Debug)]
pub enum GitEvent {
    /// The stack, read with the user's access checked.
    Fetched(Result<StackRecord, AppError>),
    /// The commit checked out.
    Cloned(Result<String, AppError>),
    /// The compose file read, or why it could not be.
    Read(Result<String, String>),
    Step(Result<(), AppError>),
}

/// What the caller does next.
#[derive(Debug)]
pub enum GitAction {
    /// Read stack `id` for `user_id`, checking access.
    GetStack { id: String, user_id: String },
    /// Clone the repository into `dir`, or pull it when already there.
    CloneOrPull { url: String, branch: String, dir: String },
    /// Read the file `path` of the checkout in `dir`.
    ReadCompose { dir: String, path: String },
    InsertStack(StackRecord),
    /// Build and create the stack's services from `compose`, with the
    /// checkout in `dir` as build context.
    BuildServices { id: String, compose: String, dir: String },
    UpdateStatus { id: String, status: String },
    UpdateCompose { id: String, content: String },
    UpdateCommit { id: String, commit: String },
    /// Redeploy the stack.
    Redeploy { id: String },
    /// The operation ends: the stack created, nothing for a sync.
    Finish(Result<Option<StackRecord>, AppError>),
}

/// The message when the compose file of a checkout cannot be read.
pub open spec fn unreadable_compose(m: Seq<char>) -> Seq<char> {
    "Failed to read compose file from repo: "@ + m
}

/// Which outcome each stage waits for.
pub open spec fn git_accepts(stage: GitStage, e: GitEvent) -> bool {
    match stage {
        GitStage::Loading | GitStage::Fetching => e is Fetched,
        GitStage::Cloning => e is Cloned,
        GitStage::Reading => e is Read,
        GitStage::Finished => false,
        _ => e is Step,
    }
}

/// The flow is finished with `r`.
pub open spec fn git_ends(t: GitFlow, a: GitAction, r: Result<Option<StackRecord>, AppError>) -> bool {
    t.stage == GitStage::Finished && a == GitAction::Finish(r)
}

/// One step. A creation clones the repository into the stack's directory,
/// reads the compose file at the given path, inserts the stack linked to the
/// repository at that commit, builds its services, marks it stopped and gives
/// it back. A sync reads the stack (a bad request when it is not linked to a
/// repository), pulls its branch (`main` when none is stored), reads
/// `docker-compose.yml`, stores the compose file and the commit, and
/// redeploys. Every failure ends the operation.
pub open spec fn git_next(s: GitFlow, e: GitEvent, t: GitFlow, a: GitAction) -> bool {
    match (s.stage, e) {
        (GitStage::Loading, GitEvent::Fetched(Err(err))) => git_ends(t, a, Err(err)),
        (GitStage::Loading, GitEvent::Fetched(Ok(st))) => match st.git_url {
            None => t.stage == GitStage::Finished && (a matches GitAction::Finish(
                Err(AppError::BadRequest(m)),
            ) && m@ == "Stack not linked to Git"@),
            Some(url) => {
                &&& t.stage == GitStage::Cloning
                &&& t.op == s.op
                &&& t.id == s.id
                &&& t.url == url
                &&& t.branch@ == match st.git_branch {
                    Some(b) => b@,
                    None => "main"@,
                }
                &&& t.compose_path@ == "docker-compose.yml"@
                &&& a matches GitAction::CloneOrPull { url: u, branch, dir } && u == url && branch
                    == t.branch && dir@ == git_dir(s.id@)
            },
        },
        (GitStage::Cloning, GitEvent::Cloned(Err(err))) => git_ends(t, a, Err(err)),
        (GitStage::Cloning, GitEvent::Cloned(Ok(commit))) => t == (GitFlow {
            commit,
            stage: GitStage::Reading,
            ..s
        }) && (a matches GitAction::ReadCompose { dir, path } && dir@ == git_dir(s.id@) && path
            == s.compose_path),
        (GitStage::Reading, GitEvent::Read(Err(m))) => t.stage == GitStage::Finished && (a matches GitAction::Finish(
            Err(AppError::BadRequest(x)),
        ) && x@ == unreadable_compose(m@)),
        (GitStage::Reading, GitEvent::Read(Ok(content))) => if s.op == GitOp::Create {
            &&& t == (GitFlow { compose: content, stage: GitStage::Inserting, ..s })
            &&& a matches GitAction::InsertStack(r) && r.id == s.id && new_stack(
                r,
                s.name@,
                content@,
                s.user_id@,
                s.team_id@,
                Some(GitSource { url: s.url, branch: s.branch, commit: s.commit }),
            )
        } else {
            t == (GitFlow { compose: content, stage: GitStage::UpdatingCompose, ..s }) && a == (
            GitAction::UpdateCompose { id: s.id, content })
        },
        (GitStage::Inserting, GitEvent::Step(Err(err))) => git_ends(t, a, Err(err)),
        (GitStage::Inserting, GitEvent::Step(Ok(_))) => t == (GitFlow {
            stage: GitStage::Building,
            ..s
        }) && (a matches GitAction::BuildServices { id, compose, dir } && id == s.id && compose
            == s.compose && dir@ == git_dir(s.id@)),
        (GitStage::Building, GitEvent::Step(Err(err))) => git_ends(t, a, Err(err)),
        (GitStage::Building, GitEvent::Step(Ok(_))) => t == (GitFlow {
            stage: GitStage::MarkingStopped,
            ..s
        }) && (a matches GitAction::UpdateStatus { id, status } && id == s.id && status@
            == "stopped"@),
        (GitStage::MarkingStopped, GitEvent::Step(Err(err))) => git_ends(t, a, Err(err)),
        (GitStage::MarkingStopped, GitEvent::Step(Ok(_))) => t == (GitFlow {
            stage: GitStage::Fetching,
            ..s
        }) && a == (GitAction::GetStack { id: s.id, user_id: s.user_id }),
        (GitStage::Fetching, GitEvent::Fetched(Err(err))) => git_ends(t, a, Err(err)),
        (GitStage::Fetching, GitEvent::Fetched(Ok(st))) => git_ends(t, a, Ok(Some(st))),
        (GitStage::UpdatingCompose, GitEvent::Step(Err(err))) => git_ends(t, a, Err(err)),
        (GitStage::UpdatingCompose, GitEvent::Step(Ok(_))) => t == (GitFlow {
            stage: GitStage::UpdatingCommit,
            ..s
        }) && a == (GitAction::UpdateCommit { id: s.id, commit: s.commit }),
        (GitStage::UpdatingCommit, GitEvent::Step(Err(err))) => git_ends(t, a, Err(err)),
        (GitStage::UpdatingCommit, GitEvent::Step(Ok(_))) => t == (GitFlow {
            stage: GitStage::Redeploying,
            ..s
        }) && a == (GitAction::Redeploy { id: s.id }),
        (GitStage::Redeploying, GitEvent::Step(Err(err))) => git_ends(t, a, Err(err)),
        (GitStage::Redeploying, GitEvent::Step(Ok(_))) => git_ends(t, a, Ok(None)),
        _ => false,
    }
}

impl GitFlow {
    /// Whether the flow waits for an outcome like `e`.
    pub fn accepts_event(&self, e: &GitEvent) -> (r: bool)
        ensures
            r == git_accepts(self.stage, *e),
    {
        match self.stage {
            GitStage::Loading | GitStage::Fetching => matches!(e, GitEvent::Fetched(_)),
            GitStage::Cloning => matches!(e, GitEvent::Cloned(_)),
            GitStage::Reading => matches!(e, GitEvent::Read(_)),
            GitStage::Finished => false,
            _ => matches!(e, GitEvent::Step(_)),
        }
    }

    fn finish(self, r: Result<Option<StackRecord>, AppError>) -> (p: (GitFlow, GitAction))
        ensures
            git_ends(p.0, p.1, r),
            p.0 == (GitFlow { stage: GitStage::Finished, ..self }),
    {
        (GitFlow { stage: GitStage::Finished, ..self }, GitAction::Finish(r))
    }

    /// Takes the outcome `e` of the last action and gives the next flow and
    /// action.
    pub fn step(self, e: GitEvent) -> (r: (GitFlow, GitAction))
        requires
            uuid_shaped(self.id@) || self.op == GitOp::Sync,
            git_accepts(self.stage, e),
        ensures
            git_next(self, e, r.0, r.1),
            uuid_shaped(r.0.id@) || r.0.op == GitOp::Sync,
    {
        proof {
            reveal_strlit("Stack not linked to Git");
            reveal_strlit("main");
            reveal_strlit("docker-compose.yml");
            reveal_strlit("stopped");
        }
        match e {
            GitEvent::Fetched(Err(err)) => self.finish(Err(err)),
            GitEvent::Fetched(Ok(st)) => if self.stage == GitStage::Fetching {
                self.finish(Ok(Some(st)))
            } else {
                match st.git_url {
                    None => self.finish(Err(AppError::BadRequest("Stack not linked to Git".to_owned()))),
                    Some(url) => {
                        let branch = match st.git_branch {
                            Some(b) => b,
                            None => "main".to_owned(),
                        };
                        let dir = StackUsecase::git_dir_of(self.id.as_str());
                        let a = GitAction::CloneOrPull { url: url.clone(), branch: branch.clone(), dir };
                        (
                            GitFlow {
                                url,
                                branch,
                                compose_path: "docker-compose.yml".to_owned(),
                                stage: GitStage::Cloning,
                                ..self
                            },
                            a,
                        )
                    },
                }
            },
            GitEvent::Cloned(Err(err)) => self.finish(Err(err)),
            GitEvent::Cloned(Ok(commit)) => {
                let dir = StackUsecase::git_dir_of(self.id.as_str());
                let path = self.compose_path.clone();
                (GitFlow { commit, stage: GitStage::Reading, ..self }, GitAction::ReadCompose { dir, path })
            },
            GitEvent::Read(Err(m)) => self.finish(
                Err(AppError::BadRequest(concat2("Failed to read compose file from repo: ", m.as_str()))),
            ),
            GitEvent::Read(Ok(content)) => if self.op == GitOp::Create {
                let git = GitSource {
                    url: self.url.clone(),
                    branch: self.branch.clone(),
                    commit: self.commit.clone(),
                };
                let r = stack_record(
                    self.id.clone(),
                    self.name.as_str(),
                    content.as_str(),
                    self.user_id.as_str(),
                    self.team_id.as_str(),
                    Some(git),
                );
                (GitFlow { compose: content, stage: GitStage::Inserting, ..self }, GitAction::InsertStack(r))
            } else {
                let id = self.id.clone();
                let c = content.clone();
                (
                    GitFlow { compose: content, stage: GitStage::UpdatingCompose, ..self },
                    GitAction::UpdateCompose { id, content: c },
                )
            },
            GitEvent::Step(Err(err)) => self.finish(Err(err)),
            GitEvent::Step(Ok(_)) => {
                let id = self.id.clone();
                match self.stage {
                    GitStage::Inserting => {
                        let compose = self.compose.clone();
                        let dir = StackUsecase::git_dir_of(self.id.as_str());
                        (GitFlow { stage: GitStage::Building, ..self }, GitAction::BuildServices { id, compose, dir })
                    },
                    GitStage::Building => (
                        GitFlow { stage: GitStage::MarkingStopped, ..self },
                        GitAction::UpdateStatus { id, status: "stopped".to_owned() },
                    ),
                    GitStage::MarkingStopped => {
                        let user_id = self.user_id.clone();
                        (GitFlow { stage: GitStage::Fetching, ..self }, GitAction::GetStack { id, user_id })
                    },
                    GitStage::UpdatingCompose => {
                        let commit = self.commit.clone();
                        (GitFlow { stage: GitStage::UpdatingCommit, ..self }, GitAction::UpdateCommit { id, commit })
                    },
                    GitStage::UpdatingCommit => (
                        GitFlow { stage: GitStage::Redeploying, ..self },
                        GitAction::Redeploy { id },
                    ),
                    _ => self.finish(Ok(None)),
                }
            },
        }
    }
}

impl StackUsecase {
    /// Starts creating stack `name` of team `team_id` from the compose file at
    /// `compose_path` of branch `git_branch` of `git_url`, for a user with
    /// `role` in the team (refused when none): the repository is cloned into
    /// the new stack's directory first.
    pub fn create_stack_from_git(
        &self,
        role: Option<TeamRole>,
        name: &str,
        git_url: &str,
        git_branch: &str,
        compose_path: &str,
        user_id: &str,
        team_id: &str,
    ) -> (r: (GitFlow, GitAction))
        ensures
            uuid_shaped(r.0.id@),
            r.0.op == GitOp::Create,
            r.0.name@ == name@,
            r.0.user_id@ == user_id@,
            r.0.team_id@ == team_id@,
            r.0.compose_path@ == compose_path@,
            role is None ==> (r.0.stage == GitStage::Finished && (r.1 matches GitAction::Finish(
                Err(AppError::Forbidden(m)),
            ) && m@ == "Access denied"@)),
            role is Some ==> (r.0.stage == GitStage::Cloning && r.0.url@ == git_url@ && r.0.branch@
                == git_branch@ && (r.1 matches GitAction::CloneOrPull { url, branch, dir } && url@
                == git_url@ && branch@ == git_branch@ && dir@ == git_dir(r.0.id@))),
    {
        proof {
            reveal_strlit("Access denied");
        }
        let id = new_uuid();
        let dir = Self::git_dir_of(id.as_str());
        let flow = GitFlow {
            op: GitOp::Create,
            id,
            name: name.to_owned(),
            user_id: user_id.to_owned(),
            team_id: team_id.to_owned(),
            url: git_url.to_owned(),
            branch: git_branch.to_owned(),
            compose_path: compose_path.to_owned(),
            commit: String::new(),
            compose: String::new(),
            stage: GitStage::Cloning,
        };
        match role {
            None => flow.finish(Err(AppError::Forbidden("Access denied".to_owned()))),
            Some(_) => (
                flow,
                GitAction::CloneOrPull { url: git_url.to_owned(), branch: git_branch.to_owned(), dir },
            ),
        }
    }

    /// Starts syncing stack `id` of `user_id` with its repository: the stack
    /// is read first.
    pub fn sync_git(&self, id: &str, user_id: &str) -> (r: (GitFlow, GitAction))
        ensures
            r.0.op == GitOp::Sync,
            r.0.id@ == id@,
            r.0.stage == GitStage::Loading,
            r.1 matches GitAction::GetStack { id: i, user_id: u } && i@ == id@ && u@ == user_id@,
    {
        let flow = GitFlow {
            op: GitOp::Sync,
            id: id.to_owned(),
            name: String::new(),
            user_id: user_id.to_owned(),
            team_id: String::new(),
            url: String::new(),
            branch: String::new(),
            compose_path: String::new(),
            commit: String::new(),
            compose: String::new(),
            stage: GitStage::Loading,
        };
        (flow, GitAction::GetStack { id: id.to_owned(), user_id: user_id.to_owned() })
    }
}

/// A stack created from a repository records the repository, branch and the
/// commit its compose file was read at; a sync stores the commit it pulled
/// only after the compose file read at it.
pub proof fn law_git_stack_records_its_source(s: GitFlow, e: GitEvent, t: GitFlow, a: GitAction)
    requires
        git_accepts(s.stage, e),
        git_next(s, e, t, a),
    ensures
        a matches GitAction::InsertStack(r) ==> (r.git_url == Some(s.url) && r.git_branch == Some(
            s.branch,
        ) && r.last_commit_hash == Some(s.commit) && (r.compose_content matches Some(c) && (e
            matches GitEvent::Read(Ok(x)) && x@ == c@))),
        a matches GitAction::UpdateCommit { commit, .. } ==> commit == s.commit && s.stage
            == GitStage::UpdatingCompose,
{
}

// ---------------------------------------------------------------- restoring a backup

/// Where a restore stands.
#[derive(Debug, Clone, Copy, PartialEq, Eq, Structural)]
pub enum RestoreStage {
    Creating,
    Setting,
    Redeploying,
    Fetching,
    Finished,
}

/// Restoring a backup: the variables to set, the one at `k` being set, into
/// the stack `id` created from it.
#[derive(Debug)]
pub struct RestoreFlow {
    pub vars: Vec<BackupEnvVar>,
    pub k: usize,
    pub id: String,
    pub user_id: String,
    pub stage: RestoreStage,
}

/// The outcome of the last action.
#[derive(Debug)]
pub enum RestoreEvent {
    /// The stack created or read back.
    Stack(Result<StackRecord, AppError>),
    Step(Result<(), AppError>),
}

/// What the caller does next.
#[derive(Debug)]
pub enum RestoreAction {
    /// Create stack `name` from `compose` as `create_stack` does, for the
    /// user in the team.
    CreateStack { name: String, compose: String },
    /// Store the variable.
    SetVar(StackEnvVar),
    Redeploy { id: String },
    GetStack { id: String, user_id: String },
    Finish(Result<StackRecord, AppError>),
}

/// Which outcome each stage waits for.
pub open spec fn restore_accepts(stage: RestoreStage, e: RestoreEvent) -> bool {
    match stage {
        RestoreStage::Creating | RestoreStage::Fetching => e is Stack,
        RestoreStage::Setting | RestoreStage::Redeploying => e is Step,
        RestoreStage::Finished => false,
    }
}

/// Setting variable `k`, or with none left redeploying the stack.
pub open spec fn restore_at(s: RestoreFlow, k: int, t: RestoreFlow, a: RestoreAction) -> bool {
    if k < s.vars@.len() {
        let b = s.vars@[k];
        &&& t == (RestoreFlow { k: t.k, stage: RestoreStage::Setting, ..s })
        &&& t.k == k
        &&& a matches RestoreAction::SetVar(v) && new_record(
            v,
            s.id@,
            b.container_name@,
            b.key@,
            b.value@,
            b.is_secret,
        )
    } else {
        t == (RestoreFlow { stage: RestoreStage::Redeploying, ..s }) && a == (RestoreAction::Redeploy {
            id: s.id,
        })
    }
}

/// One step: the stack is created from the backup's compose file, each
/// backed-up variable is stored for it, it is redeployed and read back. Every
/// failure ends the restore.
pub open spec fn restore_next(s: RestoreFlow, e: RestoreEvent, t: RestoreFlow, a: RestoreAction) -> bool {
    match (s.stage, e) {
        (RestoreStage::Creating, RestoreEvent::Stack(Err(err))) => t.stage == RestoreStage::Finished
            && a == RestoreAction::Finish(Err(err)),
        (RestoreStage::Creating, RestoreEvent::Stack(Ok(st))) => restore_at(
            RestoreFlow { id: st.id, ..s },
            0,
            t,
            a,
        ),
        (RestoreStage::Setting, RestoreEvent::Step(Err(err))) => t.stage == RestoreStage::Finished
            && a == RestoreAction::Finish(Err(err)),
        (RestoreStage::Setting, RestoreEvent::Step(Ok(_))) => restore_at(s, s.k + 1, t, a),
        (RestoreStage::Redeploying, RestoreEvent::Step(Err(err))) => t.stage == RestoreStage::Finished
            && a == RestoreAction::Finish(Err(err)),
        (RestoreStage::Redeploying, RestoreEvent::Step(Ok(_))) => t == (RestoreFlow {
            stage: RestoreStage::Fetching,
            ..s
        }) && a == (RestoreAction::GetStack { id: s.id, user_id: s.user_id }),
        (RestoreStage::Fetching, RestoreEvent::Stack(r)) => t.stage == RestoreStage::Finished && a
            == RestoreAction::Finish(r),
        _ => false,
    }
}

impl RestoreFlow {
    /// The variable being set is one of the backup's.
    pub open spec fn wf(self) -> bool {
        self.stage == RestoreStage::Setting ==> self.k < self.vars@.len()
    }

    fn set_at(self, k: usize) -> (r: (RestoreFlow, RestoreAction))
        requires
            k <= self.vars@.len(),
        ensures
            restore_at(self, k as int, r.0, r.1),
            r.0.wf(),
    {
        if k < self.vars.len() {
            let b = &self.vars[k];
            let env = EnvironmentUsecase::new();
            let v = env.set_var(
                self.id.as_str(),
                b.container_name.as_str(),
                b.key.as_str(),
                b.value.as_str(),
                b.is_secret,
            );
            (RestoreFlow { k, stage: RestoreStage::Setting, ..self }, RestoreAction::SetVar(v))
        } else {
            let id = self.id.clone();
            (RestoreFlow { stage: RestoreStage::Redeploying, ..self }, RestoreAction::Redeploy { id })
        }
    }

    /// Whether the flow waits for an outcome like `e`.
    pub fn accepts_event(&self, e: &RestoreEvent) -> (r: bool)
        ensures
            r == restore_accepts(self.stage, *e),
    {
        match self.stage {
            RestoreStage::Creating | RestoreStage::Fetching => matches!(e, RestoreEvent::Stack(_)),
            RestoreStage::Setting | RestoreStage::Redeploying => matches!(e, RestoreEvent::Step(_)),
            RestoreStage::Finished => false,
        }
    }

    /// Takes the outcome `e` of the last action and gives the next flow and
    /// action.
    pub fn step(self, e: RestoreEvent) -> (r: (RestoreFlow, RestoreAction))
        requires
            self.wf(),
            restore_accepts(self.stage, e),
        ensures
            restore_next(self, e, r.0, r.1),
            r.0.wf(),
    {
        match e {
            RestoreEvent::Stack(r) => if self.stage == RestoreStage::Fetching {
                (RestoreFlow { stage: RestoreStage::Finished, ..self }, RestoreAction::Finish(r))
            } else {
                match r {
                    Err(err) => (
                        RestoreFlow { stage: RestoreStage::Finished, ..self },
                        RestoreAction::Finish(Err(err)),
                    ),
                    Ok(st) => RestoreFlow { id: st.id, ..self }.set_at(0),
                }
            },
            RestoreEvent::Step(Err(err)) => (
                RestoreFlow { stage: RestoreStage::Finished, ..self },
                RestoreAction::Finish(Err(err)),
            ),
            RestoreEvent::Step(Ok(_)) => if self.stage == RestoreStage::Setting {
                let n = self.vars.len();
                assert(self.k < n);
                let k = self.k + 1;
                self.set_at(k)
            } else {
                let id = self.id.clone();
                let user_id = self.user_id.clone();
                (RestoreFlow { stage: RestoreStage::Fetching, ..self }, RestoreAction::GetStack { id, user_id })
            },
        }
    }
}

impl StackUsecase {
    /// Starts restoring `backup` for `user_id`: the stack is created from its
    /// compose file first.
    pub fn restore_stack(&self, backup: StackBackup, user_id: &str) -> (r: (RestoreFlow, RestoreAction))
        ensures
            r.0.vars == backup.env_vars,
            r.0.user_id@ == user_id@,
            r.0.stage == RestoreStage::Creating,
            r.0.wf(),
            r.1 == (RestoreAction::CreateStack { name: backup.name, compose: backup.compose_content }),
    {
        (
            RestoreFlow {
                vars: backup.env_vars,
                k: 0,
                id: String::new(),
                user_id: user_id.to_owned(),
                stage: RestoreStage::Creating,
            },
            RestoreAction::CreateStack { name: backup.name, compose: backup.compose_content },
        )
    }
}

/// A restore stores each backed-up variable, in order, for the stack it
/// created, before redeploying it.
pub proof fn law_restore_sets_every_variable(s: RestoreFlow, e: RestoreEvent, t: RestoreFlow, a: RestoreAction)
    requires
        s.wf(),
        restore_accepts(s.stage, e),
        restore_next(s, e, t, a),
    ensures
        a is Redeploy ==> s.stage == RestoreStage::Setting && s.k + 1 == s.vars@.len() || s.stage
            == RestoreStage::Creating && s.vars@.len() == 0,
        a matches RestoreAction::SetVar(v) ==> t.k < t.vars@.len() && v.key@ == t.vars@[t.k as int].key@
            && v.value@ == t.vars@[t.k as int].value@,
{
}

} // verus!
