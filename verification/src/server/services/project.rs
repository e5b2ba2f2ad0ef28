//! Projects as stored: a new project gets a slug of its name, unique for its
//! user; an update keeps every field it does not name; webhooks are checked
//! against the project's token.
use vstd::prelude::*;
use crate::error::AppError;
use crate::ids::{generate_token, is_ascii_alphanumeric, new_uuid, now_timestamp, token_length, uuid_shaped};
use crate::json::{json_string_list, views, write_string_list};
use crate::server::models::project::{slugify, CreateProject, Project, UpdateProject};
use crate::slug::slug_of;
use crate::text::{concat3, str_eq};

verus! {

/// The JSON text stored for a list of domains.
pub open spec fn domains_text(d: Option<Vec<String>>) -> Option<Seq<char>> {
    match d {
        Some(v) => Some(json_string_list(views(v@))),
        None => None,
    }
}

/// The text of an optional string.
pub open spec fn opt_text(o: Option<String>) -> Option<Seq<char>> {
    match o {
        Some(s) => Some(s@),
        None => None,
    }
}

/// The message when a project with slug `slug` exists already.
pub open spec fn slug_taken(slug: Seq<char>) -> Seq<char> {
    "Project with slug '"@ + slug + "' already exists"@
}

/// `p` is the new project of `user_id` created from `input`: a fresh id and
/// webhook token, the slug of its name, stopped, without a container.
pub open spec fn created_project(p: Project, user_id: Seq<char>, input: CreateProject) -> bool {
    &&& uuid_shaped(p.id@)
    &&& p.name == input.name
    &&& p.slug@ == slug_of(input.name@)
    &&& p.description == input.description
    &&& p.container_id is None
    &&& p.image == input.image
    &&& p.status@ == "stopped"@
    &&& p.port == input.port
    &&& p.env_vars == input.env_vars
    &&& opt_text(p.domains) == domains_text(input.domains)
    &&& p.webhook_token matches Some(tok) && tok@.len() == token_length() && forall|i: int|
        0 <= i < tok@.len() ==> is_ascii_alphanumeric(#[trigger] tok@[i])
    &&& p.user_id@ == user_id
    &&& p.created_at == p.updated_at
}

/// `p` is `existing` changed by `input`: each field it names replaces the
/// stored one.
pub open spec fn updated_project(p: Project, existing: Project, input: UpdateProject) -> bool {
    &&& p.id == existing.id
    &&& p.name == match input.name {
        Some(n) => n,
        None => existing.name,
    }
    &&& p.slug == existing.slug
    &&& p.description == match input.description {
        Some(d) => Some(d),
        None => existing.description,
    }
    &&& p.container_id == existing.container_id
    &&& p.image == match input.image {
        Some(i) => Some(i),
        None => existing.image,
    }
    &&& p.status == existing.status
    &&& p.port == match input.port {
        Some(x) => Some(x),
        None => existing.port,
    }
    &&& p.env_vars == match input.env_vars {
        Some(e) => Some(e),
        None => existing.env_vars,
    }
    &&& opt_text(p.domains) == match input.domains {
        Some(d) => Some(json_string_list(views(d@))),
        None => opt_text(existing.domains),
    }
    &&& p.webhook_token == existing.webhook_token
    &&& p.user_id == existing.user_id
    &&& p.created_at == existing.created_at
}

/// Projects of users.
pub struct ProjectService {}

/// `r` is the project found, or not found.
pub open spec fn found_or_missing(found: Option<Project>, r: Result<Project, AppError>) -> bool {
    match found {
        Some(p) => r == Ok::<Project, AppError>(p),
        None => r matches Err(AppError::NotFound(m)) && m@ == "Project not found"@,
    }
}

impl ProjectService {
    pub fn new() -> (s: ProjectService) {
        ProjectService {}
    }

    fn missing() -> (r: AppError)
        ensures
            r matches AppError::NotFound(m) && m@ == "Project not found"@,
    {
        proof {
            reveal_strlit("Project not found");
        }
        AppError::NotFound("Project not found".to_owned())
    }

    /// The project found by id for its user, or not found.
    pub fn get_project(&self, found: Option<Project>) -> (r: Result<Project, AppError>)
        ensures
            found_or_missing(found, r),
    {
        match found {
            Some(p) => Ok(p),
            None => Err(Self::missing()),
        }
    }

    /// The project found by slug for its user, or not found.
    pub fn get_project_by_slug(&self, found: Option<Project>) -> (r: Result<Project, AppError>)
        ensures
            found_or_missing(found, r),
    {
        self.get_project(found)
    }

    /// The new project of `user_id` from `input`, given how many projects of
    /// the user have its slug already: a conflict when any has.
    pub fn create_project(&self, user_id: &str, input: CreateProject, same_slug: i64) -> (r: Result<
        Project,
        AppError,
    >)
        ensures
            same_slug > 0 ==> (r matches Err(AppError::Conflict(m)) && m@ == slug_taken(
                slug_of(input.name@),
            )),
            same_slug <= 0 ==> (r matches Ok(p) && created_project(p, user_id@, input)),
    {
        proof {
            reveal_strlit("stopped");
        }
        let slug = slugify(input.name.as_str());
        if same_slug > 0 {
            return Err(AppError::Conflict(concat3("Project with slug '", slug.as_str(), "' already exists")));
        }
        let domains = match &input.domains {
            Some(d) => Some(write_string_list(d)),
            None => None,
        };
        let now = now_timestamp();
        Ok(
            Project {
                id: new_uuid(),
                name: input.name,
                slug,
                description: input.description,
                container_id: None,
                image: input.image,
                status: "stopped".to_owned(),
                port: input.port,
                env_vars: input.env_vars,
                domains,
                webhook_token: Some(generate_token()),
                user_id: user_id.to_owned(),
                created_at: now.clone(),
                updated_at: now,
            },
        )
    }

    /// `existing` changed by `input`, updated now.
    pub fn update_project(&self, existing: Project, input: UpdateProject) -> (r: Project)
        ensures
            updated_project(r, existing, input),
    {
        let domains = match &input.domains {
            Some(d) => Some(write_string_list(d)),
            None => existing.domains,
        };
        Project {
            name: match input.name {
                Some(n) => n,
                None => existing.name,
            },
            description: match input.description {
                Some(d) => Some(d),
                None => existing.description,
            },
            image: match input.image {
                Some(i) => Some(i),
                None => existing.image,
            },
            port: match input.port {
                Some(x) => Some(x),
                None => existing.port,
            },
            env_vars: match input.env_vars {
                Some(e) => Some(e),
                None => existing.env_vars,
            },
            domains,
            updated_at: now_timestamp(),
            ..existing
        }
    }

    /// The outcome of deleting a project, which removed `rows` rows: not
    /// found when none was removed.
    pub fn delete_project(&self, rows: u64) -> (r: Result<(), AppError>)
        ensures
            rows > 0 ==> r is Ok,
            rows == 0 ==> (r matches Err(AppError::NotFound(m)) && m@ == "Project not found"@),
    {
        if rows > 0 {
            Ok(())
        } else {
            Err(Self::missing())
        }
    }

    /// The project of a webhook call (found by id), when `token` is its own:
    /// not found without project, unauthorized with another token.
    pub fn validate_webhook_token(&self, found: Option<Project>, token: &str) -> (r: Result<Project, AppError>)
        ensures
            match found {
                None => r matches Err(AppError::NotFound(m)) && m@ == "Project not found"@,
                Some(p) => if p.webhook_token matches Some(t) && t@ == token@ {
                    r == Ok::<Project, AppError>(p)
                } else {
                    r == Err::<Project, AppError>(AppError::Unauthorized)
                },
            },
    {
        match found {
            None => Err(Self::missing()),
            Some(p) => {
                let ok = match &p.webhook_token {
                    Some(t) => str_eq(t.as_str(), token),
                    None => false,
                };
                if ok {
                    Ok(p)
                } else {
                    Err(AppError::Unauthorized)
                }
            },
        }
    }

    /// A fresh webhook token for a project.
    pub fn regenerate_webhook_token(&self) -> (r: String)
        ensures
            r@.len() == token_length(),
            forall|i: int| 0 <= i < r@.len() ==> is_ascii_alphanumeric(#[trigger] r@[i]),
    {
        generate_token()
    }
}

/// An update that names no field changes nothing a user set: every stored
/// field but the update time stays.
pub proof fn law_empty_update_keeps_project(p: Project, existing: Project)
    requires
        updated_project(
            p,
            existing,
            UpdateProject {
                name: None,
                description: None,
                image: None,
                port: None,
                env_vars: None,
                domains: None,
            },
        ),
    ensures
        p == (Project { updated_at: p.updated_at, domains: p.domains, ..existing }),
        opt_text(p.domains) == opt_text(existing.domains),
{
}

} // verus!
