//! Teams: members, their roles, and who may do what.
use vstd::prelude::*;
use crate::error::AppError;
use crate::text::{chars_of, str_eq, string_of};
use crate::backend::services::auth::{hash_password, User, argon2_verdict};
use crate::ids::{new_uuid, now_timestamp, uuid_shaped};

verus! {

/// A member's role in a team, from most to least privileged.
#[derive(Debug, Clone, Copy, PartialEq, Eq, Structural)]
pub enum TeamRole {
    Owner,
    Admin,
    Developer,
    Viewer,
}

/// The rank of a role: Owner 4, Admin 3, Developer 2, Viewer 1.
pub open spec fn rank(r: TeamRole) -> int {
    match r {
        TeamRole::Owner => 4,
        TeamRole::Admin => 3,
        TeamRole::Developer => 2,
        TeamRole::Viewer => 1,
    }
}

/// The rank of a role, as the permission checks compare it.
pub fn role_priority(r: TeamRole) -> (p: u8)
    ensures
        p == rank(r),
{
    match r {
        TeamRole::Owner => 4,
        TeamRole::Admin => 3,
        TeamRole::Developer => 2,
        TeamRole::Viewer => 1,
    }
}

/// A member holding `role` (if a member at all) may act where `required` is needed.
pub open spec fn permits(role: Option<TeamRole>, required: TeamRole) -> bool {
    match role {
        Some(r) => rank(r) >= rank(required),
        None => false,
    }
}

/// Whether `actor` (holding `actor_role`) may give `user` (holding
/// `target_role`) the role `new_role`.
pub open spec fn role_change_allowed(
    user: Seq<char>,
    actor: Seq<char>,
    new_role: TeamRole,
    actor_role: Option<TeamRole>,
    target_role: Option<TeamRole>,
) -> bool {
    &&& user != actor
    &&& permits(actor_role, TeamRole::Admin)
    &&& target_role matches Some(t) && t != TeamRole::Owner
    &&& actor_role->0 == TeamRole::Owner || (rank(new_role) < rank(actor_role->0) && rank(
        target_role->0,
    ) < rank(actor_role->0))
}

/// Whether `actor` (holding `actor_role`) may remove `user` (holding `target_role`).
pub open spec fn removal_allowed(
    user: Seq<char>,
    actor: Seq<char>,
    actor_role: Option<TeamRole>,
    target_role: Option<TeamRole>,
) -> bool {
    &&& (user != actor ==> permits(actor_role, TeamRole::Admin))
    &&& target_role matches Some(t) && t != TeamRole::Owner
}

/// `r` is the error `e` built with message `m`.
pub open spec fn is_forbidden(r: Result<(), AppError>, m: Seq<char>) -> bool {
    r matches Err(AppError::Forbidden(s)) && s@ == m
}

pub open spec fn is_bad_request(r: Result<(), AppError>, m: Seq<char>) -> bool {
    r matches Err(AppError::BadRequest(s)) && s@ == m
}

pub open spec fn is_not_found(r: Result<(), AppError>, m: Seq<char>) -> bool {
    r matches Err(AppError::NotFound(s)) && s@ == m
}

fn message(s: &str) -> (r: String)
    ensures
        r@ == s@,
{
    string_of(&chars_of(s))
}

/// Team management rules.
pub struct TeamUsecase {}

impl TeamUsecase {
    pub fn new() -> (u: TeamUsecase) {
        TeamUsecase {}
    }

    /// Verify a member holding `role` (`None`: not a member) has at least `required_role`.
    pub fn verify_permission(&self, role: Option<TeamRole>, required_role: TeamRole) -> (r: Result<
        (),
        AppError,
    >)
        ensures
            r is Ok <==> permits(role, required_role),
            r is Err ==> is_forbidden(r, "Access denied"@),
    {
        match role {
            None => Err(AppError::Forbidden(message("Access denied"))),
            Some(ro) => {
                if role_priority(ro) < role_priority(required_role) {
                    Err(AppError::Forbidden(message("Access denied")))
                } else {
                    Ok(())
                }
            },
        }
    }

    /// Decide whether `actor_id` may remove `user_id` from the team; members may
    /// always leave, admins may remove others, nobody removes the owner.
    pub fn remove_member(
        &self,
        user_id: &str,
        actor_id: &str,
        actor_role: Option<TeamRole>,
        target_role: Option<TeamRole>,
    ) -> (r: Result<(), AppError>)
        ensures
            r is Ok <==> removal_allowed(user_id@, actor_id@, actor_role, target_role),
            user_id@ != actor_id@ && !permits(actor_role, TeamRole::Admin) ==> is_forbidden(
                r,
                "Access denied"@,
            ),
            (user_id@ == actor_id@ || permits(actor_role, TeamRole::Admin)) && target_role is None
                ==> is_not_found(r, "Member not found"@),
            (user_id@ == actor_id@ || permits(actor_role, TeamRole::Admin)) && target_role
                == Some(TeamRole::Owner) ==> is_bad_request(
                r,
                "Cannot remove the owner of the team"@,
            ),
    {
        if !str_eq(user_id, actor_id) {
            self.verify_permission(actor_role, TeamRole::Admin)?;
        }
        match target_role {
            None => Err(AppError::NotFound(message("Member not found"))),
            Some(TeamRole::Owner) => Err(
                AppError::BadRequest(message("Cannot remove the owner of the team")),
            ),
            Some(_) => Ok(()),
        }
    }

    /// Decide whether `actor_id` may give `user_id` the role `role`.
    pub fn update_member_role(
        &self,
        user_id: &str,
        actor_id: &str,
        role: TeamRole,
        actor_role: Option<TeamRole>,
        target_role: Option<TeamRole>,
    ) -> (r: Result<(), AppError>)
        ensures
            r is Ok <==> role_change_allowed(user_id@, actor_id@, role, actor_role, target_role),
            user_id@ == actor_id@ ==> is_bad_request(r, "Cannot change your own role"@),
            user_id@ != actor_id@ && !permits(actor_role, TeamRole::Admin) ==> is_forbidden(
                r,
                "Access denied"@,
            ),
            user_id@ != actor_id@ && permits(actor_role, TeamRole::Admin) && target_role is None
                ==> is_not_found(r, "Member not found"@),
            user_id@ != actor_id@ && permits(actor_role, TeamRole::Admin) && target_role == Some(
                TeamRole::Owner,
            ) ==> is_bad_request(r, "Cannot change the role of the team owner"@),
            user_id@ != actor_id@ && permits(actor_role, TeamRole::Admin) && target_role
                is Some && target_role->0 != TeamRole::Owner && actor_role->0 != TeamRole::Owner
                && rank(role) >= rank(actor_role->0) ==> is_forbidden(
                r,
                "Cannot assign a role equal to or higher than your own"@,
            ),
            user_id@ != actor_id@ && permits(actor_role, TeamRole::Admin) && target_role
                is Some && target_role->0 != TeamRole::Owner && actor_role->0 != TeamRole::Owner
                && rank(role) < rank(actor_role->0) && rank(target_role->0) >= rank(actor_role->0)
                ==> is_forbidden(r, "Cannot modify a member with equal or higher role"@),
    {
        if str_eq(user_id, actor_id) {
            return Err(AppError::BadRequest(message("Cannot change your own role")));
        }
        self.verify_permission(actor_role, TeamRole::Admin)?;
        let target = match target_role {
            None => {
                return Err(AppError::NotFound(message("Member not found")));
            },
            Some(t) => t,
        };
        if target == TeamRole::Owner {
            return Err(AppError::BadRequest(message("Cannot change the role of the team owner")));
        }
        let actor = match actor_role {
            None => {
                return Err(AppError::Forbidden(message("Access denied")));
            },
            Some(a) => a,
        };
        if actor != TeamRole::Owner && role_priority(role) >= role_priority(actor) {
            return Err(
                AppError::Forbidden(
                    message("Cannot assign a role equal to or higher than your own"),
                ),
            );
        }
        if actor != TeamRole::Owner && role_priority(target) >= role_priority(actor) {
            return Err(
                AppError::Forbidden(message("Cannot modify a member with equal or higher role")),
            );
        }
        Ok(())
    }
}

/// A team.
#[derive(Debug)]
pub struct Team {
    pub id: String,
    pub name: String,
    pub created_at: String,
    pub updated_at: String,
}

/// A team with the role a user holds in it.
#[derive(Debug)]
pub struct TeamResponse {
    pub team: Team,
    pub role: TeamRole,
}

/// Who becomes a member when adding one by credentials.
#[derive(Debug)]
pub enum NewMember {
    /// The user with that email exists: it is added as is.
    Existing(User),
    /// A new user, to store before adding it.
    Created(User),
}

impl TeamUsecase {
    /// A new team named `name`, with a fresh id, created now; its creator
    /// becomes its owner.
    pub fn create_team(&self, name: &str) -> (r: (Team, TeamRole))
        ensures
            uuid_shaped(r.0.id@),
            r.0.name@ == name@,
            r.0.created_at == r.0.updated_at,
            r.1 == TeamRole::Owner,
    {
        let now = now_timestamp();
        (Team { id: new_uuid(), name: name.to_owned(), created_at: now.clone(), updated_at: now }, TeamRole::Owner)
    }

    /// Whether a member holding `role` may delete the team: owners only.
    pub fn delete_team(&self, role: Option<TeamRole>) -> (r: Result<(), AppError>)
        ensures
            r is Ok <==> permits(role, TeamRole::Owner),
            r is Err ==> is_forbidden(r, "Access denied"@),
    {
        self.verify_permission(role, TeamRole::Owner)
    }

    /// Whether a member holding `role` may list the members: any member.
    pub fn get_members(&self, role: Option<TeamRole>) -> (r: Result<(), AppError>)
        ensures
            r is Ok <==> permits(role, TeamRole::Viewer),
            r is Err ==> is_forbidden(r, "Access denied"@),
    {
        self.verify_permission(role, TeamRole::Viewer)
    }

    /// Whether a member holding `role` may add members: admins and owners.
    pub fn add_member(&self, role: Option<TeamRole>) -> (r: Result<(), AppError>)
        ensures
            r is Ok <==> permits(role, TeamRole::Admin),
            r is Err ==> is_forbidden(r, "Access denied"@),
    {
        self.verify_permission(role, TeamRole::Admin)
    }

    /// The teams of a user with the role the user holds in each (`roles`
    /// gives, per team, the role found): not found at the first team
    /// without one.
    pub fn get_user_teams(&self, teams: Vec<Team>, roles: &Vec<Option<TeamRole>>) -> (r: Result<
        Vec<TeamResponse>,
        AppError,
    >)
        requires
            teams@.len() == roles@.len(),
        ensures
            (forall|i: int| 0 <= i < roles@.len() ==> #[trigger] roles@[i] is Some) ==> (r matches Ok(v)
                && v@.len() == teams@.len() && forall|i: int|
                0 <= i < teams@.len() ==> (#[trigger] v@[i]).team == teams@[i] && Some(v@[i].role)
                    == roles@[i]),
            (exists|i: int| 0 <= i < roles@.len() && #[trigger] roles@[i] is None) ==> (r matches Err(
                AppError::NotFound(m),
            ) && m@ == "Role not found for team member"@),
    {
        let ghost orig = teams@;
        let mut rest = teams;
        let mut out: Vec<TeamResponse> = Vec::new();
        let mut i: usize = 0;
        proof {
            assert(rest@ =~= orig.subrange(0, orig.len() as int));
            assert(orig.len() == rest.len());
        }
        while rest.len() > 0
            invariant
                i <= orig.len() <= usize::MAX,
                orig.len() == roles@.len(),
                rest@ == orig.subrange(i as int, orig.len() as int),
                out@.len() == i,
                forall|j: int| 0 <= j < i ==> roles@[j] is Some,
                forall|j: int|
                    0 <= j < i ==> (#[trigger] out@[j]).team == orig[j] && Some(out@[j].role) == roles@[j],
            decreases rest.len(),
        {
            let team = rest.remove(0);
            proof {
                assert(team == orig[i as int]);
                assert(rest@ =~= orig.subrange(i + 1, orig.len() as int));
            }
            match roles[i] {
                Some(role) => {
                    out.push(TeamResponse { team, role });
                },
                None => {
                    return Err(AppError::NotFound(message("Role not found for team member")));
                },
            }
            i = i + 1;
        }
        Ok(out)
    }

    /// Who to add to the team as a member with `email`, for a member holding
    /// `actor_role` (admins and owners only): the user `existing` with that
    /// email, or else a new user named `name` with the hash of `password`.
    pub fn add_member_with_credentials(
        &self,
        actor_role: Option<TeamRole>,
        existing: Option<User>,
        name: &str,
        email: &str,
        password: &str,
    ) -> (r: Result<NewMember, AppError>)
        ensures
            !permits(actor_role, TeamRole::Admin) ==> (r matches Err(AppError::Forbidden(m)) && m@
                == "Access denied"@),
            permits(actor_role, TeamRole::Admin) ==> match existing {
                Some(u) => r == Ok::<NewMember, AppError>(NewMember::Existing(u)),
                None => r is Err ==> r == Err::<NewMember, AppError>(AppError::Hash),
            },
            r matches Ok(NewMember::Created(u)) ==> existing is None && uuid_shaped(u.id@) && u.email@
                == email@ && (u.name matches Some(n) && n@ == name@) && u.role@ == "user"@
                && argon2_verdict(password@, u.password_hash@) == Some(true) && u.created_at
                == u.updated_at,
    {
        match self.verify_permission(actor_role, TeamRole::Admin) {
            Err(e) => return Err(e),
            Ok(()) => {},
        }
        match existing {
            Some(u) => Ok(NewMember::Existing(u)),
            None => {
                let password_hash = match hash_password(password) {
                    Ok(h) => h,
                    Err(e) => return Err(e),
                };
                let now = now_timestamp();
                Ok(
                    NewMember::Created(
                        User {
                            id: new_uuid(),
                            email: email.to_owned(),
                            password_hash,
                            name: Some(name.to_owned()),
                            role: message("user"),
                            created_at: now.clone(),
                            updated_at: now,
                        },
                    ),
                )
            },
        }
    }
}

/// The owner's role can never be changed, by anyone.
pub proof fn law_owner_role_is_fixed(
    user: Seq<char>,
    actor: Seq<char>,
    new_role: TeamRole,
    actor_role: Option<TeamRole>,
)
    ensures
        !role_change_allowed(user, actor, new_role, actor_role, Some(TeamRole::Owner)),
{
}

/// A role change never grants a role at or above the acting member's own,
/// unless the actor is the owner; and only admins or the owner change roles.
pub proof fn law_no_privilege_escalation(
    user: Seq<char>,
    actor: Seq<char>,
    new_role: TeamRole,
    actor_role: Option<TeamRole>,
    target_role: Option<TeamRole>,
)
    requires
        role_change_allowed(user, actor, new_role, actor_role, target_role),
    ensures
        actor_role matches Some(a) && rank(a) >= rank(TeamRole::Admin),
        actor_role->0 != TeamRole::Owner ==> rank(new_role) < rank(actor_role->0),
{
}

/// The owner can never be removed from the team.
pub proof fn law_owner_is_never_removed(
    user: Seq<char>,
    actor: Seq<char>,
    actor_role: Option<TeamRole>,
)
    ensures
        !removal_allowed(user, actor, actor_role, Some(TeamRole::Owner)),
{
}

/// Permission is monotone: a role that suffices for a requirement also suffices
/// for every lesser requirement.
/// The roles are strictly ordered Owner > Admin > Developer > Viewer: a
/// member satisfies a requirement exactly when its role is the required one
/// or above it, so a viewer may only view, a developer may also develop, an
/// admin may also administer, and only the owner meets an owner's
/// requirement; no one who is not a member satisfies any.
pub proof fn law_roles_are_strictly_ordered(role: TeamRole, required: TeamRole)
    ensures
        permits(Some(role), required) <==> match required {
            TeamRole::Viewer => true,
            TeamRole::Developer => role == TeamRole::Developer || role == TeamRole::Admin || role
                == TeamRole::Owner,
            TeamRole::Admin => role == TeamRole::Admin || role == TeamRole::Owner,
            TeamRole::Owner => role == TeamRole::Owner,
        },
        !permits(None, required),
        (role != required) ==> (permits(Some(role), required) <==> !permits(Some(required), role)),
{
}

/// A permission check answers exactly as the order of roles says: it
/// succeeds for a member whose role is the required one or above it, and is
/// refused as "Access denied" otherwise (for a viewer asked to develop, for
/// instance).
pub proof fn law_permission_check_follows_the_order(
    role: Option<TeamRole>,
    required: TeamRole,
    r: Result<(), AppError>,
)
    requires
        r is Ok <==> permits(role, required),
        r is Err ==> is_forbidden(r, "Access denied"@),
    ensures
        r is Ok <==> (role matches Some(ro) && match required {
            TeamRole::Viewer => true,
            TeamRole::Developer => ro != TeamRole::Viewer,
            TeamRole::Admin => ro == TeamRole::Admin || ro == TeamRole::Owner,
            TeamRole::Owner => ro == TeamRole::Owner,
        }),
        role == Some(TeamRole::Viewer) && required != TeamRole::Viewer ==> is_forbidden(r, "Access denied"@),
{
}

pub proof fn law_permission_is_monotone(role: Option<TeamRole>, required: TeamRole, lesser: TeamRole)
    requires
        permits(role, required),
        rank(lesser) <= rank(required),
    ensures
        permits(role, lesser),
{
}

} // verus!
