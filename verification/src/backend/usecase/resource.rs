//! Resource limits and metrics of a stack: only members of the stack's team
//! reach them, and metrics are read over a chosen window of time.
use vstd::prelude::*;
use crate::backend::usecase::team::{is_forbidden, TeamRole};
use crate::error::AppError;
use crate::ids::{clock_range, now_unix, rfc3339_at, rfc3339_of};
use crate::text::str_eq;

verus! {

/// The number of hours a metrics range names: `1h`, `6h`, `24h`, `7d` and
/// `30d`; any other range is one hour.
pub open spec fn window_hours(range: Seq<char>) -> int {
    if range == "6h"@ {
        6
    } else if range == "24h"@ {
        24
    } else if range == "7d"@ {
        168
    } else if range == "30d"@ {
        720
    } else {
        1
    }
}

/// Access refused to a user who is no member of the stack's team.
pub open spec fn access_outcome(role: Option<TeamRole>, r: Result<(), AppError>) -> bool {
    &&& role is Some ==> r is Ok
    &&& role is None ==> is_forbidden(r, "Access denied"@)
}

/// The message when the start of a window is no instant the clock library
/// can hold.
pub open spec fn window_out_of_range() -> Seq<char> {
    "Metrics window out of range"@
}

/// The answer for a window starting at `start`: its RFC 3339 text.
pub open spec fn start_outcome(start: i64, r: Result<String, AppError>) -> bool {
    match rfc3339_of(start) {
        Some(t) => r matches Ok(s) && s@ == t,
        None => r matches Err(AppError::Internal(m)) && m@ == window_out_of_range(),
    }
}

/// Resource operations.
pub struct ResourceUsecase {}

impl ResourceUsecase {
    pub fn new() -> (u: ResourceUsecase) {
        ResourceUsecase {}
    }

    /// Whether a user with `role` in the stack's team (none when not a
    /// member) may reach its resources.
    fn verify_access(role: Option<TeamRole>) -> (r: Result<(), AppError>)
        ensures
            access_outcome(role, r),
    {
        match role {
            Some(_) => Ok(()),
            None => {
                proof {
                    reveal_strlit("Access denied");
                }
                Err(AppError::Forbidden("Access denied".to_owned()))
            },
        }
    }

    /// Whether a user with `role` may change the limits of a service.
    pub fn update_limits(&self, role: Option<TeamRole>) -> (r: Result<(), AppError>)
        ensures
            access_outcome(role, r),
    {
        Self::verify_access(role)
    }

    /// Whether a user with `role` may read the limits of the stack.
    pub fn get_limits(&self, role: Option<TeamRole>) -> (r: Result<(), AppError>)
        ensures
            access_outcome(role, r),
    {
        Self::verify_access(role)
    }

    /// The number of hours of `range`.
    pub fn window_of(range: &str) -> (h: i64)
        ensures
            h == window_hours(range@),
    {
        proof {
            reveal_strlit("6h");
            reveal_strlit("24h");
            reveal_strlit("7d");
            reveal_strlit("30d");
        }
        if str_eq(range, "6h") {
            6
        } else if str_eq(range, "24h") {
            24
        } else if str_eq(range, "7d") {
            168
        } else if str_eq(range, "30d") {
            720
        } else {
            1
        }
    }

    /// The start, as a Unix timestamp, of the window `range` that ends at
    /// `now`.
    pub fn window_start(range: &str, now: i64) -> (start: i64)
        requires
            -clock_range() <= now <= clock_range(),
        ensures
            start == now - 3600 * window_hours(range@),
    {
        now - 3600 * Self::window_of(range)
    }

    /// The start of the window `range` that ends at `now`, as RFC 3339 text.
    pub fn metrics_since(range: &str, now: i64) -> (r: Result<String, AppError>)
        requires
            -clock_range() <= now <= clock_range(),
        ensures
            start_outcome((now - 3600 * window_hours(range@)) as i64, r),
    {
        let start = Self::window_start(range, now);
        match rfc3339_at(start) {
            Some(t) => Ok(t),
            None => {
                proof {
                    reveal_strlit("Metrics window out of range");
                }
                Err(AppError::Internal("Metrics window out of range".to_owned()))
            },
        }
    }

    /// For a user with `role`, the start of the window `range` that ends now:
    /// the time from which the stack's metrics are read. The clock is read
    /// once.
    pub fn get_metrics(&self, role: Option<TeamRole>, range: &str) -> (r: Result<String, AppError>)
        ensures
            role is Some ==> exists|now: i64|
                -clock_range() <= now <= clock_range() && #[trigger] start_outcome(
                    (now - 3600 * window_hours(range@)) as i64,
                    r,
                ),
            role is None ==> (r matches Err(AppError::Forbidden(m)) && m@ == "Access denied"@),
    {
        match Self::verify_access(role) {
            Err(e) => Err(e),
            Ok(()) => {
                let now = now_unix();
                Self::metrics_since(range, now)
            },
        }
    }
}

} // verus!
