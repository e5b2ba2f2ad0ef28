//! Scheduled redeployments: each minute, the stacks whose cron schedule had
//! an occurrence within the last minute are redeployed.
use vstd::prelude::*;
use crate::backend::usecase::stack_git::StackRecord;
use crate::ids::{clock_range, now_unix};
use crate::json::views;

verus! {

/// Whether `cron::Schedule::from_str` accepts `expression`.
pub uninterp spec fn valid_schedule(expression: Seq<char>) -> bool;

/// The first occurrence, as a Unix timestamp, of the schedule `expression`
/// describes strictly after the instant `since` seconds after the Unix
/// epoch, in UTC; none when there is none (or when `since` is no instant
/// `chrono` can hold).
pub uninterp spec fn cron_next_after(expression: Seq<char>, since: i64) -> Option<i64>;

/// The latest start of a window the scheduler looks from: well inside
/// `chrono`'s dates (which end in the year 262142), so that `cron` can step
/// one second past it.
pub open spec fn schedulable_max() -> int {
    8_000_000_000_000
}

/// `cron::Schedule::from_str(expression)`, then `schedule.after(&since)
/// .next()` with `since` the Unix timestamp given: none when the expression
/// is not one the crate accepts; else the first occurrence strictly after
/// `since`, if any, as a Unix timestamp.
#[verifier::external_body]
fn next_occurrence(expression: &str, since: i64) -> (r: Option<Option<i64>>)
    requires
        since <= schedulable_max(),
    ensures
        r is Some <==> valid_schedule(expression@),
        r matches Some(o) ==> o == cron_next_after(expression@, since),
        r matches Some(Some(o)) ==> o > since,
{
    match expression.parse::<cron::Schedule>() {
        Err(_) => None,
        Ok(schedule) => Some(
            chrono::DateTime::from_timestamp(since, 0).and_then(|t| schedule.after(&t).next()).map(
                |o| o.timestamp(),
            ),
        ),
    }
}

/// The stack has a cron schedule.
pub open spec fn has_schedule(st: StackRecord) -> bool {
    st.cron_schedule matches Some(c) && c@.len() > 0
}

/// The stack has a cron schedule that the `cron` crate accepts.
pub open spec fn has_valid_schedule(st: StackRecord) -> bool {
    has_schedule(st) && valid_schedule(st.cron_schedule->0@)
}

/// How far back, in seconds, an occurrence still makes a stack due.
pub open spec fn lookback() -> int {
    61
}

/// What was found of a stack's schedule: nothing (no valid schedule), or
/// the first occurrence after the start of the window, if any. The stack is
/// due at `now` when that occurrence is not later than `now`.
pub open spec fn is_due(v: Option<Option<i64>>, now: i64) -> bool {
    v matches Some(Some(o)) && o <= now
}

/// The ids of the stacks that are due at `now`, in order.
pub open spec fn due_ids(stacks: Seq<StackRecord>, found: Seq<Option<Option<i64>>>, now: i64) -> Seq<Seq<char>>
    decreases stacks.len(),
{
    if stacks.len() == 0 || found.len() == 0 {
        Seq::empty()
    } else {
        let rest = due_ids(stacks.drop_last(), found.drop_last(), now);
        if is_due(found.last(), now) {
            rest.push(stacks.last().id@)
        } else {
            rest
        }
    }
}

/// What is found of a stack's schedule at `now`: for a valid schedule, its
/// first occurrence after the start of the window, `lookback()` seconds
/// before `now`; nothing for the others.
pub open spec fn found_of(st: StackRecord, now: i64) -> Option<Option<i64>> {
    if has_valid_schedule(st) {
        Some(cron_next_after(st.cron_schedule->0@, (now - lookback()) as i64))
    } else {
        None
    }
}

/// What a round found of the stacks' schedules at `now`: `found_of` for
/// each stack, and each occurrence found lies after the start of the window.
pub open spec fn found_at(stacks: Seq<StackRecord>, found: Seq<Option<Option<i64>>>, now: i64) -> bool {
    &&& found.len() == stacks.len()
    &&& forall|i: int| 0 <= i < found.len() ==> #[trigger] found[i] == found_of(stacks[i], now)
    &&& forall|i: int| 0 <= i < found.len() ==> (#[trigger] found[i] matches Some(Some(o)) ==> o > now - lookback())
}

/// The stacks a round at `now` redeploys: those due given what is found of
/// their schedules; none when `now` is past `schedulable_max()`.
pub open spec fn round_at(stacks: Seq<StackRecord>, now: i64, ids: Seq<Seq<char>>) -> bool {
    if now > schedulable_max() {
        ids.len() == 0
    } else {
        ids == due_ids(stacks, Seq::new(stacks.len(), |i: int| found_of(stacks[i], now)), now)
    }
}

/// The automation scheduler.
pub struct AutomationScheduler {}

impl AutomationScheduler {
    pub fn new() -> (s: AutomationScheduler) {
        AutomationScheduler {}
    }

    /// The ids of the stacks to redeploy at `now`, given what was found of
    /// each stack's schedule (`found`, one per stack).
    pub fn jobs_due(stacks: &Vec<StackRecord>, found: &Vec<Option<Option<i64>>>, now: i64) -> (r: Vec<String>)
        requires
            stacks@.len() == found@.len(),
        ensures
            views(r@) == due_ids(stacks@, found@, now),
    {
        let mut r: Vec<String> = Vec::new();
        let mut i: usize = 0;
        while i < stacks.len()
            invariant
                i <= stacks@.len(),
                stacks@.len() == found@.len(),
                views(r@) == due_ids(stacks@.subrange(0, i as int), found@.subrange(0, i as int), now),
            decreases stacks@.len() - i,
        {
            let ghost before = r@;
            proof {
                let s2 = stacks@.subrange(0, i + 1);
                let f2 = found@.subrange(0, i + 1);
                assert(s2.drop_last() =~= stacks@.subrange(0, i as int));
                assert(f2.drop_last() =~= found@.subrange(0, i as int));
            }
            let due = match found[i] {
                Some(Some(o)) => o <= now,
                _ => false,
            };
            if due {
                r.push(stacks[i].id.clone());
                proof {
                    assert(views(r@) =~= views(before).push(stacks@[i as int].id@));
                }
            }
            i = i + 1;
        }
        proof {
            assert(stacks@.subrange(0, stacks@.len() as int) =~= stacks@);
            assert(found@.subrange(0, found@.len() as int) =~= found@);
        }
        r
    }

    /// What is found of the stacks' schedules at `now`: for each stack with
    /// a valid cron schedule, its first occurrence after `lookback()`
    /// seconds before `now`; nothing for the others.
    pub fn find_occurrences(stacks: &Vec<StackRecord>, now: i64) -> (found: Vec<Option<Option<i64>>>)
        requires
            -clock_range() <= now <= schedulable_max(),
        ensures
            found_at(stacks@, found@, now),
    {
        let since = now - 61;
        let mut found: Vec<Option<Option<i64>>> = Vec::new();
        let mut i: usize = 0;
        while i < stacks.len()
            invariant
                i <= stacks@.len(),
                found@.len() == i,
                since == now - lookback(),
                since <= schedulable_max(),
                forall|j: int| 0 <= j < i ==> #[trigger] found@[j] == found_of(stacks@[j], now),
                forall|j: int| 0 <= j < i ==> (#[trigger] found@[j] matches Some(Some(o)) ==> o > since),
            decreases stacks@.len() - i,
        {
            let v = match &stacks[i].cron_schedule {
                Some(c) => if c.as_str().is_empty() {
                    None
                } else {
                    next_occurrence(c.as_str(), since)
                },
                None => None,
            };
            found.push(v);
            i = i + 1;
        }
        found
    }

    /// The ids of the stacks to redeploy now: those with a valid cron
    /// schedule whose first occurrence after 61 seconds ago is not later
    /// than now. The clock is read once for the round; a clock reading past
    /// `schedulable_max()` (some 250,000 years from now) gives none.
    pub fn check_and_run_jobs(&self, stacks: &Vec<StackRecord>) -> (r: Vec<String>)
        ensures
            exists|now: i64|
                -clock_range() <= now <= clock_range() && #[trigger] round_at(stacks@, now, views(r@)),
    {
        let now = now_unix();
        if now > 8_000_000_000_000 {
            let none: Vec<String> = Vec::new();
            proof {
                assert(views(none@) =~= Seq::<Seq<char>>::empty());
                assert(round_at(stacks@, now, views(none@)));
            }
            return none;
        }
        let found = Self::find_occurrences(stacks, now);
        let r = Self::jobs_due(stacks, &found, now);
        proof {
            assert(found@ =~= Seq::new(stacks@.len(), |i: int| found_of(stacks@[i], now)));
            assert(round_at(stacks@, now, views(r@)));
        }
        r
    }
}

/// A stack without a valid schedule is never redeployed by the scheduler,
/// and one that is due had an occurrence within the window.
pub proof fn law_unscheduled_stacks_are_never_due(stacks: Seq<StackRecord>, found: Seq<Option<Option<i64>>>, now: i64, k: int)
    requires
        found_at(stacks, found, now),
        0 <= k < stacks.len(),
    ensures
        !has_valid_schedule(stacks[k]) ==> !is_due(found[k], now),
        is_due(found[k], now) ==> (found[k] matches Some(Some(o)) && now - lookback() < o <= now),
{
    assert(found[k] is Some <==> has_valid_schedule(stacks[k]));
}

} // verus!
