//! The health overview of a stack, from the states of its containers.
use vstd::prelude::*;
use crate::text::{chars_of, str_eq, string_of};

verus! {

/// One container of a stack, as the health overview shows it.
#[derive(Debug, Clone, PartialEq, Eq)]
pub struct ContainerHealth {
    pub id: String,
    pub name: String,
    pub state: String,
    pub status: String,
}

/// Stack health overview.
#[derive(Debug, Clone, PartialEq, Eq)]
pub struct StackHealth {
    pub status: String,
    pub total: usize,
    pub running: usize,
    pub stopped: usize,
    pub unhealthy: usize,
    pub containers: Vec<ContainerHealth>,
}

/// A container in state `s` is running.
pub open spec fn is_running(s: Seq<char>) -> bool {
    s == "running"@
}

/// A container in state `s` is stopped: exited, or created and never started.
pub open spec fn is_stopped(s: Seq<char>) -> bool {
    s == "exited"@ || s == "created"@
}

/// A container in state `s` is neither running nor stopped (restarting, paused, dead...).
pub open spec fn is_unhealthy(s: Seq<char>) -> bool {
    !is_running(s) && !is_stopped(s)
}

/// The states of a list of containers.
pub open spec fn states(cs: Seq<ContainerHealth>) -> Seq<Seq<char>> {
    cs.map_values(|c: ContainerHealth| c.state@)
}

/// How many of `states` satisfy `p`.
pub open spec fn count(states: Seq<Seq<char>>, p: spec_fn(Seq<char>) -> bool) -> nat
    decreases states.len(),
{
    if states.len() == 0 {
        0
    } else {
        count(states.drop_last(), p) + if p(states.last()) {
            1nat
        } else {
            0nat
        }
    }
}

/// The overall status: `empty` without containers, `healthy` when all run,
/// `partial` when some run, `stopped` when none does.
pub open spec fn health_status(total: nat, running: nat) -> Seq<char> {
    if total == 0 {
        "empty"@
    } else if running == total {
        "healthy"@
    } else if running > 0 {
        "partial"@
    } else {
        "stopped"@
    }
}

proof fn lemma_state_words_distinct()
    ensures
        "running"@ != "exited"@,
        "running"@ != "created"@,
{
    reveal_strlit("running");
    reveal_strlit("exited");
    reveal_strlit("created");
    assert("running"@[0] != "exited"@[0]);
    assert("running"@[0] != "created"@[0]);
}

proof fn lemma_count_le(states: Seq<Seq<char>>, p: spec_fn(Seq<char>) -> bool)
    ensures
        count(states, p) <= states.len(),
    decreases states.len(),
{
    if states.len() > 0 {
        lemma_count_le(states.drop_last(), p);
    }
}

fn text(s: &str) -> (r: String)
    ensures
        r@ == s@,
{
    string_of(&chars_of(s))
}

/// The health overview of a stack made of `containers`.
pub fn stack_health(containers: Vec<ContainerHealth>) -> (h: StackHealth)
    ensures
        h.total == containers@.len(),
        h.running == count(states(containers@), |s: Seq<char>| is_running(s)),
        h.stopped == count(states(containers@), |s: Seq<char>| is_stopped(s)),
        h.unhealthy == count(states(containers@), |s: Seq<char>| is_unhealthy(s)),
        h.status@ == health_status(h.total as nat, h.running as nat),
        h.containers@ == containers@,
{
    let ghost st = states(containers@);
    let mut running: usize = 0;
    let mut stopped: usize = 0;
    let mut unhealthy: usize = 0;
    let mut i: usize = 0;
    while i < containers.len()
        invariant
            i <= containers.len(),
            st == states(containers@),
            running == count(st.subrange(0, i as int), |s: Seq<char>| is_running(s)),
            stopped == count(st.subrange(0, i as int), |s: Seq<char>| is_stopped(s)),
            unhealthy == count(st.subrange(0, i as int), |s: Seq<char>| is_unhealthy(s)),
            running <= i,
            stopped <= i,
            unhealthy <= i,
        decreases containers.len() - i,
    {
        let state = containers[i].state.as_str();
        let r = str_eq(state, "running");
        let s = str_eq(state, "exited") || str_eq(state, "created");
        proof {
            let pre = st.subrange(0, i as int);
            let post = st.subrange(0, i + 1);
            assert(post.drop_last() =~= pre);
            assert(post.last() == containers@[i as int].state@);
            lemma_count_le(pre, |s: Seq<char>| is_running(s));
            lemma_state_words_distinct();
        }
        if r {
            running = running + 1;
        } else if s {
            stopped = stopped + 1;
        } else {
            unhealthy = unhealthy + 1;
        }
        i = i + 1;
    }
    proof {
        assert(st.subrange(0, containers.len() as int) =~= st);
    }
    let total = containers.len();
    let status = if total == 0 {
        text("empty")
    } else if running == total {
        text("healthy")
    } else if running > 0 {
        text("partial")
    } else {
        text("stopped")
    };
    StackHealth { status, total, running, stopped, unhealthy, containers }
}

/// Each state counts as exactly one of running, stopped and unhealthy.
pub proof fn lemma_partition(states: Seq<Seq<char>>)
    ensures
        count(states, |s: Seq<char>| is_running(s)) + count(states, |s: Seq<char>| is_stopped(s))
            + count(states, |s: Seq<char>| is_unhealthy(s)) == states.len(),
    decreases states.len(),
{
    lemma_state_words_distinct();
    if states.len() > 0 {
        lemma_partition(states.drop_last());
    }
}

/// Every container of a stack is counted exactly once: as running, as stopped,
/// or as unhealthy.
pub proof fn law_health_counts_partition(cs: Seq<ContainerHealth>)
    ensures
        count(states(cs), |s: Seq<char>| is_running(s)) + count(
            states(cs),
            |s: Seq<char>| is_stopped(s),
        ) + count(states(cs), |s: Seq<char>| is_unhealthy(s)) == cs.len(),
{
    lemma_partition(states(cs));
}

/// A stack is reported healthy exactly when it has containers and all of them run.
pub proof fn law_healthy_iff_all_running(cs: Seq<ContainerHealth>)
    ensures
        health_status(cs.len(), count(states(cs), |s: Seq<char>| is_running(s))) == "healthy"@
            <==> (cs.len() > 0 && count(states(cs), |s: Seq<char>| is_running(s)) == cs.len()),
{
    reveal_strlit("healthy");
    reveal_strlit("empty");
    reveal_strlit("partial");
    reveal_strlit("stopped");
    assert("empty"@[0] != "healthy"@[0]);
    assert("partial"@ != "healthy"@) by {
        assert("partial"@[0] != "healthy"@[0]);
    }
    assert("stopped"@ != "healthy"@) by {
        assert("stopped"@[0] != "healthy"@[0]);
    }
}

} // verus!
