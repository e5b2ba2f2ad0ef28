//! Stack environment variables: which apply to a container, and how they are
//! merged into the environment a compose service already declares.
use vstd::prelude::*;
use crate::labels::{as_map, distinct_keys, set_entry};
use crate::text::{chars_of, has_prefix, push_str, starts_with, string_of};

verus! {

/// Stack environment variable model. An empty `container_name` makes the
/// variable apply to every container of the stack.
#[derive(Debug, Clone, PartialEq, Eq)]
pub struct StackEnvVar {
    pub id: String,
    pub stack_id: String,
    pub container_name: String,
    pub key: String,
    pub value: String,
    pub is_secret: bool,
    pub created_at: String,
    pub updated_at: String,
}

/// `m` with the variables of `vars` that satisfy `pick` set in order: a later
/// variable for a key replaces an earlier one.
pub open spec fn set_vars(
    m: Map<Seq<char>, Seq<char>>,
    vars: Seq<StackEnvVar>,
    pick: spec_fn(StackEnvVar) -> bool,
) -> Map<Seq<char>, Seq<char>>
    decreases vars.len(),
{
    if vars.len() == 0 {
        m
    } else {
        let m2 = set_vars(m, vars.drop_last(), pick);
        if pick(vars.last()) {
            m2.insert(vars.last().key@, vars.last().value@)
        } else {
            m2
        }
    }
}

/// The variable applies to every container.
pub open spec fn is_global(v: StackEnvVar) -> bool {
    v.container_name@.len() == 0
}

/// Selects the global variables.
pub open spec fn globals() -> spec_fn(StackEnvVar) -> bool {
    |v: StackEnvVar| is_global(v)
}

/// Selects the variables set for `container`.
pub open spec fn own_vars(container: Seq<char>) -> spec_fn(StackEnvVar) -> bool {
    |v: StackEnvVar| v.container_name@ == container
}

/// The environment of `container`: the stack's global variables, overridden by
/// the variables set for that container.
pub open spec fn env_for(vars: Seq<StackEnvVar>, container: Seq<char>) -> Map<Seq<char>, Seq<char>> {
    set_vars(set_vars(Map::empty(), vars, globals()), vars, own_vars(container))
}

/// Sets into `entries` the variables of `vars` for which `global` (or, when
/// `global` is false, `container`) selects them.
fn set_selected(
    entries: &mut Vec<(String, String)>,
    vars: &Vec<StackEnvVar>,
    global: bool,
    container: &str,
)
    requires
        distinct_keys(old(entries)@),
    ensures
        distinct_keys(final(entries)@),
        global ==> as_map(final(entries)@) == set_vars(as_map(old(entries)@), vars@, globals()),
        !global ==> as_map(final(entries)@) == set_vars(
            as_map(old(entries)@),
            vars@,
            own_vars(container@),
        ),
{
    let ghost start = as_map(entries@);
    let ghost pick = if global {
        globals()
    } else {
        own_vars(container@)
    };
    let mut i: usize = 0;
    while i < vars.len()
        invariant
            i <= vars.len(),
            distinct_keys(entries@),
            as_map(entries@) == set_vars(start, vars@.subrange(0, i as int), pick),
            pick == (if global {
                globals()
            } else {
                own_vars(container@)
            }),
        decreases vars.len() - i,
    {
        let v = &vars[i];
        let selected = if global {
            chars_of(v.container_name.as_str()).len() == 0
        } else {
            crate::text::str_eq(v.container_name.as_str(), container)
        };
        proof {
            let sub = vars@.subrange(0, i + 1);
            assert(sub.drop_last() =~= vars@.subrange(0, i as int));
            assert(sub.last() == vars@[i as int]);
            assert(selected == pick(vars@[i as int]));
        }
        if selected {
            set_entry(entries, v.key.clone(), v.value.clone());
        }
        i = i + 1;
    }
    proof {
        assert(vars@.subrange(0, vars.len() as int) =~= vars@);
    }
}

/// Environment variables that apply to `container_name`, as key/value
/// entries: global variables first, then container-specific overrides.
pub fn env_map_for_container(vars: &Vec<StackEnvVar>, container_name: &str) -> (r: Vec<
    (String, String),
>)
    ensures
        distinct_keys(r@),
        as_map(r@) == env_for(vars@, container_name@),
{
    let mut entries: Vec<(String, String)> = Vec::new();
    proof {
        assert(as_map(entries@) == Map::<Seq<char>, Seq<char>>::empty());
    }
    set_selected(&mut entries, vars, true, container_name);
    set_selected(&mut entries, vars, false, container_name);
    entries
}

proof fn lemma_set_vars_picked(
    m: Map<Seq<char>, Seq<char>>,
    vars: Seq<StackEnvVar>,
    pick: spec_fn(StackEnvVar) -> bool,
    i: int,
)
    requires
        0 <= i < vars.len(),
        pick(vars[i]),
        forall|j: int| i < j < vars.len() && pick(vars[j]) ==> vars[j].key@ != vars[i].key@,
    ensures
        set_vars(m, vars, pick).contains_key(vars[i].key@),
        set_vars(m, vars, pick)[vars[i].key@] == vars[i].value@,
    decreases vars.len(),
{
    if i < vars.len() - 1 {
        let init = vars.drop_last();
        assert forall|j: int| i < j < init.len() && pick(init[j]) implies init[j].key@
            != init[i].key@ by {
            assert(init[j] == vars[j]);
        }
        lemma_set_vars_picked(m, init, pick, i);
        assert(init[i] == vars[i]);
    }
}

/// A variable set for a container overrides a global variable with the same
/// key: the container sees the value of its last own variable for that key.
pub proof fn law_container_vars_override_globals(
    vars: Seq<StackEnvVar>,
    container: Seq<char>,
    i: int,
)
    requires
        0 <= i < vars.len(),
        vars[i].container_name@ == container,
        forall|j: int|
            i < j < vars.len() && vars[j].container_name@ == container ==> vars[j].key@
                != vars[i].key@,
    ensures
        env_for(vars, container).contains_key(vars[i].key@),
        env_for(vars, container)[vars[i].key@] == vars[i].value@,
{
    lemma_set_vars_picked(set_vars(Map::empty(), vars, globals()), vars, own_vars(container), i);
}

// ---------------------------------------------------------------------------
// Merging stored variables into a service's declared environment
// ---------------------------------------------------------------------------

/// The `KEY=value` entry for a variable.
pub open spec fn env_entry(key: Seq<char>, value: Seq<char>) -> Seq<char> {
    key + "="@ + value
}

/// Index of the first entry of `env` (from `from` on) that sets `key`.
pub open spec fn first_setting(env: Seq<Seq<char>>, key: Seq<char>, from: int) -> Option<int>
    decreases env.len() - from,
{
    if from < 0 || from >= env.len() {
        None
    } else if has_prefix(env[from], key + "="@) {
        Some(from)
    } else {
        first_setting(env, key, from + 1)
    }
}

/// `env` with `key` set to `value`: the first entry setting `key` replaced,
/// or the entry appended.
pub open spec fn set_in_env(env: Seq<Seq<char>>, key: Seq<char>, value: Seq<char>) -> Seq<Seq<char>> {
    match first_setting(env, key, 0) {
        Some(i) => env.update(i, env_entry(key, value)),
        None => env.push(env_entry(key, value)),
    }
}

/// `env` with every pair of `vars` set in turn.
pub open spec fn set_all_in_env(env: Seq<Seq<char>>, vars: Seq<(String, String)>) -> Seq<Seq<char>>
    decreases vars.len(),
{
    if vars.len() == 0 {
        env
    } else {
        set_in_env(set_all_in_env(env, vars.drop_last()), vars.last().0@, vars.last().1@)
    }
}

/// The environment a container gets: the service's own entries when no variable
/// is stored, else those entries (none when the service declares none) with
/// every stored variable set.
pub open spec fn merged_env(declared: Option<Seq<Seq<char>>>, vars: Seq<(String, String)>) -> Option<
    Seq<Seq<char>>,
> {
    if vars.len() == 0 {
        declared
    } else {
        Some(
            set_all_in_env(
                match declared {
                    Some(e) => e,
                    None => Seq::empty(),
                },
                vars,
            ),
        )
    }
}

/// The plain views of an environment list.
pub open spec fn env_views(env: Seq<String>) -> Seq<Seq<char>> {
    env.map_values(|s: String| s@)
}

proof fn lemma_views_update(v: Seq<String>, i: int, x: String)
    requires
        0 <= i < v.len(),
    ensures
        env_views(v.update(i, x)) == env_views(v).update(i, x@),
{
    assert(env_views(v.update(i, x)) =~= env_views(v).update(i, x@));
}

proof fn lemma_views_push(v: Seq<String>, x: String)
    ensures
        env_views(v.push(x)) == env_views(v).push(x@),
{
    assert(env_views(v.push(x)) =~= env_views(v).push(x@));
}

proof fn lemma_first_setting_found(env: Seq<Seq<char>>, key: Seq<char>, from: int, i: int)
    requires
        0 <= from <= i < env.len(),
        has_prefix(env[i], key + "="@),
        forall|j: int| from <= j < i ==> !has_prefix(env[j], key + "="@),
    ensures
        first_setting(env, key, from) == Some(i),
    decreases i - from,
{
    if from < i {
        lemma_first_setting_found(env, key, from + 1, i);
    }
}

proof fn lemma_first_setting_none(env: Seq<Seq<char>>, key: Seq<char>, from: int)
    requires
        0 <= from,
        forall|j: int| from <= j < env.len() ==> !has_prefix(env[j], key + "="@),
    ensures
        first_setting(env, key, from) is None,
    decreases env.len() - from,
{
    if from < env.len() {
        lemma_first_setting_none(env, key, from + 1);
    }
}

/// Sets `key` to `value` in `env`, as the deployment does.
fn set_env_var(env: &mut Vec<String>, key: &str, value: &str)
    ensures
        env_views(final(env)@) == set_in_env(env_views(old(env)@), key@, value@),
{
    let mut entry = chars_of(key);
    push_str(&mut entry, "=");
    push_str(&mut entry, value);
    let entry = string_of(&entry);
    assert(entry@ == env_entry(key@, value@));
    let mut prefix = chars_of(key);
    push_str(&mut prefix, "=");
    let ghost ev = env_views(env@);
    let mut i: usize = 0;
    while i < env.len()
        invariant
            i <= env.len(),
            ev == env_views(env@),
            ev == env_views(old(env)@),
            prefix@ == key@ + "="@,
            entry@ == env_entry(key@, value@),
            forall|j: int| 0 <= j < i ==> !has_prefix(ev[j], key@ + "="@),
        decreases env.len() - i,
    {
        let e = chars_of(env[i].as_str());
        assert(ev[i as int] == env@[i as int]@);
        if starts_with(&e, &prefix) {
            proof {
                lemma_first_setting_found(ev, key@, 0, i as int);
            }
            let ghost before = env@;
            env.set(i, entry);
            proof {
                lemma_views_update(before, i as int, entry);
            }
            return;
        }
        i = i + 1;
    }
    proof {
        lemma_first_setting_none(ev, key@, 0);
    }
    let ghost before = env@;
    env.push(entry);
    proof {
        lemma_views_push(before, entry);
    }
}

/// The environment for a container: the declared entries of its service with
/// the stored variables `vars` set in turn; unchanged when `vars` is empty.
pub fn merge_env(declared: Option<Vec<String>>, vars: &Vec<(String, String)>) -> (r: Option<
    Vec<String>,
>)
    ensures
        match r {
            Some(e) => merged_env(
                match declared {
                    Some(d) => Some(env_views(d@)),
                    None => None,
                },
                vars@,
            ) == Some(env_views(e@)),
            None => merged_env(
                match declared {
                    Some(d) => Some(env_views(d@)),
                    None => None,
                },
                vars@,
            ) is None,
        },
{
    if vars.len() == 0 {
        return declared;
    }
    let mut env = match declared {
        Some(d) => d,
        None => Vec::new(),
    };
    let ghost start = env_views(env@);
    let mut i: usize = 0;
    while i < vars.len()
        invariant
            i <= vars.len(),
            env_views(env@) == set_all_in_env(start, vars@.subrange(0, i as int)),
        decreases vars.len() - i,
    {
        proof {
            let sub = vars@.subrange(0, i + 1);
            assert(sub.drop_last() =~= vars@.subrange(0, i as int));
            assert(sub.last() == vars@[i as int]);
        }
        set_env_var(&mut env, vars[i].0.as_str(), vars[i].1.as_str());
        i = i + 1;
    }
    proof {
        assert(vars@.subrange(0, vars.len() as int) =~= vars@);
        assert(start =~= (match declared {
            Some(d) => env_views(d@),
            None => Seq::empty(),
        }));
    }
    Some(env)
}

} // verus!
