//! Stacks: which containers belong to a stack, which services a build touches,
//! what a redeploy replaces, and what a rollback restores.
use vstd::prelude::*;
use crate::backend::services::container::ContainerInfo;
use crate::error::AppError;
use crate::health::{stack_health, ContainerHealth, StackHealth};
use crate::labels::{as_map, distinct_keys, find_value, lookup, set_entry};
use crate::naming::{
    any_name_is, first_name, first_name_of, has_name, service_container, service_container_of,
    stack_prefix, stack_prefix_of, trim_leading_slashes, without_leading_slashes,
};
use crate::text::{chars_eq, chars_of, has_prefix, push_str, starts_with, str_eq, string_of};

verus! {

/// The label that ties a container to its stack.
pub open spec fn stack_label() -> Seq<char> {
    "labuh.stack.id"@
}

/// The label holding a container's compose service name.
pub open spec fn service_label() -> Seq<char> {
    "com.docker.compose.service"@
}

/// The container belongs to the stack `stack_id` by its stack label.
pub open spec fn in_stack(c: ContainerInfo, stack_id: Seq<char>) -> bool {
    lookup(c.labels@, stack_label()) == Some(stack_id)
}

/// Selects the containers of stack `stack_id`.
pub open spec fn of_stack(stack_id: Seq<char>) -> spec_fn(ContainerInfo) -> bool {
    |c: ContainerInfo| in_stack(c, stack_id)
}

/// A log line of a stack, with the container it came from.
#[derive(Debug, Clone, PartialEq, Eq)]
pub struct StackLogEntry {
    pub container: String,
    pub message: String,
}

/// Where the image of a service comes from.
#[derive(Debug, Clone, PartialEq, Eq)]
pub enum ImageSource {
    /// Build it from this context directory with this Dockerfile.
    Build { context_path: String, dockerfile: String },
    /// Pull it from its registry.
    Pull,
}

/// The container name shown for a container's logs: its first name without
/// leading slashes, or its id when it has no name.
pub open spec fn log_name(c: ContainerInfo) -> Seq<char> {
    if c.names@.len() > 0 {
        without_leading_slashes(c.names@[0]@)
    } else {
        c.id@
    }
}

/// The build-or-pull decision for a service: a service with a build context is
/// built from `<base>/<context>` and needs a base path (a Git checkout); any
/// other service is pulled.
pub open spec fn image_source_ok(
    build: Option<(Seq<char>, Seq<char>)>,
    base_path: Option<Seq<char>>,
) -> bool {
    build is None || base_path is Some
}

/// The directory a Git-backed stack is checked out in.
pub open spec fn git_dir(stack_id: Seq<char>) -> Seq<char> {
    "backend/data/git/"@ + stack_id
}

/// The image per service name that a rollback restores: each container's image
/// under its compose service label, or, without one, under every name that
/// carries the stack prefix (with the prefix removed). Later containers win.
pub open spec fn stable_images_of(cs: Seq<ContainerInfo>, stack: Seq<char>) -> Map<
    Seq<char>,
    Seq<char>,
>
    decreases cs.len(),
{
    if cs.len() == 0 {
        Map::empty()
    } else {
        let m = stable_images_of(cs.drop_last(), stack);
        let c = cs.last();
        match lookup(c.labels@, service_label()) {
            Some(service) => m.insert(service, c.image@),
            None => names_images(m, c.names@, stack, c.image@),
        }
    }
}

/// `m` with `image` recorded for each name of `names` that carries the stack
/// prefix, under the name with that prefix removed.
pub open spec fn names_images(
    m: Map<Seq<char>, Seq<char>>,
    names: Seq<String>,
    stack: Seq<char>,
    image: Seq<char>,
) -> Map<Seq<char>, Seq<char>>
    decreases names.len(),
{
    if names.len() == 0 {
        m
    } else {
        let m2 = names_images(m, names.drop_last(), stack, image);
        let n = names.last()@;
        if has_prefix(n, stack_prefix(stack)) {
            m2.insert(n.subrange(stack_prefix(stack).len() as int, n.len() as int), image)
        } else {
            m2
        }
    }
}

/// The ids of the containers of `cs` with a name equal to `n`, in order.
pub open spec fn ids_named(cs: Seq<ContainerInfo>, n: Seq<char>) -> Seq<Seq<char>>
    decreases cs.len(),
{
    if cs.len() == 0 {
        Seq::empty()
    } else {
        let init = ids_named(cs.drop_last(), n);
        if has_name(cs.last().names@, n) {
            init.push(cs.last().id@)
        } else {
            init
        }
    }
}

/// Stack rules of the backend.
pub struct StackUsecase {}

impl StackUsecase {
    pub fn new() -> (u: StackUsecase) {
        StackUsecase {}
    }

    /// The containers of stack `stack_id`, in the order the runtime listed them.
    pub fn stack_containers(all: Vec<ContainerInfo>, stack_id: &str) -> (r: Vec<ContainerInfo>)
        ensures
            r@ == all@.filter(of_stack(stack_id@)),
    {
        let ghost orig = all@;
        let mut rest = all;
        let mut r: Vec<ContainerInfo> = Vec::new();
        let mut i: usize = 0;
        proof {
            assert(orig.subrange(0, 0) =~= Seq::<ContainerInfo>::empty());
            assert(Seq::<ContainerInfo>::empty().filter(of_stack(stack_id@)) =~= Seq::<
                ContainerInfo,
            >::empty()) by {
                reveal(Seq::filter);
            }
            assert(rest@ =~= orig.subrange(0, orig.len() as int));
            assert(orig.len() == rest.len());
        }
        while rest.len() > 0
            invariant
                i <= orig.len() <= usize::MAX,
                rest@ == orig.subrange(i as int, orig.len() as int),
                r@ == orig.subrange(0, i as int).filter(of_stack(stack_id@)),
            decreases rest.len(),
        {
            let c = rest.remove(0);
            let v = find_value(&c.labels, "labuh.stack.id");
            let keep = match &v {
                Some(id) => str_eq(id.as_str(), stack_id),
                None => false,
            };
            proof {
                assert(c == orig[i as int]);
                assert(orig.subrange(0, i + 1) =~= orig.subrange(0, i as int).push(orig[i as int]));
                orig.subrange(0, i as int).lemma_filter_push(orig[i as int], of_stack(stack_id@));
                assert(rest@ =~= orig.subrange(i + 1, orig.len() as int));
            }
            if keep {
                r.push(c);
            }
            i = i + 1;
        }
        proof {
            assert(orig.subrange(0, orig.len() as int) =~= orig);
        }
        r
    }

    /// The health entry of a container: its id, first name (or none), state and status.
    pub fn container_health(c: &ContainerInfo) -> (h: ContainerHealth)
        ensures
            h.id@ == c.id@,
            h.name@ == first_name(c.names@),
            h.state@ == c.state@,
            h.status@ == c.status@,
    {
        ContainerHealth {
            id: c.id.clone(),
            name: first_name_of(&c.names),
            state: c.state.clone(),
            status: c.status.clone(),
        }
    }

    /// The health overview of a stack's containers.
    pub fn stack_health_of(containers: &Vec<ContainerInfo>) -> (h: StackHealth)
        ensures
            h.total == containers@.len(),
            h.containers@.len() == containers@.len(),
            forall|i: int|
                0 <= i < containers@.len() ==> (#[trigger] h.containers@[i]).state@
                    == containers@[i].state@ && h.containers@[i].id@ == containers@[i].id@
                    && h.containers@[i].name@ == first_name(containers@[i].names@),
            h.running == crate::health::count(
                crate::health::states(h.containers@),
                |s: Seq<char>| crate::health::is_running(s),
            ),
            h.stopped == crate::health::count(
                crate::health::states(h.containers@),
                |s: Seq<char>| crate::health::is_stopped(s),
            ),
            h.unhealthy == crate::health::count(
                crate::health::states(h.containers@),
                |s: Seq<char>| crate::health::is_unhealthy(s),
            ),
            h.status@ == crate::health::health_status(h.total as nat, h.running as nat),
    {
        let mut hs: Vec<ContainerHealth> = Vec::new();
        let mut i: usize = 0;
        while i < containers.len()
            invariant
                i <= containers.len(),
                hs@.len() == i,
                forall|j: int|
                    0 <= j < i ==> (#[trigger] hs@[j]).state@ == containers@[j].state@
                        && hs@[j].id@ == containers@[j].id@ && hs@[j].name@ == first_name(
                        containers@[j].names@,
                    ),
            decreases containers.len() - i,
        {
            hs.push(Self::container_health(&containers[i]));
            i = i + 1;
        }
        stack_health(hs)
    }

    /// The log entries of one container: one per line when its logs could be
    /// read, else a single entry describing the failure.
    pub fn log_entries(c: &ContainerInfo, logs: Result<Vec<String>, String>) -> (r: Vec<
        StackLogEntry,
    >)
        ensures
            forall|i: int| 0 <= i < r@.len() ==> (#[trigger] r@[i]).container@ == log_name(*c),
            match logs {
                Ok(lines) => r@.len() == lines@.len() && forall|i: int|
                    0 <= i < r@.len() ==> (#[trigger] r@[i]).message@ == lines@[i]@,
                Err(e) => r@.len() == 1 && r@[0].message@ == "[error fetching logs: "@ + e@
                    + "]"@,
            },
    {
        let name = if c.names.len() > 0 {
            trim_leading_slashes(c.names[0].as_str())
        } else {
            c.id.clone()
        };
        let mut r: Vec<StackLogEntry> = Vec::new();
        match logs {
            Ok(lines) => {
                let mut i: usize = 0;
                while i < lines.len()
                    invariant
                        i <= lines.len(),
                        r@.len() == i,
                        name@ == log_name(*c),
                        forall|j: int|
                            0 <= j < i ==> (#[trigger] r@[j]).container@ == log_name(*c)
                                && r@[j].message@ == lines@[j]@,
                    decreases lines.len() - i,
                {
                    r.push(StackLogEntry { container: name.clone(), message: lines[i].clone() });
                    i = i + 1;
                }
            },
            Err(e) => {
                let mut m = chars_of("[error fetching logs: ");
                push_str(&mut m, e.as_str());
                push_str(&mut m, "]");
                r.push(StackLogEntry { container: name, message: string_of(&m) });
            },
        }
        r
    }

    /// Whether a build of the stack touches `service`: every service when no
    /// target is named, else the service named by its own name or by
    /// `<stack>-<service>`.
    pub fn service_selected(service: &str, stack_name: &str, target: Option<&str>) -> (r: bool)
        ensures
            r == match target {
                None => true,
                Some(t) => service@ == t@ || stack_name@ + "-"@ + service@ == t@,
            },
    {
        match target {
            None => true,
            Some(t) => {
                if str_eq(service, t) {
                    return true;
                }
                let mut full = chars_of(stack_name);
                push_str(&mut full, "-");
                push_str(&mut full, service);
                chars_eq(&full, &chars_of(t))
            },
        }
    }

    /// Where to get the image of a service: built from `<base>/<context>` with
    /// its Dockerfile when it declares a build (which needs a base path), else
    /// pulled.
    pub fn image_source(
        service_name: &str,
        build: Option<(&str, &str)>,
        base_path: Option<&str>,
    ) -> (r: Result<ImageSource, AppError>)
        ensures
            r is Ok <==> (build is None || base_path is Some),
            build is None ==> r == Ok::<ImageSource, AppError>(ImageSource::Pull),
            build is Some && base_path is Some ==> (r matches Ok(
                ImageSource::Build { context_path, dockerfile },
            ) && context_path@ == base_path->0@ + "/"@ + (build->0).0@ && dockerfile@
                == (build->0).1@),
            build is Some && base_path is None ==> (r matches Err(AppError::BadRequest(m)) && m@
                == "Service '"@ + service_name@
                + "' specifies a build context but no base path is provided (is this a Git stack?)"@),
    {
        match build {
            None => Ok(ImageSource::Pull),
            Some((context, dockerfile)) => match base_path {
                Some(base) => {
                    let mut p = chars_of(base);
                    push_str(&mut p, "/");
                    push_str(&mut p, context);
                    Ok(
                        ImageSource::Build {
                            context_path: string_of(&p),
                            dockerfile: string_of(&chars_of(dockerfile)),
                        },
                    )
                },
                None => {
                    let mut m = chars_of("Service '");
                    push_str(&mut m, service_name);
                    push_str(
                        &mut m,
                        "' specifies a build context but no base path is provided (is this a Git stack?)",
                    );
                    Err(AppError::BadRequest(string_of(&m)))
                },
            },
        }
    }

    /// The ids of the containers a redeploy of `service` replaces: those named
    /// `/<stack>-<service>`, in listing order.
    pub fn replaced_containers(
        containers: &Vec<ContainerInfo>,
        stack_name: &str,
        service: &str,
    ) -> (r: Vec<String>)
        ensures
            crate::json::views(r@) == ids_named(
                containers@,
                service_container(stack_name@, service@),
            ),
    {
        let target = service_container_of(stack_name, service);
        let mut r: Vec<String> = Vec::new();
        let mut i: usize = 0;
        proof {
            assert(containers@.subrange(0, 0) =~= Seq::<ContainerInfo>::empty());
            assert(crate::json::views(r@) =~= Seq::<Seq<char>>::empty());
        }
        while i < containers.len()
            invariant
                i <= containers.len(),
                target@ == service_container(stack_name@, service@),
                crate::json::views(r@) == ids_named(containers@.subrange(0, i as int), target@),
            decreases containers.len() - i,
        {
            proof {
                let sub = containers@.subrange(0, i + 1);
                assert(sub.drop_last() =~= containers@.subrange(0, i as int));
                assert(sub.last() == containers@[i as int]);
            }
            if any_name_is(&containers[i].names, &target) {
                let ghost before = r@;
                r.push(containers[i].id.clone());
                proof {
                    assert(crate::json::views(r@) =~= crate::json::views(before).push(
                        containers@[i as int].id@,
                    ));
                }
            }
            i = i + 1;
        }
        proof {
            assert(containers@.subrange(0, containers.len() as int) =~= containers@);
        }
        r
    }

    /// The Git checkout directory of a stack.
    pub fn git_dir_of(stack_id: &str) -> (r: String)
        ensures
            r@ == git_dir(stack_id@),
    {
        let mut v = chars_of("backend/data/git/");
        push_str(&mut v, stack_id);
        string_of(&v)
    }

    /// The images to restore on rollback, per service name: for each container,
    /// its image under its compose service label, or under its prefixed names
    /// with the stack prefix removed.
    pub fn stable_images(containers: &Vec<ContainerInfo>, stack_name: &str) -> (r: Vec<
        (String, String),
    >)
        ensures
            distinct_keys(r@),
            as_map(r@) == stable_images_of(containers@, stack_name@),
    {
        let prefix = stack_prefix_of(stack_name);
        let mut r: Vec<(String, String)> = Vec::new();
        let mut i: usize = 0;
        proof {
            assert(containers@.subrange(0, 0) =~= Seq::<ContainerInfo>::empty());
            assert(as_map(r@) =~= Map::<Seq<char>, Seq<char>>::empty());
        }
        while i < containers.len()
            invariant
                i <= containers.len(),
                prefix@ == stack_prefix(stack_name@),
                distinct_keys(r@),
                as_map(r@) == stable_images_of(containers@.subrange(0, i as int), stack_name@),
            decreases containers.len() - i,
        {
            let c = &containers[i];
            proof {
                let sub = containers@.subrange(0, i + 1);
                assert(sub.drop_last() =~= containers@.subrange(0, i as int));
                assert(sub.last() == containers@[i as int]);
            }
            match find_value(&c.labels, "com.docker.compose.service") {
                Some(service) => {
                    set_entry(&mut r, service, c.image.clone());
                },
                None => {
                    let ghost m0 = as_map(r@);
                    let mut k: usize = 0;
                    proof {
                        assert(c.names@.subrange(0, 0) =~= Seq::<String>::empty());
                    }
                    while k < c.names.len()
                        invariant
                            k <= c.names.len(),
                            prefix@ == stack_prefix(stack_name@),
                            distinct_keys(r@),
                            as_map(r@) == names_images(
                                m0,
                                c.names@.subrange(0, k as int),
                                stack_name@,
                                c.image@,
                            ),
                        decreases c.names.len() - k,
                    {
                        proof {
                            let sub = c.names@.subrange(0, k + 1);
                            assert(sub.drop_last() =~= c.names@.subrange(0, k as int));
                            assert(sub.last() == c.names@[k as int]);
                        }
                        let n = chars_of(c.names[k].as_str());
                        if starts_with(&n, &prefix) {
                            let mut rest: Vec<char> = Vec::new();
                            let mut q: usize = prefix.len();
                            while q < n.len()
                                invariant
                                    prefix.len() <= q <= n.len(),
                                    rest@ == n@.subrange(prefix.len() as int, q as int),
                                decreases n.len() - q,
                            {
                                rest.push(n[q]);
                                proof {
                                    assert(rest@ =~= n@.subrange(prefix.len() as int, q + 1));
                                }
                                q = q + 1;
                            }
                            set_entry(&mut r, string_of(&rest), c.image.clone());
                        }
                        k = k + 1;
                    }
                    proof {
                        assert(c.names@.subrange(0, c.names.len() as int) =~= c.names@);
                    }
                },
            }
            i = i + 1;
        }
        proof {
            assert(containers@.subrange(0, containers.len() as int) =~= containers@);
        }
        r
    }
}

} // verus!
