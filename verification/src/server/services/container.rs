//! Containers of the server, and how a creation request becomes a container
//! configuration.
use vstd::prelude::*;
use crate::labels::{as_map, distinct_keys, set_entry};
use crate::text::{chars_of, contains_char, push_str, string_of};

pub use crate::backend::services::container::{ImageInfo, ImageInspect, PortMapping};

verus! {

/// A container.
#[derive(Debug, Clone, PartialEq, Eq)]
pub struct ContainerInfo {
    pub id: String,
    pub names: Vec<String>,
    pub image: String,
    pub state: String,
    pub status: String,
    pub ports: Vec<PortMapping>,
    pub created: i64,
}

/// A request to create a container. `ports` maps container ports ("80" or
/// "80/tcp") to host ports; `volumes` maps host paths to container paths.
#[derive(Debug, Clone, PartialEq, Eq)]
pub struct CreateContainerRequest {
    pub name: String,
    pub image: String,
    pub env: Option<Vec<String>>,
    pub ports: Option<Vec<(String, String)>>,
    pub volumes: Option<Vec<(String, String)>>,
}

/// The configuration handed to the runtime for a creation request. Each port
/// binding publishes its container port (key) on address `host_ip` at its
/// host port; `exposed_ports` are the container ports the bindings name.
#[derive(Debug, Clone, PartialEq, Eq)]
pub struct ContainerCreatePlan {
    pub name: String,
    pub image: String,
    pub env: Option<Vec<String>>,
    pub exposed_ports: Option<Vec<String>>,
    pub port_bindings: Option<Vec<(String, String)>>,
    pub host_ip: String,
    pub binds: Option<Vec<String>>,
}

/// The host address port bindings listen on.
pub open spec fn binding_host_ip() -> Seq<char> {
    "0.0.0.0"@
}

/// A container port with its protocol: as given when it names one, else TCP.
pub open spec fn port_key(port: Seq<char>) -> Seq<char> {
    if port.contains('/') {
        port
    } else {
        port + "/tcp"@
    }
}

/// The port bindings of `ports`: each container port's key bound to its host
/// port, a later entry for the same key replacing an earlier one.
pub open spec fn bindings_of(ports: Seq<(String, String)>) -> Map<Seq<char>, Seq<char>>
    decreases ports.len(),
{
    if ports.len() == 0 {
        Map::empty()
    } else {
        bindings_of(ports.drop_last()).insert(port_key(ports.last().0@), ports.last().1@)
    }
}

/// The `host:container` bind of a volume.
pub open spec fn bind_of(v: (String, String)) -> Seq<char> {
    v.0@ + ":"@ + v.1@
}

/// The key of a container port.
pub fn port_key_of(port: &str) -> (r: String)
    ensures
        r@ == port_key(port@),
{
    let mut v = chars_of(port);
    if !contains_char(&v, '/') {
        push_str(&mut v, "/tcp");
    }
    string_of(&v)
}

/// The port bindings for the requested ports, one entry per container port.
pub fn port_bindings(ports: &Vec<(String, String)>) -> (r: Vec<(String, String)>)
    ensures
        distinct_keys(r@),
        as_map(r@) == bindings_of(ports@),
        r@.len() == 0 <==> ports@.len() == 0,
{
    let mut r: Vec<(String, String)> = Vec::new();
    let mut i: usize = 0;
    proof {
        assert(as_map(r@) == Map::<Seq<char>, Seq<char>>::empty());
        assert(ports@.subrange(0, 0) =~= Seq::<(String, String)>::empty());
    }
    while i < ports.len()
        invariant
            i <= ports.len(),
            distinct_keys(r@),
            as_map(r@) == bindings_of(ports@.subrange(0, i as int)),
            i > 0 ==> r@.len() > 0,
            i == 0 ==> r@.len() == 0,
        decreases ports.len() - i,
    {
        let key = port_key_of(ports[i].0.as_str());
        proof {
            let sub = ports@.subrange(0, i + 1);
            assert(sub.drop_last() =~= ports@.subrange(0, i as int));
            assert(sub.last() == ports@[i as int]);
        }
        let ghost before = r@;
        set_entry(&mut r, key, ports[i].1.clone());
        proof {
            if r@.len() == 0 {
                assert(as_map(r@) == Map::<Seq<char>, Seq<char>>::empty());
                assert(as_map(r@).contains_key(port_key(ports@[i as int].0@)));
            }
        }
        i = i + 1;
    }
    proof {
        assert(ports@.subrange(0, ports.len() as int) =~= ports@);
    }
    r
}

/// The container ports that `bindings` name, in order.
pub fn exposed_of(bindings: &Vec<(String, String)>) -> (r: Vec<String>)
    ensures
        r@.len() == bindings@.len(),
        forall|i: int| 0 <= i < r@.len() ==> (#[trigger] r@[i])@ == bindings@[i].0@,
{
    let mut r: Vec<String> = Vec::new();
    let mut i: usize = 0;
    while i < bindings.len()
        invariant
            i <= bindings.len(),
            r@.len() == i,
            forall|j: int| 0 <= j < i ==> (#[trigger] r@[j])@ == bindings@[j].0@,
        decreases bindings.len() - i,
    {
        r.push(string_of(&chars_of(bindings[i].0.as_str())));
        i = i + 1;
    }
    r
}

/// The `host:container` binds for the requested volumes.
pub fn volume_binds(volumes: &Vec<(String, String)>) -> (r: Vec<String>)
    ensures
        r@.len() == volumes@.len(),
        forall|i: int| 0 <= i < r@.len() ==> (#[trigger] r@[i])@ == bind_of(volumes@[i]),
{
    let mut r: Vec<String> = Vec::new();
    let mut i: usize = 0;
    while i < volumes.len()
        invariant
            i <= volumes.len(),
            r@.len() == i,
            forall|j: int| 0 <= j < i ==> (#[trigger] r@[j])@ == bind_of(volumes@[j]),
        decreases volumes.len() - i,
    {
        let mut b = chars_of(volumes[i].0.as_str());
        push_str(&mut b, ":");
        push_str(&mut b, volumes[i].1.as_str());
        r.push(string_of(&b));
        i = i + 1;
    }
    r
}

/// The container configuration for a creation request: its name, image and
/// environment as given; port bindings for its ports on all interfaces, and
/// those ports exposed (neither when it asks for none); binds for its
/// volumes.
pub fn create_plan(request: CreateContainerRequest) -> (p: ContainerCreatePlan)
    ensures
        p.name == request.name,
        p.image == request.image,
        p.env == request.env,
        match request.ports {
            Some(ports) if ports@.len() > 0 => p.port_bindings matches Some(b) && distinct_keys(b@)
                && as_map(b@) == bindings_of(ports@) && (p.exposed_ports matches Some(x) && x@.len()
                == b@.len() && forall|i: int| 0 <= i < x@.len() ==> (#[trigger] x@[i])@ == b@[i].0@),
            _ => p.port_bindings is None && p.exposed_ports is None,
        },
        p.host_ip@ == binding_host_ip(),
        match request.volumes {
            Some(vols) => p.binds matches Some(b) && b@.len() == vols@.len() && forall|i: int|
                0 <= i < b@.len() ==> (#[trigger] b@[i])@ == bind_of(vols@[i]),
            None => p.binds is None,
        },
{
    let (exposed_ports, port_bindings) = match &request.ports {
        Some(ports) => {
            let b = port_bindings(ports);
            if b.len() == 0 {
                (None, None)
            } else {
                (Some(exposed_of(&b)), Some(b))
            }
        },
        None => (None, None),
    };
    proof {
        reveal_strlit("0.0.0.0");
    }
    let binds = match &request.volumes {
        Some(vols) => Some(volume_binds(vols)),
        None => None,
    };
    ContainerCreatePlan {
        name: request.name,
        image: request.image,
        env: request.env,
        exposed_ports,
        port_bindings,
        host_ip: "0.0.0.0".to_owned(),
        binds,
    }
}

proof fn lemma_binding_value(ports: Seq<(String, String)>, i: int)
    requires
        0 <= i < ports.len(),
        forall|j: int| i < j < ports.len() ==> port_key((#[trigger] ports[j]).0@) != port_key(ports[i].0@),
    ensures
        bindings_of(ports).contains_key(port_key(ports[i].0@)),
        bindings_of(ports)[port_key(ports[i].0@)] == ports[i].1@,
    decreases ports.len(),
{
    if i < ports.len() - 1 {
        let init = ports.drop_last();
        assert(init[i] == ports[i]);
        assert forall|j: int| i < j < init.len() implies port_key((#[trigger] init[j]).0@) != port_key(
            init[i].0@,
        ) by {
            assert(init[j] == ports[j]);
        }
        lemma_binding_value(init, i);
        assert(port_key(ports[ports.len() - 1].0@) != port_key(ports[i].0@));
    }
}

proof fn lemma_binding_keys(ports: Seq<(String, String)>, k: Seq<char>)
    ensures
        bindings_of(ports).contains_key(k) <==> exists|i: int|
            0 <= i < ports.len() && #[trigger] port_key(ports[i].0@) == k,
    decreases ports.len(),
{
    if ports.len() > 0 {
        let init = ports.drop_last();
        lemma_binding_keys(init, k);
        if bindings_of(ports).contains_key(k) {
            if k == port_key(ports.last().0@) {
                assert(port_key(ports[ports.len() - 1].0@) == k);
            } else {
                let i = choose|i: int| 0 <= i < init.len() && #[trigger] port_key(init[i].0@) == k;
                assert(init[i] == ports[i]);
            }
        }
        if exists|i: int| 0 <= i < ports.len() && #[trigger] port_key(ports[i].0@) == k {
            let i = choose|i: int| 0 <= i < ports.len() && #[trigger] port_key(ports[i].0@) == k;
            if i < ports.len() - 1 {
                assert(init[i] == ports[i]);
            }
        }
    }
}

/// The bindings of the requested ports publish each container port on the
/// host port requested for it: for every request whose container port is
/// not asked for again later, its key (the port with its protocol, TCP when
/// none is given) is bound to that request's host port; a key is bound
/// exactly when some request names it.
pub proof fn law_ports_bind_to_requested_host_ports(ports: Seq<(String, String)>)
    ensures
        forall|i: int|
            0 <= i < ports.len() && (forall|j: int|
                i < j < ports.len() ==> port_key((#[trigger] ports[j]).0@) != port_key(ports[i].0@)) ==> (
            #[trigger] bindings_of(ports)[port_key(ports[i].0@)]) == ports[i].1@ && bindings_of(
                ports,
            ).contains_key(port_key(ports[i].0@)),
        forall|k: Seq<char>|
            #[trigger] bindings_of(ports).contains_key(k) <==> exists|i: int|
                0 <= i < ports.len() && #[trigger] port_key(ports[i].0@) == k,
{
    assert forall|i: int|
        0 <= i < ports.len() && (forall|j: int|
            i < j < ports.len() ==> port_key((#[trigger] ports[j]).0@) != port_key(ports[i].0@)) implies (
        #[trigger] bindings_of(ports)[port_key(ports[i].0@)]) == ports[i].1@ && bindings_of(
            ports,
        ).contains_key(port_key(ports[i].0@)) by {
        lemma_binding_value(ports, i);
    }
    assert forall|k: Seq<char>|
        #[trigger] bindings_of(ports).contains_key(k) <==> exists|i: int|
            0 <= i < ports.len() && #[trigger] port_key(ports[i].0@) == k by {
        lemma_binding_keys(ports, k);
    }
}

/// A created container's plan binds each requested container port to the
/// host port requested for it (the last request for a port winning), on
/// all interfaces.
pub proof fn law_plan_binds_requested_host_ports(request: CreateContainerRequest, p: ContainerCreatePlan, i: int)
    requires
        request.ports matches Some(ports) && 0 <= i < ports@.len() && forall|j: int|
            i < j < ports@.len() ==> port_key((#[trigger] ports@[j]).0@) != port_key(ports@[i].0@),
        p.port_bindings matches Some(b) && as_map(b@) == bindings_of(request.ports->0@),
    ensures
        as_map(p.port_bindings->0@).contains_key(port_key(request.ports->0@[i].0@)),
        as_map(p.port_bindings->0@)[port_key(request.ports->0@[i].0@)] == request.ports->0@[i].1@,
{
    lemma_binding_value(request.ports->0@, i);
}

/// A container port names its protocol as given; a port without one is TCP.
pub proof fn law_port_key_defaults_to_tcp(port: Seq<char>)
    ensures
        port.contains('/') ==> port_key(port) == port,
        !port.contains('/') ==> port_key(port) =~= port + seq!['/', 't', 'c', 'p'],
{
    reveal_strlit("/tcp");
}

} // verus!
