//! The platform network: the names a container answers to on it, and how
//! connecting to it is judged.
use vstd::prelude::*;
use crate::error::AppError;
use crate::naming::{trim_leading_slashes, without_leading_slashes};
use crate::text::{chars_of, concat2, concat3, contains_sub, has_substring};

verus! {

/// The network every platform container joins.
pub open spec fn labuh_network() -> Seq<char> {
    "labuh-network"@
}

/// The DNS names of a container on the platform network: its name without
/// leading slashes, that name under `.labuh`, and `<service>.<stack>.labuh`
/// when both its stack and service are known.
pub open spec fn container_aliases(container: Seq<char>, stack: Option<Seq<char>>, service: Option<Seq<char>>) -> Seq<
    Seq<char>,
> {
    let short = without_leading_slashes(container);
    let base = seq![short, short + ".labuh"@];
    match (stack, service) {
        (Some(st), Some(sv)) => base.push(sv + "."@ + st + ".labuh"@),
        _ => base,
    }
}

/// The outcome of connecting `container_id` to the platform network, given
/// the runtime's error message when it failed: an error that says the
/// container is connected already (`403`, `already exists`) is no failure.
pub open spec fn connect_outcome(container_id: Seq<char>, err: Option<String>, r: Result<(), AppError>) -> bool {
    match err {
        None => r is Ok,
        Some(m) => if has_substring(m@, "403"@) || has_substring(m@, "already exists"@) {
            r is Ok
        } else {
            r matches Err(AppError::ContainerRuntime(x)) && x@ == "Failed to connect container "@
                + container_id + " to "@ + labuh_network() + ": "@ + m@
        },
    }
}

/// The platform network's service.
pub struct NetworkService {}

impl NetworkService {
    pub fn new() -> (s: NetworkService) {
        NetworkService {}
    }

    /// The DNS names of a container on the platform network.
    pub fn generate_container_aliases(container_name: &str, stack_name: Option<&str>, service_name: Option<&str>) -> (r:
        Vec<String>)
        ensures
            r@.map_values(|s: String| s@) == container_aliases(
                container_name@,
                match stack_name {
                    Some(s) => Some(s@),
                    None => None,
                },
                match service_name {
                    Some(s) => Some(s@),
                    None => None,
                },
            ),
    {
        let short = trim_leading_slashes(container_name);
        let dotted = concat2(short.as_str(), ".labuh");
        let mut aliases: Vec<String> = Vec::new();
        aliases.push(short);
        aliases.push(dotted);
        let ghost base = aliases@.map_values(|s: String| s@);
        proof {
            assert(base =~= seq![without_leading_slashes(container_name@), without_leading_slashes(container_name@) + ".labuh"@]);
        }
        match (stack_name, service_name) {
            (Some(stack), Some(service)) => {
                let head = concat3(service, ".", stack);
                let full = concat2(head.as_str(), ".labuh");
                aliases.push(full);
                proof {
                    assert(aliases@.map_values(|s: String| s@) =~= base.push(service@ + "."@ + stack@ + ".labuh"@));
                }
            },
            _ => {},
        }
        aliases
    }

    /// What to create when the platform network is missing: its name and
    /// driver; nothing when it exists.
    pub fn ensure_labuh_network(&self, exists: bool) -> (r: Option<(String, String)>)
        ensures
            exists ==> r is None,
            !exists ==> (r matches Some((name, driver)) && name@ == labuh_network() && driver@ == "bridge"@),
    {
        proof {
            reveal_strlit("labuh-network");
            reveal_strlit("bridge");
        }
        if exists {
            None
        } else {
            Some(("labuh-network".to_owned(), "bridge".to_owned()))
        }
    }

    /// The outcome of creating the platform network.
    pub fn network_created(&self, created: Result<(), String>) -> (r: Result<(), AppError>)
        ensures
            match created {
                Ok(()) => r is Ok,
                Err(m) => r matches Err(AppError::ContainerRuntime(x)) && x@ == "Failed to create network: "@
                    + m@,
            },
    {
        match created {
            Ok(()) => Ok(()),
            Err(m) => Err(AppError::ContainerRuntime(concat2("Failed to create network: ", m.as_str()))),
        }
    }

    /// The outcome of connecting `container_id` to the platform network.
    pub fn connect_container(&self, container_id: &str, err: Option<String>) -> (r: Result<(), AppError>)
        ensures
            connect_outcome(container_id@, err, r),
    {
        proof {
            reveal_strlit("403");
            reveal_strlit("already exists");
            reveal_strlit("labuh-network");
        }
        match err {
            None => Ok(()),
            Some(m) => {
                let v = chars_of(m.as_str());
                let conflict = chars_of("403");
                let exists = chars_of("already exists");
                if contains_sub(&v, &conflict) || contains_sub(&v, &exists) {
                    Ok(())
                } else {
                    let head = concat3("Failed to connect container ", container_id, " to ");
                    let mid = concat3(head.as_str(), "labuh-network", ": ");
                    Err(AppError::ContainerRuntime(concat2(mid.as_str(), m.as_str())))
                }
            },
        }
    }

    /// The outcome of disconnecting a container from the platform network.
    pub fn disconnect_container(&self, disconnected: Result<(), String>) -> (r: Result<(), AppError>)
        ensures
            match disconnected {
                Ok(()) => r is Ok,
                Err(m) => r matches Err(AppError::ContainerRuntime(x)) && x@
                    == "Failed to disconnect container: "@ + m@,
            },
    {
        match disconnected {
            Ok(()) => Ok(()),
            Err(m) => Err(AppError::ContainerRuntime(concat2("Failed to disconnect container: ", m.as_str()))),
        }
    }
}

/// Every container answers to its own name and to that name under `.labuh`,
/// first, whatever its stack.
pub proof fn law_aliases_start_with_short_names(
    container: Seq<char>,
    stack: Option<Seq<char>>,
    service: Option<Seq<char>>,
)
    ensures
        container_aliases(container, stack, service).len() >= 2,
        container_aliases(container, stack, service)[0] == without_leading_slashes(container),
        container_aliases(container, stack, service)[1] == without_leading_slashes(container)
            + ".labuh"@,
{
}

} // verus!
