//! Query parameters of the container endpoints, with their defaults.
use vstd::prelude::*;
use crate::default_tail;

verus! {

/// Whether stopped containers are listed too; by default they are not.
#[derive(Debug)]
pub struct ListContainersQuery {
    pub all: bool,
}

impl Default for ListContainersQuery {
    fn default() -> (q: ListContainersQuery)
        ensures
            !q.all,
    {
        ListContainersQuery { all: false }
    }
}

/// How many of the last log lines to give; by default 100.
#[derive(Debug)]
pub struct LogsQuery {
    pub tail: usize,
}

impl Default for LogsQuery {
    fn default() -> (q: LogsQuery)
        ensures
            q.tail == 100,
    {
        LogsQuery { tail: default_tail() }
    }
}

} // verus!
