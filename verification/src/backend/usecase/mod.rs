//! Use cases: the decisions of each operation, apart from the stores and the
//! container runtime they talk to.
pub mod auth;
pub mod deployment_log;
pub mod dns;
pub mod domain;
pub mod domain_change;
pub mod domain_sync;
pub mod environment;
pub mod metrics_collector;
pub mod node;
pub mod registry;
pub mod resource;
pub mod scheduler;
pub mod stack;
pub mod stack_build;
pub mod stack_deploy;
pub mod stack_git;
pub mod stack_ops;
pub mod system;
pub mod team;
pub mod template;
