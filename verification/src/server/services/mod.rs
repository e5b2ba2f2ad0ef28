//! Services of the server.
pub mod caddy;
pub mod container;
pub mod deploy;
pub mod environment;
pub mod network;
pub mod project;
pub mod domain;
pub mod domain_flow;
pub mod registry;
pub mod stack;
pub mod stack_deploy;
