//! Services of the backend.
pub mod auth;
pub mod caddy;
pub mod container;
pub mod dns_provider;
pub mod environment;
pub mod domain;
pub mod registry;
pub mod stack;
pub mod tunnel;
