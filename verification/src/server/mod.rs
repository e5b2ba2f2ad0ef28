//! The single-node server: projects, stacks, domains and their services, and the
//! authentication of its requests.
pub mod middleware;
pub mod models;
pub mod services;
pub mod webhooks;
pub mod handlers;
