//! The team-based backend: use cases over stacks, domains, registries and teams.
pub mod models;
pub mod services;
pub mod usecase;
