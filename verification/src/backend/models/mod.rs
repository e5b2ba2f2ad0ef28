//! Records the backend stores.
pub mod domain;
pub mod registry;
pub mod stack;
