//! Records stored by the server.
pub mod domain;
pub mod project;
