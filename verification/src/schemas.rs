//! The records that the service stores and exchanges.

pub mod artifact;
pub mod project;
pub mod user;
