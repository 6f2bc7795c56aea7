//! What each request is answered with.

pub mod artifacts;
pub mod projects;
pub mod users;
