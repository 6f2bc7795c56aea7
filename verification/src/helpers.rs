//! Small building blocks shared by the rest of the crate.

pub mod artifact;
pub mod base64;
pub mod markup;
pub mod password;
pub mod text;
pub mod uuid;
