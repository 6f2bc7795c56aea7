//! Core of a build-distribution service: teams upload mobile application
//! binaries for a project and a branch, and testers install them from a
//! link or a QR code.
//!
//! - `upload` takes the parts of an upload into a form and validates it.
//! - `schemas` holds the records: artifacts, projects and users.
//! - `helpers` resolves where a binary is kept and under which addresses it
//!   is served, renders the install manifest for iOS, and wraps the
//!   encodings and the random and cryptographic sources.
//! - `link` derives the install link of an artifact and draws it as a QR
//!   code.
//! - `store` keeps artifact records under their ids and lists them by
//!   project and branch.
//! - `handlers` says what each request is answered with.
//! - `error` is the error type and its mapping to HTTP.
//! - `redirect` sends plain HTTP to HTTPS.
//! - `settings` is the configuration handed to the handlers.
//!
//! Nothing here reads or writes a disk, a database or a socket: the caller
//! does, with the values that these functions hand out.

pub mod error;
pub mod handlers;
pub mod helpers;
pub mod link;
pub mod redirect;
pub mod schemas;
pub mod settings;
pub mod store;
pub mod upload;

pub use helpers::artifact::create_file_path;
pub use helpers::base64::encode_base64;
