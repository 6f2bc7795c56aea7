//! What the service is configured with.

use vstd::prelude::*;

verus! {

/// The configuration that the handlers work from. It is handed to them;
/// nothing in this crate reads the environment.
#[derive(Debug)]
pub struct Settings {
    /// The directory under which binaries are kept.
    pub uploads_path: String,
    /// The address under which the service is reached from outside.
    pub public_url: String,
}

/// The largest body of a request, in bytes, where no other limit is set:
/// 2 MiB.
pub const DEFAULT_BODY_LIMIT: usize = 2 * 1024 * 1024;

/// The largest body of an image upload, in bytes: 5 MiB.
pub const IMAGE_BODY_LIMIT: usize = 5 * 1024 * 1024;

/// The largest body of an artifact upload, in bytes: 300 MiB. An upload is
/// held in memory whole before it is validated, so this bounds the memory
/// that one upload takes.
pub const ARTIFACT_BODY_LIMIT: usize = 300 * 1024 * 1024;

/// The time after which a request is given up, in seconds.
pub const REQUEST_TIMEOUT_SECONDS: u64 = 30;

} // verus!
