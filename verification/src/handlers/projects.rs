//! The project requests: lookup, and the image that stands for a project.

use vstd::prelude::*;
use vstd::string::StringExecFns;
use crate::error::AppError;
use crate::helpers::base64::{base64_standard, encode_base64};
use crate::helpers::text::text_eq;
use crate::schemas::project::{opt_project, Project};
use crate::upload::opt_str;

verus! {

/// The name of the part that carries an image.
pub const IMAGE_FIELD: &'static str = "file";

/// What precedes the base64 text in a stored image.
pub const IMAGE_PREFIX: &'static str = "data:image/png;base64,";

/// The side of the square to which an uploaded image is cut, in pixels.
pub const IMAGE_SIDE: u32 = 160;

/// The found project; `NotFound` exactly where none was found.
pub fn get_project(found: Option<Project>) -> (r: Result<Project, AppError>)
    ensures
        match r {
            Ok(project) => opt_project(found) == Some(project@),
            Err(AppError::NotFound) => found is None,
            Err(_) => false,
        },
{
    match found {
        Some(project) => Ok(project),
        None => Err(AppError::NotFound),
    }
}

/// Whether a part of an image upload carries an image: the part named
/// `file` does, and no other.
pub fn is_image_field(name: Option<&str>) -> (r: bool)
    ensures
        r == (opt_str(name) == Some(IMAGE_FIELD@)),
{
    match name {
        Some(n) => text_eq(n, IMAGE_FIELD),
        None => false,
    }
}

/// The stored image before any part was read: the prefix alone.
pub fn start_image() -> (r: String)
    ensures
        r@ == IMAGE_PREFIX@,
{
    String::from_str(IMAGE_PREFIX)
}

/// Appends the padded standard base64 text of a PNG image to the stored
/// image.
pub fn append_image(encoded: &mut String, png: &[u8]) -> (r: Result<(), AppError>)
    ensures
        r is Ok,
        final(encoded)@ == old(encoded)@ + base64_standard(png@),
{
    match encode_base64(png) {
        Ok(text) => {
            encoded.append(text.as_str());
            Ok(())
        },
        Err(e) => Err(AppError::IOError(e)),
    }
}

} // verus!
