//! The link from which a device installs an artifact, and the QR code that
//! carries it.

use vstd::prelude::*;
use vstd::string::StringExecFns;
use vstd::utf8::encode_utf8;
use crate::error::AppError;
use crate::helpers::artifact::{
    create_file_url,
    create_itms_service_url,
    download_url,
    itms_service_url,
};
use crate::helpers::base64::{base64_standard, encode_base64, is_base64_text};
use crate::schemas::artifact::{Artifact, ArtifactExtensions};

verus! {

/// How much of a QR code may be lost and still be read.
#[derive(Debug, Clone, Copy, PartialEq, Eq, Structural)]
pub enum ErrorCorrection {
    Low,
    Medium,
    Quartile,
    High,
}

/// The side of the QR image, in pixels.
pub const QRCODE_SIZE: usize = 240;

/// What precedes the base64 text in the stored QR code.
pub const QRCODE_PREFIX: &'static str = "data:image/svg+xml;base64,";

/// The install link of an artifact: for an iOS package the link that makes
/// the device fetch the install manifest, for every other kind the address
/// of the binary itself.
pub open spec fn install_url(
    public_url: Seq<char>,
    artifact_id: Seq<char>,
    extension: ArtifactExtensions,
) -> Seq<char> {
    if extension == ArtifactExtensions::Ipa {
        itms_service_url(public_url, artifact_id)
    } else {
        download_url(public_url, artifact_id)
    }
}

/// The SVG image that `qrcode_generator::to_svg_to_string` draws for `data`
/// at the given level and size, with the crate's own description; `None`
/// where it draws none.
pub uninterp spec fn qr_svg(data: Seq<char>, level: ErrorCorrection, size: usize) -> Option<
    Seq<char>,
>;

/// The stored form of a QR image: the prefix, then the padded standard
/// base64 text of the image's UTF-8 bytes.
pub open spec fn qrcode_data_uri(svg: Seq<char>) -> Seq<char> {
    QRCODE_PREFIX@ + base64_standard(encode_utf8(svg))
}

/// Whether `text` is the prefix followed by text in the shape of padded
/// base64.
pub open spec fn is_qrcode_data_uri(text: Seq<char>) -> bool {
    let n = QRCODE_PREFIX@.len() as int;
    &&& text.len() >= n
    &&& text.subrange(0, n) == QRCODE_PREFIX@
    &&& is_base64_text(text.subrange(n, text.len() as int))
}

/// Calls `qrcode_generator::to_svg_to_string` on the text, with no
/// description of the caller's.
///
/// Trusted: the call depends on its arguments alone, so its result is
/// `qr_svg` of them: the image where it gives one, and any error where it
/// gives none.
#[verifier::external_body]
fn render_qr_svg(data: &str, level: ErrorCorrection, size: usize) -> (r: Result<
    String,
    qrcode_generator::QRCodeError,
>)
    ensures
        match r {
            Ok(svg) => qr_svg(data@, level, size) == Some(svg@),
            Err(_) => qr_svg(data@, level, size) is None,
        },
{
    let ecc = match level {
        ErrorCorrection::Low => qrcode_generator::QrCodeEcc::Low,
        ErrorCorrection::Medium => qrcode_generator::QrCodeEcc::Medium,
        ErrorCorrection::Quartile => qrcode_generator::QrCodeEcc::Quartile,
        ErrorCorrection::High => qrcode_generator::QrCodeEcc::High,
    };
    qrcode_generator::to_svg_to_string(data, ecc, size, None::<&str>)
}

/// The install link of `artifact`, as served under `public_url`.
pub fn create_install_url(public_url: &str, artifact: &Artifact) -> (r: String)
    ensures
        r@ == install_url(public_url@, artifact@.id, artifact@.extension),
{
    let id = artifact.get_id().clone();
    match artifact.get_extension() {
        ArtifactExtensions::Ipa => create_itms_service_url(public_url, id),
        _ => create_file_url(public_url, id),
    }
}

/// Puts a QR image into its stored form.
pub fn svg_to_data_uri(svg: &str) -> (r: Result<String, AppError>)
    ensures
        r matches Ok(text) && text@ == qrcode_data_uri(svg@) && is_qrcode_data_uri(text@),
{
    match encode_base64(svg.as_bytes()) {
        Ok(encoded) => {
            let mut text = String::from_str(QRCODE_PREFIX);
            text.append(encoded.as_str());
            proof {
                let n = QRCODE_PREFIX@.len() as int;
                assert(text@.subrange(0, n) =~= QRCODE_PREFIX@);
                assert(text@.subrange(n, text@.len() as int) =~= encoded@);
            }
            Ok(text)
        },
        Err(e) => Err(AppError::IOError(e)),
    }
}

/// Draws `url` as a QR code at the lowest error correction on a canvas of
/// 240 by 240, and puts the image into its stored form.
///
/// Fails with `QrCodeError` exactly where no image can be drawn for `url`.
pub fn encode_qrcode(url: &str) -> (r: Result<String, AppError>)
    ensures
        match r {
            Ok(text) => {
                &&& qr_svg(url@, ErrorCorrection::Low, QRCODE_SIZE) matches Some(svg)
                &&& text@ == qrcode_data_uri(svg)
                &&& is_qrcode_data_uri(text@)
            },
            Err(AppError::QrCodeError(_)) => qr_svg(url@, ErrorCorrection::Low, QRCODE_SIZE)
                is None,
            Err(_) => false,
        },
{
    match render_qr_svg(url, ErrorCorrection::Low, QRCODE_SIZE) {
        Ok(svg) => svg_to_data_uri(svg.as_str()),
        Err(e) => Err(AppError::QrCodeError(e)),
    }
}

} // verus!
