//! The service's error type and how each error is reported to a caller.

use vstd::prelude::*;
use vstd::string::StringExecFns;

verus! {

/// `qrcode_generator::QRCodeError`, carried through as an opaque value.
#[verifier::external_type_specification]
#[verifier::external_body]
pub struct ExQRCodeError(qrcode_generator::QRCodeError);

/// `std::time::SystemTimeError`, carried through as an opaque value.
#[verifier::external_type_specification]
#[verifier::external_body]
pub struct ExSystemTimeError(std::time::SystemTimeError);

/// `std::io::Error`, carried through as an opaque value.
#[verifier::external_type_specification]
#[verifier::external_body]
pub struct ExIoError(std::io::Error);

/// `ring::error::Unspecified`, carried through as an opaque value.
#[verifier::external_type_specification]
#[verifier::external_body]
pub struct ExUnspecified(ring::error::Unspecified);

/// `data_encoding::DecodeError`, carried through as an opaque value.
#[verifier::external_type_specification]
#[verifier::external_body]
pub struct ExDecodeError(data_encoding::DecodeError);

/// Everything that can go wrong while serving a request.
///
/// A variant that wraps a cause from the transport or the database holds the
/// cause as text; a cause raised by a call made inside this crate is held as
/// the value that the call returned.
#[derive(Debug)]
pub enum AppError {
    /// The database client failed to complete an operation.
    SurrealError(String),
    /// The database engine refused an operation.
    SurrealInternalError(String),
    /// A multipart field could not be decoded; holds the decoder's message.
    MultipartError(String),
    /// An uploaded image could not be decoded or encoded.
    ImageError(String),
    /// The install link could not be rendered as a QR code.
    QrCodeError(qrcode_generator::QRCodeError),
    /// An iOS package came without a usable bundle identifier or version.
    InvalidIosMetadata,
    /// The upload held no `file` part.
    FileMissing,
    /// No record has the requested id.
    NotFound,
    UserAlreadyRegistered,
    InvalidCredentials,
    Unauthorized,
    Forbidden,
    /// The system clock is set before the Unix epoch.
    SystemTimeError(std::time::SystemTimeError),
    /// A read or write failed.
    IOError(std::io::Error),
    /// A response could not be assembled.
    AxumError(String),
    /// A cryptographic operation failed.
    Unspecified(ring::error::Unspecified),
    /// Stored credentials could not be decoded.
    Decode(data_encoding::DecodeError),
    /// A token could not be encoded.
    Encode(String),
    /// A `file` part lacked its filename or its content type.
    Never,
}

impl AppError {
    /// The HTTP status with which the error is answered.
    ///
    /// Invalid input is 400, a missing record 404, a missing or rejected
    /// identity 401 and 403, data that cannot be encoded 422, and every
    /// failure of storage or of the machine 500. `Never`, which a file part
    /// without name or content type gives, is answered 500 with the others
    /// that have no status of their own.
    pub open spec fn spec_status_code(self) -> u16 {
        match self {
            AppError::MultipartError(_) => 400,
            AppError::InvalidCredentials => 400,
            AppError::UserAlreadyRegistered => 400,
            AppError::InvalidIosMetadata => 400,
            AppError::FileMissing => 400,
            AppError::Unauthorized => 401,
            AppError::Forbidden => 403,
            AppError::NotFound => 404,
            AppError::ImageError(_) => 422,
            AppError::QrCodeError(_) => 422,
            _ => 500,
        }
    }

    /// The message sent to the caller. A storage or machine failure is
    /// answered with one generic text, whatever its cause.
    pub open spec fn spec_message(self) -> Seq<char> {
        match self {
            AppError::MultipartError(cause) => cause@,
            AppError::InvalidCredentials => "Invalid credentials"@,
            AppError::UserAlreadyRegistered => "User already registered"@,
            AppError::InvalidIosMetadata => "Invalid iOS metadata"@,
            AppError::FileMissing => "File is missing"@,
            AppError::Unauthorized => "Unauthorized"@,
            AppError::Forbidden => "Forbidden"@,
            AppError::NotFound => "Not found"@,
            AppError::ImageError(_) => "Couldn't parse image"@,
            AppError::QrCodeError(_) => "Couldn't generate QrCode"@,
            _ => "Unkown error"@,
        }
    }

    /// The text that describes the error in a log.
    pub open spec fn spec_to_string(self) -> Seq<char> {
        match self {
            AppError::SurrealError(cause) => "Surreal failed to complete operation "@ + cause@,
            AppError::SurrealInternalError(cause) => "Surreal failed to complete operation "@
                + cause@,
            AppError::MultipartError(_) => "Failed to decode form-data field"@,
            AppError::ImageError(_) => "Image error"@,
            AppError::QrCodeError(_) => "QrCode error"@,
            AppError::InvalidIosMetadata => "Invalid iOS metadata"@,
            AppError::FileMissing => "File missing"@,
            AppError::NotFound => "Not found"@,
            AppError::UserAlreadyRegistered => "User already registered"@,
            AppError::InvalidCredentials => "Invalid credentials"@,
            AppError::Unauthorized => "Unauthorized"@,
            AppError::Forbidden => "Forbidden"@,
            AppError::SystemTimeError(_) => "System Time"@,
            AppError::IOError(_) => "IO Error"@,
            _ => "Unknown error"@,
        }
    }

    /// The HTTP status with which the error is answered.
    pub fn status_code(&self) -> (code: u16)
        ensures
            code == self.spec_status_code(),
    {
        match self {
            AppError::MultipartError(_) => 400,
            AppError::InvalidCredentials => 400,
            AppError::UserAlreadyRegistered => 400,
            AppError::InvalidIosMetadata => 400,
            AppError::FileMissing => 400,
            AppError::Unauthorized => 401,
            AppError::Forbidden => 403,
            AppError::NotFound => 404,
            AppError::ImageError(_) => 422,
            AppError::QrCodeError(_) => 422,
            _ => 500,
        }
    }

    /// The message sent to the caller.
    pub fn message(&self) -> (text: String)
        ensures
            text@ == self.spec_message(),
    {
        match self {
            AppError::MultipartError(cause) => cause.clone(),
            AppError::InvalidCredentials => String::from_str("Invalid credentials"),
            AppError::UserAlreadyRegistered => String::from_str("User already registered"),
            AppError::InvalidIosMetadata => String::from_str("Invalid iOS metadata"),
            AppError::FileMissing => String::from_str("File is missing"),
            AppError::Unauthorized => String::from_str("Unauthorized"),
            AppError::Forbidden => String::from_str("Forbidden"),
            AppError::NotFound => String::from_str("Not found"),
            AppError::ImageError(_) => String::from_str("Couldn't parse image"),
            AppError::QrCodeError(_) => String::from_str("Couldn't generate QrCode"),
            _ => String::from_str("Unkown error"),
        }
    }

    /// The text that describes the error in a log.
    pub fn to_string(&self) -> (text: String)
        ensures
            text@ == self.spec_to_string(),
    {
        match self {
            AppError::SurrealError(cause) => {
                let mut text = String::from_str("Surreal failed to complete operation ");
                text.append(cause.as_str());
                text
            },
            AppError::SurrealInternalError(cause) => {
                let mut text = String::from_str("Surreal failed to complete operation ");
                text.append(cause.as_str());
                text
            },
            AppError::MultipartError(_) => String::from_str("Failed to decode form-data field"),
            AppError::ImageError(_) => String::from_str("Image error"),
            AppError::QrCodeError(_) => String::from_str("QrCode error"),
            AppError::InvalidIosMetadata => String::from_str("Invalid iOS metadata"),
            AppError::FileMissing => String::from_str("File missing"),
            AppError::NotFound => String::from_str("Not found"),
            AppError::UserAlreadyRegistered => String::from_str("User already registered"),
            AppError::InvalidCredentials => String::from_str("Invalid credentials"),
            AppError::Unauthorized => String::from_str("Unauthorized"),
            AppError::Forbidden => String::from_str("Forbidden"),
            AppError::SystemTimeError(_) => String::from_str("System Time"),
            AppError::IOError(_) => String::from_str("IO Error"),
            _ => String::from_str("Unknown error"),
        }
    }
}

} // verus!
