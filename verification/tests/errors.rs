use app_repository::error::AppError;

#[test]
fn validation_errors_are_400() {
    assert_eq!(AppError::InvalidIosMetadata.status_code(), 400);
    assert_eq!(AppError::FileMissing.status_code(), 400);
    assert_eq!(AppError::MultipartError("boom".to_string()).status_code(), 400);
    assert_eq!(AppError::InvalidCredentials.status_code(), 400);
    assert_eq!(AppError::UserAlreadyRegistered.status_code(), 400);
}

#[test]
fn not_found_is_404() {
    assert_eq!(AppError::NotFound.status_code(), 404);
    assert_eq!(AppError::NotFound.message(), "Not found");
}

#[test]
fn identity_errors() {
    assert_eq!(AppError::Unauthorized.status_code(), 401);
    assert_eq!(AppError::Forbidden.status_code(), 403);
    assert_eq!(AppError::Unauthorized.message(), "Unauthorized");
    assert_eq!(AppError::Forbidden.message(), "Forbidden");
}

#[test]
fn encoding_errors_are_422() {
    assert_eq!(AppError::ImageError("bad".to_string()).status_code(), 422);
    assert_eq!(AppError::ImageError("bad".to_string()).message(), "Couldn't parse image");
    let qr = AppError::QrCodeError(qrcode_generator::QRCodeError::DataTooLong);
    assert_eq!(qr.status_code(), 422);
    assert_eq!(qr.message(), "Couldn't generate QrCode");
    assert_eq!(qr.to_string(), "QrCode error");
}

#[test]
fn storage_errors_are_500_with_a_generic_message() {
    let errors = vec![
        AppError::SurrealError("connection lost".to_string()),
        AppError::SurrealInternalError("record exists".to_string()),
        AppError::IOError(std::io::Error::new(std::io::ErrorKind::Other, "disk")),
        AppError::AxumError("x".to_string()),
        AppError::Unspecified(ring::error::Unspecified),
        AppError::Decode(data_encoding::DecodeError {
            position: 0,
            kind: data_encoding::DecodeKind::Length,
        }),
        AppError::Encode("x".to_string()),
        AppError::Never,
    ];
    for e in errors {
        assert_eq!(e.status_code(), 500);
        assert_eq!(e.message(), "Unkown error");
    }
}

#[test]
fn validation_messages() {
    assert_eq!(AppError::InvalidIosMetadata.message(), "Invalid iOS metadata");
    assert_eq!(AppError::FileMissing.message(), "File is missing");
    assert_eq!(AppError::MultipartError("field too large".to_string()).message(), "field too large");
    assert_eq!(AppError::InvalidCredentials.message(), "Invalid credentials");
    assert_eq!(AppError::UserAlreadyRegistered.message(), "User already registered");
}

#[test]
fn log_texts() {
    assert_eq!(
        AppError::SurrealError("timeout".to_string()).to_string(),
        "Surreal failed to complete operation timeout"
    );
    assert_eq!(
        AppError::SurrealInternalError("exists".to_string()).to_string(),
        "Surreal failed to complete operation exists"
    );
    assert_eq!(AppError::MultipartError("x".to_string()).to_string(), "Failed to decode form-data field");
    assert_eq!(AppError::ImageError("x".to_string()).to_string(), "Image error");
    assert_eq!(AppError::InvalidIosMetadata.to_string(), "Invalid iOS metadata");
    assert_eq!(AppError::FileMissing.to_string(), "File missing");
    assert_eq!(AppError::NotFound.to_string(), "Not found");
    assert_eq!(AppError::UserAlreadyRegistered.to_string(), "User already registered");
    assert_eq!(AppError::InvalidCredentials.to_string(), "Invalid credentials");
    assert_eq!(AppError::Unauthorized.to_string(), "Unauthorized");
    assert_eq!(AppError::Forbidden.to_string(), "Forbidden");
    assert_eq!(
        AppError::IOError(std::io::Error::new(std::io::ErrorKind::Other, "disk")).to_string(),
        "IO Error"
    );
    assert_eq!(AppError::Never.to_string(), "Unknown error");
    assert_eq!(AppError::Unspecified(ring::error::Unspecified).to_string(), "Unknown error");
}
