use app_repository::error::AppError;
use app_repository::schemas::artifact::{ArtifactExtensions, ArtifactToCreate};
use app_repository::upload::{FieldAction, TextField, UploadForm};

fn form_with_file(name: &str, bytes: &[u8]) -> UploadForm {
    let mut form = UploadForm::new();
    form.accept_file_head(Some(name.to_string()), Some("application/octet-stream".to_string()))
        .unwrap();
    form.accept_file_body(bytes.to_vec());
    form
}

#[test]
fn recognised_field_names() {
    assert_eq!(UploadForm::action(Some("branch")), FieldAction::ReadText(TextField::Branch));
    assert_eq!(UploadForm::action(Some("identifier")), FieldAction::ReadText(TextField::Identifier));
    assert_eq!(
        UploadForm::action(Some("bundle_identifier")),
        FieldAction::ReadText(TextField::BundleIdentifier)
    );
    assert_eq!(
        UploadForm::action(Some("bundle_version")),
        FieldAction::ReadText(TextField::BundleVersion)
    );
    assert_eq!(UploadForm::action(Some("file")), FieldAction::ReadFile);
}

#[test]
fn unknown_fields_are_skipped() {
    assert_eq!(UploadForm::action(Some("comment")), FieldAction::Skip);
    assert_eq!(UploadForm::action(Some("File")), FieldAction::Skip);
    assert_eq!(UploadForm::action(Some("")), FieldAction::Skip);
    assert_eq!(UploadForm::action(None), FieldAction::Skip);
}

#[test]
fn empty_form_misses_its_file() {
    let r = UploadForm::new().finish();
    assert!(matches!(r, Err(AppError::FileMissing)));
}

#[test]
fn text_fields_alone_miss_the_file() {
    let mut form = UploadForm::new();
    form.accept_text(TextField::Branch, "main".to_string());
    form.accept_text(TextField::BundleIdentifier, "com.example".to_string());
    assert!(matches!(form.finish(), Err(AppError::FileMissing)));
}

#[test]
fn file_without_name_is_refused() {
    let mut form = UploadForm::new();
    let r = form.accept_file_head(None, Some("application/octet-stream".to_string()));
    assert!(matches!(r, Err(AppError::Never)));
    assert!(matches!(form.finish(), Err(AppError::FileMissing)));
}

#[test]
fn file_without_content_type_is_refused() {
    let mut form = UploadForm::new();
    let r = form.accept_file_head(Some("a.apk".to_string()), None);
    assert!(matches!(r, Err(AppError::Never)));
}

#[test]
fn android_upload_is_accepted() {
    let mut form = form_with_file("build.apk", b"payload");
    form.accept_text(TextField::Branch, "main".to_string());
    form.accept_text(TextField::Identifier, "42".to_string());
    let upload = form.finish().unwrap();
    assert_eq!(upload.content, b"payload".to_vec());
    assert_eq!(upload.data.size, Some(7));
    assert_eq!(upload.data.branch.as_deref(), Some("main"));
    assert_eq!(upload.data.identifier.as_deref(), Some("42"));
    assert_eq!(upload.data.original_filename.as_deref(), Some("build.apk"));
    assert_eq!(upload.data.mime_type.as_deref(), Some("application/octet-stream"));
    assert_eq!(upload.data.extension, Some(ArtifactExtensions::Apk));
    assert!(upload.data.metadata.is_none());
}

#[test]
fn android_upload_ignores_bundle_fields() {
    let mut form = form_with_file("release.aab", b"x");
    form.accept_text(TextField::BundleIdentifier, "com.example".to_string());
    form.accept_text(TextField::BundleVersion, "1".to_string());
    let upload = form.finish().unwrap();
    assert_eq!(upload.data.extension, Some(ArtifactExtensions::Aab));
    assert!(upload.data.metadata.is_none());
}

#[test]
fn ios_upload_without_metadata_is_refused() {
    let form = form_with_file("app.ipa", b"x");
    assert!(matches!(form.finish(), Err(AppError::InvalidIosMetadata)));
}

#[test]
fn ios_upload_without_identifier_is_refused() {
    let mut form = form_with_file("app.ipa", b"x");
    form.accept_text(TextField::BundleVersion, "1.0".to_string());
    assert!(matches!(form.finish(), Err(AppError::InvalidIosMetadata)));
}

#[test]
fn ios_upload_without_version_is_refused() {
    let mut form = form_with_file("app.ipa", b"x");
    form.accept_text(TextField::BundleIdentifier, "com.example".to_string());
    assert!(matches!(form.finish(), Err(AppError::InvalidIosMetadata)));
}

#[test]
fn ios_upload_with_blank_fields_is_refused() {
    let mut form = form_with_file("app.ipa", b"x");
    form.accept_text(TextField::BundleIdentifier, "".to_string());
    form.accept_text(TextField::BundleVersion, "1.0".to_string());
    assert!(matches!(form.finish(), Err(AppError::InvalidIosMetadata)));
    let mut form = form_with_file("app.ipa", b"x");
    form.accept_text(TextField::BundleIdentifier, "com.example".to_string());
    form.accept_text(TextField::BundleVersion, "".to_string());
    assert!(matches!(form.finish(), Err(AppError::InvalidIosMetadata)));
}

#[test]
fn ios_metadata_is_checked_before_the_file() {
    let mut form = UploadForm::new();
    form.accept_file_head(Some("app.ipa".to_string()), Some("application/octet-stream".to_string()))
        .unwrap();
    assert!(matches!(form.finish(), Err(AppError::InvalidIosMetadata)));
}

#[test]
fn ios_upload_with_metadata_is_accepted() {
    let mut form = UploadForm::new();
    form.accept_text(TextField::BundleIdentifier, "com.example.app".to_string());
    form.accept_text(TextField::BundleVersion, "1.2.3".to_string());
    form.accept_file_head(Some("App.IPA".to_string()), Some("application/octet-stream".to_string()))
        .unwrap();
    form.accept_file_body(vec![1, 2, 3]);
    let upload = form.finish().unwrap();
    assert_eq!(upload.data.extension, Some(ArtifactExtensions::Ipa));
    let metadata = upload.data.metadata.unwrap();
    assert_eq!(metadata.bundle_identifier, "com.example.app");
    assert_eq!(metadata.bundle_version, "1.2.3");
    assert_eq!(upload.data.size, Some(3));
}

#[test]
fn later_values_replace_earlier_ones() {
    let mut form = form_with_file("a.apk", b"first");
    form.accept_text(TextField::Branch, "one".to_string());
    form.accept_text(TextField::Branch, "two".to_string());
    form.accept_file_head(Some("b.aab".to_string()), Some("text/plain".to_string())).unwrap();
    form.accept_file_body(b"second!".to_vec());
    let upload = form.finish().unwrap();
    assert_eq!(upload.data.branch.as_deref(), Some("two"));
    assert_eq!(upload.data.original_filename.as_deref(), Some("b.aab"));
    assert_eq!(upload.data.mime_type.as_deref(), Some("text/plain"));
    assert_eq!(upload.data.extension, Some(ArtifactExtensions::Aab));
    assert_eq!(upload.data.size, Some(7));
    assert_eq!(upload.content, b"second!".to_vec());
}

#[test]
fn empty_file_has_size_zero() {
    let upload = form_with_file("a.apk", b"").finish().unwrap();
    assert_eq!(upload.data.size, Some(0));
    assert!(upload.content.is_empty());
}

#[test]
fn body_without_head_is_refused_at_creation() {
    let mut form = UploadForm::new();
    form.accept_file_body(b"x".to_vec());
    let upload = form.finish().unwrap();
    let r = ArtifactToCreate::new(upload.data, "p".to_string(), "/up");
    assert!(matches!(r, Err(AppError::Never)));
}
