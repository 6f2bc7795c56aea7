use app_repository::error::AppError;
use app_repository::schemas::artifact::{
    Artifact, ArtifactExtensions, ArtifactRecord, ArtifactToCreate, CreateArtifact, IosMetadata,
};
use app_repository::schemas::project::{BaseProjectInput, Platforms, Project};
use app_repository::schemas::user::{User, UserOutput, UserRole};

fn upload(extension: ArtifactExtensions, metadata: Option<IosMetadata>) -> CreateArtifact {
    CreateArtifact {
        branch: Some("main".to_string()),
        identifier: Some("build-1".to_string()),
        mime_type: Some("application/octet-stream".to_string()),
        original_filename: Some("file.bin".to_string()),
        extension: Some(extension),
        size: Some(11),
        metadata,
    }
}

fn metadata(identifier: &str, version: &str) -> IosMetadata {
    IosMetadata { bundle_identifier: identifier.to_string(), bundle_version: version.to_string() }
}

fn record() -> ArtifactRecord {
    ArtifactRecord {
        id: "a1".to_string(),
        original_filename: "app.ipa".to_string(),
        branch: "main".to_string(),
        extension: ArtifactExtensions::Ipa,
        path: "/up/p/main/x.ipa".to_string(),
        project_id: "p".to_string(),
        project: None,
        mime_type: "application/octet-stream".to_string(),
        size: 5,
        identifier: "x".to_string(),
        created_at: 1000,
        qrcode: Some("data:image/svg+xml;base64,AAAA".to_string()),
        ios_metadata: Some(metadata("com.example", "1.0")),
    }
}

#[test]
fn default_form_is_empty() {
    let form = CreateArtifact::default();
    assert!(form.branch.is_none());
    assert!(form.identifier.is_none());
    assert!(form.mime_type.is_none());
    assert!(form.original_filename.is_none());
    assert!(form.extension.is_none());
    assert!(form.size.is_none());
    assert!(form.metadata.is_none());
    let m = IosMetadata::default();
    assert_eq!(m.bundle_identifier, "");
    assert_eq!(m.bundle_version, "");
}

#[test]
fn artifact_to_create_resolves_path() {
    let data = ArtifactToCreate::new(upload(ArtifactExtensions::Apk, None), "alpha".to_string(), "/up")
        .unwrap();
    let artifact = Artifact::assemble(data, "id-1".to_string(), 5000);
    assert_eq!(artifact.get_path(), "/up/alpha/main/build-1.apk");
    assert_eq!(*artifact.get_extension(), ArtifactExtensions::Apk);
    assert_eq!(artifact.get_id(), "id-1");
    assert_eq!(artifact.get_branch(), "main");
    assert_eq!(artifact.get_project_id(), "alpha");
    assert_eq!(artifact.get_created_at(), 5000);
    assert!(artifact.get_qrcode().is_none());
    assert!(artifact.get_ios_metadata().is_none());
    let (name, mime, size) = artifact.get_download_data();
    assert_eq!(name, "file.bin");
    assert_eq!(mime, "application/octet-stream");
    assert_eq!(*size, 11);
}

#[test]
fn absent_labels_get_defaults() {
    let mut form = upload(ArtifactExtensions::Aab, None);
    form.branch = None;
    form.identifier = None;
    let data = ArtifactToCreate::new(form, "alpha".to_string(), "/up").unwrap();
    let artifact = Artifact::assemble(data, "id".to_string(), 0);
    assert_eq!(artifact.get_branch(), "develop");
    assert_eq!(artifact.get_path(), "/up/alpha/develop/unidentified.aab");
    assert_eq!(artifact.to_record().identifier, "unidentified");
}

#[test]
fn absent_extension_is_an_android_package() {
    let mut form = upload(ArtifactExtensions::Aab, None);
    form.extension = None;
    let data = ArtifactToCreate::new(form, "p".to_string(), "r").unwrap();
    let artifact = Artifact::assemble(data, "id".to_string(), 0);
    assert_eq!(*artifact.get_extension(), ArtifactExtensions::Apk);
    assert_eq!(artifact.get_path(), "r/p/main/build-1.apk");
}

#[test]
fn ios_package_needs_metadata() {
    let r = ArtifactToCreate::new(upload(ArtifactExtensions::Ipa, None), "p".to_string(), "/up");
    assert!(matches!(r, Err(AppError::InvalidIosMetadata)));
    let r = ArtifactToCreate::new(
        upload(ArtifactExtensions::Ipa, Some(metadata("", "1"))),
        "p".to_string(),
        "/up",
    );
    assert!(matches!(r, Err(AppError::InvalidIosMetadata)));
    let r = ArtifactToCreate::new(
        upload(ArtifactExtensions::Ipa, Some(metadata("com.example", ""))),
        "p".to_string(),
        "/up",
    );
    assert!(matches!(r, Err(AppError::InvalidIosMetadata)));
}

#[test]
fn ios_package_keeps_metadata() {
    let data = ArtifactToCreate::new(
        upload(ArtifactExtensions::Ipa, Some(metadata("com.example", "2.0"))),
        "p".to_string(),
        "/up",
    )
    .unwrap();
    let artifact = Artifact::assemble(data, "id".to_string(), 1);
    let m = artifact.get_ios_metadata().as_ref().unwrap();
    assert_eq!(m.bundle_identifier, "com.example");
    assert_eq!(m.bundle_version, "2.0");
    assert_eq!(artifact.get_path(), "/up/p/main/build-1.ipa");
}

#[test]
fn other_kinds_drop_metadata() {
    let data = ArtifactToCreate::new(
        upload(ArtifactExtensions::Apk, Some(metadata("com.example", "2.0"))),
        "p".to_string(),
        "/up",
    )
    .unwrap();
    let artifact = Artifact::assemble(data, "id".to_string(), 1);
    assert!(artifact.get_ios_metadata().is_none());
}

#[test]
fn missing_file_fields_are_refused() {
    let mut form = upload(ArtifactExtensions::Apk, None);
    form.original_filename = None;
    assert!(matches!(ArtifactToCreate::new(form, "p".to_string(), "/up"), Err(AppError::Never)));
    let mut form = upload(ArtifactExtensions::Apk, None);
    form.mime_type = None;
    assert!(matches!(ArtifactToCreate::new(form, "p".to_string(), "/up"), Err(AppError::Never)));
    let mut form = upload(ArtifactExtensions::Apk, None);
    form.size = None;
    assert!(matches!(ArtifactToCreate::new(form, "p".to_string(), "/up"), Err(AppError::Never)));
}

#[test]
fn metadata_are_checked_before_file_fields() {
    let mut form = upload(ArtifactExtensions::Ipa, None);
    form.size = None;
    assert!(matches!(
        ArtifactToCreate::new(form, "p".to_string(), "/up"),
        Err(AppError::InvalidIosMetadata)
    ));
}

#[test]
fn new_artifact_has_fresh_id_and_time() {
    let data = ArtifactToCreate::new(upload(ArtifactExtensions::Apk, None), "p".to_string(), "/up")
        .unwrap();
    let artifact = Artifact::new(data).unwrap();
    let id = artifact.get_id();
    assert_eq!(id.len(), 24);
    assert!(id.chars().all(|c| c.is_ascii_digit() || ('a'..='f').contains(&c)));
    assert_eq!(artifact.get_created_at() % 1000, 0);
    assert!(artifact.get_created_at() > 1_600_000_000_000);
    assert!(artifact.get_qrcode().is_none());
    let other = Artifact::new(
        ArtifactToCreate::new(upload(ArtifactExtensions::Apk, None), "p".to_string(), "/up").unwrap(),
    )
    .unwrap();
    assert_ne!(other.get_id(), artifact.get_id());
}

#[test]
fn record_round_trip() {
    let artifact = Artifact::from_record(record()).unwrap();
    let back = artifact.to_record();
    let expected = record();
    assert_eq!(back.id, expected.id);
    assert_eq!(back.original_filename, expected.original_filename);
    assert_eq!(back.branch, expected.branch);
    assert_eq!(back.extension, expected.extension);
    assert_eq!(back.path, expected.path);
    assert_eq!(back.project_id, expected.project_id);
    assert!(back.project.is_none());
    assert_eq!(back.mime_type, expected.mime_type);
    assert_eq!(back.size, expected.size);
    assert_eq!(back.identifier, expected.identifier);
    assert_eq!(back.created_at, expected.created_at);
    assert_eq!(back.qrcode, expected.qrcode);
    assert_eq!(back.ios_metadata.unwrap().bundle_identifier, "com.example");
}

#[test]
fn ill_fitting_records_are_refused() {
    let mut r = record();
    r.ios_metadata = None;
    assert!(matches!(Artifact::from_record(r), Err(AppError::InvalidIosMetadata)));
    let mut r = record();
    r.extension = ArtifactExtensions::Apk;
    assert!(matches!(Artifact::from_record(r), Err(AppError::InvalidIosMetadata)));
    let mut r = record();
    r.ios_metadata = Some(metadata("", "1"));
    assert!(matches!(Artifact::from_record(r), Err(AppError::InvalidIosMetadata)));
    let mut r = record();
    r.extension = ArtifactExtensions::Aab;
    r.ios_metadata = None;
    assert!(Artifact::from_record(r).is_ok());
}

#[test]
fn qrcode_is_the_only_field_set() {
    let artifact = Artifact::from_record(record()).unwrap();
    let updated = artifact.clone().with_qrcode("data:image/svg+xml;base64,BBBB".to_string());
    let a = artifact.to_record();
    let b = updated.to_record();
    assert_eq!(b.qrcode.as_deref(), Some("data:image/svg+xml;base64,BBBB"));
    assert_eq!(a.id, b.id);
    assert_eq!(a.path, b.path);
    assert_eq!(a.size, b.size);
    assert_eq!(a.created_at, b.created_at);
    assert_eq!(a.branch, b.branch);
    assert_eq!(a.identifier, b.identifier);
    assert_eq!(a.mime_type, b.mime_type);
    assert_eq!(a.original_filename, b.original_filename);
    assert_eq!(a.project_id, b.project_id);
    assert_eq!(a.extension, b.extension);
}

#[test]
fn plist_data_needs_metadata_and_project() {
    let artifact = Artifact::from_record(record()).unwrap();
    assert!(matches!(artifact.get_plist_data(), Err(AppError::InvalidIosMetadata)));
    let project = Project {
        id: "p".to_string(),
        name: "Example".to_string(),
        description: "d".to_string(),
        owner: "o".to_string(),
        platforms: vec![Platforms::Ios],
        key: "k".to_string(),
        image: None,
    };
    let joined = artifact.with_project(Some(project.clone()));
    let (id, bundle, version, name) = joined.get_plist_data().unwrap();
    assert_eq!(id, "a1");
    assert_eq!(bundle, "com.example");
    assert_eq!(version, "1.0");
    assert_eq!(name, "Example");
    let mut r = record();
    r.extension = ArtifactExtensions::Apk;
    r.ios_metadata = None;
    r.project = Some(project);
    let android = Artifact::from_record(r).unwrap();
    assert!(matches!(android.get_plist_data(), Err(AppError::InvalidIosMetadata)));
}

#[test]
fn summary_leaves_out_storage_details() {
    let artifact = Artifact::from_record(record()).unwrap();
    let s = artifact.summary();
    assert_eq!(s.id, "a1");
    assert_eq!(s.extension, ArtifactExtensions::Ipa);
    assert_eq!(s.created_at, 1000);
    assert_eq!(s.branch, "main");
    assert_eq!(s.original_filename, "app.ipa");
    assert_eq!(s.identifier, "x");
    assert_eq!(s.qrcode.as_deref(), Some("data:image/svg+xml;base64,AAAA"));
    assert_eq!(s.ios_metadata.unwrap().bundle_version, "1.0");
}

#[test]
fn new_project_carries_its_input() {
    let input = BaseProjectInput {
        name: "Example".to_string(),
        description: "An app".to_string(),
        platforms: vec![Platforms::Android, Platforms::Ios],
    };
    let project = Project::new(input, "owner-1".to_string());
    assert_eq!(project.name, "Example");
    assert_eq!(project.description, "An app");
    assert_eq!(project.owner, "owner-1");
    assert_eq!(project.platforms, vec![Platforms::Android, Platforms::Ios]);
    assert!(project.image.is_none());
    assert_eq!(project.id.len(), 32);
    assert_eq!(project.key.len(), 32);
    assert_ne!(project.id, project.key);
    let copy = project.clone();
    assert_eq!(copy.id, project.id);
    assert_eq!(copy.platforms, project.platforms);
}

#[test]
fn user_output_shows_name_and_favourites() {
    let user = User {
        id: "u".to_string(),
        name: "Ada".to_string(),
        email: "ada@example.org".to_string(),
        role: UserRole::User,
        favorite_projects: vec!["alpha".to_string(), "beta".to_string()],
        password: "h".to_string(),
        salt: "s".to_string(),
    };
    let out = UserOutput::new(user);
    assert_eq!(out.name, "Ada");
    assert_eq!(out.favorite_projects, vec!["alpha".to_string(), "beta".to_string()]);
}
