use app_repository::error::AppError;
use app_repository::handlers::projects::{append_image, get_project, is_image_field, start_image};
use app_repository::handlers::users::{
    edit_favorite_projects, get_user_data, login_user, registration_error,
};
use app_repository::helpers::password::hash_with_salt;
use app_repository::schemas::project::{Platforms, Project};
use app_repository::schemas::user::{
    CreateUserInput, FavoriteChange, LoginInput, UpdateFavoriteProjectsInput, User,
};

fn login(password: &str) -> LoginInput {
    LoginInput { email: "ada@example.org".to_string(), password: password.to_string() }
}

fn favourite(project_id: &str) -> UpdateFavoriteProjectsInput {
    UpdateFavoriteProjectsInput { project_id: project_id.to_string() }
}

fn user(password: &str) -> User {
    let mut u = User::new(CreateUserInput {
        email: "ada@example.org".to_string(),
        name: "Ada".to_string(),
        password: password.to_string(),
    })
    .unwrap();
    u.favorite_projects = vec!["alpha".to_string()];
    u
}

#[test]
fn project_lookup() {
    let p = Project {
        id: "p".to_string(),
        name: "Example".to_string(),
        description: String::new(),
        owner: "o".to_string(),
        platforms: vec![Platforms::Android],
        key: "k".to_string(),
        image: None,
    };
    assert_eq!(get_project(Some(p)).unwrap().name, "Example");
    assert!(matches!(get_project(None), Err(AppError::NotFound)));
}

#[test]
fn image_field_name() {
    assert!(is_image_field(Some("file")));
    assert!(!is_image_field(Some("image")));
    assert!(!is_image_field(Some("")));
    assert!(!is_image_field(None));
}

#[test]
fn stored_image_is_prefix_and_base64() {
    let mut encoded = start_image();
    assert_eq!(encoded, "data:image/png;base64,");
    append_image(&mut encoded, b"foo").unwrap();
    assert_eq!(encoded, "data:image/png;base64,Zm9v");
    append_image(&mut encoded, b"f").unwrap();
    assert_eq!(encoded, "data:image/png;base64,Zm9vZg==");
}

#[test]
fn user_data_of_a_missing_user_is_forbidden() {
    assert!(matches!(get_user_data(None), Err(AppError::Forbidden)));
    let out = get_user_data(Some(user("pw"))).unwrap();
    assert_eq!(out.name, "Ada");
    assert_eq!(out.favorite_projects, vec!["alpha".to_string()]);
}

#[test]
fn login_of_a_missing_user_is_refused() {
    assert!(matches!(login_user(None, login("pw")), Err(AppError::InvalidCredentials)));
}

#[test]
fn login_with_the_password() {
    let u = user("pw");
    let id = u.id.clone();
    let claims = login_user(Some(u), login("pw")).unwrap();
    assert_eq!(claims.sub, "ada@example.org");
    assert_eq!(claims.user_id, id);
    assert_eq!(claims.exp - claims.iat, 3_456_000);
}

#[test]
fn login_with_another_password() {
    assert!(matches!(
        login_user(Some(user("pw")), login("wp")),
        Err(AppError::InvalidCredentials)
    ));
    let mut broken = user("pw");
    broken.salt = "not hex".to_string();
    assert!(matches!(login_user(Some(broken), login("pw")), Err(AppError::Decode(_))));
}

#[test]
fn favourites_of_a_missing_user_are_forbidden() {
    assert!(matches!(edit_favorite_projects(&None, &favourite("alpha")), Err(AppError::Forbidden)));
    let found = Some(user("pw"));
    assert_eq!(edit_favorite_projects(&found, &favourite("alpha")).unwrap(), FavoriteChange::Remove);
    assert_eq!(edit_favorite_projects(&found, &favourite("beta")).unwrap(), FavoriteChange::Insert);
}

#[test]
fn taken_address_is_told_by_the_index() {
    let e = registration_error(
        "Database index `userEmailIndex` already contains 'ada@example.org'".to_string(),
    );
    assert!(matches!(e, AppError::UserAlreadyRegistered));
    assert_eq!(e.status_code(), 400);
    let e = registration_error("connection reset".to_string());
    match e {
        AppError::SurrealError(cause) => assert_eq!(cause, "connection reset"),
        _ => panic!("a database failure was expected"),
    }
}

#[test]
fn hash_matches_the_key_derivation() {
    let salt = [9u8; 64];
    let mut key = [0u8; 64];
    ring::pbkdf2::derive(
        ring::pbkdf2::PBKDF2_HMAC_SHA512,
        std::num::NonZeroU32::new(100_000).unwrap(),
        &salt,
        "pässword".as_bytes(),
        &mut key,
    );
    let expected: String = key.iter().map(|b| format!("{b:02X}")).collect();
    let (hash, salt_text) = hash_with_salt("pässword", &salt);
    assert_eq!(hash, expected);
    assert_eq!(salt_text, "09".repeat(64));
}
