use app_repository::error::AppError;
use app_repository::helpers::password::{check_password, encrypt_password, hash_with_salt};
use app_repository::schemas::user::{
    Claims, CreateUserInput, FavoriteChange, User, UserRole,
};

fn user(password: &str) -> User {
    User::new(CreateUserInput {
        email: "ada@example.org".to_string(),
        name: "Ada".to_string(),
        password: password.to_string(),
    })
    .unwrap()
}

fn is_upper_hex(text: &str) -> bool {
    text.chars().all(|c| c.is_ascii_digit() || ('A'..='F').contains(&c))
}

#[test]
fn new_user_is_a_plain_user() {
    let u = user("correct horse");
    assert_eq!(u.name, "Ada");
    assert_eq!(u.email, "ada@example.org");
    assert_eq!(u.role, UserRole::User);
    assert!(u.favorite_projects.is_empty());
    assert_eq!(u.id.len(), 32);
    assert_eq!(u.password.len(), 128);
    assert_eq!(u.salt.len(), 128);
    assert!(is_upper_hex(&u.password));
    assert!(is_upper_hex(&u.salt));
    assert_ne!(u.password, "correct horse");
}

#[test]
fn new_user_accepts_its_password() {
    let u = user("correct horse");
    assert!(u.validate_password("correct horse".to_string()).is_ok());
}

#[test]
fn new_user_refuses_another_password() {
    let u = user("correct horse");
    assert!(matches!(
        u.validate_password("battery staple".to_string()),
        Err(AppError::InvalidCredentials)
    ));
    assert!(matches!(u.validate_password("".to_string()), Err(AppError::InvalidCredentials)));
}

#[test]
fn salts_differ_between_users() {
    let a = user("same");
    let b = user("same");
    assert_ne!(a.salt, b.salt);
    assert_ne!(a.password, b.password);
}

#[test]
fn undecodable_credentials_are_reported() {
    let mut u = user("pw");
    u.salt = "zz".to_string();
    assert!(matches!(u.validate_password("pw".to_string()), Err(AppError::Decode(_))));
    let mut u = user("pw");
    u.password = "ABC".to_string();
    assert!(matches!(u.validate_password("pw".to_string()), Err(AppError::Decode(_))));
    let mut u = user("pw");
    u.password = u.password.to_lowercase();
    if u.password.chars().any(|c| c.is_ascii_lowercase()) {
        assert!(matches!(u.validate_password("pw".to_string()), Err(AppError::Decode(_))));
    }
}

#[test]
fn empty_hash_accepts_nothing() {
    let mut u = user("pw");
    u.password = String::new();
    assert!(matches!(u.validate_password("pw".to_string()), Err(AppError::InvalidCredentials)));
}

#[test]
fn hash_with_a_known_salt() {
    let salt = [0u8; 64];
    let (hash, salt_text) = hash_with_salt("password", &salt);
    assert_eq!(salt_text, "0".repeat(128));
    assert_eq!(hash.len(), 128);
    assert!(is_upper_hex(&hash));
    let (again, _) = hash_with_salt("password", &salt);
    assert_eq!(hash, again);
    let (other, _) = hash_with_salt("passwore", &salt);
    assert_ne!(hash, other);
    assert!(check_password(&salt_text, &hash, "password").is_ok());
    assert!(matches!(
        check_password(&salt_text, &hash, "Password"),
        Err(AppError::InvalidCredentials)
    ));
}

#[test]
fn hash_of_a_salt_in_hexadecimal() {
    let mut salt = [0u8; 64];
    for (i, b) in salt.iter_mut().enumerate() {
        *b = (i as u8) * 4 + 1;
    }
    let (_, salt_text) = hash_with_salt("x", &salt);
    assert!(salt_text.starts_with("0105090D1115191D"));
    assert!(salt_text.ends_with("F5F9FD"));
}

#[test]
fn truncated_hash_is_accepted_for_its_length() {
    let salt = [7u8; 64];
    let (hash, salt_text) = hash_with_salt("pw", &salt);
    assert!(check_password(&salt_text, &hash[..64], "pw").is_ok());
    assert!(matches!(
        check_password(&salt_text, &hash[2..], "pw"),
        Err(AppError::InvalidCredentials)
    ));
}

#[test]
fn encrypt_then_check() {
    let (hash, salt) = encrypt_password("s3cret".to_string()).unwrap();
    assert!(check_password(&salt, &hash, "s3cret").is_ok());
    let (hash, salt) = User::encrypt_password("".to_string()).unwrap();
    assert!(check_password(&salt, &hash, "").is_ok());
}

#[test]
fn claims_expire_after_forty_days() {
    let c = Claims::issued_at("ada@example.org".to_string(), "u1".to_string(), 1_700_000_000);
    assert_eq!(c.sub, "ada@example.org");
    assert_eq!(c.user_id, "u1");
    assert_eq!(c.iat, 1_700_000_000);
    assert_eq!(c.exp, 1_700_000_000 + 40 * 24 * 60 * 60);
}

#[test]
fn claims_expiry_does_not_overflow() {
    let c = Claims::issued_at("a".to_string(), "u".to_string(), i64::MAX - 5);
    assert_eq!(c.exp, i64::MAX);
    let c = Claims::issued_at("a".to_string(), "u".to_string(), i64::MAX - 3_456_000);
    assert_eq!(c.exp, i64::MAX);
    let c = Claims::issued_at("a".to_string(), "u".to_string(), -10);
    assert_eq!(c.exp, 3_455_990);
}

#[test]
fn claims_issued_now() {
    let c = Claims::new("ada@example.org".to_string(), "u1".to_string());
    assert!(c.iat > 1_600_000_000);
    assert_eq!(c.exp - c.iat, 3_456_000);
}

#[test]
fn favourite_toggles() {
    let mut u = user("pw");
    u.favorite_projects = vec!["alpha".to_string(), "beta".to_string()];
    assert_eq!(u.favorite_change(&"alpha".to_string()), FavoriteChange::Remove);
    assert_eq!(u.favorite_change(&"beta".to_string()), FavoriteChange::Remove);
    assert_eq!(u.favorite_change(&"gamma".to_string()), FavoriteChange::Insert);
    assert_eq!(u.favorite_change(&"Alpha".to_string()), FavoriteChange::Insert);
    u.favorite_projects.clear();
    assert_eq!(u.favorite_change(&"alpha".to_string()), FavoriteChange::Insert);
}

#[test]
fn salts_of_other_lengths_are_taken() {
    let (hash, salt_text) = hash_with_salt("pw", &[0xab; 16]);
    assert_eq!(salt_text, "AB".repeat(16));
    assert_eq!(hash.len(), 128);
    assert!(check_password(&salt_text, &hash, "pw").is_ok());
    let (hash, salt_text) = hash_with_salt("pw", &[]);
    assert_eq!(salt_text, "");
    assert_eq!(hash.len(), 128);
    assert!(check_password(&salt_text, &hash, "pw").is_ok());
}
