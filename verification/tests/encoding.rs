use app_repository::helpers::base64::encode_base64;
use app_repository::helpers::text::{decimal_text, text_eq};
use app_repository::helpers::uuid::{generate_uuid, remove_hyphens};

#[test]
fn base64_known_vectors() {
    assert_eq!(encode_base64(b"").unwrap(), "");
    assert_eq!(encode_base64(b"f").unwrap(), "Zg==");
    assert_eq!(encode_base64(b"fo").unwrap(), "Zm8=");
    assert_eq!(encode_base64(b"foo").unwrap(), "Zm9v");
    assert_eq!(encode_base64(b"asdf").unwrap(), "YXNkZg==");
    assert_eq!(encode_base64(b"foobar").unwrap(), "Zm9vYmFy");
    assert_eq!(encode_base64(&[0xfb, 0xff, 0xfe]).unwrap(), "+//+");
}

#[test]
fn base64_length_is_four_for_three() {
    for n in 0..50usize {
        let bytes = vec![7u8; n];
        let text = encode_base64(&bytes).unwrap();
        assert_eq!(text.len(), 4 * ((n + 2) / 3));
        assert!(text.chars().all(|c| c.is_ascii_alphanumeric() || c == '+' || c == '/' || c == '='));
    }
}

#[test]
fn base64_of_a_long_buffer() {
    let bytes: Vec<u8> = (0..5000u32).map(|i| (i % 251) as u8).collect();
    let text = encode_base64(&bytes).unwrap();
    assert_eq!(text.len(), 4 * ((5000 + 2) / 3));
    assert!(text.starts_with("AAECAwQF"));
}

#[test]
fn hyphenated_uuid_shape() {
    let id = generate_uuid(false);
    assert_eq!(id.len(), 36);
    for (i, c) in id.chars().enumerate() {
        if i == 8 || i == 13 || i == 18 || i == 23 {
            assert_eq!(c, '-');
        } else {
            assert!(c.is_ascii_digit() || ('a'..='f').contains(&c));
        }
    }
}

#[test]
fn tokenless_uuid_shape() {
    let id = generate_uuid(true);
    assert_eq!(id.len(), 32);
    assert!(id.chars().all(|c| c.is_ascii_digit() || ('a'..='f').contains(&c)));
}

#[test]
fn uuids_differ() {
    assert_ne!(generate_uuid(true), generate_uuid(true));
}

#[test]
fn hyphens_are_removed() {
    assert_eq!(
        remove_hyphens("67e55044-10b1-426f-9247-bb680e5fe0c8"),
        "67e5504410b1426f9247bb680e5fe0c8"
    );
    assert_eq!(remove_hyphens("---"), "");
    assert_eq!(remove_hyphens("abc"), "abc");
    assert_eq!(remove_hyphens(""), "");
}

#[test]
fn decimal_text_values() {
    assert_eq!(decimal_text(0), "0");
    assert_eq!(decimal_text(7), "7");
    assert_eq!(decimal_text(10), "10");
    assert_eq!(decimal_text(1234567890), "1234567890");
    assert_eq!(decimal_text(usize::MAX), usize::MAX.to_string());
}

#[test]
fn text_equality() {
    assert!(text_eq("branch", "branch"));
    assert!(!text_eq("branch", "Branch"));
    assert!(!text_eq("branch", "branches"));
    assert!(text_eq("", ""));
}
