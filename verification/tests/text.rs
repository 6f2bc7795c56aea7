use app_repository::helpers::text::{chars_of, has_text, replace_text};
use app_repository::redirect::{make_https, Ports};
use app_repository::settings::{
    ARTIFACT_BODY_LIMIT, DEFAULT_BODY_LIMIT, IMAGE_BODY_LIMIT, REQUEST_TIMEOUT_SECONDS,
};

#[test]
fn characters_of_a_text() {
    assert_eq!(chars_of("aé日"), vec!['a', 'é', '日']);
    assert!(chars_of("").is_empty());
}

#[test]
fn search_finds_a_pattern() {
    assert!(has_text("There was a problem with userEmailIndex", "userEmailIndex"));
    assert!(has_text("userEmailIndex", "userEmailIndex"));
    assert!(has_text("abc", ""));
    assert!(has_text("", ""));
    assert!(has_text("aab", "ab"));
}

#[test]
fn search_misses_an_absent_pattern() {
    assert!(!has_text("", "a"));
    assert!(!has_text("useremailindex", "userEmailIndex"));
    assert!(!has_text("userEmailInde", "userEmailIndex"));
    assert!(!has_text("ab", "abc"));
}

#[test]
fn replace_matches_the_standard_library() {
    let cases = [
        ("localhost:3001", "3001", "3002"),
        ("3001.example:3001", "3001", "3002"),
        ("aaaa", "aa", "b"),
        ("aaa", "aa", "b"),
        ("abc", "x", "y"),
        ("abc", "abc", ""),
        ("", "a", "b"),
        ("ababab", "ab", "abab"),
        ("héllo wörld", "ö", "oe"),
        ("33001", "3001", "3002"),
    ];
    for (s, from, to) in cases {
        assert_eq!(replace_text(s, from, to), s.replace(from, to));
    }
}

#[test]
fn replace_with_an_empty_pattern_changes_nothing() {
    assert_eq!(replace_text("abc", "", "x"), "abc");
}

#[test]
fn redirect_replaces_the_port() {
    let ports = Ports { http: 3001, https: 3002 };
    assert_eq!(
        make_https("localhost:3001", Some("/projects?x=1"), ports),
        "https://localhost:3002/projects?x=1"
    );
    assert_eq!(make_https("localhost:3001", None, ports), "https://localhost:3002/");
    assert_eq!(make_https("example.org", Some("/"), ports), "https://example.org/");
}

#[test]
fn redirect_with_standard_ports() {
    let ports = Ports { http: 80, https: 443 };
    assert_eq!(make_https("dist.example:80", Some("/a"), ports), "https://dist.example:443/a");
    assert_eq!(make_https("host80:80", None, ports), "https://host443:443/");
}

#[test]
fn body_limits() {
    assert_eq!(DEFAULT_BODY_LIMIT, 2_097_152);
    assert_eq!(IMAGE_BODY_LIMIT, 5_242_880);
    assert_eq!(ARTIFACT_BODY_LIMIT, 314_572_800);
    assert_eq!(REQUEST_TIMEOUT_SECONDS, 30);
}
