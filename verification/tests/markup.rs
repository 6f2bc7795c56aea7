use app_repository::helpers::artifact::parse_plist_template;
use app_repository::helpers::markup::{
    element_of, join, leaf_of, no_attributes, one_attribute, render, text_of, Attribute, Token,
};

#[test]
fn tokens_are_written_one_after_the_other() {
    let tokens = vec![
        Token::XmlDeclaration("1.0".to_string(), "UTF-8".to_string()),
        Token::Text("\n".to_string()),
        Token::Doctype("a".to_string(), "-//X//Y//EN".to_string(), "http://x/y.dtd".to_string()),
        Token::Text("\n".to_string()),
        Token::Open(
            "a".to_string(),
            vec![
                Attribute { name: "b".to_string(), value: "c".to_string() },
                Attribute { name: "d".to_string(), value: "".to_string() },
            ],
        ),
        Token::Text("text".to_string()),
        Token::Close("a".to_string()),
    ];
    assert_eq!(
        render(&tokens),
        "<?xml version=\"1.0\" encoding=\"UTF-8\"?>\n<!DOCTYPE a PUBLIC \"-//X//Y//EN\" \"http://x/y.dtd\">\n<a b=\"c\" d=\"\">text</a>"
    );
    assert_eq!(render(&vec![]), "");
}

#[test]
fn attribute_lists() {
    assert!(no_attributes().is_empty());
    let one = one_attribute("version", "1.0");
    assert_eq!(one.len(), 1);
    assert_eq!(one[0].name, "version");
    assert_eq!(one[0].value, "1.0");
}

#[test]
fn leaf_is_an_element_of_text() {
    assert_eq!(render(&leaf_of("key", "items")), "<key>items</key>");
    assert_eq!(render(&leaf_of("string", "")), "<string></string>");
}

#[test]
fn element_wraps_its_content() {
    let inner = join(leaf_of("key", "k"), text_of(" "));
    let inner = join(inner, leaf_of("string", "v"));
    assert_eq!(
        render(&element_of("dict", no_attributes(), inner)),
        "<dict><key>k</key> <string>v</string></dict>"
    );
    assert_eq!(render(&element_of("plist", one_attribute("version", "1.0"), vec![])), "<plist version=\"1.0\"></plist>");
}

#[test]
fn manifest_nests() {
    let plist = parse_plist_template("https://dist.example", "abc", "com.example", "1.0", "Example");
    let mut open: Vec<String> = Vec::new();
    let mut rest = plist.as_str();
    let mut elements = 0;
    while let Some(start) = rest.find('<') {
        let end = start + rest[start..].find('>').unwrap();
        let tag = &rest[start + 1..end];
        if tag.starts_with('?') || tag.starts_with('!') {
            assert!(open.is_empty());
        } else if let Some(name) = tag.strip_prefix('/') {
            assert_eq!(open.pop().as_deref(), Some(name));
        } else {
            open.push(tag.split(' ').next().unwrap().to_string());
            elements += 1;
        }
        rest = &rest[end + 1..];
    }
    assert!(open.is_empty());
    assert_eq!(elements, 22);
    assert_eq!(rest, "\n");
}
