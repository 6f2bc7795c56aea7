//! Where a binary is kept, under which addresses it is served, and the
//! install manifest for iOS.

use vstd::prelude::*;
use vstd::string::StringExecFns;
use crate::helpers::markup::{
    are_attributes,
    at_start,
    element,
    element_of,
    is_attribute_value,
    is_blank,
    is_content,
    is_document,
    is_encoding,
    is_name,
    is_char,
    is_plain_text,
    is_public_id,
    is_system_id,
    is_version,
    is_well_formed,
    join,
    leaf,
    leaf_of,
    lemma_content_element,
    lemma_content_join,
    lemma_content_text,
    lemma_element_nests,
    lemma_nesting_join,
    lemma_nesting_one,
    nesting,
    no_attributes,
    one_attribute,
    render,
    rendered,
    text,
    text_of,
    token_views,
    AttributeView,
    Nesting,
    Token,
    TokenView,
};
use crate::helpers::text::push_char;

verus! {

/// The directory of one branch of one project under the upload root.
pub open spec fn directory_path(root: Seq<char>, project: Seq<char>, branch: Seq<char>) -> Seq<
    char,
> {
    root + seq!['/'] + project + seq!['/'] + branch
}

/// The place of a binary: `root/project/branch/identifier.extension`.
pub open spec fn file_path(
    root: Seq<char>,
    project: Seq<char>,
    branch: Seq<char>,
    identifier: Seq<char>,
    extension: Seq<char>,
) -> Seq<char> {
    directory_path(root, project, branch) + seq!['/'] + identifier + seq!['.'] + extension
}

/// The directory that must exist before the binary of `project` and `branch`
/// is written.
pub fn create_directory_path(uploads_path: &str, project: &String, branch: &String) -> (r: String)
    ensures
        r@ == directory_path(uploads_path@, project@, branch@),
{
    let mut path = String::from_str(uploads_path);
    push_char(&mut path, '/');
    path.append(project.as_str());
    push_char(&mut path, '/');
    path.append(branch.as_str());
    path
}

/// The place of the binary named by `project`, `branch`, `identifier` and
/// `extension`. The same four values always give the same place.
pub fn create_file_path(
    uploads_path: &str,
    project: &String,
    branch: &String,
    identifier: &String,
    extension: &String,
) -> (r: String)
    ensures
        r@ == file_path(uploads_path@, project@, branch@, identifier@, extension@),
{
    let mut path = create_directory_path(uploads_path, project, branch);
    push_char(&mut path, '/');
    path.append(identifier.as_str());
    push_char(&mut path, '.');
    path.append(extension.as_str());
    path
}

/// The path under which artifacts are served.
pub const ARTIFACTS_SEGMENT: &'static str = "/artifacts/";

/// What follows the id in the address of a binary.
pub const DOWNLOAD_SEGMENT: &'static str = "/download";

/// What follows the id in the address of an install manifest.
pub const MANIFEST_SEGMENT: &'static str = "/ios-plist";

/// What precedes the address of the install manifest in the link for an
/// iOS device.
pub const ITMS_SERVICE_PREFIX: &'static str = "itms-services://?action=download-manifest&url=";

/// The address under which the binary of `artifact_id` is served.
pub open spec fn download_url(public_url: Seq<char>, artifact_id: Seq<char>) -> Seq<char> {
    public_url + ARTIFACTS_SEGMENT@ + artifact_id + DOWNLOAD_SEGMENT@
}

/// The address under which the install manifest of `artifact_id` is served.
pub open spec fn manifest_url(public_url: Seq<char>, artifact_id: Seq<char>) -> Seq<char> {
    public_url + ARTIFACTS_SEGMENT@ + artifact_id + MANIFEST_SEGMENT@
}

/// The link that makes an iOS device fetch the install manifest.
pub open spec fn itms_service_url(public_url: Seq<char>, artifact_id: Seq<char>) -> Seq<char> {
    ITMS_SERVICE_PREFIX@ + manifest_url(public_url, artifact_id)
}

/// The address under which the binary of `artifact_id` is served.
pub fn create_file_url(public_url: &str, artifact_id: String) -> (r: String)
    ensures
        r@ == download_url(public_url@, artifact_id@),
{
    let mut url = String::from_str(public_url);
    url.append(ARTIFACTS_SEGMENT);
    url.append(artifact_id.as_str());
    url.append(DOWNLOAD_SEGMENT);
    url
}

/// The link that makes an iOS device fetch the install manifest of
/// `artifact_id`.
pub fn create_itms_service_url(public_url: &str, artifact_id: String) -> (r: String)
    ensures
        r@ == itms_service_url(public_url@, artifact_id@),
{
    let mut url = String::from_str(ITMS_SERVICE_PREFIX);
    url.append(public_url);
    url.append(ARTIFACTS_SEGMENT);
    url.append(artifact_id.as_str());
    url.append(MANIFEST_SEGMENT);
    assert(url@ =~= itms_service_url(public_url@, artifact_id@));
    url
}

/// The version of XML in which the manifest is written.
pub const XML_VERSION: &'static str = "1.0";

/// The encoding in which the manifest is written.
pub const XML_ENCODING: &'static str = "UTF-8";

/// The name of the root element.
pub const PLIST: &'static str = "plist";

/// The public identifier of the document type of a property list.
pub const PLIST_PUBLIC_ID: &'static str = "-//Apple//DTD PLIST 1.0//EN";

/// The system identifier of the document type of a property list.
pub const PLIST_SYSTEM_ID: &'static str = "http://www.apple.com/DTDs/PropertyList-1.0.dtd";

/// The name of the attribute of the root element.
pub const PLIST_VERSION_NAME: &'static str = "version";

/// The version of the property list format.
pub const PLIST_VERSION: &'static str = "1.0";

/// The name of a dictionary.
pub const DICT: &'static str = "dict";

/// The name of an array.
pub const ARRAY: &'static str = "array";

/// The name of a key.
pub const KEY: &'static str = "key";

/// The name of a text value.
pub const STRING: &'static str = "string";

/// A line end.
pub const INDENT_0: &'static str = "\n";

/// A line end and the indentation of the first depth.
pub const INDENT_1: &'static str = "\n  ";

/// A line end and the indentation of the second depth.
pub const INDENT_2: &'static str = "\n    ";

/// A line end and the indentation of the third depth.
pub const INDENT_3: &'static str = "\n      ";

/// A line end and the indentation of the fourth depth.
pub const INDENT_4: &'static str = "\n        ";

/// A line end and the indentation of the fifth depth.
pub const INDENT_5: &'static str = "\n          ";

/// The key of the items of the manifest.
pub const ITEMS_KEY: &'static str = "items";

/// The key of the assets of an item.
pub const ASSETS_KEY: &'static str = "assets";

/// The key of the metadata of an item.
pub const METADATA_KEY: &'static str = "metadata";

/// The key of a kind.
pub const KIND_KEY: &'static str = "kind";

/// The key of the address of an asset.
pub const URL_KEY: &'static str = "url";

/// The key of the bundle identifier.
pub const BUNDLE_IDENTIFIER_KEY: &'static str = "bundle-identifier";

/// The key of the bundle version.
pub const BUNDLE_VERSION_KEY: &'static str = "bundle-version";

/// The key of the title.
pub const TITLE_KEY: &'static str = "title";

/// The kind of the asset.
pub const SOFTWARE_PACKAGE: &'static str = "software-package";

/// The kind of the item.
pub const SOFTWARE: &'static str = "software";

/// One entry of a dictionary: on a line of its own the key, on the next
/// the value.
pub open spec fn entry(indent: Seq<char>, key: Seq<char>, value: Seq<TokenView>) -> Seq<
    TokenView,
> {
    text(indent) + leaf(KEY@, key) + text(indent) + value
}

/// The asset: a software package at `url`.
pub open spec fn asset_tokens(url: Seq<char>) -> Seq<TokenView> {
    element(
        DICT@,
        Seq::empty(),
        entry(INDENT_5@, KIND_KEY@, leaf(STRING@, SOFTWARE_PACKAGE@)) + entry(
            INDENT_5@,
            URL_KEY@,
            leaf(STRING@, url),
        ) + text(INDENT_4@),
    )
}

/// The metadata: the bundle identifier, the bundle version, the kind
/// `software` and the title.
pub open spec fn metadata_tokens(
    bundle_identifier: Seq<char>,
    bundle_version: Seq<char>,
    title: Seq<char>,
) -> Seq<TokenView> {
    element(
        DICT@,
        Seq::empty(),
        entry(INDENT_4@, BUNDLE_IDENTIFIER_KEY@, leaf(STRING@, bundle_identifier)) + entry(
            INDENT_4@,
            BUNDLE_VERSION_KEY@,
            leaf(STRING@, bundle_version),
        ) + entry(INDENT_4@, KIND_KEY@, leaf(STRING@, SOFTWARE@)) + entry(
            INDENT_4@,
            TITLE_KEY@,
            leaf(STRING@, title),
        ) + text(INDENT_3@),
    )
}

/// The one item of the manifest: its assets and its metadata.
pub open spec fn item_tokens(
    url: Seq<char>,
    bundle_identifier: Seq<char>,
    bundle_version: Seq<char>,
    title: Seq<char>,
) -> Seq<TokenView> {
    element(
        DICT@,
        Seq::empty(),
        entry(
            INDENT_3@,
            ASSETS_KEY@,
            element(ARRAY@, Seq::empty(), text(INDENT_4@) + asset_tokens(url) + text(INDENT_3@)),
        ) + entry(
            INDENT_3@,
            METADATA_KEY@,
            metadata_tokens(bundle_identifier, bundle_version, title),
        ) + text(INDENT_2@),
    )
}

/// The attributes of the root element: the version of the format.
pub open spec fn plist_attributes() -> Seq<AttributeView> {
    seq![AttributeView { name: PLIST_VERSION_NAME@, value: PLIST_VERSION@ }]
}

/// The root element: a dictionary whose `items` are the one item.
pub open spec fn root_tokens(
    url: Seq<char>,
    bundle_identifier: Seq<char>,
    bundle_version: Seq<char>,
    title: Seq<char>,
) -> Seq<TokenView> {
    element(
        PLIST@,
        plist_attributes(),
        text(INDENT_0@) + element(
            DICT@,
            Seq::empty(),
            entry(
                INDENT_1@,
                ITEMS_KEY@,
                element(
                    ARRAY@,
                    Seq::empty(),
                    text(INDENT_2@) + item_tokens(url, bundle_identifier, bundle_version, title)
                        + text(INDENT_1@),
                ),
            ) + text(INDENT_0@),
        ) + text(INDENT_0@),
    )
}

/// The manifest as tokens: the XML declaration, the document type
/// declaration, the root element, and a line end after each.
pub open spec fn plist_tokens(
    url: Seq<char>,
    bundle_identifier: Seq<char>,
    bundle_version: Seq<char>,
    title: Seq<char>,
) -> Seq<TokenView> {
    seq![TokenView::XmlDeclaration(XML_VERSION@, XML_ENCODING@)] + text(INDENT_0@) + seq![
        TokenView::Doctype(PLIST@, PLIST_PUBLIC_ID@, PLIST_SYSTEM_ID@),
    ] + text(INDENT_0@) + root_tokens(url, bundle_identifier, bundle_version, title) + text(
        INDENT_0@,
    )
}

/// The install manifest: a property list with one item, whose asset is the
/// software package at `url` and whose metadata are the bundle identifier,
/// the bundle version, the kind `software` and the title. The four values
/// stand in the document as they are given.
pub open spec fn plist_document(
    url: Seq<char>,
    bundle_identifier: Seq<char>,
    bundle_version: Seq<char>,
    title: Seq<char>,
) -> Seq<char> {
    rendered(plist_tokens(url, bundle_identifier, bundle_version, title))
}

/// What holds of the fixed parts of the manifest: the names are names, the
/// keys and kinds are plain text, the indentations are blank, and the
/// parts of the declarations are what a declaration takes.
proof fn lemma_fixed_parts()
    ensures
        is_version(XML_VERSION@),
        is_encoding(XML_ENCODING@),
        is_public_id(PLIST_PUBLIC_ID@),
        is_system_id(PLIST_SYSTEM_ID@),
        is_name(PLIST@),
        are_attributes(plist_attributes()),
        is_name(DICT@),
        is_name(ARRAY@),
        is_name(KEY@),
        is_name(STRING@),
        is_blank(INDENT_0@) && is_plain_text(INDENT_0@),
        is_plain_text(INDENT_1@),
        is_plain_text(INDENT_2@),
        is_plain_text(INDENT_3@),
        is_plain_text(INDENT_4@),
        is_plain_text(INDENT_5@),
        is_plain_text(ITEMS_KEY@),
        is_plain_text(ASSETS_KEY@),
        is_plain_text(METADATA_KEY@),
        is_plain_text(KIND_KEY@),
        is_plain_text(URL_KEY@),
        is_plain_text(BUNDLE_IDENTIFIER_KEY@),
        is_plain_text(BUNDLE_VERSION_KEY@),
        is_plain_text(TITLE_KEY@),
        is_plain_text(SOFTWARE_PACKAGE@),
        is_plain_text(SOFTWARE@),
{
    reveal_strlit("1.0");
    reveal_strlit("UTF-8");
    reveal_strlit("-//Apple//DTD PLIST 1.0//EN");
    reveal_strlit("http://www.apple.com/DTDs/PropertyList-1.0.dtd");
    reveal_strlit("plist");
    reveal_strlit("version");
    reveal_strlit("dict");
    reveal_strlit("array");
    reveal_strlit("key");
    reveal_strlit("string");
    reveal_strlit("\n");
    reveal_strlit("\n  ");
    reveal_strlit("\n    ");
    reveal_strlit("\n      ");
    reveal_strlit("\n        ");
    reveal_strlit("\n          ");
    reveal_strlit("items");
    reveal_strlit("assets");
    reveal_strlit("metadata");
    reveal_strlit("kind");
    reveal_strlit("url");
    reveal_strlit("bundle-identifier");
    reveal_strlit("bundle-version");
    reveal_strlit("title");
    reveal_strlit("software-package");
    reveal_strlit("software");
    assert(is_name(PLIST_VERSION_NAME@));
    assert(is_attribute_value(PLIST_VERSION@));
}

/// The manifest is a well-formed document wherever the four values are
/// plain text: characters that XML admits, neither `<` nor `&`, and
/// nowhere `]]>`.
pub proof fn lemma_plist_is_well_formed(
    url: Seq<char>,
    bundle_identifier: Seq<char>,
    bundle_version: Seq<char>,
    title: Seq<char>,
)
    requires
        is_plain_text(url),
        is_plain_text(bundle_identifier),
        is_plain_text(bundle_version),
        is_plain_text(title),
    ensures
        is_document(plist_tokens(url, bundle_identifier, bundle_version, title)),
        is_well_formed(plist_document(url, bundle_identifier, bundle_version, title)),
{
    broadcast use {lemma_content_join, lemma_content_text, lemma_content_element};

    lemma_fixed_parts();
    let none = Seq::<AttributeView>::empty();
    assert(are_attributes(none));
    let inner = text(INDENT_0@) + element(
        DICT@,
        none,
        entry(
            INDENT_1@,
            ITEMS_KEY@,
            element(
                ARRAY@,
                none,
                text(INDENT_2@) + item_tokens(url, bundle_identifier, bundle_version, title)
                    + text(INDENT_1@),
            ),
        ) + text(INDENT_0@),
    ) + text(INDENT_0@);
    assert(is_content(asset_tokens(url)));
    assert(is_content(metadata_tokens(bundle_identifier, bundle_version, title)));
    assert(is_content(item_tokens(url, bundle_identifier, bundle_version, title)));
    assert(is_content(inner));
    let blank = text(INDENT_0@);
    let xml = seq![TokenView::XmlDeclaration(XML_VERSION@, XML_ENCODING@)];
    let doctype = seq![TokenView::Doctype(PLIST@, PLIST_PUBLIC_ID@, PLIST_SYSTEM_ID@)];
    let root = root_tokens(url, bundle_identifier, bundle_version, title);
    let s0 = at_start();
    let s1 = Nesting { started: true, ..s0 };
    let s2 = Nesting { after_text: true, ..s1 };
    let s3 = Nesting { doctype: true, after_text: false, ..s2 };
    let s4 = Nesting { after_text: true, ..s3 };
    let s5 = Nesting { closed: true, after_text: false, ..s4 };
    let s6 = Nesting { after_text: true, ..s5 };
    lemma_nesting_one(TokenView::XmlDeclaration(XML_VERSION@, XML_ENCODING@), s0);
    assert(nesting(xml, s0) == Some(s1));
    lemma_nesting_one(TokenView::Text(INDENT_0@), s1);
    assert(nesting(blank, s1) == Some(s2));
    lemma_nesting_one(TokenView::Doctype(PLIST@, PLIST_PUBLIC_ID@, PLIST_SYSTEM_ID@), s2);
    assert(nesting(doctype, s2) == Some(s3));
    lemma_nesting_one(TokenView::Text(INDENT_0@), s3);
    assert(nesting(blank, s3) == Some(s4));
    lemma_element_nests(PLIST@, plist_attributes(), inner, s4);
    assert(nesting(root, s4) == Some(s5));
    lemma_nesting_one(TokenView::Text(INDENT_0@), s5);
    assert(nesting(blank, s5) == Some(s6));
    lemma_nesting_join(xml, blank, s0);
    lemma_nesting_join(xml + blank, doctype, s0);
    lemma_nesting_join(xml + blank + doctype, blank, s0);
    lemma_nesting_join(xml + blank + doctype + blank, root, s0);
    lemma_nesting_join(xml + blank + doctype + blank + root, blank, s0);
    assert(is_document(plist_tokens(url, bundle_identifier, bundle_version, title)));
}

/// One entry of a dictionary.
fn entry_of(indent: &str, key: &str, value: Vec<Token>) -> (r: Vec<Token>)
    ensures
        token_views(r@) == entry(indent@, key@, token_views(value@)),
{
    join(join(join(text_of(indent), leaf_of(KEY, key)), text_of(indent)), value)
}

/// The asset of the manifest.
fn asset_of(url: &str) -> (r: Vec<Token>)
    ensures
        token_views(r@) == asset_tokens(url@),
{
    let kind = entry_of(INDENT_5, KIND_KEY, leaf_of(STRING, SOFTWARE_PACKAGE));
    let address = entry_of(INDENT_5, URL_KEY, leaf_of(STRING, url));
    let r = element_of(DICT, no_attributes(), join(join(kind, address), text_of(INDENT_4)));
    r
}

/// The metadata of the manifest.
fn metadata_of(bundle_identifier: &str, bundle_version: &str, title: &str) -> (r: Vec<Token>)
    ensures
        token_views(r@) == metadata_tokens(bundle_identifier@, bundle_version@, title@),
{
    let identifier = entry_of(INDENT_4, BUNDLE_IDENTIFIER_KEY, leaf_of(STRING, bundle_identifier));
    let version = entry_of(INDENT_4, BUNDLE_VERSION_KEY, leaf_of(STRING, bundle_version));
    let kind = entry_of(INDENT_4, KIND_KEY, leaf_of(STRING, SOFTWARE));
    let name = entry_of(INDENT_4, TITLE_KEY, leaf_of(STRING, title));
    let r = element_of(
        DICT,
        no_attributes(),
        join(join(join(join(identifier, version), kind), name), text_of(INDENT_3)),
    );
    r
}

/// The one item of the manifest.
fn item_of(url: &str, bundle_identifier: &str, bundle_version: &str, title: &str) -> (r: Vec<
    Token,
>)
    ensures
        token_views(r@) == item_tokens(url@, bundle_identifier@, bundle_version@, title@),
{
    let assets = element_of(
        ARRAY,
        no_attributes(),
        join(join(text_of(INDENT_4), asset_of(url)), text_of(INDENT_3)),
    );
    let first = entry_of(INDENT_3, ASSETS_KEY, assets);
    let second = entry_of(
        INDENT_3,
        METADATA_KEY,
        metadata_of(bundle_identifier, bundle_version, title),
    );
    let r = element_of(DICT, no_attributes(), join(join(first, second), text_of(INDENT_2)));
    r
}

/// The manifest as tokens.
fn plist_of(url: &str, bundle_identifier: &str, bundle_version: &str, title: &str) -> (r: Vec<
    Token,
>)
    ensures
        token_views(r@) == plist_tokens(url@, bundle_identifier@, bundle_version@, title@),
{
    let items = element_of(
        ARRAY,
        no_attributes(),
        join(
            join(text_of(INDENT_2), item_of(url, bundle_identifier, bundle_version, title)),
            text_of(INDENT_1),
        ),
    );
    let dict = element_of(
        DICT,
        no_attributes(),
        join(entry_of(INDENT_1, ITEMS_KEY, items), text_of(INDENT_0)),
    );
    let root = element_of(
        PLIST,
        one_attribute(PLIST_VERSION_NAME, PLIST_VERSION),
        join(join(text_of(INDENT_0), dict), text_of(INDENT_0)),
    );
    let mut xml: Vec<Token> = Vec::new();
    xml.push(
        Token::XmlDeclaration(String::from_str(XML_VERSION), String::from_str(XML_ENCODING)),
    );
    let mut doctype: Vec<Token> = Vec::new();
    doctype.push(
        Token::Doctype(
            String::from_str(PLIST),
            String::from_str(PLIST_PUBLIC_ID),
            String::from_str(PLIST_SYSTEM_ID),
        ),
    );
    proof {
        assert(token_views(xml@) =~= seq![
            TokenView::XmlDeclaration(XML_VERSION@, XML_ENCODING@),
        ]);
        assert(token_views(doctype@) =~= seq![
            TokenView::Doctype(PLIST@, PLIST_PUBLIC_ID@, PLIST_SYSTEM_ID@),
        ]);
    }
    join(
        join(join(join(join(xml, text_of(INDENT_0)), doctype), text_of(INDENT_0)), root),
        text_of(INDENT_0),
    )
}

/// Renders the install manifest of `artifact_id`, whose binary is served
/// under `public_url`. Where the address and the three values are plain
/// text, the manifest is a well-formed document.
pub fn parse_plist_template(
    public_url: &str,
    artifact_id: &str,
    bundle_identifier: &str,
    bundle_version: &str,
    app_name: &str,
) -> (r: String)
    ensures
        r@ == plist_document(
            download_url(public_url@, artifact_id@),
            bundle_identifier@,
            bundle_version@,
            app_name@,
        ),
        is_plain_text(public_url@) && is_plain_text(artifact_id@) && is_plain_text(
            bundle_identifier@,
        ) && is_plain_text(bundle_version@) && is_plain_text(app_name@) ==> is_well_formed(r@),
{
    let url = create_file_url(public_url, String::from_str(artifact_id));
    let tokens = plist_of(url.as_str(), bundle_identifier, bundle_version, app_name);
    proof {
        if is_plain_text(public_url@) && is_plain_text(artifact_id@) && is_plain_text(
            bundle_identifier@,
        ) && is_plain_text(bundle_version@) && is_plain_text(app_name@) {
            lemma_url_is_plain_text(public_url@, artifact_id@);
            lemma_plist_is_well_formed(url@, bundle_identifier@, bundle_version@, app_name@);
        }
    }
    render(&tokens)
}

/// The address of a binary is plain text where the public address and the
/// id are.
pub proof fn lemma_url_is_plain_text(public_url: Seq<char>, artifact_id: Seq<char>)
    requires
        is_plain_text(public_url),
        is_plain_text(artifact_id),
    ensures
        is_plain_text(download_url(public_url, artifact_id)),
{
    reveal_strlit("/artifacts/");
    reveal_strlit("/download");
    let url = download_url(public_url, artifact_id);
    let first = ARTIFACTS_SEGMENT@;
    let second = DOWNLOAD_SEGMENT@;
    let a = public_url.len() as int;
    let b = a + first.len();
    let c = b + artifact_id.len();
    assert(is_plain_text(first));
    assert(is_plain_text(second));
    assert forall|j: int| 0 <= j < first.len() implies #[trigger] first[j] != ']' && first[j]
        != '>' by {}
    assert forall|j: int| 0 <= j < second.len() implies #[trigger] second[j] != ']' && second[j]
        != '>' by {}
    assert forall|i: int| 0 <= i < url.len() implies (if i < a {
        #[trigger] url[i] == public_url[i]
    } else if i < b {
        url[i] == first[i - a]
    } else if i < c {
        url[i] == artifact_id[i - b]
    } else {
        url[i] == second[i - c]
    }) by {}
    assert forall|i: int| 0 <= i < url.len() implies is_char(#[trigger] url[i]) && url[i] != '<'
        && url[i] != '&' by {
        if i < a {
            assert(is_char(public_url[i]));
        } else if i < b {
            assert(is_char(first[i - a]));
        } else if i < c {
            assert(is_char(artifact_id[i - b]));
        } else {
            assert(is_char(second[i - c]));
        }
    }
    assert forall|i: int| 0 <= i && i + 2 < url.len() implies !(#[trigger] url[i] == ']' && url[i
        + 1] == ']' && url[i + 2] == '>') by {
        let x = url[i];
        let y = url[i + 1];
        let z = url[i + 2];
        if i + 2 < a {
            assert(x == public_url[i] && y == public_url[i + 1] && z == public_url[i + 2]);
        } else if i < a {
            assert(z == first[i + 2 - a] || y == first[i + 1 - a]);
        } else if i < b {
            assert(x == first[i - a]);
        } else if i + 2 < c {
            assert(x == artifact_id[i - b] && y == artifact_id[i + 1 - b] && z == artifact_id[i
                + 2 - b]);
        } else {
            assert(z == second[i + 2 - c]);
        }
    }
}

} // verus!
