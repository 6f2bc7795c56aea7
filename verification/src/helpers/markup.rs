//! Markup as a sequence of tokens, and when such a sequence is a
//! well-formed XML document: an XML declaration, if any, at the very start;
//! at most one document type declaration before the root; one root element
//! whose tags nest; nothing but blanks around it.
//!
//! The tokens write a part of XML only: no comments, no processing
//! instructions, no references, no CDATA sections, names in ASCII. What they
//! do write, `is_document` admits only where XML does.

use vstd::prelude::*;
use vstd::string::StringExecFns;
use crate::helpers::text::push_char;

verus! {

/// An attribute of a start tag.
#[derive(Debug)]
pub struct Attribute {
    pub name: String,
    pub value: String,
}

/// What an `Attribute` holds, as plain values.
pub struct AttributeView {
    pub name: Seq<char>,
    pub value: Seq<char>,
}

impl View for Attribute {
    type V = AttributeView;

    open spec fn view(&self) -> AttributeView {
        AttributeView { name: self.name@, value: self.value@ }
    }
}

/// The views of a list of attributes, in order.
pub open spec fn attribute_views(list: Seq<Attribute>) -> Seq<AttributeView> {
    list.map_values(|a: Attribute| a@)
}

/// One piece of markup.
#[derive(Debug)]
pub enum Token {
    /// The XML declaration: the version and the encoding.
    XmlDeclaration(String, String),
    /// The document type declaration: the name of the root, the public
    /// identifier and the system identifier.
    Doctype(String, String, String),
    /// A start tag: the name and the attributes.
    Open(String, Vec<Attribute>),
    /// An end tag.
    Close(String),
    /// Text between tags.
    Text(String),
}

/// What a `Token` holds, as plain values.
pub enum TokenView {
    XmlDeclaration(Seq<char>, Seq<char>),
    Doctype(Seq<char>, Seq<char>, Seq<char>),
    Open(Seq<char>, Seq<AttributeView>),
    Close(Seq<char>),
    Text(Seq<char>),
}

impl View for Token {
    type V = TokenView;

    open spec fn view(&self) -> TokenView {
        match self {
            Token::XmlDeclaration(v, e) => TokenView::XmlDeclaration(v@, e@),
            Token::Doctype(n, p, s) => TokenView::Doctype(n@, p@, s@),
            Token::Open(n, a) => TokenView::Open(n@, attribute_views(a@)),
            Token::Close(n) => TokenView::Close(n@),
            Token::Text(t) => TokenView::Text(t@),
        }
    }
}

/// The views of a list of tokens, in order.
pub open spec fn token_views(list: Seq<Token>) -> Seq<TokenView> {
    list.map_values(|t: Token| t@)
}

/// What stands before the version in the XML declaration.
pub const XML_BEFORE_VERSION: &'static str = "<?xml version=\"";

/// What stands between the version and the encoding.
pub const XML_BEFORE_ENCODING: &'static str = "\" encoding=\"";

/// What ends the XML declaration.
pub const XML_END: &'static str = "\"?>";

/// What stands before the name in the document type declaration.
pub const DOCTYPE_BEFORE_NAME: &'static str = "<!DOCTYPE ";

/// What stands between the name and the public identifier.
pub const DOCTYPE_BEFORE_PUBLIC: &'static str = " PUBLIC \"";

/// What stands between the public and the system identifier.
pub const DOCTYPE_BEFORE_SYSTEM: &'static str = "\" \"";

/// What ends the document type declaration.
pub const DOCTYPE_END: &'static str = "\">";

/// The attributes as they are written: before each a space, then the name,
/// `=`, and the value between double quotes.
pub open spec fn written_attributes(attributes: Seq<AttributeView>) -> Seq<char>
    decreases attributes.len(),
{
    if attributes.len() == 0 {
        Seq::empty()
    } else {
        written_attributes(attributes.drop_last()) + seq![' '] + attributes.last().name + seq![
            '=',
            '"',
        ] + attributes.last().value + seq!['"']
    }
}

impl TokenView {
    /// The token as it is written.
    pub open spec fn written(self) -> Seq<char> {
        match self {
            TokenView::XmlDeclaration(v, e) => XML_BEFORE_VERSION@ + v + XML_BEFORE_ENCODING@ + e
                + XML_END@,
            TokenView::Doctype(n, p, s) => DOCTYPE_BEFORE_NAME@ + n + DOCTYPE_BEFORE_PUBLIC@ + p
                + DOCTYPE_BEFORE_SYSTEM@ + s + DOCTYPE_END@,
            TokenView::Open(n, a) => seq!['<'] + n + written_attributes(a) + seq!['>'],
            TokenView::Close(n) => seq!['<', '/'] + n + seq!['>'],
            TokenView::Text(t) => t,
        }
    }

    /// Whether the token is text.
    pub open spec fn is_text(self) -> bool {
        self is Text
    }
}

/// The tokens as they are written, one after the other.
pub open spec fn rendered(tokens: Seq<TokenView>) -> Seq<char>
    decreases tokens.len(),
{
    if tokens.len() == 0 {
        Seq::empty()
    } else {
        rendered(tokens.drop_last()) + tokens.last().written()
    }
}

/// A character that XML admits: a tab, a line end, or any character from
/// the space on but the two that are no characters.
pub open spec fn is_char(c: char) -> bool {
    c == '\t' || c == '\n' || c == '\r' || (' ' <= c && c != '\u{fffe}' && c != '\u{ffff}')
}

/// Text that may stand between tags as it is: characters that XML admits,
/// neither `<` nor `&`, and nowhere `]]>`.
pub open spec fn is_plain_text(t: Seq<char>) -> bool {
    &&& forall|i: int| 0 <= i < t.len() ==> is_char(#[trigger] t[i]) && t[i] != '<' && t[i] != '&'
    &&& forall|i: int|
        0 <= i && i + 2 < t.len() ==> !(#[trigger] t[i] == ']' && t[i + 1] == ']' && t[i + 2]
            == '>')
}

/// Text of spaces, tabs and line ends only.
pub open spec fn is_blank(t: Seq<char>) -> bool {
    forall|i: int|
        0 <= i < t.len() ==> #[trigger] t[i] == ' ' || t[i] == '\n' || t[i] == '\t' || t[i]
            == '\r'
}

/// A character that may begin a name.
pub open spec fn is_name_start(c: char) -> bool {
    ('a' <= c && c <= 'z') || ('A' <= c && c <= 'Z') || c == '_'
}

/// A character that may stand in a name after its first.
pub open spec fn is_name_char(c: char) -> bool {
    is_name_start(c) || ('0' <= c && c <= '9') || c == '-' || c == '.'
}

/// A name of an element or an attribute.
pub open spec fn is_name(n: Seq<char>) -> bool {
    &&& n.len() > 0
    &&& is_name_start(n[0])
    &&& forall|i: int| 0 <= i < n.len() ==> is_name_char(#[trigger] n[i])
}

/// The value of an attribute as it may stand between double quotes:
/// characters that XML admits, none of `<`, `&` and `"`.
pub open spec fn is_attribute_value(v: Seq<char>) -> bool {
    forall|i: int|
        0 <= i < v.len() ==> is_char(#[trigger] v[i]) && v[i] != '<' && v[i] != '&' && v[i]
            != '"'
}

/// The attributes of one start tag: each a name and a value, no name twice.
pub open spec fn are_attributes(a: Seq<AttributeView>) -> bool {
    &&& forall|i: int|
        0 <= i < a.len() ==> is_name((#[trigger] a[i]).name) && is_attribute_value(a[i].value)
    &&& forall|i: int, j: int|
        0 <= i < j < a.len() ==> (#[trigger] a[i]).name != (#[trigger] a[j]).name
}

/// A version number: `1.` and digits, at least one.
pub open spec fn is_version(v: Seq<char>) -> bool {
    &&& v.len() >= 3
    &&& v[0] == '1'
    &&& v[1] == '.'
    &&& forall|i: int| 2 <= i < v.len() ==> '0' <= #[trigger] v[i] && v[i] <= '9'
}

/// The name of an encoding: a letter, then letters, digits, `.`, `_` and
/// `-`.
pub open spec fn is_encoding(e: Seq<char>) -> bool {
    &&& e.len() > 0
    &&& ('a' <= e[0] && e[0] <= 'z') || ('A' <= e[0] && e[0] <= 'Z')
    &&& forall|i: int| 0 <= i < e.len() ==> is_name_char(#[trigger] e[i])
}

/// A character of a public identifier.
pub open spec fn is_public_id_char(c: char) -> bool {
    c == ' ' || c == '\r' || c == '\n' || ('a' <= c && c <= 'z') || ('A' <= c && c <= 'Z') || (
    '0' <= c && c <= '9') || c == '-' || c == '\'' || c == '(' || c == ')' || c == '+' || c
        == ',' || c == '.' || c == '/' || c == ':' || c == '=' || c == '?' || c == ';' || c
        == '!' || c == '*' || c == '#' || c == '@' || c == '$' || c == '_' || c == '%'
}

/// A public identifier.
pub open spec fn is_public_id(p: Seq<char>) -> bool {
    forall|i: int| 0 <= i < p.len() ==> is_public_id_char(#[trigger] p[i])
}

/// A system identifier as it may stand between double quotes.
pub open spec fn is_system_id(s: Seq<char>) -> bool {
    forall|i: int| 0 <= i < s.len() ==> is_char(#[trigger] s[i]) && s[i] != '"'
}

/// How far a document has been read.
pub struct Nesting {
    /// The names of the elements that are open, the innermost last.
    pub open: Seq<Seq<char>>,
    /// Whether the root element has been closed.
    pub closed: bool,
    /// Whether any token has been read.
    pub started: bool,
    /// Whether the document type declaration has been read.
    pub doctype: bool,
    /// Whether the last token read was text.
    pub after_text: bool,
}

/// The state before anything has been read.
pub open spec fn at_start() -> Nesting {
    Nesting { open: Seq::empty(), closed: false, started: false, doctype: false, after_text: false }
}

/// The state after one more token; none where the token may not stand
/// there.
///
/// The XML declaration stands first of all. The document type declaration
/// stands before the root, once. A start tag stands inside an element or
/// begins the root. An end tag closes the innermost open element. Text is
/// plain, is blank outside the root, and does not follow text: what stands
/// between two tags is one token, so that no `]]>` forms across two.
pub open spec fn step(token: TokenView, state: Nesting) -> Option<Nesting> {
    match token {
        TokenView::XmlDeclaration(v, e) => {
            if is_version(v) && is_encoding(e) && !state.started {
                Some(Nesting { started: true, after_text: false, ..state })
            } else {
                None
            }
        },
        TokenView::Doctype(n, p, s) => {
            if is_name(n) && is_public_id(p) && is_system_id(s) && state.open.len() == 0
                && !state.closed && !state.doctype {
                Some(Nesting { started: true, doctype: true, after_text: false, ..state })
            } else {
                None
            }
        },
        TokenView::Open(n, a) => {
            if is_name(n) && are_attributes(a) && (state.open.len() > 0 || !state.closed) {
                Some(
                    Nesting {
                        open: state.open.push(n),
                        started: true,
                        after_text: false,
                        ..state
                    },
                )
            } else {
                None
            }
        },
        TokenView::Close(n) => {
            if state.open.len() > 0 && state.open.last() == n {
                Some(
                    Nesting {
                        open: state.open.drop_last(),
                        closed: state.closed || state.open.len() == 1,
                        started: true,
                        after_text: false,
                        ..state
                    },
                )
            } else {
                None
            }
        },
        TokenView::Text(t) => {
            if is_plain_text(t) && !state.after_text && (state.open.len() > 0 || is_blank(t)) {
                Some(Nesting { started: true, after_text: true, ..state })
            } else {
                None
            }
        },
    }
}

/// The state after the tokens; none where one of them may not stand where
/// it does.
pub open spec fn nesting(tokens: Seq<TokenView>, state: Nesting) -> Option<Nesting>
    decreases tokens.len(),
{
    if tokens.len() == 0 {
        Some(state)
    } else {
        match step(tokens[0], state) {
            Some(next) => nesting(tokens.drop_first(), next),
            None => None,
        }
    }
}

/// Whether the tokens are a well-formed document: read from the start,
/// every token may stand where it does, and at the end the root element
/// has been closed and nothing is open.
pub open spec fn is_document(tokens: Seq<TokenView>) -> bool {
    nesting(tokens, at_start()) matches Some(end) && end.open.len() == 0 && end.closed
}

/// Whether `text` is a well-formed document as some sequence of tokens
/// writes it.
pub open spec fn is_well_formed(text: Seq<char>) -> bool {
    exists|tokens: Seq<TokenView>| #[trigger] is_document(tokens) && rendered(tokens) == text
}

/// Whether the tokens begin with text.
pub open spec fn starts_with_text(tokens: Seq<TokenView>) -> bool {
    tokens.len() > 0 && tokens[0].is_text()
}

/// Whether the tokens end with text.
pub open spec fn ends_with_text(tokens: Seq<TokenView>) -> bool {
    tokens.len() > 0 && tokens.last().is_text()
}

/// Whether the tokens, of which there is at least one, may stand inside any
/// element, after anything that their first token may follow, and leave
/// open what was open.
pub open spec fn is_content(tokens: Seq<TokenView>) -> bool {
    &&& tokens.len() > 0
    &&& forall|state: Nesting|
        state.open.len() > 0 && state.started && (starts_with_text(tokens) ==> !state.after_text)
            ==> #[trigger] nesting(tokens, state) == Some(
            Nesting { after_text: ends_with_text(tokens), ..state },
        )
}

/// Text as content.
pub open spec fn text(t: Seq<char>) -> Seq<TokenView> {
    seq![TokenView::Text(t)]
}

/// An element as content: its start tag, its content, its end tag.
pub open spec fn element(
    name: Seq<char>,
    attributes: Seq<AttributeView>,
    inner: Seq<TokenView>,
) -> Seq<TokenView> {
    seq![TokenView::Open(name, attributes)] + inner + seq![TokenView::Close(name)]
}

/// An element that holds text only.
pub open spec fn leaf(name: Seq<char>, t: Seq<char>) -> Seq<TokenView> {
    element(name, Seq::empty(), text(t))
}

/// Reading tokens one after the other is reading the first part, then the
/// second.
pub proof fn lemma_nesting_join(a: Seq<TokenView>, b: Seq<TokenView>, state: Nesting)
    ensures
        nesting(a + b, state) == match nesting(a, state) {
            Some(next) => nesting(b, next),
            None => None,
        },
    decreases a.len(),
{
    if a.len() == 0 {
        assert(a + b =~= b);
    } else {
        assert((a + b)[0] == a[0]);
        assert((a + b).drop_first() =~= a.drop_first() + b);
        match step(a[0], state) {
            Some(next) => {
                lemma_nesting_join(a.drop_first(), b, next);
            },
            None => {},
        }
    }
}

/// Reading one token is one step.
pub proof fn lemma_nesting_one(token: TokenView, state: Nesting)
    ensures
        nesting(seq![token], state) == step(token, state),
{
    let one = seq![token];
    assert(one.drop_first() =~= Seq::<TokenView>::empty());
    match step(token, state) {
        Some(next) => {
            assert(nesting(one.drop_first(), next) == Some(next));
        },
        None => {},
    }
}

/// Content followed by content is content, unless text would follow text.
pub broadcast proof fn lemma_content_join(a: Seq<TokenView>, b: Seq<TokenView>)
    requires
        is_content(a),
        is_content(b),
        !(ends_with_text(a) && starts_with_text(b)),
    ensures
        #[trigger] is_content(a + b),
        starts_with_text(a + b) == starts_with_text(a),
        ends_with_text(a + b) == ends_with_text(b),
{
    assert((a + b)[0] == a[0]);
    assert((a + b).last() == b.last());
    assert forall|state: Nesting|
        state.open.len() > 0 && state.started && (starts_with_text(a + b) ==> !state.after_text)
        implies #[trigger] nesting(a + b, state) == Some(
        Nesting { after_text: ends_with_text(a + b), ..state },
    ) by {
        lemma_nesting_join(a, b, state);
        let middle = Nesting { after_text: ends_with_text(a), ..state };
        assert(nesting(a, state) == Some(middle));
        assert(nesting(b, middle) == Some(Nesting { after_text: ends_with_text(b), ..middle }));
    }
}

/// Plain text is content.
pub broadcast proof fn lemma_content_text(t: Seq<char>)
    requires
        is_plain_text(t),
    ensures
        #[trigger] is_content(text(t)),
        starts_with_text(text(t)),
        ends_with_text(text(t)),
{
    assert forall|state: Nesting|
        state.open.len() > 0 && state.started && (starts_with_text(text(t)) ==> !state.after_text)
        implies #[trigger] nesting(text(t), state) == Some(
        Nesting { after_text: ends_with_text(text(t)), ..state },
    ) by {
        lemma_nesting_one(TokenView::Text(t), state);
    }
}

/// An element with a name, attributes and content is content.
pub broadcast proof fn lemma_content_element(
    name: Seq<char>,
    attributes: Seq<AttributeView>,
    inner: Seq<TokenView>,
)
    requires
        is_name(name),
        are_attributes(attributes),
        is_content(inner),
    ensures
        #[trigger] is_content(element(name, attributes, inner)),
        !starts_with_text(element(name, attributes, inner)),
        !ends_with_text(element(name, attributes, inner)),
{
    let whole = element(name, attributes, inner);
    assert(whole[0] == TokenView::Open(name, attributes));
    assert(whole.last() == TokenView::Close(name));
    assert forall|state: Nesting|
        state.open.len() > 0 && state.started && (starts_with_text(whole) ==> !state.after_text)
        implies #[trigger] nesting(whole, state) == Some(
        Nesting { after_text: ends_with_text(whole), ..state },
    ) by {
        lemma_element_nests(name, attributes, inner, state);
    }
}

/// An element with a name, attributes and content may stand wherever a
/// start tag may, and leaves open what was open; where it is the root, the
/// root is closed after it.
pub proof fn lemma_element_nests(
    name: Seq<char>,
    attributes: Seq<AttributeView>,
    inner: Seq<TokenView>,
    state: Nesting,
)
    requires
        is_name(name),
        are_attributes(attributes),
        is_content(inner),
        state.open.len() > 0 || !state.closed,
    ensures
        nesting(element(name, attributes, inner), state) == Some(
            Nesting {
                open: state.open,
                closed: state.closed || state.open.len() == 0,
                started: true,
                doctype: state.doctype,
                after_text: false,
            },
        ),
{
    let open = seq![TokenView::Open(name, attributes)];
    let close = seq![TokenView::Close(name)];
    let inside = Nesting {
        open: state.open.push(name),
        started: true,
        after_text: false,
        ..state
    };
    lemma_nesting_one(TokenView::Open(name, attributes), state);
    assert(nesting(open, state) == Some(inside));
    let filled = Nesting { after_text: ends_with_text(inner), ..inside };
    assert(nesting(inner, inside) == Some(filled));
    lemma_nesting_join(open, inner, state);
    let after = Nesting {
        open: state.open,
        closed: state.closed || state.open.len() == 0,
        started: true,
        doctype: state.doctype,
        after_text: false,
    };
    assert(filled.open.drop_last() =~= state.open);
    lemma_nesting_one(TokenView::Close(name), filled);
    assert(step(TokenView::Close(name), filled) == Some(after));
    lemma_nesting_join(open + inner, close, state);
}

/// Writes the attributes after what `out` holds.
fn write_attributes(out: &mut String, attributes: &Vec<Attribute>)
    ensures
        final(out)@ == old(out)@ + written_attributes(attribute_views(attributes@)),
{
    let ghost all = attribute_views(attributes@);
    let ghost before = out@;
    let mut i: usize = 0;
    proof {
        assert(all.take(0) =~= Seq::<AttributeView>::empty());
        assert(before + written_attributes(all.take(0)) =~= before);
    }
    while i < attributes.len()
        invariant
            i <= attributes.len(),
            all == attribute_views(attributes@),
            out@ == before + written_attributes(all.take(i as int)),
        decreases attributes.len() - i,
    {
        proof {
            assert(all.take(i + 1).drop_last() =~= all.take(i as int));
            assert(all.take(i + 1).last() == attributes@[i as int]@);
        }
        push_char(out, ' ');
        out.append(attributes[i].name.as_str());
        push_char(out, '=');
        push_char(out, '"');
        out.append(attributes[i].value.as_str());
        push_char(out, '"');
        proof {
            assert(out@ =~= before + written_attributes(all.take(i + 1)));
        }
        i = i + 1;
    }
    proof {
        assert(all.take(attributes.len() as int) =~= all);
    }
}

/// Writes the tokens one after the other.
pub fn render(tokens: &Vec<Token>) -> (r: String)
    ensures
        r@ == rendered(token_views(tokens@)),
{
    let ghost all = token_views(tokens@);
    let mut out = String::new();
    let mut i: usize = 0;
    proof {
        assert(all.take(0) =~= Seq::<TokenView>::empty());
    }
    while i < tokens.len()
        invariant
            i <= tokens.len(),
            all == token_views(tokens@),
            out@ == rendered(all.take(i as int)),
        decreases tokens.len() - i,
    {
        proof {
            assert(all.take(i + 1).drop_last() =~= all.take(i as int));
            assert(all.take(i + 1).last() == tokens@[i as int]@);
        }
        match &tokens[i] {
            Token::XmlDeclaration(v, e) => {
                out.append(XML_BEFORE_VERSION);
                out.append(v.as_str());
                out.append(XML_BEFORE_ENCODING);
                out.append(e.as_str());
                out.append(XML_END);
            },
            Token::Doctype(n, p, s) => {
                out.append(DOCTYPE_BEFORE_NAME);
                out.append(n.as_str());
                out.append(DOCTYPE_BEFORE_PUBLIC);
                out.append(p.as_str());
                out.append(DOCTYPE_BEFORE_SYSTEM);
                out.append(s.as_str());
                out.append(DOCTYPE_END);
            },
            Token::Open(n, a) => {
                push_char(&mut out, '<');
                out.append(n.as_str());
                write_attributes(&mut out, a);
                push_char(&mut out, '>');
            },
            Token::Close(n) => {
                push_char(&mut out, '<');
                push_char(&mut out, '/');
                out.append(n.as_str());
                push_char(&mut out, '>');
            },
            Token::Text(t) => {
                out.append(t.as_str());
            },
        }
        proof {
            assert(out@ =~= rendered(all.take(i as int)) + all[i as int].written());
        }
        i = i + 1;
    }
    proof {
        assert(all.take(tokens.len() as int) =~= all);
    }
    out
}

/// Text as content.
pub fn text_of(t: &str) -> (r: Vec<Token>)
    ensures
        token_views(r@) == text(t@),
{
    let mut out: Vec<Token> = Vec::new();
    out.push(Token::Text(String::from_str(t)));
    proof {
        assert(token_views(out@) =~= text(t@));
    }
    out
}

/// Tokens followed by tokens.
pub fn join(a: Vec<Token>, b: Vec<Token>) -> (r: Vec<Token>)
    ensures
        token_views(r@) == token_views(a@) + token_views(b@),
{
    let mut out = a;
    let mut rest = b;
    out.append(&mut rest);
    proof {
        assert(token_views(out@) =~= token_views(a@) + token_views(b@));
    }
    out
}

/// An element: its start tag, its content, its end tag.
pub fn element_of(name: &str, attributes: Vec<Attribute>, inner: Vec<Token>) -> (r: Vec<Token>)
    ensures
        token_views(r@) == element(name@, attribute_views(attributes@), token_views(inner@)),
{
    let mut out: Vec<Token> = Vec::new();
    out.push(Token::Open(String::from_str(name), attributes));
    let mut content = inner;
    out.append(&mut content);
    out.push(Token::Close(String::from_str(name)));
    proof {
        assert(token_views(out@) =~= element(
            name@,
            attribute_views(attributes@),
            token_views(inner@),
        ));
    }
    out
}

/// No attributes.
pub fn no_attributes() -> (r: Vec<Attribute>)
    ensures
        attribute_views(r@) == Seq::<AttributeView>::empty(),
{
    let attributes: Vec<Attribute> = Vec::new();
    proof {
        assert(attribute_views(attributes@) =~= Seq::<AttributeView>::empty());
    }
    attributes
}

/// One attribute.
pub fn one_attribute(name: &str, value: &str) -> (r: Vec<Attribute>)
    ensures
        attribute_views(r@) == seq![AttributeView { name: name@, value: value@ }],
{
    let mut attributes: Vec<Attribute> = Vec::new();
    attributes.push(Attribute { name: String::from_str(name), value: String::from_str(value) });
    proof {
        assert(attribute_views(attributes@) =~= seq![
            AttributeView { name: name@, value: value@ },
        ]);
    }
    attributes
}

/// An element that holds text only.
pub fn leaf_of(name: &str, t: &str) -> (r: Vec<Token>)
    ensures
        token_views(r@) == leaf(name@, t@),
{
    element_of(name, no_attributes(), text_of(t))
}

} // verus!
