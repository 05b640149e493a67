//! The HTML shell of a page: its state as JSON, made safe for a `<script>`
//! element and set into a fixed document.

use crate::json::{json_optional_string, json_string, member_views, pretty_object};
use crate::json::{optional_string_value, pretty_object_text, string_value};
use crate::text::{lemma_utf8_occurs, occurs_at, occurs_in};
use serde_json::Value;
use vstd::prelude::*;
use vstd::utf8::encode_utf8;

verus! {

/// What one character becomes when text is made safe for a `<script>`
/// element: `>`, `<` and `&` become the JSON escapes of their code points,
/// every other character stays.
pub open spec fn escape_char(c: char) -> Seq<char> {
    if c == '>' {
        "\\u003E"@
    } else if c == '<' {
        "\\u003C"@
    } else if c == '&' {
        "\\u0026"@
    } else {
        seq![c]
    }
}

/// The escaped form of a text: the escaped forms of its characters, in order.
pub open spec fn escape_text(s: Seq<char>) -> Seq<char>
    decreases s.len(),
{
    if s.len() == 0 {
        Seq::empty()
    } else {
        escape_text(s.drop_last()) + escape_char(s.last())
    }
}

/// Whether a text can stand inside a `<script>` element as it is: it holds
/// none of `<`, `>` and `&`.
pub open spec fn is_script_safe(s: Seq<char>) -> bool {
    forall|i: int| 0 <= i < s.len() ==> s[i] != '<' && s[i] != '>' && s[i] != '&'
}

/// Whatever the text, its escaped form holds none of `<`, `>` and `&`.
pub proof fn lemma_escape_is_safe(s: Seq<char>)
    ensures
        is_script_safe(escape_text(s)),
    decreases s.len(),
{
    if s.len() > 0 {
        lemma_escape_is_safe(s.drop_last());
        reveal_strlit("\\u003E");
        reveal_strlit("\\u003C");
        reveal_strlit("\\u0026");
        let head = escape_text(s.drop_last());
        let tail = escape_char(s.last());
        assert(is_script_safe(tail));
        assert forall|i: int| 0 <= i < (head + tail).len() implies (head + tail)[i] != '<' && (head
            + tail)[i] != '>' && (head + tail)[i] != '&' by {
            if i >= head.len() {
                assert((head + tail)[i] == tail[i - head.len()]);
            }
        }
    }
}

/// Escaping leaves a text alone that holds none of `<`, `>` and `&`.
pub proof fn lemma_escape_keeps_safe_text(s: Seq<char>)
    requires
        is_script_safe(s),
    ensures
        escape_text(s) == s,
    decreases s.len(),
{
    if s.len() > 0 {
        lemma_escape_keeps_safe_text(s.drop_last());
        assert(s.drop_last().push(s.last()) == s);
    }
}

/// Escaping twice gives what escaping once gives.
pub proof fn lemma_escape_idempotent(s: Seq<char>)
    ensures
        escape_text(escape_text(s)) == escape_text(s),
{
    lemma_escape_is_safe(s);
    lemma_escape_keeps_safe_text(escape_text(s));
}

/// Makes `s` safe for embedding in a `<script>` element.
pub fn escape(s: &str) -> (r: String)
    ensures
        r@ == escape_text(s@),
        is_script_safe(r@),
{
    let mut out = String::new();
    for c in it: s.chars()
        invariant
            it.seq() == s@,
            out@ == escape_text(s@.take(it.index())),
    {
        proof {
            assert(s@.take(it.index() + 1).drop_last() == s@.take(it.index()));
        }
        if c == '>' {
            out.append("\\u003E");
        } else if c == '<' {
            out.append("\\u003C");
        } else if c == '&' {
            out.append("\\u0026");
        } else {
            out.push(c);
        }
    }
    proof {
        assert(s@.take(s@.len() as int) == s@);
        lemma_escape_is_safe(s@);
    }
    out
}

/// The document up to the title.
pub const DOCUMENT_HEAD: &'static str =
    "<!DOCTYPE html>\n<html>\n    <head>\n        <meta charset=\"utf-8\" />\n        <title>";

/// The document between the title and the page's state.
pub const DOCUMENT_MIDDLE: &'static str =
    "</title>\n        <meta name=\"viewport\" content=\"width=device-width\" />\n        <script id=\"data\" type=\"application/json\">\n";

/// The document after the page's state.
pub const DOCUMENT_TAIL: &'static str =
    "\n        </script>\n    </head>\n    <body>\n        <div id=\"main\"></div>\n        <script src='/static/elm.js'></script>\n    </body>\n</html>";

/// The text of the document that carries `title` and, in its data block,
/// `data`.
pub open spec fn document_text(title: Seq<char>, data: Seq<char>) -> Seq<char> {
    DOCUMENT_HEAD@ + title + DOCUMENT_MIDDLE@ + data + DOCUMENT_TAIL@
}

/// The document as it goes out: its text in UTF-8.
pub open spec fn document_bytes(title: Seq<char>, data: Seq<char>) -> Seq<u8> {
    encode_utf8(document_text(title, data))
}

/// Every document begins with the doctype, carries the title between the
/// title tags and the data inside the data block, each exactly as given; and
/// so do its bytes.
pub proof fn lemma_document_shape(title: Seq<char>, data: Seq<char>)
    ensures
        occurs_at("<!DOCTYPE html>"@, document_text(title, data), 0),
        occurs_in("<title>"@ + title + "</title>"@, document_text(title, data)),
        occurs_in(
            "<script id=\"data\" type=\"application/json\">\n"@ + data + "\n        </script>"@,
            document_text(title, data),
        ),
        occurs_at(encode_utf8("<!DOCTYPE html>"@), document_bytes(title, data), 0),
        occurs_in(encode_utf8("<title>"@ + title + "</title>"@), document_bytes(title, data)),
        occurs_in(
            encode_utf8(
                "<script id=\"data\" type=\"application/json\">\n"@ + data
                    + "\n        </script>"@,
            ),
            document_bytes(title, data),
        ),
{
    reveal_strlit(
        "<!DOCTYPE html>\n<html>\n    <head>\n        <meta charset=\"utf-8\" />\n        <title>",
    );
    reveal_strlit(
        "</title>\n        <meta name=\"viewport\" content=\"width=device-width\" />\n        <script id=\"data\" type=\"application/json\">\n",
    );
    reveal_strlit(
        "\n        </script>\n    </head>\n    <body>\n        <div id=\"main\"></div>\n        <script src='/static/elm.js'></script>\n    </body>\n</html>",
    );
    reveal_strlit("<!DOCTYPE html>");
    reveal_strlit("<title>");
    reveal_strlit("</title>");
    reveal_strlit("<script id=\"data\" type=\"application/json\">\n");
    reveal_strlit("\n        </script>");
    let text = document_text(title, data);
    let head = DOCUMENT_HEAD@;
    let middle = DOCUMENT_MIDDLE@;
    let doctype = "<!DOCTYPE html>"@;
    let titled = "<title>"@ + title + "</title>"@;
    let block = "<script id=\"data\" type=\"application/json\">\n"@ + data
        + "\n        </script>"@;
    let title_at: int = head.len() - 7;
    let block_at: int = head.len() + title.len() + middle.len() - 43;
    assert(text.subrange(0, 15) == doctype);
    assert(text.subrange(title_at, title_at + titled.len()) == titled);
    assert(text.subrange(block_at, block_at + block.len()) == block);
    assert(occurs_at(doctype, text, 0));
    assert(occurs_at(titled, text, title_at));
    assert(occurs_at(block, text, block_at));
    lemma_utf8_occurs(doctype, text, 0);
    assert(text.take(0) == Seq::<char>::empty());
    lemma_utf8_occurs(titled, text, title_at);
    lemma_utf8_occurs(block, text, block_at);
}

/// Sets `title` and `data` into the document, both as they are: what goes
/// into the data block is made safe for it beforehand, by [`escape`].
pub fn document(title: &str, data: &str) -> (bytes: Vec<u8>)
    ensures
        bytes@ == document_bytes(title@, data@),
{
    let mut text = String::new();
    text.append(DOCUMENT_HEAD);
    text.append(title);
    text.append(DOCUMENT_MIDDLE);
    text.append(data);
    text.append(DOCUMENT_TAIL);
    text.as_str().as_bytes_vec()
}

/// Why a page could not be built or rendered.
#[derive(Debug)]
pub enum PageError {
    /// The serializer refused the page's state.
    Serialize(serde_json::Error),
}

/// One page as the client receives it: which page it is, its state, and how
/// the browser should title and address it.
#[derive(Debug)]
pub struct PageSpec {
    /// The identifier by which the client picks the page's code.
    pub id: String,
    /// The page's state.
    pub config: Value,
    /// The document's title.
    pub title: String,
    /// The address of the page, where it has one.
    pub url: Option<String>,
    /// The address that takes the place of the current history entry, where
    /// one should.
    pub replace: Option<String>,
}

impl PageSpec {
    /// The page `self` with `url` as its address.
    pub open spec fn spec_with_url(self, url: String) -> Self {
        PageSpec { url: Some(url), ..self }
    }

    /// The page `self` with `default` as its address, unless it has one.
    pub open spec fn spec_with_default_url(self, default: String) -> Self {
        if self.url is None {
            PageSpec { url: Some(default), ..self }
        } else {
            self
        }
    }

    /// The page `self` with `url` as the address that replaces the current
    /// history entry.
    pub open spec fn spec_with_replace(self, url: String) -> Self {
        PageSpec { replace: Some(url), ..self }
    }

    /// The members of the JSON object that stands for the page, in the order
    /// in which they are written.
    pub open spec fn members(&self) -> Seq<(Seq<char>, Value)> {
        seq![
            ("id"@, string_value(self.id@)),
            ("config"@, self.config),
            ("title"@, string_value(self.title@)),
            ("url"@, optional_string_value(self.url.deep_view())),
            ("replace"@, optional_string_value(self.replace.deep_view())),
        ]
    }

    /// The pretty-printed JSON of the page; `None` where the serializer
    /// refuses it.
    pub open spec fn json(&self) -> Option<Seq<char>> {
        pretty_object_text(self.members())
    }

    /// A page without addresses from what a page type gives: its identifier,
    /// the outcome of serializing it, and a title. Fails exactly where the
    /// serialization did, with its error.
    pub fn from_config(
        id: &str,
        config: Result<Value, serde_json::Error>,
        title: &str,
    ) -> (r: Result<PageSpec, PageError>)
        ensures
            config matches Ok(state) ==> (r matches Ok(page) && page.id@ == id@ && page.config
                == state && page.title@ == title@ && page.url is None && page.replace is None),
            config matches Err(cause) ==> (r matches Err(PageError::Serialize(e)) && e == cause),
    {
        match config {
            Ok(state) => Ok(
                PageSpec {
                    id: id.to_owned(),
                    config: state,
                    title: title.to_owned(),
                    url: None,
                    replace: None,
                },
            ),
            Err(cause) => Err(PageError::Serialize(cause)),
        }
    }

    /// Serializes the page, escapes the JSON and sets it, with the title,
    /// into the document. Fails exactly where the serializer refuses the page.
    pub fn render(&self) -> (r: Result<Vec<u8>, PageError>)
        ensures
            r matches Ok(bytes) ==> (self.json() matches Some(json) && bytes@ == document_bytes(
                self.title@,
                escape_text(json),
            )),
            r is Err ==> self.json() is None,
    {
        let id = json_string(self.id.as_str());
        let title = json_string(self.title.as_str());
        let url = json_optional_string(&self.url);
        let replace = json_optional_string(&self.replace);
        let members = vec![
            ("id", &id),
            ("config", &self.config),
            ("title", &title),
            ("url", &url),
            ("replace", &replace),
        ];
        proof {
            assert(member_views(members@) =~= self.members());
        }
        render_json(self.title.as_str(), pretty_object(&members))
    }

    /// Sets the page's address, whatever it was.
    pub fn with_url(self, url: String) -> (r: Self)
        ensures
            r == self.spec_with_url(url),
    {
        let mut page = self;
        page.url = Some(url);
        page
    }

    /// Sets the page's address unless one is set already.
    pub fn with_default_url(self, default: String) -> (r: Self)
        ensures
            r == self.spec_with_default_url(default),
    {
        let mut page = self;
        if page.url.is_none() {
            page.url = Some(default);
        }
        page
    }

    /// Sets the address that replaces the current history entry, whatever it
    /// was.
    pub fn with_replace(self, url: String) -> (r: Self)
        ensures
            r == self.spec_with_replace(url),
    {
        let mut page = self;
        page.replace = Some(url);
        page
    }
}

/// `with_url` always sets the address, `with_default_url` only where none is
/// set: after `with_url` the address is the one given, whatever was there;
/// `with_default_url` leaves a page alone that has an address, and does what
/// `with_url` does to one that has none. Neither touches another field.
pub proof fn lemma_url_builders(page: PageSpec, url: String, other: String)
    ensures
        page.spec_with_url(url).url == Some(url),
        page.spec_with_url(other).spec_with_url(url) == page.spec_with_url(url),
        page.url is Some ==> page.spec_with_default_url(url) == page,
        page.url is None ==> page.spec_with_default_url(url) == page.spec_with_url(url),
        page.spec_with_url(other).spec_with_default_url(url) == page.spec_with_url(other),
        page.spec_with_default_url(other).spec_with_default_url(url) == page.spec_with_default_url(
            other,
        ),
{
}

/// The document for a page with this title, from the outcome of serializing
/// the page: the JSON is escaped and set into the document; a failure is
/// handed on.
pub fn render_json(
    title: &str,
    json: Result<String, serde_json::Error>,
) -> (r: Result<Vec<u8>, PageError>)
    ensures
        json matches Ok(text) ==> (r matches Ok(bytes) && bytes@ == document_bytes(
            title@,
            escape_text(text@),
        )),
        json matches Err(cause) ==> (r matches Err(PageError::Serialize(e)) && e == cause),
{
    match json {
        Ok(text) => {
            let data = escape(text.as_str());
            Ok(document(title, data.as_str()))
        },
        Err(cause) => Err(PageError::Serialize(cause)),
    }
}

/// What a type provides to be shown as a page: an identifier that never
/// changes, and its state as JSON.
pub trait Page {
    /// The identifier by which the client picks the page's code.
    const ID: &'static str;

    /// The state of the page as JSON, or why it cannot be written as JSON.
    fn config(&self) -> Result<Value, serde_json::Error>;

    /// The page with this title and no addresses.
    fn with_title(&self, title: &str) -> (r: Result<PageSpec, PageError>)
        ensures
            r matches Ok(page) ==> (page.id@ == Self::ID@ && page.title@ == title@ && page.url
                is None && page.replace is None),
    {
        PageSpec::from_config(Self::ID, self.config(), title)
    }
}

} // verus!
