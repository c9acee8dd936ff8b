//! The HTTP path: the session that the site's landing page hands out, and the
//! requests that the site's search endpoint expects.

use vstd::prelude::*;
use crate::error::ScrapeError;
use crate::json::Json;
use crate::record::{is_count, is_text};
use crate::selector::{attr_value, find, find_spec, read_attribute};

verus! {

/// The meta tag that carries the anti-forgery token on the landing page.
pub const CSRF_TOKEN_SELECTOR: &'static str = "meta[name='csrf-token']";

/// The path of the search endpoint below the site's base URL.
pub const SEARCH_PATH: &'static str = "/archivio/get-animes";

/// The anti-forgery token of the landing page `page`: the `content` of its
/// first `csrf-token` meta tag.
pub open spec fn csrf_token_spec(page: Seq<char>) -> Result<Seq<char>, ScrapeError> {
    match find_spec(page, CSRF_TOKEN_SELECTOR@) {
        Ok(meta) => match attr_value(meta.attrs, "content"@) {
            Some(v) => Ok(v),
            None => Err(ScrapeError::AttributeMissing),
        },
        Err(e) => Err(e),
    }
}

/// The anti-forgery token of the landing page `html`: the `content` of its
/// first `csrf-token` meta tag. A page without the tag is `NotFound`; a tag
/// without `content` is `AttributeMissing`.
pub fn get_csrf_token(html: &str) -> (r: Result<String, ScrapeError>)
    ensures
        r matches Ok(t) ==> csrf_token_spec(html@) == Ok::<Seq<char>, ScrapeError>(t@),
        r matches Err(e) ==> csrf_token_spec(html@) == Err::<Seq<char>, ScrapeError>(e),
{
    let meta = find(html, CSRF_TOKEN_SELECTOR)?;
    read_attribute(&meta, "content")
}

/// What opening a session on the landing page `page` reports: the token, or
/// `CsrfTokenMissing` where the page carries no tag or the tag no value.
pub open spec fn session_token_spec(page: Seq<char>) -> Result<Seq<char>, ScrapeError> {
    match csrf_token_spec(page) {
        Err(ScrapeError::NotFound) | Err(ScrapeError::AttributeMissing) => Err(
            ScrapeError::CsrfTokenMissing,
        ),
        other => other,
    }
}

/// What one visit of the landing page hands out: the anti-forgery token and
/// the raw bytes of each `Set-Cookie` header value, for this run alone.
#[derive(Debug)]
pub struct Session {
    pub csrf_token: String,
    pub set_cookies: Vec<Vec<u8>>,
}

/// Opens a session from the landing page's body and its `Set-Cookie` header
/// values. A page without the token, or whose token tag holds no value, is
/// `CsrfTokenMissing`.
pub fn open_session(landing_page: &str, set_cookies: Vec<Vec<u8>>) -> (r: Result<Session, ScrapeError>)
    ensures
        r matches Ok(s) ==> session_token_spec(landing_page@) == Ok::<Seq<char>, ScrapeError>(
            s.csrf_token@,
        ) && s.set_cookies == set_cookies,
        r matches Err(e) ==> session_token_spec(landing_page@) == Err::<Seq<char>, ScrapeError>(e),
{
    match get_csrf_token(landing_page) {
        Ok(csrf_token) => Ok(Session { csrf_token, set_cookies }),
        Err(ScrapeError::NotFound) | Err(ScrapeError::AttributeMissing) => Err(
            ScrapeError::CsrfTokenMissing,
        ),
        Err(e) => Err(e),
    }
}

/// `h` is the header `name: value`.
pub open spec fn is_header(h: (String, String), name: Seq<char>, value: Seq<char>) -> bool {
    h.0@ == name && h.1@ == value
}

/// The header pair `name: value`.
fn header(name: &str, value: &str) -> (r: (String, String))
    ensures
        is_header(r, name@, value@),
{
    (String::from_str(name), String::from_str(value))
}

impl Session {
    /// The headers that every request of this session carries: the marker
    /// of a script request, the anti-forgery token and the body's type.
    pub fn headers(&self) -> (r: Vec<(String, String)>)
        ensures
            r@.len() == 3,
            is_header(r@[0], "X-Requested-With"@, "XMLHttpRequest"@),
            is_header(r@[1], "X-CSRF-TOKEN"@, self.csrf_token@),
            is_header(r@[2], "Content-Type"@, "application/json"@),
    {
        let mut r: Vec<(String, String)> = Vec::new();
        r.push(header("X-Requested-With", "XMLHttpRequest"));
        r.push(header("X-CSRF-TOKEN", self.csrf_token.as_str()));
        r.push(header("Content-Type", "application/json"));
        r
    }
}

/// `j` is `false`.
pub open spec fn is_false(j: Json) -> bool {
    j matches Json::Bool(b) && !b
}

/// `body` is the search query for `term`, with every filter in its default
/// state.
pub open spec fn search_body_spec(body: Json, term: Seq<char>) -> bool {
    body matches Json::Object(e) && {
        let e = e@;
        &&& e.len() == 9
        &&& e[0].0@ == "title"@ && is_text(e[0].1, term)
        &&& e[1].0@ == "type"@ && is_false(e[1].1)
        &&& e[2].0@ == "year"@ && is_false(e[2].1)
        &&& e[3].0@ == "order"@ && is_false(e[3].1)
        &&& e[4].0@ == "status"@ && is_false(e[4].1)
        &&& e[5].0@ == "genres"@ && is_false(e[5].1)
        &&& e[6].0@ == "offset"@ && is_count(e[6].1, 0)
        &&& e[7].0@ == "dubbed"@ && is_false(e[7].1)
        &&& e[8].0@ == "season"@ && is_false(e[8].1)
    }
}

/// The body of the search request for `term`.
pub fn search_request_body(term: &str) -> (r: Json)
    ensures
        search_body_spec(r, term@),
{
    let mut e: Vec<(String, Json)> = Vec::new();
    e.push((String::from_str("title"), Json::Str(String::from_str(term))));
    e.push((String::from_str("type"), Json::Bool(false)));
    e.push((String::from_str("year"), Json::Bool(false)));
    e.push((String::from_str("order"), Json::Bool(false)));
    e.push((String::from_str("status"), Json::Bool(false)));
    e.push((String::from_str("genres"), Json::Bool(false)));
    e.push((String::from_str("offset"), Json::Number(0)));
    e.push((String::from_str("dubbed"), Json::Bool(false)));
    e.push((String::from_str("season"), Json::Bool(false)));
    Json::Object(e)
}

/// The URL of the search endpoint of the site at `base_url`.
pub fn search_url(base_url: &str) -> (r: String)
    ensures
        r@ == base_url@ + SEARCH_PATH@,
{
    String::from_str(base_url).concat(SEARCH_PATH)
}

} // verus!
