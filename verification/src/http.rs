//! What a request to the release catalog looks like, and how the status of
//! a response is read.
//!
//! The headers of a request are held in the header map of `reqwest`. The
//! map is made and filled through two functions whose contracts the
//! verifier takes on trust; everything else here is proved from them.

use vstd::prelude::*;
use reqwest::header::{HeaderMap, HeaderValue};
use crate::error::{Error, ErrorView};
use crate::text::join;

verus! {

/// The header map of `reqwest`, which is the one of the `http` crate. To
/// the verifier a value of it is opaque; what it holds is `header_entries`.
#[verifier::external_type_specification]
#[verifier::external_body]
#[verifier::reject_recursive_types(T)]
pub struct ExHeaderMap<T>(reqwest::header::HeaderMap<T>);

/// The header value of `reqwest`, which is what a header map holds.
#[verifier::external_type_specification]
#[verifier::external_body]
pub struct ExHeaderValue(reqwest::header::HeaderValue);

/// What a header map holds: for each header name in it, the text of the
/// value that is sent under that name.
pub uninterp spec fn header_entries(headers: HeaderMap) -> Map<Seq<char>, Seq<char>>;

/// More headers than any request of this library carries, and far fewer
/// than a header map takes.
pub const MANY_HEADERS: usize = 1024;

/// A GET request: where it goes and the headers it carries.
#[derive(Debug, PartialEq, Eq)]
pub struct HttpRequest {
    pub url: String,
    pub headers: HeaderMap,
}

/// An [`HttpRequest`] as a sequence of characters and a map from header
/// names to values.
pub struct HttpRequestView {
    pub url: Seq<char>,
    pub headers: Map<Seq<char>, Seq<char>>,
}

impl View for HttpRequest {
    type V = HttpRequestView;

    open spec fn view(&self) -> HttpRequestView {
        HttpRequestView { url: self.url@, headers: header_entries(self.headers) }
    }
}

/// The name of the header that names the client.
pub const USER_AGENT: &'static str = "user-agent";

/// The name of the header that carries the credential.
pub const AUTHORIZATION: &'static str = "authorization";

/// The name this client gives itself in every request.
pub const CLIENT_NAME: &'static str = "reqwest";

/// What stands before the credential in its header.
pub const BEARER_PREFIX: &'static str = "Bearer ";

/// The first of the statuses that mean success.
pub const STATUS_SUCCESS_FIRST: u16 = 200;

/// The last of the statuses that mean success.
pub const STATUS_SUCCESS_LAST: u16 = 299;

/// One of the two statuses by which the catalog says that the rate limit
/// was hit.
pub const STATUS_FORBIDDEN: u16 = 403;

/// The other status by which the catalog says that the rate limit was hit.
pub const STATUS_TOO_MANY_REQUESTS: u16 = 429;

/// A character that may stand in the value of a header: the horizontal tab
/// and everything from the space upwards but the delete character.
pub open spec fn is_header_value_char(c: char) -> bool {
    (c as int >= 32 && c as int != 127) || c == '\t'
}

/// A text that may be sent as the value of a header.
pub open spec fn is_header_value(value: Seq<char>) -> bool {
    forall|i: int| 0 <= i < value.len() ==> is_header_value_char(#[trigger] value[i])
}

/// Makes an empty header map with `reqwest::header::HeaderMap::new`.
#[verifier::external_body]
fn new_header_map() -> (headers: HeaderMap)
    ensures
        (header_entries(headers) == Map::<Seq<char>, Seq<char>>::empty()),
{
    HeaderMap::new()
}

/// Puts `value` under `name` with `reqwest::header::HeaderMap::insert`,
/// where `reqwest::header::HeaderValue::from_str` makes a header value of
/// it, and says whether it did.
///
/// `from_str` walks the bytes of the text and refuses it at the first byte
/// below 32 other than the tab, or equal to 127. The bytes of a character
/// beyond ASCII are all 128 or more, so a text is taken exactly if each of
/// its characters is one that `is_header_value_char` admits.
///
/// `insert` sets the value under the name and drops every value that stood
/// under it before; the other names keep theirs. It panics for a name that
/// is no header name and for a map that cannot grow, which happens first
/// at 24576 entries: the two names of this library are header names, and
/// the map is asked to hold fewer than `MANY_HEADERS`.
#[verifier::external_body]
fn put_header(headers: &mut HeaderMap, name: &'static str, value: &str) -> (put: bool)
    requires
        name@ == USER_AGENT@ || name@ == AUTHORIZATION@,
        header_entries(*old(headers)).dom().finite(),
        header_entries(*old(headers)).dom().len() < MANY_HEADERS,
    ensures
        put == is_header_value(value@),
        header_entries(*final(headers)) == if put {
            header_entries(*old(headers)).insert(name@, value@)
        } else {
            header_entries(*old(headers))
        },
{
    match HeaderValue::from_str(value) {
        Ok(value) => {
            headers.insert(name, value);
            true
        },
        Err(_) => false,
    }
}

/// The headers of a request made with the credential `token`: the client's
/// name always, and the credential as a bearer token where one is given and
/// can be sent as a header value. A credential that cannot be sent is left
/// out; the request is then made without it.
pub open spec fn headers_for(token: Option<Seq<char>>) -> Map<Seq<char>, Seq<char>> {
    let always = Map::<Seq<char>, Seq<char>>::empty().insert(USER_AGENT@, CLIENT_NAME@);
    match token {
        Some(t) => if is_header_value(BEARER_PREFIX@ + t) {
            always.insert(AUTHORIZATION@, BEARER_PREFIX@ + t)
        } else {
            always
        },
        None => always,
    }
}

/// Builds the headers that every request to the catalog carries.
pub fn build_headers(token: Option<&str>) -> (headers: HeaderMap)
    ensures
        header_entries(headers) == headers_for(token.deep_view()),
{
    let mut headers = new_header_map();
    proof {
        reveal_strlit("reqwest");
        assert(is_header_value(CLIENT_NAME@));
    }
    put_header(&mut headers, USER_AGENT, CLIENT_NAME);
    match token {
        Some(t) => {
            let value = join(BEARER_PREFIX, t);
            put_header(&mut headers, AUTHORIZATION, value.as_str());
        },
        None => {},
    }
    headers
}

/// The status is one of the success statuses, 200 to 299.
pub open spec fn is_success_status(status: u16) -> bool {
    STATUS_SUCCESS_FIRST <= status && status <= STATUS_SUCCESS_LAST
}

/// What the status of a response means for the request: `None` for a
/// success status, whose body is to be read, else the failure.
pub open spec fn status_failure(status: u16) -> Option<ErrorView> {
    if is_success_status(status) {
        None
    } else if status == STATUS_FORBIDDEN || status == STATUS_TOO_MANY_REQUESTS {
        Some(ErrorView::RateLimited(status))
    } else {
        Some(ErrorView::Http(status))
    }
}

/// Reads the status of a response. Every success status, 200 to 299, lets
/// the body be read; 403 and 429 mean that the rate limit was hit; every
/// other status is a failure that carries the status.
pub fn check_status(status: u16) -> (checked: Result<(), Error>)
    ensures
        match checked {
            Ok(()) => status_failure(status) is None,
            Err(e) => status_failure(status) == Some(e@),
        },
{
    if STATUS_SUCCESS_FIRST <= status && status <= STATUS_SUCCESS_LAST {
        Ok(())
    } else if status == STATUS_FORBIDDEN || status == STATUS_TOO_MANY_REQUESTS {
        Err(Error::RateLimited(status))
    } else {
        Err(Error::Http(status))
    }
}

} // verus!
