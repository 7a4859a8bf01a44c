//! What the proxy answers: a status, headers and a body.

use vstd::prelude::*;
use crate::target::text_of;

verus! {

/// Status of a request without a usable target.
pub const BAD_REQUEST: u16 = 400;

/// Status of a request to a host that is not allowed.
pub const FORBIDDEN: u16 = 403;

/// Status of a request with a method that is not forwarded.
pub const METHOD_NOT_ALLOWED: u16 = 405;

/// Status of a request whose upstream call failed.
pub const BAD_GATEWAY: u16 = 502;

/// Status of every relayed reply, whatever the upstream's own status was.
pub const OK: u16 = 200;

/// One response to the caller.
#[derive(Clone, Debug)]
pub struct Response {
    pub status: u16,
    /// Header names and values, in the order in which they are sent.
    pub headers: Vec<(String, String)>,
    pub body: Vec<u8>,
}

/// A `Response` as plain sequences.
pub struct ResponseView {
    pub status: u16,
    pub headers: Seq<(Seq<char>, Seq<char>)>,
    pub body: Seq<u8>,
}

/// The names and values of a list of headers, as character sequences.
pub open spec fn header_texts(headers: Seq<(String, String)>) -> Seq<(Seq<char>, Seq<char>)> {
    Seq::new(headers.len(), |i: int| (headers[i].0@, headers[i].1@))
}

impl View for Response {
    type V = ResponseView;

    open spec fn view(&self) -> ResponseView {
        ResponseView {
            status: self.status,
            headers: header_texts(self.headers@),
            body: self.body@,
        }
    }
}

/// A response with no header and no body.
pub open spec fn bare(status: u16) -> ResponseView {
    ResponseView { status, headers: Seq::empty(), body: Seq::empty() }
}

/// The content type of a reply that does not state a usable one.
pub open spec fn default_content_type() -> Seq<char> {
    "application/json"@
}

/// The headers of a relayed reply: the four cross-origin headers, then the
/// content type.
pub open spec fn relay_headers(content_type: Seq<char>) -> Seq<(Seq<char>, Seq<char>)> {
    seq![
        ("Access-Control-Allow-Origin"@, "*"@),
        ("Access-Control-Allow-Methods"@, "GET, POST, PUT, DELETE, OPTIONS"@),
        ("Access-Control-Allow-Headers"@, "Content-Type"@),
        ("Access-Control-Max-Age"@, "3600"@),
        ("Content-Type"@, content_type),
    ]
}

/// A byte that may stand in a header value that is read as text: a printable
/// ASCII character, a space or a tab.
pub open spec fn visible_ascii(b: u8) -> bool {
    (32 <= b && b < 127) || b == 9
}

/// The text of a header value: its bytes as characters where every byte is
/// visible ASCII, and nothing otherwise.
pub open spec fn header_text(raw: Seq<u8>) -> Option<Seq<char>> {
    if forall|i: int| 0 <= i < raw.len() ==> visible_ascii(#[trigger] raw[i]) {
        Some(Seq::new(raw.len(), |i: int| raw[i] as char))
    } else {
        None
    }
}

/// Builds a header value with `HeaderValue::from_bytes` and reads it as text
/// with `HeaderValue::to_str`. The first accepts every byte from 32 up but
/// 127, and the tab; the second then accepts only bytes below 127, and hands
/// the bytes back unchanged as a string. So a text comes back exactly when
/// every byte is visible ASCII, and it is those bytes.
#[verifier::external_body]
fn decode_header(raw: &[u8]) -> (text: Option<String>)
    ensures
        text_of(text) == header_text(raw@),
{
    match reqwest::header::HeaderValue::from_bytes(raw) {
        Ok(value) => value.to_str().ok().map(str::to_string),
        Err(_) => None,
    }
}

/// The content type that a relayed reply carries, given the upstream's own
/// header if it sent one.
pub open spec fn content_type_spec(header: Option<Seq<u8>>) -> Seq<char> {
    match header {
        Some(raw) => match header_text(raw) {
            Some(text) => text,
            None => default_content_type(),
        },
        None => default_content_type(),
    }
}

/// The bytes of an optional byte vector.
pub open spec fn bytes_of(raw: Option<Vec<u8>>) -> Option<Seq<u8>> {
    match raw {
        Some(raw) => Some(raw@),
        None => None,
    }
}

/// Picks the content type of a relayed reply: the upstream's, where it sent
/// one that reads as text, and `application/json` otherwise.
pub fn content_type_of(header: &Option<Vec<u8>>) -> (content_type: String)
    ensures
        content_type@ == content_type_spec(bytes_of(*header)),
{
    match header {
        Some(raw) => match decode_header(raw.as_slice()) {
            Some(text) => text,
            None => "application/json".to_owned(),
        },
        None => "application/json".to_owned(),
    }
}

impl Response {
    /// A response with the given status, no header and an empty body.
    pub fn empty(status: u16) -> (response: Response)
        ensures
            response@ == bare(status),
    {
        let response = Response { status, headers: Vec::new(), body: Vec::new() };
        assert(response@.headers =~= Seq::empty());
        response
    }

    /// The relayed reply: status 200, the cross-origin headers with the given
    /// content type, and the body as it came.
    pub fn relay(content_type: String, body: Vec<u8>) -> (response: Response)
        ensures
            response@ == (ResponseView {
                status: OK,
                headers: relay_headers(content_type@),
                body: body@,
            }),
    {
        let mut headers: Vec<(String, String)> = Vec::new();
        headers.push(("Access-Control-Allow-Origin".to_owned(), "*".to_owned()));
        headers.push(
            ("Access-Control-Allow-Methods".to_owned(), "GET, POST, PUT, DELETE, OPTIONS".to_owned()),
        );
        headers.push(("Access-Control-Allow-Headers".to_owned(), "Content-Type".to_owned()));
        headers.push(("Access-Control-Max-Age".to_owned(), "3600".to_owned()));
        headers.push(("Content-Type".to_owned(), content_type));
        let response = Response { status: OK, headers, body };
        assert(response@.headers =~= relay_headers(content_type@));
        response
    }

    /// The value of the first header with the given name, compared exactly.
    pub fn header(&self, name: &str) -> (value: Option<String>)
        ensures
            match value {
                Some(v) => exists|i: int|
                    0 <= i < self.headers@.len() && self.headers@[i].0@ == name@
                        && self.headers@[i].1@ == v@ && forall|j: int|
                        0 <= j < i ==> self.headers@[j].0@ != name@,
                None => forall|j: int| 0 <= j < self.headers@.len() ==> self.headers@[j].0@ != name@,
            },
    {
        let wanted = name.to_owned();
        let mut i: usize = 0;
        while i < self.headers.len()
            invariant
                i <= self.headers@.len(),
                wanted@ == name@,
                forall|j: int| 0 <= j < i ==> self.headers@[j].0@ != name@,
            decreases self.headers.len() - i,
        {
            if self.headers[i].0 == wanted {
                return Some(self.headers[i].1.clone());
            }
            i += 1;
        }
        None
    }
}

} // verus!
