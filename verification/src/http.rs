//! HTTP as plain values: the methods the router tells apart and the
//! responses the proxy writes itself.
use vstd::prelude::*;
use crate::json::{single_member_body, single_member_text, status_message_body, status_message_text};
use crate::structs::ContentType;
use crate::text::{decimal, push_decimal};

verus! {

/// A request method. Every method the router does not tell apart is `Other`.
#[derive(Debug, Clone, Copy, PartialEq, Eq, Structural)]
pub enum Method {
    Get,
    Post,
    Put,
    Patch,
    Delete,
    Other,
}

/// One header line.
#[derive(Debug, Clone)]
pub struct Header {
    pub name: String,
    pub value: String,
}

impl View for Header {
    type V = (Seq<char>, Seq<char>);

    open spec fn view(&self) -> (Seq<char>, Seq<char>) {
        (self.name@, self.value@)
    }
}

/// The body of a response.
#[derive(Debug, Clone)]
pub enum Body {
    Empty,
    Text(String),
    Bytes(Vec<u8>),
}

/// `Body` over mathematical values.
pub enum BodyView {
    Empty,
    Text(Seq<char>),
    Bytes(Seq<u8>),
}

impl View for Body {
    type V = BodyView;

    open spec fn view(&self) -> BodyView {
        match self {
            Body::Empty => BodyView::Empty,
            Body::Text(s) => BodyView::Text(s@),
            Body::Bytes(b) => BodyView::Bytes(b@),
        }
    }
}

/// A response that the proxy itself writes.
#[derive(Debug, Clone)]
pub struct HttpResponse {
    pub status: u16,
    pub headers: Vec<Header>,
    pub body: Body,
}

/// `HttpResponse` over mathematical values.
pub struct ResponseView {
    pub status: u16,
    pub headers: Seq<(Seq<char>, Seq<char>)>,
    pub body: BodyView,
}

/// The views of a sequence of headers.
pub open spec fn header_views(headers: Seq<Header>) -> Seq<(Seq<char>, Seq<char>)> {
    headers.map_values(|h: Header| h@)
}

impl View for HttpResponse {
    type V = ResponseView;

    open spec fn view(&self) -> ResponseView {
        ResponseView {
            status: self.status,
            headers: header_views(self.headers@),
            body: self.body@,
        }
    }
}

impl ResponseView {
    /// Whether the response carries the header `name` with the value `value`.
    pub open spec fn has_header(self, name: Seq<char>, value: Seq<char>) -> bool {
        self.headers.contains((name, value))
    }

    /// Whether the response carries a header `name` at all.
    pub open spec fn names_header(self, name: Seq<char>) -> bool {
        exists|i: int| 0 <= i < self.headers.len() && (#[trigger] self.headers[i]).0 == name
    }
}

/// Every response of the proxy allows any origin.
pub open spec fn allow_origin() -> (Seq<char>, Seq<char>) {
    ("Access-Control-Allow-Origin"@, "*"@)
}

/// Cached tiles and cache misses are not to be kept by the client.
pub open spec fn no_store() -> (Seq<char>, Seq<char>) {
    ("Cache-Control"@, "max-age=0"@)
}

fn header(name: &str, value: &str) -> (h: Header)
    ensures
        h@ == (name@, value@),
{
    Header { name: name.to_owned(), value: value.to_owned() }
}

/// A response without a body that only allows any origin.
pub open spec fn bare_response(status: u16) -> ResponseView {
    ResponseView { status, headers: seq![allow_origin()], body: BodyView::Empty }
}

/// An answer without a body: the status, and any origin allowed.
pub fn error_response(status_code: u16) -> (r: HttpResponse)
    ensures
        r@ == bare_response(status_code),
{
    let mut headers: Vec<Header> = Vec::new();
    headers.push(header("Access-Control-Allow-Origin", "*"));
    let r = HttpResponse { status: status_code, headers, body: Body::Empty };
    assert(r@.headers =~= seq![allow_origin()]);
    r
}

/// A response with a text body of the given content type.
pub open spec fn text_response(status: u16, content_type: Seq<char>, body: Seq<char>) -> ResponseView {
    ResponseView {
        status,
        headers: seq![("content-type"@, content_type), allow_origin()],
        body: BodyView::Text(body),
    }
}

/// A response with `body` as its text and the content type `ct`.
pub fn response_with_type(body: String, status_code: u16, ct: &str) -> (r: HttpResponse)
    ensures
        r@ == text_response(status_code, ct@, body@),
{
    let mut headers: Vec<Header> = Vec::new();
    headers.push(header("content-type", ct));
    headers.push(header("Access-Control-Allow-Origin", "*"));
    let r = HttpResponse { status: status_code, headers, body: Body::Text(body) };
    assert(r@.headers =~= seq![("content-type"@, ct@), allow_origin()]);
    r
}

/// An answer with `body` as its text, declared as JSON.
pub fn response_with_body_and_code(body: String, status_code: u16) -> (r: HttpResponse)
    ensures
        r@ == text_response(status_code, ContentType::ApplicationJson.value(), body@),
{
    response_with_type(body, status_code, ContentType::ApplicationJson.as_ref())
}

/// The JSON report `{"message": .., "status": ..}` with the same status on
/// the response line.
pub open spec fn status_report(status: u16, message: Seq<char>) -> ResponseView {
    text_response(
        status,
        ContentType::ApplicationJson.value(),
        status_message_text(status, message),
    )
}

/// A JSON report of `message` under `status`.
pub fn status_response(status: u16, message: &str) -> (r: HttpResponse)
    ensures
        r@ == status_report(status, message@),
{
    response_with_body_and_code(status_message_body(status, message), status)
}

/// The report of an endpoint that failed: status 500 with the error's text.
pub fn error_response_endpoint(endpoint: &str, message: &str) -> (r: HttpResponse)
    ensures
        r@ == status_report(500, message@),
{
    status_response(500, message)
}

/// The sentence that reports an unknown datasource.
pub open spec fn not_found_text(datasource_id: Seq<char>) -> Seq<char> {
    "DataSource id '"@ + datasource_id + "' not found"@
}

/// The answer of a master for a datasource it does not know: 404.
pub fn worker_not_found_response(datasource_id: &str, ct: &str) -> (r: HttpResponse)
    ensures
        r@ == text_response(404, ct@, status_message_text(404, not_found_text(datasource_id@))),
{
    let mut message = String::from_str("DataSource id '");
    message.append(datasource_id);
    message.append("' not found");
    response_with_type(status_message_body(404, message.as_str()), 404, ct)
}

/// The sentence that reports a peer that did not answer in time.
pub open spec fn timeout_text(seconds: u64) -> Seq<char> {
    "Timeout: no response in "@ + decimal(seconds as nat) + " seconds."@
}

/// The answer for a peer that did not reply within `timeout` seconds.
pub fn timeout_response(ct: &str, timeout: u64) -> (r: HttpResponse)
    ensures
        r@ == text_response(503, ct@, timeout_text(timeout)),
{
    let mut body = String::from_str("Timeout: no response in ");
    push_decimal(&mut body, timeout);
    body.append(" seconds.");
    assert(body@ =~= timeout_text(timeout));
    response_with_type(body, 503, ct)
}

/// The answer for a peer that could not be reached: `error` is the
/// transport's own description.
pub fn unreachable_response(ct: &str, error: &str) -> (r: HttpResponse)
    ensures
        r@ == text_response(503, ct@, single_member_text("error"@, error@)),
{
    response_with_type(single_member_body("error", error), 503, ct)
}

/// Whether a tile starts with the gzip magic bytes `1f 8b 08`.
pub open spec fn gzip_magic(tile: Seq<u8>) -> bool {
    tile.len() >= 3 && tile[0] == 0x1f && tile[1] == 0x8b && tile[2] == 0x08
}

/// Whether a tile starts with the gzip magic bytes.
pub fn is_gzip(tile: &Vec<u8>) -> (r: bool)
    ensures
        r == gzip_magic(tile@),
{
    tile.len() >= 3 && tile[0] == 0x1f && tile[1] == 0x8b && tile[2] == 0x08
}

/// A tile as it is served: status 200, the content type, any origin, no
/// client caching, and `Content-Encoding: gzip` exactly for a gzip body.
pub open spec fn served_tile(tile: Seq<u8>, content_type: Seq<char>) -> ResponseView {
    let common = seq![("Content-type"@, content_type), allow_origin(), no_store()];
    ResponseView {
        status: 200,
        headers: if gzip_magic(tile) {
            common.push(("Content-Encoding"@, "gzip"@))
        } else {
            common
        },
        body: BodyView::Bytes(tile),
    }
}

/// The answer that serves a tile with its content type.
pub fn tile_response(tile: Vec<u8>, content_type: &str) -> (r: HttpResponse)
    ensures
        r@ == served_tile(tile@, content_type@),
{
    let gzip = is_gzip(&tile);
    let mut headers: Vec<Header> = Vec::new();
    headers.push(header("Content-type", content_type));
    headers.push(header("Access-Control-Allow-Origin", "*"));
    headers.push(header("Cache-Control", "max-age=0"));
    if gzip {
        headers.push(header("Content-Encoding", "gzip"));
    }
    let r = HttpResponse { status: 200, headers, body: Body::Bytes(tile) };
    assert(r@.headers =~= served_tile(tile@, content_type@).headers);
    r
}

/// A response without content: length zero, any origin, no client caching.
pub open spec fn hollow_response(status: u16) -> ResponseView {
    ResponseView {
        status,
        headers: seq![("Content-Length"@, "0"@), allow_origin(), no_store()],
        body: BodyView::Empty,
    }
}

fn hollow(status: u16) -> (r: HttpResponse)
    ensures
        r@ == hollow_response(status),
{
    let mut headers: Vec<Header> = Vec::new();
    headers.push(header("Content-Length", "0"));
    headers.push(header("Access-Control-Allow-Origin", "*"));
    headers.push(header("Cache-Control", "max-age=0"));
    let r = HttpResponse { status, headers, body: Body::Empty };
    assert(r@.headers =~= hollow_response(status).headers);
    r
}

/// The answer for a tile that no cache holds and no worker may render: 204.
pub fn no_content_response() -> (r: HttpResponse)
    ensures
        r@ == hollow_response(204),
{
    hollow(204)
}

/// The answer for a tile whose file on disk is empty: 400.
pub fn empty_file_response() -> (r: HttpResponse)
    ensures
        r@ == hollow_response(400),
{
    hollow(400)
}

/// A tile is served with `Content-Encoding: gzip` if and only if it starts
/// with the bytes `1f 8b 08`.
pub proof fn lemma_gzip_header(tile: Seq<u8>, content_type: Seq<char>)
    ensures
        served_tile(tile, content_type).names_header("Content-Encoding"@) <==> gzip_magic(tile),
        gzip_magic(tile) ==> served_tile(tile, content_type).has_header(
            "Content-Encoding"@,
            "gzip"@,
        ),
        served_tile(tile, content_type).body == BodyView::Bytes(tile),
        served_tile(tile, content_type).status == 200,
{
    let r = served_tile(tile, content_type);
    reveal_strlit("Content-Encoding");
    reveal_strlit("Content-type");
    reveal_strlit("Access-Control-Allow-Origin");
    reveal_strlit("Cache-Control");
    if gzip_magic(tile) {
        assert(r.headers[3] == ("Content-Encoding"@, "gzip"@));
    } else {
        assert("Content-type"@[8] != "Content-Encoding"@[8]);
        assert("Access-Control-Allow-Origin"@[0] != "Content-Encoding"@[0]);
        assert("Cache-Control"@[1] != "Content-Encoding"@[1]);
        assert forall|i: int| 0 <= i < r.headers.len() implies (#[trigger] r.headers[i]).0
            != "Content-Encoding"@ by {}
    }
}

} // verus!
