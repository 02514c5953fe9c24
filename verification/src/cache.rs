//! The cache-only front end: tiles from the cache database and static files,
//! nothing else.
use vstd::prelude::*;
use crate::http::{
    Body, BodyView, Header, HttpResponse, Method, ResponseView, allow_origin, header_views,
    status_report, status_response,
};
use crate::json::{single_member_body, single_member_text};
use crate::structs::EndPoints;
use crate::text::{split, split_str, starts_with, str_eq, str_views};
use crate::utils::{extension_of, file_extension};

verus! {

/// The handler of a request on the cache-only front end.
#[derive(Debug, Clone, Copy, PartialEq, Eq, Structural)]
pub enum CacheRoute {
    /// A tile from the cache database.
    Tile,
    /// A file below the working directory.
    Static,
    /// The request is echoed.
    Echo,
}

/// Tiles and static files are served to `GET`; every other request is
/// echoed.
pub open spec fn cache_route_of(path: Seq<char>, method: Method) -> CacheRoute {
    if EndPoints::Tile.path().is_prefix_of(path) && method == Method::Get {
        CacheRoute::Tile
    } else if EndPoints::Static.path().is_prefix_of(path) && method == Method::Get {
        CacheRoute::Static
    } else {
        CacheRoute::Echo
    }
}

/// The handler of a request on the cache-only front end.
pub fn cache_route(path: &str, method: Method) -> (r: CacheRoute)
    ensures
        r == cache_route_of(path@, method),
{
    if starts_with(path, EndPoints::Tile.as_ref()) && method == Method::Get {
        CacheRoute::Tile
    } else if starts_with(path, EndPoints::Static.as_ref()) && method == Method::Get {
        CacheRoute::Static
    } else {
        CacheRoute::Echo
    }
}

/// The MIME type that `mime_guess` gives for a file extension, with
/// `application/octet-stream` for an extension it does not know.
pub uninterp spec fn mime_for_extension(ext: Seq<char>) -> Seq<char>;

/// What `urlencoding` decodes `s` to, or the message of its error.
pub uninterp spec fn percent_decoded(s: Seq<char>) -> Result<Seq<char>, Seq<char>>;

/// `mime_guess::from_ext`, then `first_or_octet_stream`, printed with
/// `to_string`: a function of the extension alone.
#[verifier::external_body]
fn guess_mime(ext: &str) -> (r: String)
    ensures
        r@ == mime_for_extension(ext@),
{
    mime_guess::from_ext(ext).first_or_octet_stream().to_string()
}

/// `urlencoding::decode`, the error printed with `to_string`: a function of
/// the text alone.
#[verifier::external_body]
fn percent_decode(s: &str) -> (r: Result<String, String>)
    ensures
        r is Ok <==> percent_decoded(s@) is Ok,
        r matches Ok(d) ==> percent_decoded(s@)->Ok_0 == d@,
        r matches Err(m) ==> percent_decoded(s@)->Err_0 == m@,
{
    match urlencoding::decode(s) {
        Ok(d) => Ok(d.into_owned()),
        Err(e) => Err(e.to_string()),
    }
}

/// The components that a static path adds to the working directory: its
/// elements after the first, which is empty.
pub open spec fn static_parts_of(path: Seq<char>) -> Seq<Seq<char>> {
    split(path, '/').skip(1)
}

/// The components that a static path adds to the working directory.
pub fn static_parts<'a>(path: &'a str) -> (r: Vec<&'a str>)
    ensures
        str_views(r@) == static_parts_of(path@),
{
    let el = split_str(path, '/');
    assert(str_views(el@).len() == el@.len());
    let mut r: Vec<&'a str> = Vec::new();
    let mut i: usize = 1;
    if el.len() == 0 {
        assert(str_views(r@) =~= static_parts_of(path@));
        return r;
    }
    while i < el.len()
        invariant
            1 <= i <= el.len(),
            r@.len() == i - 1,
            forall|j: int| 0 <= j < r@.len() ==> r@[j] == el@[j + 1],
        decreases el.len() - i,
    {
        r.push(el[i]);
        i += 1;
    }
    assert(str_views(r@) =~= static_parts_of(path@));
    r
}

/// The place of the component that names the file: the last that is neither
/// empty nor `.`; -1 where there is none among the first `n`.
pub open spec fn name_place(parts: Seq<Seq<char>>, n: int) -> int
    decreases n,
{
    if n <= 0 {
        -1
    } else if parts[n - 1].len() == 0 || parts[n - 1] == "."@ {
        name_place(parts, n - 1)
    } else {
        n - 1
    }
}

/// The extension by which the type of a static file is guessed: that of the
/// component that names the file; none where that component is `..` or
/// there is no such component.
pub open spec fn static_extension(parts: Seq<Seq<char>>) -> Option<Seq<char>> {
    let at = name_place(parts, parts.len() as int);
    if at < 0 {
        None
    } else {
        extension_of(parts[at])
    }
}

/// The content type of a static file.
pub open spec fn static_mime_of(path: Seq<char>) -> Seq<char> {
    match static_extension(static_parts_of(path)) {
        Some(ext) => mime_for_extension(ext),
        None => "application/octet-stream"@,
    }
}

/// The content type of the static file that `path` names.
pub fn static_mime(path: &str) -> (r: String)
    ensures
        r@ == static_mime_of(path@),
{
    let parts = static_parts(path);
    assert(str_views(parts@).len() == parts@.len());
    let mut n: usize = parts.len();
    while n > 0
        invariant
            n <= parts.len(),
            str_views(parts@) == static_parts_of(path@),
            name_place(static_parts_of(path@), parts.len() as int) == name_place(
                static_parts_of(path@),
                n as int,
            ),
        decreases n,
    {
        let part = parts[n - 1];
        assert(str_views(parts@)[n - 1] == part@);
        let skipped = str_eq(part, "") || str_eq(part, ".");
        proof {
            reveal_strlit("");
            if part@.len() == 0 {
                assert(part@ =~= ""@);
            }
            assert(static_parts_of(path@)[n - 1] == part@);
            if !skipped {
                assert(name_place(static_parts_of(path@), n as int) == n - 1);
            }
        }
        if !skipped {
            return match file_extension(part) {
                Some(ext) => guess_mime(ext),
                None => String::from_str("application/octet-stream"),
            };
        }
        n -= 1;
    }
    String::from_str("application/octet-stream")
}

/// The file that a static request reads: the path with its percent escapes
/// decoded; a path that cannot be decoded is answered with 500 and the
/// decoder's message.
pub open spec fn static_target_of(file_path: Seq<char>) -> Result<Seq<char>, ResponseView> {
    match percent_decoded(file_path) {
        Ok(decoded) => Ok(decoded),
        Err(m) => Err(status_report(500, m)),
    }
}

/// The file that a static request reads, or the answer for a path that
/// cannot be decoded.
pub fn static_target(file_path: &str) -> (r: Result<String, HttpResponse>)
    ensures
        r matches Ok(d) ==> static_target_of(file_path@) == Ok::<Seq<char>, ResponseView>(d@),
        r matches Err(e) ==> static_target_of(file_path@) == Err::<Seq<char>, ResponseView>(e@),
{
    match percent_decode(file_path) {
        Ok(decoded) => Ok(decoded),
        Err(m) => Err(status_response(500, m.as_str())),
    }
}

/// A static file as it is served: status 200 with its type, open to any
/// origin, header and the three methods.
pub open spec fn served_file(data: Seq<u8>, mime: Seq<char>) -> ResponseView {
    ResponseView {
        status: 200,
        headers: seq![
            ("Content-Type"@, mime),
            allow_origin(),
            ("Access-Control-Allow-Headers"@, "*"@),
            ("Access-Control-Allow-Methods"@, "POST, GET, OPTIONS"@),
        ],
        body: BodyView::Bytes(data),
    }
}

/// The answer that serves a static file with the content type `mime`.
pub fn static_file_response(data: Vec<u8>, mime: &str) -> (r: HttpResponse)
    ensures
        r@ == served_file(data@, mime@),
{
    let mut headers: Vec<Header> = Vec::new();
    headers.push(Header { name: String::from_str("Content-Type"), value: mime.to_owned() });
    headers.push(
        Header {
            name: String::from_str("Access-Control-Allow-Origin"),
            value: String::from_str("*"),
        },
    );
    headers.push(
        Header {
            name: String::from_str("Access-Control-Allow-Headers"),
            value: String::from_str("*"),
        },
    );
    headers.push(
        Header {
            name: String::from_str("Access-Control-Allow-Methods"),
            value: String::from_str("POST, GET, OPTIONS"),
        },
    );
    let r = HttpResponse { status: 200, headers, body: Body::Bytes(data) };
    assert(header_views(r.headers@) =~= served_file(data@, mime@).headers);
    r
}

/// The answer for a static file that could not be read: 404 with the
/// error's text as `message`, and no header.
pub fn static_missing_response(error: &str) -> (r: HttpResponse)
    ensures
        r@ == (ResponseView {
            status: 404,
            headers: Seq::empty(),
            body: BodyView::Text(single_member_text("message"@, error@)),
        }),
{
    let r = HttpResponse {
        status: 404,
        headers: Vec::new(),
        body: Body::Text(single_member_body("message", error)),
    };
    assert(header_views(r.headers@) =~= Seq::<(Seq<char>, Seq<char>)>::empty());
    r
}

} // verus!
