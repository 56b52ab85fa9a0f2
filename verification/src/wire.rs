//! The parts of `hyper`, `bytes` and `http_body_util` that the proxy works with.
//!
//! Nothing in this file is proved: each item says what a call into one of those crates does, over
//! names for what their values hold.

use bytes::Bytes;
use http_body_util::combinators::BoxBody;
use http_body_util::{BodyExt, Full};
use hyper::header::{HeaderMap, HeaderName, HeaderValue, ToStrError};
use hyper::http::request::Builder as RequestBuilder;
use hyper::http::response::Builder as ResponseBuilder;
use hyper::http::response::Parts as ResponseParts;
use hyper::http::uri::{Authority, PathAndQuery};
use hyper::{Method, Request, Response, Uri};
use vstd::prelude::*;
use vstd::utf8::*;

verus! {

// ---------------------------------------------------------------------------------------------
// Buffers
// ---------------------------------------------------------------------------------------------

/// `bytes::Bytes`, a buffer.
#[verifier::external_type_specification]
#[verifier::external_body]
pub struct ExBytes(Bytes);

/// The bytes that a buffer holds.
pub uninterp spec fn bytes_content(b: Bytes) -> Seq<u8>;

/// `Bytes::len` is the number of bytes in the buffer.
pub assume_specification[ Bytes::len ](b: &Bytes) -> (n: usize)
    ensures
        n == bytes_content(*b).len(),
;

/// `<Bytes as AsRef<[u8]>>::as_ref` lends all bytes of the buffer.
#[verifier::external_body]
pub(crate) fn bytes_as_slice(b: &Bytes) -> (s: &[u8])
    ensures
        s@ == bytes_content(*b),
{
    b.as_ref()
}

/// `<Bytes as From<String>>::from` makes a buffer of the string's UTF-8 encoding.
#[verifier::external_body]
pub(crate) fn bytes_from_string(s: String) -> (b: Bytes)
    ensures
        bytes_content(b) == encode_utf8(s@),
{
    Bytes::from(s)
}

/// What `String::from_utf8_lossy` reads from bytes: their text, with a replacement character for
/// whatever is not UTF-8.
pub uninterp spec fn utf8_lossy(bytes: Seq<u8>) -> Seq<char>;

/// `String::from_utf8_lossy`; bytes that are UTF-8 throughout are read as they are. Of other bytes,
/// each sequence that is no UTF-8, which is one byte at least, gives one replacement character,
/// which takes three; so the text takes at most three times as many bytes.
#[verifier::external_body]
pub(crate) fn string_from_utf8_lossy(bytes: &[u8]) -> (s: String)
    ensures
        s@ == utf8_lossy(bytes@),
        valid_utf8(bytes@) ==> s@ == decode_utf8(bytes@),
        encode_utf8(s@).len() <= 3 * bytes@.len(),
{
    String::from_utf8_lossy(bytes).into_owned()
}

// ---------------------------------------------------------------------------------------------
// Methods and addresses
// ---------------------------------------------------------------------------------------------

/// `hyper::Method`, the method of a request.
#[verifier::external_type_specification]
#[verifier::external_body]
pub struct ExMethod(Method);

/// A method as text, such as `GET`.
pub uninterp spec fn method_text(m: Method) -> Seq<char>;

/// `Method::as_str` gives the method's text.
pub assume_specification[ Method::as_str ](m: &Method) -> (s: &str)
    ensures
        s@ == method_text(*m),
;

/// `hyper::Uri`, the address that a request goes to.
#[verifier::external_type_specification]
#[verifier::external_body]
pub struct ExUri(Uri);

/// `hyper::http::uri::PathAndQuery`, the path of an address with its query.
#[verifier::external_type_specification]
#[verifier::external_body]
pub struct ExPathAndQuery(PathAndQuery);

/// `hyper::http::uri::Authority`, the host of an address with its port.
#[verifier::external_type_specification]
#[verifier::external_body]
pub struct ExAuthority(Authority);

/// What `<Uri as FromStr>::from_str` reads from a text: the address, or the message that says why
/// the text is none.
pub uninterp spec fn uri_parse(text: Seq<char>) -> Result<Uri, Seq<char>>;

/// Whether a text is printable ASCII throughout, without blanks.
pub open spec fn is_printable(s: Seq<char>) -> bool {
    forall|i: int| 0 <= i < s.len() ==> '!' <= #[trigger] s[i] <= '~'
}

/// `<Uri as FromStr>::from_str`, without its error. The authority of an address that was parsed is
/// printable ASCII without blanks.
#[verifier::external_body]
pub(crate) fn parse_uri(text: &str) -> (uri: Option<Uri>)
    ensures
        match uri {
            Some(u) => {
                &&& uri_parse(text@) == Ok::<Uri, Seq<char>>(u)
                &&& uri_authority(u) matches Some(a) ==> is_printable(authority_text(a))
            },
            None => uri_parse(text@) is Err,
        },
{
    text.parse::<Uri>().ok()
}

/// The path and query of an address, if it has them.
pub uninterp spec fn uri_path(u: Uri) -> Option<PathAndQuery>;

/// `Uri::path_and_query` lends the address's path and query.
pub assume_specification[ Uri::path_and_query ](u: &Uri) -> (r: Option<&PathAndQuery>)
    ensures
        match r {
            Some(p) => uri_path(*u) == Some(*p),
            None => uri_path(*u) is None,
        },
;

/// A path and query as text.
pub uninterp spec fn path_text(p: PathAndQuery) -> Seq<char>;

/// `PathAndQuery::as_str` gives the text of the path and query.
pub assume_specification[ PathAndQuery::as_str ](p: &PathAndQuery) -> (s: &str)
    ensures
        s@ == path_text(*p),
;

/// The authority of an address, if it has one.
pub uninterp spec fn uri_authority(u: Uri) -> Option<Authority>;

/// `Uri::authority` lends the address's authority.
pub assume_specification[ Uri::authority ](u: &Uri) -> (r: Option<&Authority>)
    ensures
        match r {
            Some(a) => uri_authority(*u) == Some(*a),
            None => uri_authority(*u) is None,
        },
;

/// An authority as text, such as `localhost:8080`.
pub uninterp spec fn authority_text(a: Authority) -> Seq<char>;

/// `Authority::as_str` gives the authority's text.
pub assume_specification[ Authority::as_str ](a: &Authority) -> (s: &str)
    ensures
        s@ == authority_text(*a),
;

// ---------------------------------------------------------------------------------------------
// Headers
// ---------------------------------------------------------------------------------------------

/// `hyper::header::HeaderName`, the name of a header.
#[verifier::external_type_specification]
#[verifier::external_body]
pub struct ExHeaderName(HeaderName);

/// `hyper::header::HeaderValue`, the value of a header.
#[verifier::external_type_specification]
#[verifier::external_body]
pub struct ExHeaderValue(HeaderValue);

/// `hyper::header::ToStrError`, the error of [`HeaderValue::to_str`].
#[verifier::external_type_specification]
#[verifier::external_body]
pub struct ExToStrError(ToStrError);

/// `hyper::HeaderMap`, the headers of a message.
#[verifier::external_type_specification]
#[verifier::external_body]
#[verifier::reject_recursive_types(T)]
pub struct ExHeaderMap<T>(HeaderMap<T>);

/// A header's name, in lower case.
pub uninterp spec fn header_name_text(n: HeaderName) -> Seq<char>;

/// The bytes of a header's value.
pub uninterp spec fn header_value_bytes(v: HeaderValue) -> Seq<u8>;

/// The headers of a map in the order in which the map hands them out: each with its name's text
/// and its value's bytes.
pub uninterp spec fn header_entries(m: HeaderMap<HeaderValue>) -> Seq<(Seq<char>, Seq<u8>)>;

/// Names and values as text and bytes.
pub open spec fn item_entries(items: Seq<(&HeaderName, &HeaderValue)>) -> Seq<
    (Seq<char>, Seq<u8>),
> {
    items.map_values(
        |item: (&HeaderName, &HeaderValue)|
            (header_name_text(*item.0), header_value_bytes(*item.1)),
    )
}

/// Whether equal names stand side by side.
pub open spec fn grouped(entries: Seq<(Seq<char>, Seq<u8>)>) -> bool {
    forall|i: int, j: int, k: int|
        0 <= i <= j <= k < entries.len() && (#[trigger] entries[i]).0 == (
        #[trigger] entries[k]).0 ==> (#[trigger] entries[j]).0 == entries[i].0
}

/// Whether a header of that name is there.
pub open spec fn has_name(entries: Seq<(Seq<char>, Seq<u8>)>, name: Seq<char>) -> bool {
    exists|i: int| 0 <= i < entries.len() && (#[trigger] entries[i]).0 == name
}

/// One header more: right behind the last one of its name, or at the end if its name is new.
pub open spec fn appended(
    entries: Seq<(Seq<char>, Seq<u8>)>,
    name: Seq<char>,
    value: Seq<u8>,
) -> Seq<(Seq<char>, Seq<u8>)>
    decreases entries.len(),
{
    if entries.len() == 0 || entries.last().0 == name || !has_name(entries, name) {
        entries.push((name, value))
    } else {
        appended(entries.drop_last(), name, value).push(entries.last())
    }
}

/// Whether a byte is a tab, a blank or a visible ASCII character.
pub open spec fn is_visible(b: u8) -> bool {
    32 <= b < 127 || b == 9
}

/// Whether all bytes are tabs, blanks or visible ASCII characters.
pub open spec fn all_visible(bytes: Seq<u8>) -> bool {
    forall|i: int| 0 <= i < bytes.len() ==> is_visible(#[trigger] bytes[i])
}

/// Whether bytes may stand in a header's value: none is a control character but the tab.
pub open spec fn is_header_value(bytes: Seq<u8>) -> bool {
    forall|i: int|
        0 <= i < bytes.len() ==> (32 <= #[trigger] bytes[i] && bytes[i] != 127) || bytes[i] == 9
}

/// ASCII bytes as characters.
pub open spec fn ascii_text(bytes: Seq<u8>) -> Seq<char> {
    bytes.map_values(|b: u8| b as char)
}

/// `HeaderName::as_str` gives the name's text.
pub assume_specification[ HeaderName::as_str ](n: &HeaderName) -> (s: &str)
    ensures
        s@ == header_name_text(*n),
;

/// `HeaderValue::to_str` gives the value as text if all of it is visible ASCII, and an error
/// otherwise.
pub assume_specification[ HeaderValue::to_str ](v: &HeaderValue) -> (r: Result<&str, ToStrError>)
    ensures
        match r {
            Ok(s) => all_visible(header_value_bytes(*v)) && s@ == ascii_text(
                header_value_bytes(*v),
            ),
            Err(_) => !all_visible(header_value_bytes(*v)),
        },
;

/// `<HeaderName as PartialEq>::eq` with `hyper::header::HOST`: names are equal if their texts are.
#[verifier::external_body]
pub(crate) fn is_host(n: &HeaderName) -> (r: bool)
    ensures
        r == (header_name_text(*n) == "host"@),
{
    n == hyper::header::HOST
}

/// `HeaderMap::iter` hands out each name with each of its values, all values of a name in a row.
#[verifier::external_body]
pub(crate) fn header_items(m: &HeaderMap<HeaderValue>) -> (items: Vec<(&HeaderName, &HeaderValue)>)
    ensures
        item_entries(items@) == header_entries(*m),
        grouped(item_entries(items@)),
{
    m.iter().collect()
}

// ---------------------------------------------------------------------------------------------
// Requests
// ---------------------------------------------------------------------------------------------

/// `hyper::http::Error`, what went wrong in building a message.
#[verifier::external_type_specification]
#[verifier::external_body]
pub struct ExHttpError(hyper::http::Error);

/// `hyper::http::request::Builder`, a request in the making.
#[verifier::external_type_specification]
#[verifier::external_body]
pub struct ExRequestBuilder(RequestBuilder);

/// `hyper::Request`, a request.
#[verifier::external_type_specification]
#[verifier::external_body]
#[verifier::reject_recursive_types(T)]
pub struct ExRequest<T>(Request<T>);

/// `http_body_util::Full`, a body of one piece.
#[verifier::external_type_specification]
#[verifier::external_body]
#[verifier::reject_recursive_types(D)]
pub struct ExFull<D>(Full<D>);

/// What a request says before its body.
pub struct RequestDraft {
    pub method: Method,
    pub uri: Uri,
    /// Whether its version is HTTP/1.1.
    pub http_11: bool,
    pub headers: Seq<(Seq<char>, Seq<u8>)>,
    /// How many values are attached to it on this machine, besides what is sent.
    pub extensions: nat,
}

/// How many different names there are.
pub open spec fn name_count(entries: Seq<(Seq<char>, Seq<u8>)>) -> nat {
    entries.map_values(|e: (Seq<char>, Seq<u8>)| e.0).to_set().len()
}

/// The number of names below which a map always takes another header. A map has at most 32768
/// slots, and it grows without fail as long as five times its names are fewer than that.
pub open spec fn header_room() -> nat {
    6554
}

/// The number of names with which a map takes no other header: three quarters of its slots are
/// then in use, and it does not grow beyond that.
pub open spec fn header_limit() -> nat {
    24576
}

/// What a builder has collected, or the message of the first error.
pub uninterp spec fn builder_draft(b: RequestBuilder) -> Result<RequestDraft, Seq<char>>;

/// The message of an error.
pub uninterp spec fn http_error_text(e: hyper::http::Error) -> Seq<char>;

/// Whether `after` is `before` with one header more, or the error that there is no room for it.
/// With few names there is room, and with many there is none. In between it depends on how the
/// names are spread over the map's slots, which differs from machine to machine: there either may
/// come.
pub open spec fn takes_header(
    before: Result<RequestDraft, Seq<char>>,
    name: Seq<char>,
    value: Seq<u8>,
    after: Result<RequestDraft, Seq<char>>,
) -> bool {
    match before {
        Ok(d) => {
            ||| name_count(d.headers) < header_limit() && after == Ok::<RequestDraft, Seq<char>>(
                RequestDraft { headers: appended(d.headers, name, value), ..d },
            )
            ||| name_count(d.headers) >= header_room() && after == Err::<RequestDraft, Seq<char>>(
                "max size reached"@,
            )
        },
        Err(_) => after == before,
    }
}

/// `Request::builder` starts a request of version HTTP/1.1 without headers and extensions.
#[verifier::external_body]
pub(crate) fn new_request() -> (b: RequestBuilder)
    ensures
        builder_draft(b) is Ok,
        builder_draft(b)->Ok_0.http_11,
        builder_draft(b)->Ok_0.headers == Seq::<(Seq<char>, Seq<u8>)>::empty(),
        builder_draft(b)->Ok_0.extensions == 0,
{
    Request::builder()
}

/// `request::Builder::method` sets the method.
#[verifier::external_body]
pub(crate) fn with_method(b: RequestBuilder, method: &Method) -> (r: RequestBuilder)
    ensures
        builder_draft(r) == match builder_draft(b) {
            Ok(d) => Ok(RequestDraft { method: *method, ..d }),
            Err(e) => Err(e),
        },
{
    b.method(method)
}

/// `request::Builder::uri` sets the address that the text stands for, or keeps the error if it
/// stands for none.
#[verifier::external_body]
pub(crate) fn with_uri(b: RequestBuilder, text: &str) -> (r: RequestBuilder)
    ensures
        builder_draft(r) == match builder_draft(b) {
            Ok(d) => match uri_parse(text@) {
                Ok(u) => Ok(RequestDraft { uri: u, ..d }),
                Err(e) => Err(e),
            },
            Err(e) => Err(e),
        },
{
    b.uri(text)
}

/// `request::Builder::header` adds a header.
#[verifier::external_body]
pub(crate) fn with_header(b: RequestBuilder, name: &HeaderName, value: &HeaderValue) -> (r:
    RequestBuilder)
    ensures
        takes_header(
            builder_draft(b),
            header_name_text(*name),
            header_value_bytes(*value),
            builder_draft(r),
        ),
{
    b.header(name, value)
}

/// `request::Builder::header` with the name `hyper::header::HOST` and a text for its value, which
/// is an error if a header's value cannot hold the text.
#[verifier::external_body]
pub(crate) fn with_host(b: RequestBuilder, host: &str) -> (r: RequestBuilder)
    ensures
        is_header_value(encode_utf8(host@)) ==> takes_header(
            builder_draft(b),
            "host"@,
            encode_utf8(host@),
            builder_draft(r),
        ),
        !is_header_value(encode_utf8(host@)) ==> builder_draft(r) == match builder_draft(b) {
            Ok(_) => Err::<RequestDraft, Seq<char>>("failed to parse header value"@),
            Err(e) => Err(e),
        },
{
    b.header(hyper::header::HOST, host)
}

/// The bytes of a body of one piece.
pub uninterp spec fn full_content(f: Full<Bytes>) -> Seq<u8>;

/// `Full::new` makes a buffer a body.
#[verifier::external_body]
pub(crate) fn full_body(b: Bytes) -> (f: Full<Bytes>)
    ensures
        full_content(f) == bytes_content(b),
{
    Full::new(b)
}

/// What a request says before its body.
pub uninterp spec fn request_draft(r: Request<Full<Bytes>>) -> RequestDraft;

/// The bytes of a request's body.
pub uninterp spec fn request_body(r: Request<Full<Bytes>>) -> Seq<u8>;

/// `request::Builder::body` completes the request, or gives the first error.
#[verifier::external_body]
pub(crate) fn with_body(b: RequestBuilder, body: Full<Bytes>) -> (r: Result<
    Request<Full<Bytes>>,
    hyper::http::Error,
>)
    ensures
        match r {
            Ok(q) => builder_draft(b) == Ok::<RequestDraft, Seq<char>>(request_draft(q))
                && request_body(q) == full_content(body),
            Err(e) => builder_draft(b) == Err::<RequestDraft, Seq<char>>(http_error_text(e)),
        },
{
    b.body(body)
}

/// `<http::Error as ToString>::to_string` gives the message.
#[verifier::external_body]
pub(crate) fn error_message(e: &hyper::http::Error) -> (s: String)
    ensures
        s@ == http_error_text(*e),
{
    e.to_string()
}

// ---------------------------------------------------------------------------------------------
// Responses
// ---------------------------------------------------------------------------------------------

/// `hyper::Error`, what a body's reader may run into.
#[verifier::external_type_specification]
#[verifier::external_body]
pub struct ExHyperError(hyper::Error);

/// `hyper::http::response::Builder`, a response in the making.
#[verifier::external_type_specification]
#[verifier::external_body]
pub struct ExResponseBuilder(ResponseBuilder);

/// `hyper::http::response::Parts`, all of a response but its body.
#[verifier::external_type_specification]
#[verifier::external_body]
pub struct ExResponseParts(ResponseParts);

/// `hyper::Response`, a response.
#[verifier::external_type_specification]
#[verifier::external_body]
#[verifier::reject_recursive_types(T)]
pub struct ExResponse<T>(Response<T>);

/// `http_body_util::combinators::BoxBody`, a body behind a pointer.
#[verifier::external_type_specification]
#[verifier::external_body]
#[verifier::reject_recursive_types(D)]
#[verifier::reject_recursive_types(E)]
pub struct ExBoxBody<D, E>(BoxBody<D, E>);

/// What a response says before its body.
pub struct ResponseDraft {
    pub status: u16,
    /// Whether its version is HTTP/1.1.
    pub http_11: bool,
    pub headers: Seq<(Seq<char>, Seq<u8>)>,
    /// How many values are attached to it on this machine, besides what is sent.
    pub extensions: nat,
}

/// What a builder has collected, if nothing went wrong.
pub uninterp spec fn response_draft(b: ResponseBuilder) -> Option<ResponseDraft>;

/// What a response's head says.
pub uninterp spec fn parts_draft(p: ResponseParts) -> ResponseDraft;

/// The bytes of a body behind a pointer.
pub uninterp spec fn boxed_content(b: BoxBody<Bytes, hyper::Error>) -> Seq<u8>;

/// The head of a response.
pub uninterp spec fn reply_parts(r: Response<BoxBody<Bytes, hyper::Error>>) -> ResponseParts;

/// The bytes of a response's body.
pub uninterp spec fn reply_body(r: Response<BoxBody<Bytes, hyper::Error>>) -> Seq<u8>;

/// `BodyExt::map_err` and `BodyExt::boxed` change the type of a body and leave its bytes alone; a
/// body of one piece has no error to map.
#[verifier::external_body]
pub(crate) fn boxed_full(body: Full<Bytes>) -> (b: BoxBody<Bytes, hyper::Error>)
    ensures
        boxed_content(b) == full_content(body),
{
    body.map_err(|never| match never {}).boxed()
}

/// `Response::builder` starts a response with status 200, of version HTTP/1.1 and without headers
/// and extensions.
#[verifier::external_body]
pub(crate) fn new_response() -> (b: ResponseBuilder)
    ensures
        response_draft(b) == Some(
            ResponseDraft {
                status: 200,
                http_11: true,
                headers: Seq::<(Seq<char>, Seq<u8>)>::empty(),
                extensions: 0,
            },
        ),
{
    Response::builder()
}

/// `response::Builder::status` sets the status, which has three digits.
#[verifier::external_body]
pub(crate) fn with_status(b: ResponseBuilder, status: u16) -> (r: ResponseBuilder)
    ensures
        response_draft(r) == match response_draft(b) {
            Some(d) => if 100 <= status <= 999 {
                Some(ResponseDraft { status, ..d })
            } else {
                None
            },
            None => None,
        },
{
    b.status(status)
}

/// `response::Builder::body` completes the response unless something went wrong.
#[verifier::external_body]
pub(crate) fn with_reply_body(b: ResponseBuilder, body: BoxBody<Bytes, hyper::Error>) -> (r: Result<
    Response<BoxBody<Bytes, hyper::Error>>,
    hyper::http::Error,
>)
    ensures
        match r {
            Ok(p) => response_draft(b) == Some(parts_draft(reply_parts(p))) && reply_body(p)
                == boxed_content(body),
            Err(_) => response_draft(b) is None,
        },
{
    b.body(body)
}

/// `StatusCode::as_u16` of the status of a response's head.
#[verifier::external_body]
pub(crate) fn parts_status(p: &ResponseParts) -> (status: u16)
    ensures
        status == parts_draft(*p).status,
{
    p.status.as_u16()
}

/// The headers of a response's head.
#[verifier::external_body]
pub(crate) fn parts_headers(p: &ResponseParts) -> (m: &HeaderMap<HeaderValue>)
    ensures
        header_entries(*m) == parts_draft(*p).headers,
{
    &p.headers
}

/// `Response::from_parts` joins a head and a body.
#[verifier::external_body]
pub(crate) fn reply_from_parts(p: ResponseParts, body: BoxBody<Bytes, hyper::Error>) -> (r:
    Response<BoxBody<Bytes, hyper::Error>>)
    ensures
        reply_parts(r) == p,
        reply_body(r) == boxed_content(body),
{
    Response::from_parts(p, body)
}

} // verus!
