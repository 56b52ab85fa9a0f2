//! One request on its way through the proxy.
//!
//! The transport reads the request's body, [`open_exchange`] says what to send upstream, the
//! transport sends that and reads the answer, and [`finish_exchange`] says what to report and what
//! to hand back to the client. Whatever fails on the way is answered by [`error_response`].

use crate::text::{
    decimal, decimal_is_injective, decimal_is_short, decimal_reads_back, decimal_text,
};
use crate::types::{text_pairs, ProxyEntry, ProxyEvent};
use crate::wire::{
    all_visible, appended, ascii_text, authority_text, boxed_full, builder_draft, bytes_as_slice,
    bytes_content, bytes_from_string, error_message, full_body, grouped, has_name, header_entries,
    header_items, header_limit, header_room, is_header_value, is_host, is_visible, item_entries,
    method_text, name_count, new_request, new_response, parse_uri, parts_draft, parts_headers,
    parts_status, path_text, reply_body, reply_from_parts, reply_parts, request_body,
    request_draft, string_from_utf8_lossy, uri_authority, uri_parse, uri_path, utf8_lossy,
    with_body, with_header, with_host, with_method, with_reply_body, with_status, with_uri,
    RequestDraft, ResponseDraft,
};
use bytes::Bytes;
use http_body_util::combinators::BoxBody;
use http_body_util::Full;
use hyper::header::{HeaderMap, HeaderValue};
use hyper::http::response::Parts as ResponseParts;
use hyper::{Method, Request, Response, Uri};
use std::time::SystemTime;
use vstd::prelude::*;
use vstd::utf8::{
    decode_utf8, decode_utf8_encode_utf8, encode_utf8, is_ascii_chars, is_ascii_chars_encode_utf8,
    valid_utf8,
};

verus! {

/// The size up to which a body is shown.
pub const MAX_BODY: usize = 1024 * 1024;

/// The status of every answer that the proxy gives on its own.
pub const BAD_GATEWAY: u16 = 502;

/// What a client gets back.
pub type Reply = Response<BoxBody<Bytes, hyper::Error>>;

// ---------------------------------------------------------------------------------------------
// What is shown of a message
// ---------------------------------------------------------------------------------------------

/// How a body is shown: its text, or its length alone if it is too long.
pub open spec fn body_text(content: Seq<u8>) -> Seq<char> {
    if content.len() > MAX_BODY {
        "[truncated "@ + decimal_text(content.len()) + " bytes]"@
    } else {
        utf8_lossy(content)
    }
}

/// How a header's value is shown: its text, or a placeholder if it is not all visible ASCII.
pub open spec fn header_text(value: Seq<u8>) -> Seq<char> {
    if all_visible(value) {
        ascii_text(value)
    } else {
        "<binary>"@
    }
}

/// How headers are shown: in their order, names as they are.
pub open spec fn shown_headers(entries: Seq<(Seq<char>, Seq<u8>)>) -> Seq<(Seq<char>, Seq<char>)> {
    entries.map_values(|e: (Seq<char>, Seq<u8>)| (e.0, header_text(e.1)))
}

/// The path and query of an address, or `/` if it has none.
pub open spec fn target_of(uri: Uri) -> Seq<char> {
    match uri_path(uri) {
        Some(p) => path_text(p),
        None => "/"@,
    }
}

/// Shows a body. UTF-8 that is not too long is shown as it is. However long a body is, what is
/// shown of it takes at most three times the limit, and no more than the limit itself if the body
/// is UTF-8 or too long.
pub fn bytes_to_string(b: &Bytes) -> (s: String)
    ensures
        s@ == body_text(bytes_content(*b)),
        valid_utf8(bytes_content(*b)) && bytes_content(*b).len() <= MAX_BODY ==> s@ == decode_utf8(
            bytes_content(*b),
        ),
        valid_utf8(bytes_content(*b)) || bytes_content(*b).len() > MAX_BODY ==> encode_utf8(
            s@,
        ).len() <= MAX_BODY,
        encode_utf8(s@).len() <= 3 * MAX_BODY,
{
    if b.len() > MAX_BODY {
        proof {
            lemma_length_note_is_short(bytes_content(*b).len() as u64);
        }
        let mut s = "[truncated ".to_owned();
        s.append(decimal(b.len() as u64).as_str());
        s.append(" bytes]");
        s
    } else {
        proof {
            if valid_utf8(bytes_content(*b)) {
                decode_utf8_encode_utf8(bytes_content(*b));
            }
        }
        string_from_utf8_lossy(bytes_as_slice(b))
    }
}

/// The note on a body's length is a short line of ASCII.
proof fn lemma_length_note_is_short(n: u64)
    ensures
        encode_utf8("[truncated "@ + decimal_text(n as nat) + " bytes]"@).len() <= 38,
{
    reveal_strlit("[truncated ");
    reveal_strlit(" bytes]");
    decimal_is_short(n);
    decimal_reads_back(n as nat);
    let note = "[truncated "@ + decimal_text(n as nat) + " bytes]"@;
    assert(is_ascii_chars(note)) by {
        let digits = decimal_text(n as nat);
        assert forall|i: int| 0 <= i < note.len() implies '\0' <= #[trigger] note[i]
            <= '\u{7f}' by {
            if 11 <= i < 11 + digits.len() {
                assert('0' <= digits[i - 11] <= '9');
            }
        }
    }
    is_ascii_chars_encode_utf8(note);
}

/// Shows the headers of a message.
pub fn header_texts(headers: &HeaderMap<HeaderValue>) -> (texts: Vec<(String, String)>)
    ensures
        text_pairs(texts@) == shown_headers(header_entries(*headers)),
{
    let items = header_items(headers);
    let ghost entries = header_entries(*headers);
    let mut texts: Vec<(String, String)> = Vec::new();
    let mut i: usize = 0;
    while i < items.len()
        invariant
            i <= items@.len(),
            item_entries(items@) == entries,
            texts@.len() == i,
            forall|j: int|
                0 <= j < i ==> (#[trigger] texts@[j]).0@ == entries[j].0 && texts@[j].1@
                    == header_text(entries[j].1),
        decreases items.len() - i,
    {
        let (name, value) = items[i];
        assert(entries[i as int] == item_entries(items@)[i as int]);
        let text = match value.to_str() {
            Ok(text) => text.to_owned(),
            Err(_) => "<binary>".to_owned(),
        };
        texts.push((name.as_str().to_owned(), text));
        i += 1;
    }
    assert(text_pairs(texts@) =~= shown_headers(entries));
    texts
}

/// The path and query that a request asks for.
pub fn request_path(uri: &Uri) -> (path: String)
    ensures
        path@ == target_of(*uri),
{
    match uri.path_and_query() {
        Some(p) => p.as_str().to_owned(),
        None => "/".to_owned(),
    }
}

// ---------------------------------------------------------------------------------------------
// Answers of the proxy's own
// ---------------------------------------------------------------------------------------------

/// Whether a reply is the proxy's own answer that something failed, with that message.
pub open spec fn is_error_reply(reply: Reply, message: Seq<char>) -> bool {
    &&& parts_draft(reply_parts(reply)) == ResponseDraft {
        status: BAD_GATEWAY,
        http_11: true,
        headers: Seq::empty(),
        extensions: 0,
    }
    &&& reply_body(reply) == encode_utf8(message)
}

/// Answers that something failed.
pub fn error_response(msg: String) -> (reply: Reply)
    ensures
        is_error_reply(reply, msg@),
{
    let body = boxed_full(full_body(bytes_from_string(msg)));
    with_reply_body(with_status(new_response(), BAD_GATEWAY), body).unwrap()
}

/// Answers that something failed: what it was, and the message behind it.
fn failure(what: &str, message: &str) -> (reply: Reply)
    ensures
        is_error_reply(reply, what@ + message@),
{
    let mut text = what.to_owned();
    text.append(message);
    error_response(text)
}

// ---------------------------------------------------------------------------------------------
// The request that goes upstream
// ---------------------------------------------------------------------------------------------

/// The headers that are sent on: all but the name of the host, in their order.
pub open spec fn forwarded(entries: Seq<(Seq<char>, Seq<u8>)>) -> Seq<(Seq<char>, Seq<u8>)> {
    entries.filter(|e: (Seq<char>, Seq<u8>)| e.0 != "host"@)
}

/// The headers of the request that goes upstream: those that are sent on, and then the upstream's
/// host if it is known.
pub open spec fn upstream_headers(
    entries: Seq<(Seq<char>, Seq<u8>)>,
    host: Option<Seq<char>>,
) -> Seq<(Seq<char>, Seq<u8>)> {
    match host {
        Some(h) => forwarded(entries).push(("host"@, encode_utf8(h))),
        None => forwarded(entries),
    }
}

/// Whether headers, added one by one, may find no room: there are enough names before the last of
/// them.
pub open spec fn is_crowded(entries: Seq<(Seq<char>, Seq<u8>)>) -> bool {
    entries.len() > 0 && name_count(entries.drop_last()) >= header_room()
}

/// Whether headers, added one by one, find no room for sure.
pub open spec fn is_overfull(entries: Seq<(Seq<char>, Seq<u8>)>) -> bool {
    entries.len() > 0 && name_count(entries.drop_last()) >= header_limit()
}

/// Whether a text may be the value of a header.
pub open spec fn is_host_text(host: Option<Seq<char>>) -> bool {
    match host {
        Some(h) => is_header_value(encode_utf8(h)),
        None => true,
    }
}

/// The host that an upstream's address names.
pub open spec fn authority_of(url: Seq<char>) -> Option<Seq<char>> {
    match uri_parse(url) {
        Ok(u) => match uri_authority(u) {
            Some(a) => Some(authority_text(a)),
            None => None,
        },
        Err(_) => None,
    }
}

/// An optional string as text.
pub open spec fn text_of(s: Option<String>) -> Option<Seq<char>> {
    match s {
        Some(t) => Some(t@),
        None => None,
    }
}

/// The host that an upstream's address names. It can always be the value of a header.
pub fn upstream_host(url: &str) -> (host: Option<String>)
    ensures
        text_of(host) == authority_of(url@),
        is_host_text(text_of(host)),
{
    match parse_uri(url) {
        Some(uri) => match uri.authority() {
            Some(authority) => {
                let host = authority.as_str();
                proof {
                    assert(is_ascii_chars(host@));
                    is_ascii_chars_encode_utf8(host@);
                    assert forall|i: int| 0 <= i < encode_utf8(host@).len() implies 32
                        <= #[trigger] encode_utf8(host@)[i] && encode_utf8(host@)[i] != 127 by {
                        assert('!' <= host@[i] <= '~');
                    }
                }
                Some(host.to_owned())
            },
            None => None,
        },
        None => None,
    }
}

/// One header more is sent on unless it names the host.
proof fn lemma_forwarded_step(entries: Seq<(Seq<char>, Seq<u8>)>, i: int)
    requires
        0 <= i < entries.len(),
    ensures
        forwarded(entries.take(i + 1)) == if entries[i].0 != "host"@ {
            forwarded(entries.take(i)).push(entries[i])
        } else {
            forwarded(entries.take(i))
        },
{
    reveal(Seq::filter);
    assert(entries.take(i + 1).drop_last() =~= entries.take(i));
}

/// What is sent on was there before.
proof fn lemma_forwarded_is_there(entries: Seq<(Seq<char>, Seq<u8>)>, k: int)
    requires
        0 <= k < forwarded(entries).len(),
    ensures
        exists|j: int| 0 <= j < entries.len() && #[trigger] entries[j] == forwarded(entries)[k],
    decreases entries.len(),
{
    let n = entries.len() as int;
    if n == 0 {
        reveal(Seq::filter);
    } else {
        lemma_forwarded_step(entries, n - 1);
        assert(entries.take(n) =~= entries);
        let rest = entries.take(n - 1);
        if k < forwarded(rest).len() {
            lemma_forwarded_is_there(rest, k);
            let j = choose|j: int| 0 <= j < rest.len() && #[trigger] rest[j] == forwarded(rest)[k];
            assert(entries[j] == forwarded(entries)[k]);
        } else {
            assert(entries[n - 1] == forwarded(entries)[k]);
        }
    }
}

/// The host is not among what is sent on.
proof fn lemma_forwarded_without_host(entries: Seq<(Seq<char>, Seq<u8>)>)
    ensures
        !has_name(forwarded(entries), "host"@),
    decreases entries.len(),
{
    let n = entries.len() as int;
    if n == 0 {
        reveal(Seq::filter);
    } else {
        lemma_forwarded_step(entries, n - 1);
        assert(entries.take(n) =~= entries);
        lemma_forwarded_without_host(entries.take(n - 1));
        let before = forwarded(entries.take(n - 1));
        let now = forwarded(entries);
        assert forall|k: int| 0 <= k < now.len() implies (#[trigger] now[k]).0 != "host"@ by {
            if k < before.len() {
                assert(before[k].0 != "host"@);
            }
        }
    }
}

/// Headers that come with equal names side by side keep their order when they are added one by
/// one.
proof fn lemma_forwarded_append(entries: Seq<(Seq<char>, Seq<u8>)>, i: int)
    requires
        0 <= i < entries.len(),
        grouped(entries),
    ensures
        appended(forwarded(entries.take(i)), entries[i].0, entries[i].1) == forwarded(
            entries.take(i),
        ).push(entries[i]) || entries[i].0 == "host"@,
{
    let before = forwarded(entries.take(i));
    let name = entries[i].0;
    if name != "host"@ && before.len() > 0 && before.last().0 != name && has_name(before, name) {
        let k = choose|k: int| 0 <= k < before.len() && (#[trigger] before[k]).0 == name;
        lemma_forwarded_is_there(entries.take(i), k);
        let j = choose|j: int|
            0 <= j < entries.take(i).len() && #[trigger] entries.take(i)[j] == before[k];
        assert(entries[j].0 == entries[i].0);
        assert(entries[i - 1].0 == name);
        lemma_forwarded_step(entries, i - 1);
    }
}

/// Fewer headers have no more names.
proof fn lemma_fewer_names(fewer: Seq<(Seq<char>, Seq<u8>)>, entries: Seq<(Seq<char>, Seq<u8>)>)
    requires
        forall|k: int| 0 <= k < fewer.len() ==> entries.contains(#[trigger] fewer[k]),
    ensures
        name_count(fewer) <= name_count(entries),
{
    let few = fewer.map_values(|e: (Seq<char>, Seq<u8>)| e.0);
    let all = entries.map_values(|e: (Seq<char>, Seq<u8>)| e.0);
    few.lemma_cardinality_of_set();
    all.lemma_cardinality_of_set();
    assert forall|name: Seq<char>| few.to_set().contains(name) implies all.to_set().contains(
        name,
    ) by {
        let k = choose|k: int| 0 <= k < few.len() && few[k] == name;
        assert(entries.contains(fewer[k]));
        let j = choose|j: int| 0 <= j < entries.len() && entries[j] == fewer[k];
        assert(all[j] == name);
    }
    vstd::set_lib::lemma_len_subset(few.to_set(), all.to_set());
}

/// What is crowded stays so with one header more.
proof fn lemma_stays_crowded(entries: Seq<(Seq<char>, Seq<u8>)>, header: (Seq<char>, Seq<u8>))
    requires
        is_crowded(entries),
    ensures
        is_crowded(entries.push(header)),
{
    assert(entries.push(header).drop_last() =~= entries);
    assert forall|k: int| 0 <= k < entries.drop_last().len() implies entries.contains(
        #[trigger] entries.drop_last()[k],
    ) by {
        assert(entries[k] == entries.drop_last()[k]);
    }
    lemma_fewer_names(entries.drop_last(), entries);
}

/// Builds the request that goes upstream: the method as it came, the address that `uri` writes,
/// the headers without the client's host but with the upstream's, and the body as it came.
pub fn build_upstream_request(
    method: &Method,
    uri: &str,
    headers: &HeaderMap<HeaderValue>,
    host: &Option<String>,
    body: Bytes,
) -> (built: Result<Request<Full<Bytes>>, String>)
    ensures
        match built {
            Ok(request) => {
                &&& uri_parse(uri@) is Ok
                &&& is_host_text(text_of(*host))
                &&& !is_overfull(upstream_headers(header_entries(*headers), text_of(*host)))
                &&& request_draft(request) == RequestDraft {
                    method: *method,
                    uri: uri_parse(uri@)->Ok_0,
                    http_11: true,
                    headers: upstream_headers(header_entries(*headers), text_of(*host)),
                    extensions: 0,
                }
                &&& request_body(request) == bytes_content(body)
            },
            Err(message) => {
                ||| uri_parse(uri@) == Err::<Uri, Seq<char>>(message@)
                ||| uri_parse(uri@) is Ok && !is_host_text(text_of(*host)) && message@
                    == "failed to parse header value"@
                ||| uri_parse(uri@) is Ok && is_crowded(
                    upstream_headers(header_entries(*headers), text_of(*host)),
                ) && message@ == "max size reached"@
            },
        },
{
    let items = header_items(headers);
    let ghost entries = header_entries(*headers);
    let mut builder = with_uri(with_method(new_request(), method), uri);
    proof {
        reveal(Seq::filter);
        assert(entries.take(0) =~= Seq::empty());
        assert(forwarded(entries.take(0)) =~= Seq::empty());
    }
    let mut i: usize = 0;
    while i < items.len()
        invariant
            i <= items@.len(),
            item_entries(items@) == entries,
            items@.len() == entries.len(),
            grouped(entries),
            match builder_draft(builder) {
                Ok(d) => uri_parse(uri@) is Ok && !is_overfull(forwarded(entries.take(i as int)))
                    && d == (RequestDraft {
                    method: *method,
                    uri: uri_parse(uri@)->Ok_0,
                    http_11: true,
                    headers: forwarded(entries.take(i as int)),
                    extensions: 0,
                }),
                Err(e) => uri_parse(uri@) == Err::<Uri, Seq<char>>(e) || (uri_parse(uri@) is Ok
                    && is_crowded(forwarded(entries.take(i as int))) && e == "max size reached"@),
            },
        decreases items.len() - i,
    {
        let (name, value) = items[i];
        proof {
            assert(entries[i as int] == item_entries(items@)[i as int]);
            lemma_forwarded_step(entries, i as int);
            lemma_forwarded_append(entries, i as int);
            let before = forwarded(entries.take(i as int));
            assert(before.push(entries[i as int]).drop_last() =~= before);
            if is_crowded(before) {
                lemma_stays_crowded(before, entries[i as int]);
            }
        }
        if !is_host(name) {
            builder = with_header(builder, name, value);
        }
        i += 1;
    }
    proof {
        assert(entries.take(items@.len() as int) =~= entries);
        lemma_forwarded_without_host(entries);
    }
    if let Some(host) = host {
        proof {
            let before = forwarded(entries);
            let header = ("host"@, encode_utf8(host@));
            assert(before.push(header).drop_last() =~= before);
            if is_crowded(before) {
                lemma_stays_crowded(before, header);
            }
        }
        builder = with_host(builder, host.as_str());
    }
    match with_body(builder, full_body(body)) {
        Ok(request) => Ok(request),
        Err(e) => Err(error_message(&e)),
    }
}

// ---------------------------------------------------------------------------------------------
// The steps of an exchange
// ---------------------------------------------------------------------------------------------

/// What is known of a request while the upstream works on it.
pub struct Pending {
    pub id: usize,
    pub method: String,
    pub path: String,
    pub request_headers: Vec<(String, String)>,
    pub request_body: String,
}

/// What to do once a request has been read.
pub enum Opening {
    /// Answer at once.
    Refused(Reply),
    /// Send `request` upstream and keep `pending` until the answer is there.
    Forward { request: Request<Full<Bytes>>, pending: Pending },
}

/// What to do once the upstream's answer has been read.
pub struct Completion {
    /// What to report.
    pub event: Option<ProxyEvent>,
    /// What to hand back to the client.
    pub reply: Reply,
}

/// Whether the notes hold what is shown of a request.
pub open spec fn notes_request(
    pending: Pending,
    id: usize,
    method: Method,
    uri: Uri,
    headers: HeaderMap<HeaderValue>,
    content: Seq<u8>,
) -> bool {
    &&& pending.id == id
    &&& pending.method@ == method_text(method)
    &&& pending.path@ == target_of(uri)
    &&& text_pairs(pending.request_headers@) == shown_headers(header_entries(headers))
    &&& pending.request_body@ == body_text(content)
}

/// What opening an exchange leads to. The address upstream is the upstream's own with the
/// request's path and query behind it.
pub open spec fn opens_as(
    id: usize,
    upstream_url: Seq<char>,
    method: Method,
    uri: Uri,
    headers: HeaderMap<HeaderValue>,
    body: Result<Bytes, String>,
    opening: Opening,
) -> bool {
    let address = upstream_url + target_of(uri);
    let sent = upstream_headers(header_entries(headers), authority_of(upstream_url));
    match (body, opening) {
        (Err(e), Opening::Refused(reply)) => is_error_reply(reply, "Body read error: "@ + e@),
        (Err(_), Opening::Forward { .. }) => false,
        (Ok(_), Opening::Refused(reply)) => match uri_parse(address) {
            Err(m) => is_error_reply(reply, "Request build error: "@ + m),
            Ok(_) => is_crowded(sent) && is_error_reply(
                reply,
                "Request build error: "@ + "max size reached"@,
            ),
        },
        (Ok(b), Opening::Forward { request, pending }) => {
            &&& uri_parse(address) is Ok
            &&& !is_overfull(sent)
            &&& request_draft(request) == RequestDraft {
                method,
                uri: uri_parse(address)->Ok_0,
                http_11: true,
                headers: sent,
                extensions: 0,
            }
            &&& request_body(request) == bytes_content(b)
            &&& notes_request(pending, id, method, uri, headers, bytes_content(b))
        },
    }
}

/// The first step: a request has come in, and its body has been read or could not be.
pub fn open_exchange(
    id: usize,
    upstream_url: &str,
    method: &Method,
    uri: &Uri,
    headers: &HeaderMap<HeaderValue>,
    body: Result<Bytes, String>,
) -> (opening: Opening)
    ensures
        opens_as(id, upstream_url@, *method, *uri, *headers, body, opening),
{
    let bytes = match body {
        Ok(bytes) => bytes,
        Err(e) => {
            return Opening::Refused(failure("Body read error: ", e.as_str()));
        },
    };
    let path = request_path(uri);
    let mut address = upstream_url.to_owned();
    address.append(path.as_str());
    let pending = Pending {
        id,
        method: method.as_str().to_owned(),
        path,
        request_headers: header_texts(headers),
        request_body: bytes_to_string(&bytes),
    };
    let host = upstream_host(upstream_url);
    match build_upstream_request(method, address.as_str(), headers, &host, bytes) {
        Ok(request) => Opening::Forward { request, pending },
        Err(m) => Opening::Refused(failure("Request build error: ", m.as_str())),
    }
}

/// The second step, if the upstream gave no answer.
pub fn upstream_failed(message: &str) -> (reply: Reply)
    ensures
        is_error_reply(reply, "Upstream error: "@ + message@),
{
    failure("Upstream error: ", message)
}

/// Whether an entry holds the notes on a request and what is shown of the answer to it.
pub open spec fn records(
    entry: ProxyEntry,
    pending: Pending,
    head: ResponseDraft,
    content: Seq<u8>,
    timestamp: SystemTime,
) -> bool {
    &&& entry.id == pending.id
    &&& entry.method == pending.method
    &&& entry.path == pending.path
    &&& entry.request_headers == pending.request_headers
    &&& entry.request_body == pending.request_body
    &&& entry.response_status == head.status
    &&& text_pairs(entry.response_headers@) == shown_headers(head.headers)
    &&& entry.response_body@ == body_text(content)
    &&& entry.timestamp == timestamp
}

/// What finishing an exchange leads to.
pub open spec fn finishes_as(
    pending: Pending,
    head: ResponseParts,
    body: Result<Bytes, String>,
    timestamp: SystemTime,
    completion: Completion,
) -> bool {
    match body {
        Err(e) => {
            &&& completion.event is None
            &&& is_error_reply(completion.reply, "Response body error: "@ + e@)
        },
        Ok(b) => {
            &&& completion.event matches Some(ProxyEvent::Entry(entry)) && records(
                *entry,
                pending,
                parts_draft(head),
                bytes_content(b),
                timestamp,
            )
            &&& reply_parts(completion.reply) == head
            &&& reply_body(completion.reply) == bytes_content(b)
        },
    }
}

/// The last step: the upstream's answer is there, and its body has been read or could not be.
pub fn finish_exchange(
    pending: Pending,
    head: ResponseParts,
    body: Result<Bytes, String>,
    timestamp: SystemTime,
) -> (completion: Completion)
    ensures
        finishes_as(pending, head, body, timestamp, completion),
{
    let bytes = match body {
        Ok(bytes) => bytes,
        Err(e) => {
            return Completion {
                event: None,
                reply: failure("Response body error: ", e.as_str()),
            };
        },
    };
    let entry = ProxyEntry {
        id: pending.id,
        method: pending.method,
        path: pending.path,
        request_headers: pending.request_headers,
        request_body: pending.request_body,
        response_status: parts_status(&head),
        response_headers: header_texts(parts_headers(&head)),
        response_body: bytes_to_string(&bytes),
        timestamp,
    };
    Completion {
        event: Some(ProxyEvent::Entry(Box::new(entry))),
        reply: reply_from_parts(head, boxed_full(full_body(bytes))),
    }
}

/// The answer to the client, once the report on the exchange was taken in or could not be: the
/// reply either way.
pub fn answer(reply: Reply, _reported: bool) -> (given: Reply)
    ensures
        given == reply,
{
    reply
}

// ---------------------------------------------------------------------------------------------
// Laws
// ---------------------------------------------------------------------------------------------

/// The upstream never sees the host that the client named: the only host among the headers that go
/// upstream is the upstream's own, and it is there if and only if its address names it.
pub proof fn only_the_upstream_host_is_sent(
    entries: Seq<(Seq<char>, Seq<u8>)>,
    host: Option<Seq<char>>,
)
    ensures
        has_name(upstream_headers(entries, host), "host"@) <==> host is Some,
        forall|i: int|
            0 <= i < upstream_headers(entries, host).len() && (#[trigger] upstream_headers(
                entries,
                host,
            )[i]).0 == "host"@ ==> host is Some && i == upstream_headers(entries, host).len() - 1
                && upstream_headers(entries, host)[i].1 == encode_utf8(host->0),
{
    lemma_forwarded_without_host(entries);
    let sent = upstream_headers(entries, host);
    if host is Some {
        assert(sent.last().0 == "host"@);
    }
    assert forall|i: int| 0 <= i < sent.len() && (#[trigger] sent[i]).0 == "host"@ implies host
        is Some && i == sent.len() - 1 && sent[i].1 == encode_utf8(host->0) by {
        if i < forwarded(entries).len() {
            assert(forwarded(entries)[i].0 == "host"@);
        }
    }
}

/// The headers under any other name go upstream as the client sent them: each as often, and in the
/// same order.
pub proof fn other_headers_are_sent_on(
    entries: Seq<(Seq<char>, Seq<u8>)>,
    host: Option<Seq<char>>,
    name: Seq<char>,
)
    requires
        name != "host"@,
    ensures
        upstream_headers(entries, host).filter(|e: (Seq<char>, Seq<u8>)| e.0 == name)
            == entries.filter(|e: (Seq<char>, Seq<u8>)| e.0 == name),
    decreases entries.len(), if host is Some { 1nat } else { 0nat },
{
    reveal(Seq::filter);
    let n = entries.len() as int;
    if host is Some {
        other_headers_are_sent_on(entries, None, name);
        assert(upstream_headers(entries, host).drop_last() =~= forwarded(entries));
    } else if n > 0 {
        other_headers_are_sent_on(entries.drop_last(), None, name);
        lemma_forwarded_step(entries, n - 1);
        assert(entries.take(n) =~= entries);
        assert(entries.take(n - 1) =~= entries.drop_last());
        let before = forwarded(entries.drop_last());
        assert(before.push(entries.last()).drop_last() =~= before);
    }
}

/// A request whose body was read is sent upstream whenever its address there is one, unless its
/// headers have thousands of names.
pub proof fn readable_requests_are_sent(
    id: usize,
    upstream_url: Seq<char>,
    method: Method,
    uri: Uri,
    headers: HeaderMap<HeaderValue>,
    body: Bytes,
    opening: Opening,
)
    requires
        opens_as(id, upstream_url, method, uri, headers, Ok(body), opening),
        uri_parse(upstream_url + target_of(uri)) is Ok,
        name_count(header_entries(headers)) < header_room(),
    ensures
        opening is Forward,
{
    let entries = header_entries(headers);
    let sent = upstream_headers(entries, authority_of(upstream_url));
    if sent.len() > 0 {
        let before = sent.drop_last();
        assert forall|k: int| 0 <= k < before.len() implies entries.contains(
            #[trigger] before[k],
        ) by {
            assert(before[k] == forwarded(entries)[k]);
            lemma_forwarded_is_there(entries, k);
        }
        lemma_fewer_names(before, entries);
    }
}

/// The entry on an exchange tells what went through: what was sent upstream, by the method, the
/// address behind the upstream's own and the body, and what the client got, by the status, the
/// headers and the body.
pub proof fn entry_tells_what_went_through(
    id: usize,
    upstream_url: Seq<char>,
    method: Method,
    uri: Uri,
    headers: HeaderMap<HeaderValue>,
    body: Bytes,
    request: Request<Full<Bytes>>,
    pending: Pending,
    head: ResponseParts,
    answer: Bytes,
    timestamp: SystemTime,
    completion: Completion,
)
    requires
        opens_as(
            id,
            upstream_url,
            method,
            uri,
            headers,
            Ok(body),
            Opening::Forward { request, pending },
        ),
        finishes_as(pending, head, Ok(answer), timestamp, completion),
    ensures
        completion.event matches Some(ProxyEvent::Entry(entry)) && {
            &&& entry.id == id
            &&& entry.method@ == method_text(request_draft(request).method)
            &&& uri_parse(upstream_url + entry.path@) == Ok::<Uri, Seq<char>>(
                request_draft(request).uri,
            )
            &&& text_pairs(entry.request_headers@) == shown_headers(header_entries(headers))
            &&& entry.request_body@ == body_text(request_body(request))
            &&& entry.response_status == parts_draft(reply_parts(completion.reply)).status
            &&& text_pairs(entry.response_headers@) == shown_headers(
                parts_draft(reply_parts(completion.reply)).headers,
            )
            &&& entry.response_body@ == body_text(reply_body(completion.reply))
        },
{
}

/// The upstream's answer reaches the client as it is: head and body.
pub proof fn answers_pass_unchanged(
    pending: Pending,
    head: ResponseParts,
    answer: Bytes,
    timestamp: SystemTime,
    completion: Completion,
)
    requires
        finishes_as(pending, head, Ok(answer), timestamp, completion),
    ensures
        reply_parts(completion.reply) == head,
        reply_body(completion.reply) == bytes_content(answer),
{
}

/// Whether two replies look the same to a client, in what they say before the body and in the body.
pub open spec fn same_reply(a: Reply, b: Reply) -> bool {
    &&& parts_draft(reply_parts(a)) == parts_draft(reply_parts(b))
    &&& reply_body(a) == reply_body(b)
}

/// What goes upstream does not depend on a request's number, nor does an answer of the proxy's
/// own. Two requests that differ in nothing else have the same fate, unless it depends on the
/// machine whether there is room for their headers' names; and if they have the same fate, the same
/// is sent, or answered.
pub proof fn number_changes_no_request(
    m: usize,
    n: usize,
    upstream_url: Seq<char>,
    method: Method,
    uri: Uri,
    headers: HeaderMap<HeaderValue>,
    body: Result<Bytes, String>,
    first: Opening,
    second: Opening,
)
    requires
        opens_as(m, upstream_url, method, uri, headers, body, first),
        opens_as(n, upstream_url, method, uri, headers, body, second),
    ensures
        ({
            let sent = upstream_headers(header_entries(headers), authority_of(upstream_url));
            !is_crowded(sent) || is_overfull(sent) ==> (first is Forward <==> second is Forward)
        }),
        match (first, second) {
            (Opening::Forward { request: p, .. }, Opening::Forward { request: q, .. }) => {
                request_draft(p) == request_draft(q) && request_body(p) == request_body(q)
            },
            (Opening::Refused(p), Opening::Refused(q)) => same_reply(p, q),
            _ => true,
        },
{
}

/// The client's answer depends on what the upstream answered alone: not on the request's number or
/// anything else that was noted, not on the time, and not on whether the report was taken in.
pub proof fn notes_and_reports_change_no_answer(
    p: Pending,
    q: Pending,
    head: ResponseParts,
    body: Result<Bytes, String>,
    s: SystemTime,
    t: SystemTime,
    first: Completion,
    second: Completion,
    given: Reply,
    given_unreported: Reply,
)
    requires
        finishes_as(p, head, body, s, first),
        finishes_as(q, head, body, t, second),
        call_ensures(answer, (first.reply, true), given),
        call_ensures(answer, (second.reply, false), given_unreported),
    ensures
        same_reply(given, given_unreported),
{
}

/// Bodies that are too long look alike if they are equally long.
pub proof fn long_bodies_show_their_length_alone(a: Seq<u8>, b: Seq<u8>)
    requires
        a.len() == b.len(),
        a.len() > MAX_BODY,
    ensures
        body_text(a) == body_text(b),
{
}

/// The path and query that a request asks for are its address's own, whole and whatever their
/// length, and `/` if the address has none.
pub proof fn paths_are_whole(uri: &Uri, path: String)
    requires
        call_ensures(request_path, (uri,), path),
    ensures
        uri_path(*uri) matches Some(p) ==> path@ == path_text(p),
        uri_path(*uri) is None ==> path@ == "/"@,
{
}

/// A request whose body was read goes to the upstream's address with its own path and query behind
/// it, whole and whatever their length, and these are noted. If that is no address, the client is
/// told why.
pub proof fn requests_go_to_their_address(
    id: usize,
    upstream_url: &str,
    method: &Method,
    uri: &Uri,
    headers: &HeaderMap<HeaderValue>,
    body: Bytes,
    target: Seq<char>,
    opening: Opening,
)
    requires
        call_ensures(open_exchange, (id, upstream_url, method, uri, headers, Ok(body)), opening),
        uri_path(*uri) matches Some(p) ==> target == path_text(p),
        uri_path(*uri) is None ==> target == "/"@,
    ensures
        opening matches Opening::Forward { request, pending } ==> uri_parse(upstream_url@ + target)
            == Ok::<Uri, Seq<char>>(request_draft(request).uri) && pending.path@ == target,
        uri_parse(upstream_url@ + target) matches Err(why) ==> (opening matches Opening::Refused(
            reply,
        ) && reply_body(reply) == encode_utf8("Request build error: "@ + why)),
        uri_parse(upstream_url@ + target) is Ok ==> (opening matches Opening::Refused(reply)
            ==> reply_body(reply) == encode_utf8(
            "Request build error: "@ + "max size reached"@,
        )),
{
}

/// Requests whose paths differ are noted under different paths.
pub proof fn different_paths_are_told_apart(
    a: &Uri,
    b: &Uri,
    first: String,
    second: String,
)
    requires
        uri_path(*a) is Some,
        uri_path(*b) is Some,
        path_text(uri_path(*a)->0) != path_text(uri_path(*b)->0),
        call_ensures(request_path, (a,), first),
        call_ensures(request_path, (b,), second),
    ensures
        first@ != second@,
{
    paths_are_whole(a, first);
    paths_are_whole(b, second);
}

/// A request whose body was read is sent upstream if there is an address to send it to and its
/// headers have fewer than 6554 names.
pub proof fn few_names_are_never_refused(
    id: usize,
    upstream_url: &str,
    method: &Method,
    uri: &Uri,
    headers: &HeaderMap<HeaderValue>,
    body: Bytes,
    target: Seq<char>,
    opening: Opening,
)
    requires
        call_ensures(open_exchange, (id, upstream_url, method, uri, headers, Ok(body)), opening),
        uri_path(*uri) matches Some(p) ==> target == path_text(p),
        uri_path(*uri) is None ==> target == "/"@,
        uri_parse(upstream_url@ + target) is Ok,
        header_entries(*headers).map_values(
            |e: (Seq<char>, Seq<u8>)| e.0,
        ).to_set().len() < 6554,
    ensures
        opening is Forward,
{
    readable_requests_are_sent(id, upstream_url@, *method, *uri, *headers, body, opening);
}

/// What is sent upstream has the client's method and the client's body, byte for byte, and the
/// notes on it name the method and the number.
pub proof fn method_and_body_pass_unchanged(
    id: usize,
    upstream_url: &str,
    method: &Method,
    uri: &Uri,
    headers: &HeaderMap<HeaderValue>,
    body: Bytes,
    request: Request<Full<Bytes>>,
    pending: Pending,
)
    requires
        call_ensures(
            open_exchange,
            (id, upstream_url, method, uri, headers, Ok(body)),
            Opening::Forward { request, pending },
        ),
    ensures
        request_draft(request).method == *method,
        request_draft(request).http_11,
        request_draft(request).extensions == 0,
        request_body(request) == bytes_content(body),
        pending.id == id,
        pending.method@ == method_text(*method),
{
}

/// If the upstream's address names a host, the last header that goes upstream is that host, whole
/// and whatever its length. Before it, and alone if there is no such host, come the client's
/// headers but for the client's host, in the client's order. There are at most 24575 names among
/// those before the last.
pub proof fn headers_go_with_the_upstreams_host(
    id: usize,
    upstream_url: &str,
    method: &Method,
    uri: &Uri,
    headers: &HeaderMap<HeaderValue>,
    body: Bytes,
    request: Request<Full<Bytes>>,
    pending: Pending,
)
    requires
        call_ensures(
            open_exchange,
            (id, upstream_url, method, uri, headers, Ok(body)),
            Opening::Forward { request, pending },
        ),
    ensures
        ({
            let sent = request_draft(request).headers;
            let kept = header_entries(*headers).filter(
                |e: (Seq<char>, Seq<u8>)| e.0 != "host"@,
            );
            match uri_parse(upstream_url@) {
                Ok(u) => match uri_authority(u) {
                    Some(a) => sent.len() > 0 && sent.last() == (
                        "host"@,
                        encode_utf8(authority_text(a)),
                    ) && sent.drop_last() == kept,
                    None => sent == kept,
                },
                Err(_) => sent == kept,
            }
        }),
        request_draft(request).headers.len() > 0 ==> request_draft(
            request,
        ).headers.drop_last().map_values(
            |e: (Seq<char>, Seq<u8>)| e.0,
        ).to_set().len() < 24576,
{
    let sent = request_draft(request).headers;
    if authority_of(upstream_url@) is Some {
        assert(sent.drop_last() =~= forwarded(header_entries(*headers)));
    }
}

/// The host that an address names is its authority, whole and whatever its length; there is none
/// if and only if the text is no address or the address has no authority.
pub proof fn hosts_are_whole(url: &str, host: Option<String>)
    requires
        call_ensures(upstream_host, (url,), host),
    ensures
        host matches Some(h) ==> (uri_parse(url@) matches Ok(u) && (uri_authority(u) matches Some(a)
            && h@ == authority_text(a))),
        host is None ==> (uri_parse(url@) matches Ok(u) ==> uri_authority(u) is None),
{
}

/// A request is built if and only if there is an address, a host that can be a header's value and
/// room for the headers, which there always is for fewer than 6554 names. It has the method, the
/// address, the headers and the body that were given; and if it is not built, the message says
/// which of these was missing.
pub proof fn requests_are_built_as_told(
    method: &Method,
    uri: &str,
    headers: &HeaderMap<HeaderValue>,
    host: &Option<String>,
    body: Bytes,
    built: Result<Request<Full<Bytes>>, String>,
)
    requires
        call_ensures(build_upstream_request, (method, uri, headers, host, body), built),
    ensures
        uri_parse(uri@) matches Err(why) ==> (built matches Err(message) && message@ == why),
        built matches Ok(request) ==> {
            let kept = header_entries(*headers).filter(
                |e: (Seq<char>, Seq<u8>)| e.0 != "host"@,
            );
            &&& uri_parse(uri@) == Ok::<Uri, Seq<char>>(request_draft(request).uri)
            &&& request_draft(request).method == *method
            &&& request_draft(request).http_11
            &&& request_draft(request).extensions == 0
            &&& request_body(request) == bytes_content(body)
            &&& match *host {
                Some(h) => is_header_value(encode_utf8(h@)) && request_draft(request).headers
                    == kept.push(("host"@, encode_utf8(h@))),
                None => request_draft(request).headers == kept,
            }
        },
        uri_parse(uri@) is Ok && (*host matches Some(h) ==> is_header_value(encode_utf8(h@)))
            && header_entries(*headers).map_values(
            |e: (Seq<char>, Seq<u8>)| e.0,
        ).to_set().len() < 6554 ==> built is Ok,
        uri_parse(uri@) is Ok && (*host matches Some(h) && !is_header_value(encode_utf8(h@)))
            && header_entries(*headers).map_values(
            |e: (Seq<char>, Seq<u8>)| e.0,
        ).to_set().len() < 6554 ==> (built matches Err(message) && message@
            == "failed to parse header value"@),
        uri_parse(uri@) is Ok && (*host matches Some(h) ==> is_header_value(encode_utf8(h@))) ==> (
        built matches Err(message) ==> message@ == "max size reached"@),
{
    let entries = header_entries(*headers);
    let sent = upstream_headers(entries, text_of(*host));
    if name_count(entries) < header_room() && sent.len() > 0 {
        let before = sent.drop_last();
        assert forall|k: int| 0 <= k < before.len() implies entries.contains(
            #[trigger] before[k],
        ) by {
            assert(before[k] == forwarded(entries)[k]);
            lemma_forwarded_is_there(entries, k);
        }
        lemma_fewer_names(before, entries);
    }
}

/// Every header of a message is shown, in its place and under its name: with its value, whatever
/// the value's length, if all of that is visible ASCII, and as binary if and only if it is not.
pub proof fn headers_are_shown_one_by_one(
    headers: &HeaderMap<HeaderValue>,
    texts: Vec<(String, String)>,
)
    requires
        call_ensures(header_texts, (headers,), texts),
    ensures
        texts@.len() == header_entries(*headers).len(),
        forall|i: int|
            0 <= i < texts@.len() ==> (#[trigger] texts@[i]).0@ == header_entries(*headers)[i].0
                && (all_visible(header_entries(*headers)[i].1) ==> texts@[i].1@ == ascii_text(
                header_entries(*headers)[i].1,
            )) && (!all_visible(header_entries(*headers)[i].1) ==> texts@[i].1@ == "<binary>"@),
{
    lemma_shown_one_by_one(texts@, header_entries(*headers));
}

/// What it is for headers to be shown, header by header.
proof fn lemma_shown_one_by_one(
    texts: Seq<(String, String)>,
    entries: Seq<(Seq<char>, Seq<u8>)>,
)
    requires
        text_pairs(texts) == shown_headers(entries),
    ensures
        texts.len() == entries.len(),
        forall|i: int|
            0 <= i < texts.len() ==> (#[trigger] texts[i]).0@ == entries[i].0 && (all_visible(
                entries[i].1,
            ) ==> texts[i].1@ == ascii_text(entries[i].1)) && (!all_visible(entries[i].1)
                ==> texts[i].1@ == "<binary>"@),
{
    assert(text_pairs(texts).len() == texts.len());
    assert(shown_headers(entries).len() == entries.len());
    assert forall|i: int| 0 <= i < texts.len() implies (#[trigger] texts[i]).0@ == entries[i].0 && (
    all_visible(entries[i].1) ==> texts[i].1@ == ascii_text(entries[i].1)) && (!all_visible(
        entries[i].1,
    ) ==> texts[i].1@ == "<binary>"@) by {
        assert(text_pairs(texts)[i] == shown_headers(entries)[i]);
    }
}

/// A value that is shown as text is shown byte by byte: as many characters as bytes, and each
/// character that of its byte.
pub proof fn visible_values_are_shown_whole(value: Seq<u8>)
    ensures
        all_visible(value) <==> (forall|k: int|
            0 <= k < value.len() ==> 32 <= #[trigger] value[k] <= 126 || value[k] == 9),
        ascii_text(value).len() == value.len(),
        forall|k: int|
            0 <= k < value.len() ==> #[trigger] ascii_text(value)[k] as int == value[k] as int,
{
    assert forall|k: int| all_visible(value) && 0 <= k < value.len() implies 32
        <= #[trigger] value[k] <= 126 || value[k] == 9 by {
        assert(is_visible(value[k]));
    }
}

/// The notes on a request that is sent upstream show its headers and its body: every header in its
/// place, with its value if that is visible and as binary if it is not, and a body of up to 1048576
/// bytes as text.
pub proof fn requests_are_noted_in_full(
    id: usize,
    upstream_url: &str,
    method: &Method,
    uri: &Uri,
    headers: &HeaderMap<HeaderValue>,
    body: Bytes,
    request: Request<Full<Bytes>>,
    pending: Pending,
)
    requires
        call_ensures(
            open_exchange,
            (id, upstream_url, method, uri, headers, Ok(body)),
            Opening::Forward { request, pending },
        ),
    ensures
        pending.request_headers@.len() == header_entries(*headers).len(),
        forall|i: int|
            0 <= i < pending.request_headers@.len() ==> (#[trigger] pending.request_headers@[i]).0@
                == header_entries(*headers)[i].0 && (all_visible(header_entries(*headers)[i].1)
                ==> pending.request_headers@[i].1@ == ascii_text(header_entries(*headers)[i].1))
                && (!all_visible(header_entries(*headers)[i].1)
                ==> pending.request_headers@[i].1@ == "<binary>"@),
        bytes_content(body).len() <= 1048576 ==> pending.request_body@ == utf8_lossy(
            bytes_content(body),
        ),
        bytes_content(body).len() > 1048576 ==> pending.request_body@ == "[truncated "@
            + decimal_text(bytes_content(body).len()) + " bytes]"@,
{
    lemma_shown_one_by_one(pending.request_headers@, header_entries(*headers));
}

/// The entry on an exchange holds the notes on the request as they are, and shows the answer's
/// status, headers and body: every header in its place, with its value if that is visible and as
/// binary if it is not, and a body of up to 1048576 bytes as text. The client gets the answer as it
/// is.
pub proof fn answers_are_shown_in_full(
    pending: Pending,
    head: ResponseParts,
    body: Bytes,
    timestamp: SystemTime,
    completion: Completion,
)
    requires
        call_ensures(finish_exchange, (pending, head, Ok(body), timestamp), completion),
    ensures
        completion.event matches Some(ProxyEvent::Entry(entry)) && {
            let shown = entry.response_headers@;
            let given = parts_draft(head).headers;
            &&& entry.id == pending.id
            &&& entry.method@ == pending.method@
            &&& entry.path@ == pending.path@
            &&& entry.request_headers@ == pending.request_headers@
            &&& entry.request_body@ == pending.request_body@
            &&& entry.timestamp == timestamp
            &&& entry.response_status == parts_draft(head).status
            &&& shown.len() == given.len()
            &&& forall|i: int|
                0 <= i < shown.len() ==> (#[trigger] shown[i]).0@ == given[i].0 && (all_visible(
                    given[i].1,
                ) ==> shown[i].1@ == ascii_text(given[i].1)) && (!all_visible(given[i].1)
                    ==> shown[i].1@ == "<binary>"@)
            &&& bytes_content(body).len() <= 1048576 ==> entry.response_body@ == utf8_lossy(
                bytes_content(body),
            )
            &&& bytes_content(body).len() > 1048576 ==> entry.response_body@ == "[truncated "@
                + decimal_text(bytes_content(body).len()) + " bytes]"@
        },
        reply_parts(completion.reply) == head,
        reply_body(completion.reply) == bytes_content(body),
{
    if let Some(ProxyEvent::Entry(entry)) = completion.event {
        lemma_shown_one_by_one(entry.response_headers@, parts_draft(head).headers);
    }
}

/// A body of up to 1048576 bytes is shown as its text, and of a longer one its length is told.
pub proof fn bodies_are_shown(b: &Bytes, s: String, length: String)
    requires
        call_ensures(bytes_to_string, (b,), s),
        bytes_content(*b).len() <= u64::MAX,
        call_ensures(decimal, (bytes_content(*b).len() as u64,), length),
    ensures
        bytes_content(*b).len() <= 1048576 ==> s@ == utf8_lossy(bytes_content(*b)),
        bytes_content(*b).len() > 1048576 ==> s@ == "[truncated "@ + length@ + " bytes]"@,
{
}

/// Two bodies of UTF-8 that are shown alike, neither too long, are the same bytes.
pub proof fn readable_bodies_are_told_apart(a: &Bytes, b: &Bytes, s: String, t: String)
    requires
        call_ensures(bytes_to_string, (a,), s),
        call_ensures(bytes_to_string, (b,), t),
        valid_utf8(bytes_content(*a)),
        valid_utf8(bytes_content(*b)),
        bytes_content(*a).len() <= 1048576,
        bytes_content(*b).len() <= 1048576,
        s@ == t@,
    ensures
        bytes_content(*a) == bytes_content(*b),
{
    decode_utf8_encode_utf8(bytes_content(*a));
    decode_utf8_encode_utf8(bytes_content(*b));
}

/// Bodies that are too long are told apart by their lengths.
pub proof fn long_bodies_tell_their_length(a: Seq<u8>, b: Seq<u8>)
    requires
        a.len() > 1048576,
        b.len() > 1048576,
        body_text(a) == body_text(b),
    ensures
        a.len() == b.len(),
{
    let (m, n) = (decimal_text(a.len()), decimal_text(b.len()));
    let (head, tail) = ("[truncated "@, " bytes]"@);
    assert(body_text(a) == head + m + tail);
    assert(body_text(b) == head + n + tail);
    assert(m =~= body_text(a).subrange(head.len() as int, body_text(a).len() - tail.len()));
    assert(n =~= body_text(b).subrange(head.len() as int, body_text(b).len() - tail.len()));
    decimal_is_injective(a.len(), b.len());
}

/// Whatever fails, the client gets an answer with status 502, without headers, whose body is the
/// message.
pub proof fn failures_are_answered(msg: String, reply: Reply)
    requires
        call_ensures(error_response, (msg,), reply),
    ensures
        parts_draft(reply_parts(reply)).status == 502,
        parts_draft(reply_parts(reply)).http_11,
        parts_draft(reply_parts(reply)).headers.len() == 0,
        parts_draft(reply_parts(reply)).extensions == 0,
        reply_body(reply) == encode_utf8(msg@),
{
}

/// A request whose body could not be read is not sent, an answer whose body could not be read is
/// not passed on or reported, and an upstream that does not answer is told of: each with status
/// 502, no headers and a body that says what failed and why, whole.
pub proof fn failures_say_what_failed(
    id: usize,
    upstream_url: &str,
    method: &Method,
    uri: &Uri,
    headers: &HeaderMap<HeaderValue>,
    unread: String,
    opening: Opening,
    message: &str,
    unanswered: Reply,
    pending: Pending,
    head: ResponseParts,
    broken: String,
    timestamp: SystemTime,
    completion: Completion,
)
    requires
        call_ensures(open_exchange, (id, upstream_url, method, uri, headers, Err(unread)), opening),
        call_ensures(upstream_failed, (message,), unanswered),
        call_ensures(finish_exchange, (pending, head, Err(broken), timestamp), completion),
    ensures
        opening matches Opening::Refused(reply) && parts_draft(reply_parts(reply)).status == 502
            && parts_draft(reply_parts(reply)).headers.len() == 0 && reply_body(reply)
            == encode_utf8("Body read error: "@ + unread@),
        parts_draft(reply_parts(unanswered)).status == 502,
        parts_draft(reply_parts(unanswered)).headers.len() == 0,
        reply_body(unanswered) == encode_utf8("Upstream error: "@ + message@),
        completion.event is None,
        parts_draft(reply_parts(completion.reply)).status == 502,
        parts_draft(reply_parts(completion.reply)).headers.len() == 0,
        reply_body(completion.reply) == encode_utf8("Response body error: "@ + broken@),
{
}

/// A request that is refused after its body was read is answered with status 502 too, without
/// headers.
pub proof fn refusals_are_failures(
    id: usize,
    upstream_url: &str,
    method: &Method,
    uri: &Uri,
    headers: &HeaderMap<HeaderValue>,
    body: Result<Bytes, String>,
    reply: Reply,
)
    requires
        call_ensures(
            open_exchange,
            (id, upstream_url, method, uri, headers, body),
            Opening::Refused(reply),
        ),
    ensures
        parts_draft(reply_parts(reply)).status == 502,
        parts_draft(reply_parts(reply)).headers.len() == 0,
{
}

/// The client is handed the reply as it is, whether the report was taken in or not.
pub proof fn replies_are_handed_over(reply: Reply, reported: bool, given: Reply)
    requires
        call_ensures(answer, (reply, reported), given),
    ensures
        reply_parts(given) == reply_parts(reply),
        reply_body(given) == reply_body(reply),
{
}

} // verus!
