use bounce::exchange::{
    answer, build_upstream_request, bytes_to_string, error_response, finish_exchange, header_texts,
    open_exchange, request_path, upstream_failed, upstream_host, Completion, Opening, Pending, Reply,
    BAD_GATEWAY, MAX_BODY,
};
use bounce::types::{ProxyEntry, ProxyEvent};
use bytes::Bytes;
use http_body_util::{BodyExt, Full};
use hyper::header::{HeaderMap, HeaderName, HeaderValue};
use hyper::http::request::Parts as RequestParts;
use hyper::http::response::Parts as ResponseParts;
use hyper::{Method, Request, Response, Uri, Version};
use std::time::{Duration, SystemTime};

fn pairs(items: &[(&str, &str)]) -> Vec<(String, String)> {
    items
        .iter()
        .map(|(k, v)| (k.to_string(), v.to_string()))
        .collect()
}

fn header_map(items: &[(&str, &[u8])]) -> HeaderMap {
    let mut map = HeaderMap::new();
    for (name, value) in items {
        map.append(
            HeaderName::from_bytes(name.as_bytes()).unwrap(),
            HeaderValue::from_bytes(value).unwrap(),
        );
    }
    map
}

fn entries_of(map: &HeaderMap) -> Vec<(String, Vec<u8>)> {
    map.iter()
        .map(|(k, v)| (k.as_str().to_string(), v.as_bytes().to_vec()))
        .collect()
}

fn request_parts(method: &str, uri: &str, headers: &[(&str, &[u8])]) -> RequestParts {
    let (mut parts, _) = Request::builder()
        .method(method)
        .uri(uri)
        .body(())
        .unwrap()
        .into_parts();
    parts.headers = header_map(headers);
    parts
}

fn response_parts(status: u16, headers: &[(&str, &[u8])]) -> ResponseParts {
    let (mut parts, _) = Response::builder()
        .status(status)
        .version(Version::HTTP_2)
        .body(())
        .unwrap()
        .into_parts();
    parts.headers = header_map(headers);
    parts
}

fn reply_bytes(reply: Reply) -> Vec<u8> {
    let collected = futures::executor::block_on(reply.into_body().collect()).unwrap();
    collected.to_bytes().to_vec()
}

fn assert_error(reply: Reply, message: &str) {
    assert_eq!(reply.status().as_u16(), 502);
    assert_eq!(reply.version(), Version::HTTP_11);
    assert!(reply.headers().is_empty());
    assert!(reply.extensions().is_empty());
    assert_eq!(reply_bytes(reply), message.as_bytes());
}

fn open(parts: &RequestParts, upstream: &str, body: Result<Bytes, String>) -> Opening {
    open_exchange(7, upstream, &parts.method, &parts.uri, &parts.headers, body)
}

fn forwarded(opening: Opening) -> (Request<Full<Bytes>>, Pending) {
    match opening {
        Opening::Forward { request, pending } => (request, pending),
        Opening::Refused(_) => panic!("the request should have been sent on"),
    }
}

fn refused(opening: Opening) -> Reply {
    match opening {
        Opening::Refused(reply) => reply,
        Opening::Forward { .. } => panic!("the request should have been refused"),
    }
}

fn entry_of(completion: &Completion) -> &ProxyEntry {
    match &completion.event {
        Some(ProxyEvent::Entry(entry)) => entry,
        _ => panic!("the exchange should have been reported"),
    }
}

#[test]
fn short_bodies_are_shown_as_text() {
    assert_eq!(bytes_to_string(&Bytes::from_static(b"")), "");
    assert_eq!(bytes_to_string(&Bytes::from_static(b"hello")), "hello");
    assert_eq!(bytes_to_string(&Bytes::from("gr\u{fc}n \u{1f980}".to_string())), "gr\u{fc}n \u{1f980}");
}

#[test]
fn bytes_that_are_no_text_are_replaced() {
    assert_eq!(bytes_to_string(&Bytes::from_static(b"a\xffb")), "a\u{fffd}b");
}

#[test]
fn long_bodies_are_shown_by_their_length() {
    assert_eq!(MAX_BODY, 1_048_576);
    let full = Bytes::from(vec![b'x'; MAX_BODY]);
    assert_eq!(bytes_to_string(&full).len(), MAX_BODY);
    let longer = Bytes::from(vec![b'x'; MAX_BODY + 1]);
    assert_eq!(bytes_to_string(&longer), "[truncated 1048577 bytes]");
}

#[test]
fn shown_text_takes_at_most_three_times_the_limit() {
    let bytes = Bytes::from(vec![0xffu8; MAX_BODY]);
    assert_eq!(bytes_to_string(&bytes).len(), 3 * MAX_BODY);
    let cut_off = Bytes::from_static(b"\xf0\x9f\x98");
    assert!(bytes_to_string(&cut_off).len() <= 9);
    let mixed = Bytes::from((0..MAX_BODY).map(|i| (i * 7 % 256) as u8).collect::<Vec<u8>>());
    assert!(bytes_to_string(&mixed).len() <= 3 * MAX_BODY);
}

#[test]
fn equally_long_bodies_look_alike() {
    let a = Bytes::from(vec![b'x'; MAX_BODY + 9]);
    let b = Bytes::from(vec![0xffu8; MAX_BODY + 9]);
    assert_eq!(bytes_to_string(&a), bytes_to_string(&b));
    assert!(bytes_to_string(&a).len() <= MAX_BODY);
}

#[test]
fn headers_are_shown_in_order() {
    let map = header_map(&[
        ("Accept", b"a/b"),
        ("x-tab", b"a\tb"),
        ("ACCEPT", b"c"),
        ("x-bin", b"\xff"),
        ("x-latin", b"caf\xe9"),
        ("x-empty", b""),
    ]);
    assert_eq!(
        header_texts(&map),
        pairs(&[
            ("accept", "a/b"),
            ("accept", "c"),
            ("x-tab", "a\tb"),
            ("x-bin", "<binary>"),
            ("x-latin", "<binary>"),
            ("x-empty", ""),
        ])
    );
    assert!(header_texts(&HeaderMap::new()).is_empty());
}

#[test]
fn paths_come_with_their_query() {
    let path = |text: &str| request_path(&text.parse::<Uri>().unwrap());
    assert_eq!(path("/a/b?c=d"), "/a/b?c=d");
    assert_eq!(path("http://example.com"), "/");
    assert_eq!(path("http://example.com/x"), "/x");
    assert_eq!(path("*"), "*");
    assert_eq!(path("example.com:443"), "/");
}

#[test]
fn the_upstream_host_is_its_authority() {
    let host = |text: &str| upstream_host(text);
    assert_eq!(host("http://localhost:8080"), Some("localhost:8080".to_string()));
    assert_eq!(host("http://u:p@example.com/x"), Some("u:p@example.com".to_string()));
    assert_eq!(host("localhost:8080"), Some("localhost:8080".to_string()));
    assert_eq!(host("/no/host"), None);
    assert_eq!(host("http://"), None);
    assert_eq!(host(""), None);
    assert_eq!(host("not an address"), None);
}

#[test]
fn error_responses_are_bad_gateways() {
    assert_eq!(BAD_GATEWAY, 502);
    assert_error(error_response("no \u{fc}".to_string()), "no \u{fc}");
}

#[test]
fn requests_are_built_for_the_upstream() {
    let map = header_map(&[
        ("x-a", b"1"),
        ("host", b"client"),
        ("x-b", b"\xff"),
        ("x-a", b"2"),
        ("x-c", b"3"),
    ]);
    let request = build_upstream_request(
        &Method::PUT,
        "http://up:81/p?q",
        &map,
        &Some("up:81".to_string()),
        Bytes::from_static(b"body"),
    )
    .unwrap();
    assert_eq!(request.method(), Method::PUT);
    assert_eq!(request.uri().to_string(), "http://up:81/p?q");
    assert_eq!(request.version(), Version::HTTP_11);
    assert!(request.extensions().is_empty());
    assert_eq!(
        entries_of(request.headers()),
        vec![
            ("x-a".to_string(), b"1".to_vec()),
            ("x-a".to_string(), b"2".to_vec()),
            ("x-b".to_string(), b"\xff".to_vec()),
            ("x-c".to_string(), b"3".to_vec()),
            ("host".to_string(), b"up:81".to_vec()),
        ]
    );
    assert_eq!(request.into_body().into_inner(), Some(Bytes::from_static(b"body")));
}

#[test]
fn requests_without_a_known_upstream_host_have_none() {
    let map = header_map(&[("host", b"client"), ("host", b"again"), ("x-a", b"1")]);
    let request =
        build_upstream_request(&Method::GET, "/p", &map, &None, Bytes::from_static(b"")).unwrap();
    assert_eq!(entries_of(request.headers()), vec![("x-a".to_string(), b"1".to_vec())]);
}

#[test]
fn requests_to_no_address_are_not_built() {
    let map = HeaderMap::new();
    for uri in ["http://a b/", "", "http://", "\u{0}"] {
        let expected = uri.parse::<Uri>().unwrap_err().to_string();
        let built = build_upstream_request(&Method::GET, uri, &map, &None, Bytes::new());
        assert_eq!(built.unwrap_err(), expected);
    }
}

#[test]
fn hosts_that_no_header_can_hold_are_an_error() {
    let map = HeaderMap::new();
    let host = Some("a\nb".to_string());
    let built = build_upstream_request(&Method::GET, "/", &map, &host, Bytes::new());
    assert_eq!(built.unwrap_err(), "failed to parse header value");
    let host = Some("caf\u{e9}".to_string());
    let built = build_upstream_request(&Method::GET, "/", &map, &host, Bytes::new()).unwrap();
    assert_eq!(
        entries_of(built.headers()),
        vec![("host".to_string(), "caf\u{e9}".as_bytes().to_vec())]
    );
}

/// As many headers of different names as a map takes, host excluded.
fn crowded() -> HeaderMap {
    let mut map = HeaderMap::new();
    let mut i = 0u32;
    while map
        .try_append(
            HeaderName::from_bytes(format!("x-{i}").as_bytes()).unwrap(),
            HeaderValue::from_static("v"),
        )
        .is_ok()
    {
        i += 1;
    }
    map
}

#[test]
fn a_header_too_many_is_an_error() {
    let map = crowded();
    assert!(map.len() >= 6554);
    let host = Some("up".to_string());
    let built = build_upstream_request(&Method::GET, "/", &map, &host, Bytes::new());
    assert_eq!(built.unwrap_err(), "max size reached");
}

#[test]
fn thousands_of_headers_are_sent_on() {
    let mut map = HeaderMap::new();
    for i in 0..6553 {
        map.append(
            HeaderName::from_bytes(format!("x-{i}").as_bytes()).unwrap(),
            HeaderValue::from_static("v"),
        );
    }
    let host = Some("up".to_string());
    let request =
        build_upstream_request(&Method::GET, "/", &map, &host, Bytes::new()).unwrap();
    assert_eq!(request.headers().len(), 6554);
}

#[test]
fn values_take_no_room_from_names() {
    let mut map = HeaderMap::new();
    for i in 0..40_000u32 {
        map.append("x-many", HeaderValue::from(i));
    }
    map.append("x-one", HeaderValue::from_static("v"));
    let host = Some("up".to_string());
    let request =
        build_upstream_request(&Method::GET, "/", &map, &host, Bytes::new()).unwrap();
    let sent = entries_of(request.headers());
    assert_eq!(sent.len(), 40_002);
    assert_eq!(sent[..40_001], entries_of(&map)[..]);
    assert_eq!(sent[40_001], ("host".to_string(), b"up".to_vec()));
}

#[test]
fn a_full_map_and_a_host_are_too_many() {
    let mut map = HeaderMap::new();
    let mut refusals = 0;
    while map.keys_len() < 24_576 && refusals < 10 {
        let name = HeaderName::from_bytes(format!("x-{}", map.keys_len()).as_bytes()).unwrap();
        if map.try_append(name, HeaderValue::from_static("v")).is_err() {
            refusals += 1;
        }
    }
    assert_eq!(map.keys_len(), 24_576);
    let host = Some("up".to_string());
    let built = build_upstream_request(&Method::GET, "/", &map, &host, Bytes::new());
    assert_eq!(built.unwrap_err(), "max size reached");
}

#[test]
fn unreadable_requests_are_refused() {
    let parts = request_parts("GET", "/x", &[]);
    let reply = refused(open(&parts, "http://up", Err("connection reset".to_string())));
    assert_error(reply, "Body read error: connection reset");
}

#[test]
fn requests_to_no_upstream_are_refused() {
    let parts = request_parts("GET", "/x", &[]);
    let expected = "not an address/x".parse::<Uri>().unwrap_err().to_string();
    let reply = refused(open(&parts, "not an address", Ok(Bytes::new())));
    assert_error(reply, &format!("Request build error: {expected}"));
}

#[test]
fn crowded_requests_are_refused() {
    let mut parts = request_parts("GET", "/x", &[]);
    parts.headers = crowded();
    let reply = refused(open(&parts, "http://up", Ok(Bytes::new())));
    assert_error(reply, "Request build error: max size reached");
}

#[test]
fn requests_are_sent_on() {
    let parts = request_parts(
        "PATCH",
        "/a?b=c",
        &[("host", b"client:3000"), ("x-a", b"1"), ("x-bin", b"\xfe")],
    );
    let body = Bytes::from_static(b"payload");
    let (request, pending) = forwarded(open(&parts, "http://up:81", Ok(body)));
    assert_eq!(request.method().as_str(), "PATCH");
    assert_eq!(request.uri().to_string(), "http://up:81/a?b=c");
    assert_eq!(
        entries_of(request.headers()),
        vec![
            ("x-a".to_string(), b"1".to_vec()),
            ("x-bin".to_string(), b"\xfe".to_vec()),
            ("host".to_string(), b"up:81".to_vec()),
        ]
    );
    assert_eq!(request.into_body().into_inner(), Some(Bytes::from_static(b"payload")));
    assert_eq!(pending.id, 7);
    assert_eq!(pending.method, "PATCH");
    assert_eq!(pending.path, "/a?b=c");
    assert_eq!(
        pending.request_headers,
        pairs(&[("host", "client:3000"), ("x-a", "1"), ("x-bin", "<binary>")])
    );
    assert_eq!(pending.request_body, "payload");
}

#[test]
fn a_path_behind_the_upstream_address_stays() {
    let parts = request_parts("GET", "/c", &[]);
    let (request, _) = forwarded(open(&parts, "http://up/a/b", Ok(Bytes::new())));
    assert_eq!(request.uri().to_string(), "http://up/a/b/c");
    assert_eq!(request.headers().get("host").unwrap(), "up");
}

#[test]
fn numbers_and_reports_change_no_answer() {
    let parts = request_parts("GET", "/x", &[("x-a", b"1")]);
    let mut answers = Vec::new();
    for (id, reported) in [(0, true), (usize::MAX, false)] {
        let body = Ok(Bytes::from_static(b"q"));
        let (request, pending) = forwarded(open_exchange(
            id,
            "http://up",
            &parts.method,
            &parts.uri,
            &parts.headers,
            body,
        ));
        let head = response_parts(201, &[("x-r", b"r")]);
        let completion = finish_exchange(
            pending,
            head,
            Ok(Bytes::from_static(b"a")),
            SystemTime::UNIX_EPOCH + Duration::from_secs(id as u64 % 7),
        );
        assert_eq!(entry_of(&completion).id, id);
        let reply = answer(completion.reply, reported);
        answers.push((
            request.uri().to_string(),
            entries_of(request.headers()),
            reply.status(),
            entries_of(reply.headers()),
            reply_bytes(reply),
        ));
    }
    assert_eq!(answers[0], answers[1]);
    assert_eq!(answers[0].4, b"a");
}

#[test]
fn silent_upstreams_are_reported_to_the_client() {
    assert_error(upstream_failed("refused"), "Upstream error: refused");
}

#[test]
fn answers_pass_and_are_recorded() {
    let parts = request_parts("POST", "/in", &[("x-a", b"1")]);
    let (_, pending) = forwarded(open(&parts, "http://up", Ok(Bytes::from_static(b"question"))));
    let head = response_parts(
        404,
        &[("x-r", b"r1"), ("set-cookie", b"a"), ("set-cookie", b"\xff")],
    );
    let now = SystemTime::UNIX_EPOCH + Duration::from_secs(99);
    let completion = finish_exchange(pending, head, Ok(Bytes::from_static(b"answer\xff")), now);
    let entry = entry_of(&completion);
    assert_eq!(entry.id, 7);
    assert_eq!(entry.method, "POST");
    assert_eq!(entry.path, "/in");
    assert_eq!(entry.request_headers, pairs(&[("x-a", "1")]));
    assert_eq!(entry.request_body, "question");
    assert_eq!(entry.response_status, 404);
    assert_eq!(
        entry.response_headers,
        pairs(&[("x-r", "r1"), ("set-cookie", "a"), ("set-cookie", "<binary>")])
    );
    assert_eq!(entry.response_body, "answer\u{fffd}");
    assert_eq!(entry.timestamp, now);
    let reply = completion.reply;
    assert_eq!(reply.status().as_u16(), 404);
    assert_eq!(reply.version(), Version::HTTP_2);
    assert_eq!(
        entries_of(reply.headers()),
        vec![
            ("x-r".to_string(), b"r1".to_vec()),
            ("set-cookie".to_string(), b"a".to_vec()),
            ("set-cookie".to_string(), b"\xff".to_vec()),
        ]
    );
    assert_eq!(reply_bytes(reply), b"answer\xff");
}

#[test]
fn long_answers_pass_whole() {
    let parts = request_parts("GET", "/in", &[]);
    let (_, pending) = forwarded(open(&parts, "http://up", Ok(Bytes::new())));
    let answer = Bytes::from(vec![7u8; MAX_BODY + 5]);
    let completion = finish_exchange(
        pending,
        response_parts(200, &[]),
        Ok(answer.clone()),
        SystemTime::UNIX_EPOCH,
    );
    assert_eq!(entry_of(&completion).response_body, "[truncated 1048581 bytes]");
    assert_eq!(reply_bytes(completion.reply), answer.to_vec());
}

#[test]
fn unreadable_answers_are_not_recorded() {
    let parts = request_parts("GET", "/in", &[]);
    let (_, pending) = forwarded(open(&parts, "http://up", Ok(Bytes::new())));
    let completion = finish_exchange(
        pending,
        response_parts(200, &[("x-r", b"r")]),
        Err("cut off".to_string()),
        SystemTime::UNIX_EPOCH,
    );
    assert!(completion.event.is_none());
    assert_error(completion.reply, "Response body error: cut off");
}
