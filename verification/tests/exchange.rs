use bytes::Bytes;
use follow_redirects::body::{BodyEvent, Buffer};
use follow_redirects::client::{follow_redirects, follow_redirects_max, DEFAULT_MAX_REDIRECTS};
use follow_redirects::error::Error;
use follow_redirects::future::{Action, Event, FutureInner};
use follow_redirects::machine::{Request, Response, Version};
use follow_redirects::uri::Uri;
use hyper::header::HeaderValue;
use hyper::HeaderMap;

struct Seen {
    method: String,
    uri: String,
    body: Vec<u8>,
    authorization: bool,
}

struct Outcome {
    requests: Vec<Seen>,
    last: Option<Response>,
    error: Option<Error>,
}

fn run(exchange: FutureInner, chunks: Vec<BodyEvent>, serve: &dyn Fn(&Request) -> Event) -> Outcome {
    let mut chunks = chunks.into_iter();
    let mut outcome = Outcome { requests: Vec::new(), last: None, error: None };
    let mut exchange = exchange;
    let mut event = Event::Start;
    loop {
        if let Event::Response(res) = &event {
            outcome.last = Some(Response { status: res.status, headers: res.headers.clone() });
        }
        let (next, action) = exchange.poll(event);
        exchange = next;
        match action {
            Action::ReadBody => event = Event::Body(chunks.next().unwrap_or(BodyEvent::End)),
            Action::Send(req) => {
                outcome.requests.push(Seen {
                    method: req.method.clone(),
                    uri: req.uri.to_text(),
                    body: req.body.to_vec(),
                    authorization: req.headers.contains_key("authorization"),
                });
                event = serve(&req);
            }
            Action::Return => {
                assert!(matches!(exchange, FutureInner::Swapping));
                return outcome;
            }
            Action::Fail(e) => {
                assert!(matches!(exchange, FutureInner::Swapping));
                outcome.error = Some(e);
                return outcome;
            }
        }
    }
}

fn reply(status: u16, location: Option<&str>) -> Event {
    let mut headers = HeaderMap::new();
    if let Some(location) = location {
        headers.insert("location", HeaderValue::from_str(location).unwrap());
    }
    Event::Response(Response { status, headers })
}

fn chain(req: &Request) -> Event {
    let path = req.uri.path_and_query().unwrap_or("");
    if path == "/" {
        reply(301, Some("/foo"))
    } else if path == "/foo" {
        reply(308, Some("/bar"))
    } else if path == "/bar" {
        reply(302, Some("/baz"))
    } else if path == "/baz" {
        reply(307, Some("/quux"))
    } else if path == "/quux" {
        reply(303, Some("/other"))
    } else if path == "/other" {
        reply(202, None)
    } else {
        reply(400, None)
    }
}

fn post(uri: &str) -> Request {
    let mut headers = HeaderMap::new();
    headers.insert("authorization", HeaderValue::from_static("Bearer t"));
    Request {
        method: "POST".to_string(),
        uri: Uri::parse(uri).unwrap(),
        version: Version::Http11,
        headers,
        body: Bytes::new(),
    }
}

#[test]
fn redirect_chain() {
    let client = follow_redirects(());
    let url = Uri::parse(&format!("http://{}", "127.0.0.1:0")).unwrap();
    let outcome = run(client.get(url), vec![], &chain);
    assert!(outcome.error.is_none());
    assert_eq!(202, outcome.last.unwrap().status);
    let paths: Vec<&str> = outcome.requests.iter().map(|r| r.uri.as_str()).collect();
    assert_eq!(
        vec![
            "http://127.0.0.1:0/",
            "http://127.0.0.1:0/foo",
            "http://127.0.0.1:0/bar",
            "http://127.0.0.1:0/baz",
            "http://127.0.0.1:0/quux",
            "http://127.0.0.1:0/other",
        ],
        paths
    );
    assert!(outcome.requests.iter().all(|r| r.method == "GET"));
}

#[test]
fn redirect_chain_of_a_post_ends_in_a_get() {
    let client = follow_redirects_max((), 5);
    let chunks = vec![BodyEvent::Chunk(b"a=".to_vec()), BodyEvent::Chunk(b"1".to_vec())];
    let outcome = run(client.request(post("http://example.org/")), chunks, &chain);
    assert!(outcome.error.is_none());
    assert_eq!(202, outcome.last.unwrap().status);
    assert_eq!(6, outcome.requests.len());
    for seen in &outcome.requests[..5] {
        assert_eq!("POST", seen.method);
        assert_eq!(b"a=1".to_vec(), seen.body);
        assert!(seen.authorization);
    }
    let last = &outcome.requests[5];
    assert_eq!("http://example.org/other", last.uri);
    assert_eq!("GET", last.method);
    assert!(last.body.is_empty());
    assert!(last.authorization);
}

#[test]
fn redirect_chain_is_cut_at_the_limit() {
    let client = follow_redirects_max((), 2);
    let outcome = run(client.request(post("http://example.org/")), vec![], &chain);
    assert!(outcome.error.is_none());
    assert_eq!(3, outcome.requests.len());
    assert_eq!("http://example.org/bar", outcome.requests[2].uri);
    let last = outcome.last.unwrap();
    assert_eq!(302, last.status);
    assert_eq!("/baz", last.headers.get("location").unwrap());
}

#[test]
fn endless_redirects_send_one_request_more_than_the_limit() {
    for limit in [0usize, 1, 4, 10] {
        let client = follow_redirects_max((), limit);
        let outcome =
            run(client.request(post("http://example.org/")), vec![], &|_| reply(307, Some("/again")));
        assert_eq!(limit + 1, outcome.requests.len());
        assert_eq!(307, outcome.last.unwrap().status);
    }
}

#[test]
fn default_limit_is_ten() {
    assert_eq!(10, DEFAULT_MAX_REDIRECTS);
    let client = follow_redirects("transport");
    assert_eq!(10, client.max_redirects());
    assert_eq!("transport", *client.transport());
    let url = Uri::parse("http://example.org/").unwrap();
    let outcome = run(client.get(url), vec![], &|_| reply(301, Some("/again")));
    assert_eq!(11, outcome.requests.len());
}

#[test]
fn limit_can_be_set() {
    let mut client = follow_redirects_max(7u8, 3);
    assert_eq!(3, client.max_redirects());
    client.set_max_redirects(21);
    assert_eq!(21, client.max_redirects());
    assert_eq!(7u8, *client.transport());
}

#[test]
fn get_sends_a_bare_get() {
    let client = follow_redirects(());
    let exchange = client.get(Uri::parse("http://example.org/a?b").unwrap());
    let (exchange, action) = exchange.poll(Event::Start);
    assert!(matches!(action, Action::ReadBody));
    let (exchange, action) = exchange.poll(Event::Body(BodyEvent::End));
    assert!(matches!(exchange, FutureInner::Requesting(_)));
    match action {
        Action::Send(req) => {
            assert_eq!("GET", req.method);
            assert_eq!("http://example.org/a?b", req.uri.to_text());
            assert_eq!(Version::Http11, req.version);
            assert!(req.headers.is_empty());
            assert!(req.body.is_empty());
        }
        _ => panic!("expected a request to send"),
    }
}

#[test]
fn redirect_without_location_is_handed_back() {
    let client = follow_redirects(());
    let outcome =
        run(client.request(post("http://example.org/")), vec![], &|_| reply(302, None));
    assert!(outcome.error.is_none());
    assert_eq!(1, outcome.requests.len());
    let last = outcome.last.unwrap();
    assert_eq!(302, last.status);
    assert!(last.headers.is_empty());
}

#[test]
fn redirect_to_another_host_loses_authorization() {
    let client = follow_redirects(());
    let serve = |req: &Request| {
        if req.uri.host() == Some("example.org") {
            reply(301, Some("http://example.com/"))
        } else {
            reply(200, None)
        }
    };
    let outcome = run(client.request(post("http://example.org/")), vec![], &serve);
    assert_eq!(2, outcome.requests.len());
    assert!(outcome.requests[0].authorization);
    assert!(!outcome.requests[1].authorization);
    assert_eq!("POST", outcome.requests[1].method);
}

#[test]
fn malformed_location_fails_the_exchange() {
    let client = follow_redirects(());
    let outcome =
        run(client.request(post("http://example.org/")), vec![], &|_| reply(301, Some("exa mple")));
    assert_eq!(1, outcome.requests.len());
    assert!(matches!(outcome.error, Some(Error::InvalidLocationHeader(ref t)) if t == "exa mple"));
}

#[test]
fn body_failure_fails_the_exchange_before_any_send() {
    let client = follow_redirects(());
    let chunks = vec![BodyEvent::Chunk(b"part".to_vec()), BodyEvent::Failed("reset".to_string())];
    let outcome = run(client.request(post("http://example.org/")), chunks, &chain);
    assert!(outcome.requests.is_empty());
    assert!(matches!(outcome.error, Some(Error::Request(ref m)) if m == "reset"));
}

#[test]
fn transport_failure_fails_the_exchange() {
    let client = follow_redirects(());
    let serve = |req: &Request| {
        if req.uri.path_and_query() == Some("/") {
            reply(301, Some("/next"))
        } else {
            Event::SendFailed("refused".to_string())
        }
    };
    let outcome = run(client.request(post("http://example.org/")), vec![], &serve);
    assert_eq!(2, outcome.requests.len());
    assert!(matches!(outcome.error, Some(Error::Hyper(ref m)) if m == "refused"));
}

#[test]
fn build_failure_fails_the_exchange() {
    let client = follow_redirects(());
    let outcome = run(
        client.request(post("http://example.org/")),
        vec![],
        &|_| Event::BuildFailed("bad method".to_string()),
    );
    assert_eq!(1, outcome.requests.len());
    assert!(matches!(outcome.error, Some(Error::Http(ref m)) if m == "bad method"));
}

#[test]
fn new_exchange_is_lazy() {
    let exchange = FutureInner::new(post("http://example.org/"), 4);
    match exchange {
        FutureInner::Lazy(req, limit) => {
            assert_eq!(4, limit);
            assert_eq!("POST", req.method);
            assert!(req.headers.contains_key("authorization"));
        }
        _ => panic!("expected a lazy exchange"),
    }
}

#[test]
fn buffer_concatenates_chunks_in_order() {
    let mut buffer = Buffer::new();
    assert!(buffer.poll(BodyEvent::Chunk(b"hello".to_vec())).is_none());
    assert!(buffer.poll(BodyEvent::Chunk(Vec::new())).is_none());
    assert!(buffer.poll(BodyEvent::Chunk(b", world".to_vec())).is_none());
    let body = buffer.poll(BodyEvent::End).unwrap().unwrap();
    assert_eq!(&b"hello, world"[..], &body[..]);
}

#[test]
fn buffer_of_an_empty_body_is_empty() {
    let mut buffer = Buffer::new();
    let body = buffer.poll(BodyEvent::End).unwrap().unwrap();
    assert!(body.is_empty());
}

#[test]
fn buffer_hands_on_a_failure() {
    let mut buffer = Buffer::new();
    assert!(buffer.poll(BodyEvent::Chunk(b"hello".to_vec())).is_none());
    let failed = buffer.poll(BodyEvent::Failed("broken pipe".to_string())).unwrap();
    assert_eq!(Err("broken pipe".to_string()), failed);
}
