//! The redirect state machine: the request in flight, and what each response
//! does to it.

use vstd::prelude::*;
use vstd::string::StringExecFns;

use crate::body::{bytes_of, clone_bytes, empty_bytes};
use crate::error::Error;
use crate::headers::{
    clone_headers, empty_headers, first_of, first_value, header_fields, no_fields, remove_header,
};
use crate::uri::{redirect_target, same_host, Uri, UriParts};

verus! {

/// The status code `301 Moved Permanently`.
pub const MOVED_PERMANENTLY: u16 = 301;

/// The status code `302 Found`.
pub const FOUND: u16 = 302;

/// The status code `303 See Other`.
pub const SEE_OTHER: u16 = 303;

/// The status code `307 Temporary Redirect`.
pub const TEMPORARY_REDIRECT: u16 = 307;

/// The status code `308 Permanent Redirect`.
pub const PERMANENT_REDIRECT: u16 = 308;

/// The version of the protocol that a request is sent with.
#[derive(Clone, Copy, Debug, PartialEq, Eq, Structural)]
pub enum Version {
    Http09,
    Http10,
    Http11,
    H2,
    H3,
}

/// A request: what a caller hands over, and what goes to the transport.
pub struct Request {
    /// The method's token, such as `GET`.
    pub method: String,
    /// Where the request goes.
    pub uri: Uri,
    /// The version of the protocol.
    pub version: Version,
    /// The header fields.
    pub headers: hyper::HeaderMap<hyper::header::HeaderValue>,
    /// The body that goes to the transport. Of a request that a caller hands
    /// over this field is not read: its body comes chunk by chunk, as the
    /// events of the exchange.
    pub body: bytes::Bytes,
}

/// A request as a value.
pub struct RequestParts {
    pub method: Seq<char>,
    pub uri: UriParts,
    pub version: Version,
    pub headers: Map<Seq<char>, Seq<Seq<u8>>>,
    pub body: Seq<u8>,
}

impl View for Request {
    type V = RequestParts;

    open spec fn view(&self) -> RequestParts {
        RequestParts {
            method: self.method@,
            uri: self.uri@,
            version: self.version,
            headers: header_fields(self.headers),
            body: bytes_of(self.body),
        }
    }
}

/// The head of a response: its status code and its header fields.
#[derive(Debug)]
pub struct Response {
    pub status: u16,
    pub headers: hyper::HeaderMap<hyper::header::HeaderValue>,
}

/// What the state machine reads of a response: its status code and the raw
/// value of its `Location` header, where it has one.
pub struct ResponseParts {
    pub status: u16,
    pub location: Option<Seq<u8>>,
}

/// The raw value of the `Location` header among the fields of a response:
/// the first, where there are several.
pub open spec fn location_of(fields: Map<Seq<char>, Seq<Seq<u8>>>) -> Option<Seq<u8>> {
    first_of(fields, "location"@)
}

impl View for Response {
    type V = ResponseParts;

    open spec fn view(&self) -> ResponseParts {
        ResponseParts { status: self.status, location: location_of(header_fields(self.headers)) }
    }
}

/// What to do with a response.
#[derive(Clone, Copy, Debug, PartialEq, Eq, Structural)]
pub enum StateMachineDecision {
    /// The state now describes the next request: send it.
    Continue,
    /// The response is the final one: hand it to the caller.
    Return,
}

/// The request in flight, and the number of redirects that may still be
/// followed.
pub struct StateMachine {
    method: String,
    uri: Uri,
    version: Version,
    headers: hyper::HeaderMap<hyper::header::HeaderValue>,
    request_body: Option<bytes::Bytes>,
    remaining_redirects: usize,
}

/// The state machine as a value.
pub struct MachineState {
    pub method: Seq<char>,
    pub uri: UriParts,
    pub version: Version,
    pub headers: Map<Seq<char>, Seq<Seq<u8>>>,
    pub body: Option<Seq<u8>>,
    pub remaining_redirects: nat,
}

impl View for StateMachine {
    type V = MachineState;

    closed spec fn view(&self) -> MachineState {
        MachineState {
            method: self.method@,
            uri: self.uri@,
            version: self.version,
            headers: header_fields(self.headers),
            body: match self.request_body {
                Some(b) => Some(bytes_of(b)),
                None => None,
            },
            remaining_redirects: self.remaining_redirects as nat,
        }
    }
}

/// The state for a request that has not been sent yet, with no body set.
pub open spec fn initial_state(req: RequestParts, max_redirects: nat) -> MachineState {
    MachineState {
        method: req.method,
        uri: req.uri,
        version: req.version,
        headers: req.headers,
        body: None,
        remaining_redirects: max_redirects,
    }
}

/// The request that a state describes. A state without a body gives an empty
/// one.
pub open spec fn request_of(s: MachineState) -> RequestParts {
    RequestParts {
        method: s.method,
        uri: s.uri,
        version: s.version,
        headers: s.headers,
        body: match s.body {
            Some(b) => b,
            None => Seq::empty(),
        },
    }
}

/// Whether a status code asks for a redirect: 301, 302, 303, 307 or 308.
pub open spec fn is_redirect(status: u16) -> bool {
    status == MOVED_PERMANENTLY || status == FOUND || status == SEE_OTHER || status
        == TEMPORARY_REDIRECT || status == PERMANENT_REDIRECT
}

/// What the status code alone does to the request: `303 See Other` turns it
/// into a `GET` without a body, every other code leaves it as it is.
pub open spec fn after_status(s: MachineState, status: u16) -> MachineState {
    if status == SEE_OTHER {
        MachineState { method: "GET"@, body: None, ..s }
    } else {
        s
    }
}

/// Header fields without the four that carry credentials.
pub open spec fn strip_sensitive(fields: Map<Seq<char>, Seq<Seq<u8>>>) -> Map<
    Seq<char>,
    Seq<Seq<u8>>,
> {
    fields.remove("authorization"@).remove("cookie"@).remove("cookie2"@).remove(
        "www-authenticate"@,
    )
}

/// The header fields that go along to `next` after a request to `previous`.
pub open spec fn sanitized(
    fields: Map<Seq<char>, Seq<Seq<u8>>>,
    next: UriParts,
    previous: UriParts,
) -> Map<Seq<char>, Seq<Seq<u8>>> {
    if same_host(next, previous) {
        fields
    } else {
        strip_sensitive(fields)
    }
}

/// The attempt to follow a redirect with the given raw `Location` value: the
/// state after it, and the decision, or the text that the error reports.
pub open spec fn follow(s: MachineState, location: Option<Seq<u8>>) -> (
    MachineState,
    Result<StateMachineDecision, Seq<char>>,
) {
    if s.remaining_redirects == 0 {
        (s, Ok(StateMachineDecision::Return))
    } else {
        let spent = MachineState {
            remaining_redirects: (s.remaining_redirects - 1) as nat,
            ..s
        };
        match location {
            None => (spent, Ok(StateMachineDecision::Return)),
            Some(value) => match redirect_target(s.uri, value) {
                Err(text) => (spent, Err(text)),
                Ok(next) => (
                    MachineState {
                        uri: next,
                        headers: sanitized(s.headers, next, s.uri),
                        ..spent
                    },
                    Ok(StateMachineDecision::Continue),
                ),
            },
        }
    }
}

/// What a response does: the state after it, and the decision, or the text
/// that the error reports.
pub open spec fn handle(s: MachineState, res: ResponseParts) -> (
    MachineState,
    Result<StateMachineDecision, Seq<char>>,
) {
    if is_redirect(res.status) {
        follow(after_status(s, res.status), res.location)
    } else {
        (s, Ok(StateMachineDecision::Return))
    }
}

/// Whether an executable result is the one that the rules give.
pub open spec fn agrees(
    r: Result<StateMachineDecision, Error>,
    expected: Result<StateMachineDecision, Seq<char>>,
) -> bool {
    match r {
        Ok(d) => expected == Ok::<StateMachineDecision, Seq<char>>(d),
        Err(Error::InvalidLocationHeader(t)) => expected == Err::<StateMachineDecision, Seq<char>>(
            t@,
        ),
        Err(_) => false,
    }
}

impl StateMachine {
    /// Captures a request. Its header fields move into the state, and the
    /// request is left without any.
    pub fn new(req: &mut Request, max_redirects: usize) -> (state: StateMachine)
        ensures
            state@ == initial_state(old(req)@, max_redirects as nat),
            final(req)@ == (RequestParts { headers: no_fields(), ..old(req)@ }),
    {
        let mut headers = empty_headers();
        core::mem::swap(&mut headers, &mut req.headers);
        StateMachine {
            method: req.method.clone(),
            uri: req.uri.clone(),
            version: req.version,
            headers,
            request_body: None,
            remaining_redirects: max_redirects,
        }
    }

    /// The number of redirects that may still be followed.
    pub fn remaining_redirects(&self) -> (n: usize)
        ensures
            n == self@.remaining_redirects,
    {
        self.remaining_redirects
    }

    /// Sets the body that every following request carries, until a
    /// `303 See Other` drops it.
    pub fn set_body(&mut self, body: bytes::Bytes)
        ensures
            final(self)@ == (MachineState { body: Some(bytes_of(body)), ..old(self)@ }),
    {
        self.request_body = Some(body);
    }

    /// Builds the request that the state describes.
    pub fn create_request(&self) -> (req: Request)
        ensures
            req@ == request_of(self@),
    {
        Request {
            method: self.method.clone(),
            uri: self.uri.clone(),
            version: self.version,
            headers: clone_headers(&self.headers),
            body: match &self.request_body {
                Some(b) => clone_bytes(b),
                None => empty_bytes(),
            },
        }
    }

    /// Takes the response to the request that the state describes, and
    /// decides: `Continue` with the state moved on to the next request, or
    /// `Return`.
    pub fn handle_response(&mut self, res: &Response) -> (r: Result<StateMachineDecision, Error>)
        ensures
            final(self)@ == handle(old(self)@, res@).0,
            agrees(r, handle(old(self)@, res@).1),
    {
        let status: u16 = res.status;
        if status == MOVED_PERMANENTLY || status == PERMANENT_REDIRECT {
            self.follow_redirect(res)
        } else if status == FOUND || status == TEMPORARY_REDIRECT {
            self.follow_redirect(res)
        } else if status == SEE_OTHER {
            self.method = String::from_str("GET");
            self.request_body = None;
            self.follow_redirect(res)
        } else {
            Ok(StateMachineDecision::Return)
        }
    }

    /// Follows the redirect that `res` asks for, where the budget allows and
    /// the response names a target.
    pub fn follow_redirect(&mut self, res: &Response) -> (r: Result<StateMachineDecision, Error>)
        ensures
            final(self)@ == follow(old(self)@, res@.location).0,
            agrees(r, follow(old(self)@, res@.location).1),
    {
        if self.remaining_redirects == 0 {
            return Ok(StateMachineDecision::Return);
        }
        self.remaining_redirects -= 1;
        proof {
            reveal_strlit("location");
        }
        match first_value(&res.headers, "location") {
            Some(location) => {
                let next = match self.uri.compute_redirect(location.as_slice()) {
                    Ok(next) => next,
                    Err(e) => {
                        return Err(e);
                    },
                };
                remove_sensitive_headers(&mut self.headers, &next, &self.uri);
                self.uri = next;
                Ok(StateMachineDecision::Continue)
            },
            None => Ok(StateMachineDecision::Return),
        }
    }
}

/// Strips the fields that carry credentials where `next` is on another host
/// or port than `previous`, and leaves the fields alone where it is not.
pub fn remove_sensitive_headers(
    headers: &mut hyper::HeaderMap<hyper::header::HeaderValue>,
    next: &Uri,
    previous: &Uri,
)
    ensures
        header_fields(*final(headers)) == sanitized(header_fields(*old(headers)), next@, previous@),
{
    if !next.is_same_host(previous) {
        proof {
            reveal_strlit("authorization");
            reveal_strlit("cookie");
            reveal_strlit("cookie2");
            reveal_strlit("www-authenticate");
        }
        remove_header(headers, "authorization");
        remove_header(headers, "cookie");
        remove_header(headers, "cookie2");
        remove_header(headers, "www-authenticate");
    }
}

} // verus!
