//! The client: a transport together with the number of redirects that an
//! exchange may follow.

use vstd::prelude::*;
use vstd::string::StringExecFns;

use crate::body::empty_bytes;
use crate::future::{FutureInner, FutureState};
use crate::headers::{empty_headers, no_fields};
use crate::machine::{Request, RequestParts, Version};
use crate::uri::Uri;

verus! {

/// The number of redirects that a client follows where no other limit is set.
pub const DEFAULT_MAX_REDIRECTS: usize = 10;

/// A transport that follows redirects, up to a limit.
pub struct Client<T> {
    inner: T,
    max_redirects: usize,
}

/// Wraps a transport in a client that follows redirects, with the default
/// limit.
pub fn follow_redirects<T>(transport: T) -> (client: Client<T>)
    ensures
        client.limit() == DEFAULT_MAX_REDIRECTS,
        *client.carried() == transport,
{
    Client { inner: transport, max_redirects: DEFAULT_MAX_REDIRECTS }
}

/// Wraps a transport in a client that follows redirects, with the given
/// limit.
pub fn follow_redirects_max<T>(transport: T, max_redirects: usize) -> (client: Client<T>)
    ensures
        client.limit() == max_redirects,
        *client.carried() == transport,
{
    let mut client = follow_redirects(transport);
    client.set_max_redirects(max_redirects);
    client
}

/// The request that `Client::get` makes for a URI: a `GET` over HTTP/1.1
/// without header fields or body.
pub open spec fn get_request(uri: crate::uri::UriParts) -> RequestParts {
    RequestParts {
        method: "GET"@,
        uri,
        version: Version::Http11,
        headers: no_fields(),
        body: Seq::empty(),
    }
}

impl<T> Client<T> {
    /// The number of redirects that an exchange of this client may follow.
    pub closed spec fn limit(&self) -> usize {
        self.max_redirects
    }

    /// The transport that the client was made with.
    pub closed spec fn carried(&self) -> &T {
        &self.inner
    }

    /// Starts an exchange for a `GET` of `url`.
    pub fn get(&self, url: Uri) -> (f: FutureInner)
        ensures
            f@ == FutureState::Lazy(get_request(url@), self.limit() as nat),
    {
        let req = Request {
            method: String::from_str("GET"),
            uri: url,
            version: Version::Http11,
            headers: empty_headers(),
            body: empty_bytes(),
        };
        self.request(req)
    }

    /// Starts an exchange for `req`.
    pub fn request(&self, req: Request) -> (f: FutureInner)
        ensures
            f@ == FutureState::Lazy(req@, self.limit() as nat),
    {
        FutureInner::new(req, self.max_redirects)
    }

    /// The transport that the requests of an exchange go to.
    pub fn transport(&self) -> (t: &T)
        ensures
            t == self.carried(),
    {
        &self.inner
    }

    /// The maximum number of redirects that the client follows before it
    /// gives up and hands back the redirect itself.
    pub fn max_redirects(&self) -> (n: usize)
        ensures
            n == self.limit(),
    {
        self.max_redirects
    }

    /// Sets the maximum number of redirects that the client follows.
    pub fn set_max_redirects(&mut self, max_redirects: usize)
        ensures
            final(self).limit() == max_redirects,
            final(self).carried() == old(self).carried(),
    {
        self.max_redirects = max_redirects;
    }
}

} // verus!
