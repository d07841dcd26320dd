//! Redirect targets: splitting a URI reference into its parts, resolving a
//! `Location` value against the URI of the request that was answered, and
//! telling whether two URIs name the same host and port.

use vstd::prelude::*;
use vstd::string::StringExecFns;
use vstd::utf8::{decode_utf8, valid_utf8};

use crate::error::Error;

verus! {

/// The authority of a URI as a value: its text, and the host and port that
/// the text names.
pub struct AuthorityParts {
    pub text: Seq<char>,
    pub host: Seq<char>,
    pub port: Option<u16>,
}

/// A URI reference as a value: the three parts, each present or absent.
pub struct UriParts {
    pub scheme: Option<Seq<char>>,
    pub authority: Option<AuthorityParts>,
    pub path_and_query: Option<Seq<char>>,
}

/// The authority of a URI: `host`, `host:port` or `user@host:port`.
#[derive(Debug)]
pub struct Authority {
    text: String,
    host: String,
    port: Option<u16>,
}

/// A URI reference, absolute or relative, split into its parts.
#[derive(Debug)]
pub struct Uri {
    scheme: Option<String>,
    authority: Option<Authority>,
    path_and_query: Option<String>,
}

impl View for Authority {
    type V = AuthorityParts;

    closed spec fn view(&self) -> AuthorityParts {
        AuthorityParts { text: self.text@, host: self.host@, port: self.port }
    }
}

impl View for Uri {
    type V = UriParts;

    closed spec fn view(&self) -> UriParts {
        UriParts {
            scheme: match self.scheme {
                Some(s) => Some(s@),
                None => None,
            },
            authority: match self.authority {
                Some(a) => Some(a@),
                None => None,
            },
            path_and_query: match self.path_and_query {
                Some(p) => Some(p@),
                None => None,
            },
        }
    }
}

/// What the `http` crate makes of a text read as a URI reference: `None`
/// where it rejects the text, else the parts it splits the text into, with
/// the host and port it reads from the authority.
pub uninterp spec fn reference_parts(text: Seq<char>) -> Option<UriParts>;

/// Parses `text` with `http::Uri`'s `FromStr` and takes the result apart with
/// `Uri::into_parts`, `Uri::host` and `Uri::port_u16`. Trusted: the result is
/// what `reference_parts` names, for the same text.
#[verifier::external_body]
fn parse_reference(text: &str) -> (r: Option<Uri>)
    ensures
        match r {
            Some(u) => reference_parts(text@) == Some(u@),
            None => reference_parts(text@).is_none(),
        },
{
    let uri = text.parse::<hyper::Uri>().ok()?;
    let host = uri.host().map(|h| h.to_string());
    let port = uri.port_u16();
    let parts = uri.into_parts();
    Some(Uri {
        scheme: parts.scheme.map(|s| s.as_str().to_string()),
        authority: parts.authority.map(|a| Authority {
            text: a.as_str().to_string(),
            host: host.unwrap_or_default(),
            port,
        }),
        path_and_query: parts.path_and_query.map(|p| p.as_str().to_string()),
    })
}

/// Reads bytes as UTF-8 with `std::str::from_utf8`. Trusted: the call
/// succeeds exactly on valid UTF-8, and then gives the text that the bytes
/// encode.
#[verifier::external_body]
fn utf8_text(bytes: &[u8]) -> (r: Option<&str>)
    ensures
        r.is_some() == valid_utf8(bytes@),
        r matches Some(s) ==> s@ == decode_utf8(bytes@),
{
    std::str::from_utf8(bytes).ok()
}

/// The reference with scheme and authority taken from `base` where it has
/// none of its own. Path and query are the reference's, never merged.
pub open spec fn inherit(base: UriParts, reference: UriParts) -> UriParts {
    UriParts {
        scheme: if reference.scheme.is_none() {
            base.scheme
        } else {
            reference.scheme
        },
        authority: if reference.authority.is_none() {
            base.authority
        } else {
            reference.authority
        },
        path_and_query: reference.path_and_query,
    }
}

/// Whether parts go together to a URI: a scheme needs an authority and a
/// path, and an authority with a path needs a scheme. This is the rule by
/// which `http::Uri::from_parts` takes or refuses parts.
pub open spec fn assembles(parts: UriParts) -> bool {
    if parts.scheme.is_some() {
        parts.authority.is_some() && parts.path_and_query.is_some()
    } else {
        !(parts.authority.is_some() && parts.path_and_query.is_some())
    }
}

/// The reference resolved against `base`, where the parts go together.
pub open spec fn resolve(base: UriParts, reference: UriParts) -> Option<UriParts> {
    if assembles(inherit(base, reference)) {
        Some(inherit(base, reference))
    } else {
        None
    }
}

/// The target that a raw `Location` value names for a request to `base`, or
/// the text that the error reports where it names none.
pub open spec fn redirect_target(base: UriParts, location: Seq<u8>) -> Result<UriParts, Seq<char>> {
    if !valid_utf8(location) {
        Err("<invalid>"@)
    } else {
        match reference_parts(decode_utf8(location)) {
            None => Err(decode_utf8(location)),
            Some(reference) => match resolve(base, reference) {
                None => Err(decode_utf8(location)),
                Some(target) => Ok(target),
            },
        }
    }
}

/// Whether two URIs name the same host and the same port. A URI without an
/// authority has neither; a port that is not written is absent, whatever the
/// scheme.
pub open spec fn same_host(a: UriParts, b: UriParts) -> bool {
    let host_a = match a.authority { Some(x) => Some(x.host), None => None };
    let host_b = match b.authority { Some(x) => Some(x.host), None => None };
    let port_a = match a.authority { Some(x) => x.port, None => None };
    let port_b = match b.authority { Some(x) => x.port, None => None };
    host_a == host_b && port_a == port_b
}

/// The text of a URI: the scheme with `://` behind it, the authority, and
/// the path with the query, each where the URI has it.
pub open spec fn text_of(uri: UriParts) -> Seq<char> {
    let scheme = match uri.scheme {
        Some(s) => s + "://"@,
        None => Seq::empty(),
    };
    let authority = match uri.authority {
        Some(a) => a.text,
        None => Seq::empty(),
    };
    let path_and_query = match uri.path_and_query {
        Some(p) => p,
        None => Seq::empty(),
    };
    scheme + authority + path_and_query
}

impl Clone for Authority {
    fn clone(&self) -> (r: Authority)
        ensures
            r@ == self@,
    {
        Authority { text: self.text.clone(), host: self.host.clone(), port: self.port }
    }
}

impl Clone for Uri {
    fn clone(&self) -> (r: Uri)
        ensures
            r@ == self@,
    {
        Uri {
            scheme: match &self.scheme {
                Some(s) => Some(s.clone()),
                None => None,
            },
            authority: match &self.authority {
                Some(a) => Some(a.clone()),
                None => None,
            },
            path_and_query: match &self.path_and_query {
                Some(p) => Some(p.clone()),
                None => None,
            },
        }
    }
}

impl Uri {
    /// Reads `text` as a URI reference.
    pub fn parse(text: &str) -> (r: Option<Uri>)
        ensures
            match r {
                Some(u) => reference_parts(text@) == Some(u@),
                None => reference_parts(text@).is_none(),
            },
    {
        parse_reference(text)
    }

    /// Resolves `reference` against `self`: scheme and authority are
    /// inherited where the reference has none, and the result is `None`
    /// where the parts do not go together.
    pub fn join(&self, reference: Uri) -> (r: Option<Uri>)
        ensures
            match r {
                Some(u) => resolve(self@, reference@) == Some(u@),
                None => resolve(self@, reference@).is_none(),
            },
    {
        let Uri { scheme, authority, path_and_query } = reference;
        let scheme = match scheme {
            Some(s) => Some(s),
            None => match &self.scheme {
                Some(s) => Some(s.clone()),
                None => None,
            },
        };
        let authority = match authority {
            Some(a) => Some(a),
            None => match &self.authority {
                Some(a) => Some(a.clone()),
                None => None,
            },
        };
        let fits = if scheme.is_some() {
            authority.is_some() && path_and_query.is_some()
        } else {
            !(authority.is_some() && path_and_query.is_some())
        };
        if fits {
            Some(Uri { scheme, authority, path_and_query })
        } else {
            None
        }
    }

    /// Computes the target of a redirect from the raw value of its
    /// `Location` header, for a request that went to `self`.
    pub fn compute_redirect(&self, location: &[u8]) -> (r: Result<Uri, Error>)
        ensures
            match r {
                Ok(u) => redirect_target(self@, location@) matches Ok(target) && target == u@,
                Err(Error::InvalidLocationHeader(t)) => redirect_target(self@, location@) matches Err(
                    text,
                ) && text == t@,
                Err(_) => false,
            },
    {
        match utf8_text(location) {
            None => Err(Error::InvalidLocationHeader(String::from_str("<invalid>"))),
            Some(text) => match parse_reference(text) {
                None => Err(Error::InvalidLocationHeader(String::from_str(text))),
                Some(reference) => match self.join(reference) {
                    None => Err(Error::InvalidLocationHeader(String::from_str(text))),
                    Some(target) => Ok(target),
                },
            },
        }
    }

    /// The scheme, where the URI has one.
    pub fn scheme(&self) -> (r: Option<&str>)
        ensures
            match r {
                Some(s) => self@.scheme == Some(s@),
                None => self@.scheme.is_none(),
            },
    {
        match &self.scheme {
            Some(s) => Some(s.as_str()),
            None => None,
        }
    }

    /// The authority as it is written, where the URI has one.
    pub fn authority(&self) -> (r: Option<&str>)
        ensures
            match r {
                Some(t) => self@.authority matches Some(a) && a.text == t@,
                None => self@.authority.is_none(),
            },
    {
        match &self.authority {
            Some(a) => Some(a.text.as_str()),
            None => None,
        }
    }

    /// The host that the authority names, where the URI has an authority.
    pub fn host(&self) -> (r: Option<&str>)
        ensures
            match r {
                Some(h) => self@.authority matches Some(a) && a.host == h@,
                None => self@.authority.is_none(),
            },
    {
        match &self.authority {
            Some(a) => Some(a.host.as_str()),
            None => None,
        }
    }

    /// The port that the authority names, where it names one.
    pub fn port(&self) -> (r: Option<u16>)
        ensures
            r == match self@.authority {
                Some(a) => a.port,
                None => None,
            },
    {
        match &self.authority {
            Some(a) => a.port,
            None => None,
        }
    }

    /// The path with the query, where the URI has a path.
    pub fn path_and_query(&self) -> (r: Option<&str>)
        ensures
            match r {
                Some(p) => self@.path_and_query == Some(p@),
                None => self@.path_and_query.is_none(),
            },
    {
        match &self.path_and_query {
            Some(p) => Some(p.as_str()),
            None => None,
        }
    }

    /// The URI written out.
    pub fn to_text(&self) -> (s: String)
        ensures
            s@ == text_of(self@),
    {
        let mut out = String::new();
        if let Some(scheme) = &self.scheme {
            out.append(scheme.as_str());
            out.append("://");
        }
        if let Some(authority) = &self.authority {
            out.append(authority.text.as_str());
        }
        if let Some(path_and_query) = &self.path_and_query {
            out.append(path_and_query.as_str());
        }
        assert(out@ =~= text_of(self@));
        out
    }

    /// Whether `self` and `other` name the same host and the same port.
    pub fn is_same_host(&self, other: &Uri) -> (b: bool)
        ensures
            b == same_host(self@, other@),
    {
        match (&self.authority, &other.authority) {
            (Some(a), Some(b)) => a.host == b.host && a.port == b.port,
            (None, None) => true,
            _ => false,
        }
    }
}

} // verus!
