//! Header fields, held in `http`'s `HeaderMap`. The map is opaque to the
//! verifier: its contents have a name, and the few operations that the
//! redirect rules need are stated over that name.

use vstd::prelude::*;

verus! {

/// `http::HeaderMap`, as `hyper` hands it on: a multimap from field names to
/// values. Nothing inside it is visible here.
#[verifier::external_type_specification]
#[verifier::external_body]
#[verifier::reject_recursive_types(T)]
pub struct ExHeaderMap<T>(hyper::HeaderMap<T>);

/// `http::HeaderValue`: the value of one header field.
#[verifier::external_type_specification]
#[verifier::external_body]
pub struct ExHeaderValue(hyper::header::HeaderValue);

/// What a header map holds: for each field name that it has, in the lower
/// case in which the map keeps names, the values under that name, in order.
pub uninterp spec fn header_fields(headers: hyper::HeaderMap<hyper::header::HeaderValue>) -> Map<
    Seq<char>,
    Seq<Seq<u8>>,
>;

/// The contents of a map without fields.
pub open spec fn no_fields() -> Map<Seq<char>, Seq<Seq<u8>>> {
    Map::empty()
}

/// Whether a name has no upper-case ASCII letter, so that it is its own
/// lower-case form.
pub open spec fn is_lower_case(name: Seq<char>) -> bool {
    forall|i: int| 0 <= i < name.len() ==> !('A' as u32 <= #[trigger] name[i] as u32 <= 'Z' as u32)
}

/// The first value under a name, where the fields have that name.
pub open spec fn first_of(fields: Map<Seq<char>, Seq<Seq<u8>>>, name: Seq<char>) -> Option<
    Seq<u8>,
> {
    if fields.contains_key(name) {
        Some(fields[name][0])
    } else {
        None
    }
}

/// Calls `HeaderMap::get` with a name in lower case, and copies the bytes
/// of what it finds, which `HeaderValue::as_bytes` gives. Trusted: the result
/// is the first value under that name, and `None` where the map has no field
/// of that name.
#[verifier::external_body]
pub(crate) fn first_value(
    headers: &hyper::HeaderMap<hyper::header::HeaderValue>,
    name: &str,
) -> (r: Option<Vec<u8>>)
    requires
        is_lower_case(name@),
    ensures
        match r {
            Some(value) => first_of(header_fields(*headers), name@) == Some(value@),
            None => first_of(header_fields(*headers), name@).is_none(),
        },
{
    headers.get(name).map(|value| value.as_bytes().to_vec())
}

/// Calls `HeaderMap::new`. Trusted: the new map holds no field.
#[verifier::external_body]
pub(crate) fn empty_headers() -> (r: hyper::HeaderMap<hyper::header::HeaderValue>)
    ensures
        header_fields(r) == no_fields(),
{
    hyper::HeaderMap::new()
}

/// Calls `HeaderMap::clone`. Trusted: the copy holds the same fields.
#[verifier::external_body]
pub(crate) fn clone_headers(headers: &hyper::HeaderMap<hyper::header::HeaderValue>) -> (r: hyper::HeaderMap<hyper::header::HeaderValue>)
    ensures
        header_fields(r) == header_fields(*headers),
{
    headers.clone()
}

/// Calls `HeaderMap::remove` with a name in lower case. Trusted: every value
/// under that name leaves the map, and the other fields stay as they were.
#[verifier::external_body]
pub(crate) fn remove_header(
    headers: &mut hyper::HeaderMap<hyper::header::HeaderValue>,
    name: &str,
)
    requires
        is_lower_case(name@),
    ensures
        header_fields(*final(headers)) == header_fields(*old(headers)).remove(name@),
{
    headers.remove(name);
}

} // verus!
