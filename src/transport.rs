//! The HTTP transport that a client owns, reached through `reqwest` and the
//! header types it re-exports from `http`.
use reqwest::header::{HeaderMap, HeaderValue, InvalidHeaderValue};
use vstd::prelude::*;

verus! {

#[verifier::external_type_specification]
#[verifier::external_body]
pub struct ExClient(reqwest::Client);

#[verifier::external_type_specification]
#[verifier::external_body]
pub struct ExReqwestError(reqwest::Error);

#[verifier::external_type_specification]
#[verifier::external_body]
#[verifier::reject_recursive_types(T)]
pub struct ExHeaderMap<T>(HeaderMap<T>);

#[verifier::external_type_specification]
#[verifier::external_body]
pub struct ExHeaderValue(HeaderValue);

#[verifier::external_type_specification]
#[verifier::external_body]
pub struct ExInvalidHeaderValue(InvalidHeaderValue);

/// A character that may stand in an HTTP header value: every character but
/// the ASCII control characters, except that a tab is allowed.
pub open spec fn header_char_ok(c: char) -> bool {
    (c as u32 >= 32 && c as u32 != 127) || c == '\t'
}

/// Text that can be sent as an HTTP header value.
pub open spec fn header_value_ok(s: Seq<char>) -> bool {
    forall|i: int| 0 <= i < s.len() ==> header_char_ok(#[trigger] s[i])
}

/// What a header map holds: each header name, in lower case, mapped to the
/// text of its value.
pub uninterp spec fn header_entries(m: HeaderMap<HeaderValue>) -> Map<Seq<char>, Seq<char>>;

/// Relies on `HeaderMap::new`: a map that holds no header.
#[verifier::external_body]
pub(crate) fn empty_header_map() -> (r: HeaderMap<HeaderValue>)
    ensures
        header_entries(r).dom() == Set::<Seq<char>>::empty(),
{
    HeaderMap::new()
}

/// Relies on `HeaderValue::from_str`, which accepts a string exactly when
/// each of its UTF-8 bytes is at least 32 and not 127, or is a tab (the
/// bytes of a non-ASCII character are all at least 128); and on
/// `HeaderMap::insert`, which replaces whatever the map held under `name`.
/// A static name that is not a valid header name would panic; the two
/// names admitted here are valid and already in lower case. The map cannot
/// reach its maximum size with these two names.
#[verifier::external_body]
pub(crate) fn insert_header(
    map: &mut HeaderMap<HeaderValue>,
    name: &'static str,
    value: &str,
) -> (r: Result<(), InvalidHeaderValue>)
    requires
        name@ == "accept"@ || name@ == "authorization"@,
    ensures
        r is Ok <==> header_value_ok(value@),
        r is Ok ==> header_entries(*final(map)) == header_entries(*old(map)).insert(name@, value@),
        r is Err ==> header_entries(*final(map)) == header_entries(*old(map)),
{
    let v = HeaderValue::from_str(value)?;
    map.insert(name, v);
    Ok(())
}

/// Relies on `reqwest::ClientBuilder`: a client that sends `headers` and
/// `user_agent` with every request. Building it may fail, for instance when
/// the TLS backend cannot be initialised.
#[verifier::external_body]
pub(crate) fn build_client(headers: HeaderMap<HeaderValue>, user_agent: &str) -> (r: Result<reqwest::Client, reqwest::Error>) {
    reqwest::Client::builder().default_headers(headers).user_agent(user_agent).build()
}

} // verus!
