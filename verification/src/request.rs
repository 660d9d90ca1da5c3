//! What the server reads from the head of a request: the query of its target
//! and its header fields. Both are read with the `http` crate.

use crate::query::{sid_from_query, sid_in_query};
use vstd::prelude::*;
use vstd::string::StringSliceAdditionalSpecFns;

verus! {

/// `http::HeaderMap`, the header fields of a request. Nothing is known of a
/// value but what `header_fields` names.
#[verifier::external_type_specification]
#[verifier::external_body]
#[verifier::reject_recursive_types(T)]
pub struct ExHeaderMap<T>(http::HeaderMap<T>);

/// `http::HeaderValue`, the value of one header field. Nothing is known of a
/// value.
#[verifier::external_type_specification]
#[verifier::external_body]
pub struct ExHeaderValue(http::HeaderValue);

/// The query that `http::Uri` finds in a request target, given as bytes: what
/// stands behind the first `?` of the path and before a `#`. It is `None` where
/// the target has no `?` or is no URI to `http`.
pub uninterp spec fn target_query(target: Seq<u8>) -> Option<Seq<u8>>;

/// The header fields that a map holds: the name of each, in the lower case in
/// which `http` keeps it, with the bytes of the first value under that name.
pub uninterp spec fn header_fields(headers: http::HeaderMap<http::HeaderValue>) -> Map<
    Seq<char>,
    Seq<u8>,
>;

/// Whether `name` holds no upper-case ASCII letter.
pub open spec fn is_lower_case(name: Seq<char>) -> bool {
    forall|i: int| 0 <= i < name.len() ==> !('A' <= #[trigger] name[i] <= 'Z')
}

/// Parses `target` with `http::Uri::try_from` and returns a copy of what
/// `Uri::query` gives for it. A target that `http` refuses has no query.
#[verifier::external_body]
fn query_of_target(target: &[u8]) -> (query: Option<Vec<u8>>)
    ensures
        match query {
            Some(q) => target_query(target@) == Some(q@),
            None => target_query(target@) is None,
        },
{
    match http::Uri::try_from(target) {
        Ok(uri) => match uri.query() {
            Some(q) => Some(q.as_bytes().to_vec()),
            None => None,
        },
        Err(_) => None,
    }
}

/// Looks `name` up with `http::HeaderMap::get` and returns a copy of the bytes
/// of the value found. `get` gives the first value under a name and compares
/// names in lower case, so a lower-case `name` is found exactly when the map
/// holds a field of that name.
#[verifier::external_body]
fn first_header_value(headers: &http::HeaderMap<http::HeaderValue>, name: &str) -> (value: Option<
    Vec<u8>,
>)
    requires
        is_lower_case(name@),
    ensures
        match value {
            Some(v) => header_fields(*headers).contains_key(name@) && header_fields(*headers)[name@]
                == v@,
            None => !header_fields(*headers).contains_key(name@),
        },
{
    match headers.get(name) {
        Some(v) => Some(v.as_bytes().to_vec()),
        None => None,
    }
}

/// The session id that a request target carries in its query.
pub open spec fn sid_in_target(target: Seq<u8>) -> Option<i64> {
    match target_query(target) {
        Some(query) => sid_in_query(query),
        None => None,
    }
}

/// Reads the session id of a request from its target.
///
/// The target is what the request line holds between the method and the
/// version, such as `/engine.io/?sid=12`.
pub fn extract_sid(target: &str) -> (sid: Option<i64>)
    ensures
        sid == sid_in_target(target.spec_bytes()),
        sid matches Some(id) ==> id >= 0,
{
    match query_of_target(target.as_bytes()) {
        Some(query) => sid_from_query(query.as_slice()),
        None => None,
    }
}

/// The name of the header field that carries the key of a WebSocket handshake.
pub open spec fn ws_key_name() -> Seq<char> {
    "sec-websocket-key"@
}

/// The key of the WebSocket handshake that `headers` carry.
pub open spec fn ws_key_in(headers: http::HeaderMap<http::HeaderValue>) -> Option<Seq<u8>> {
    if header_fields(headers).contains_key(ws_key_name()) {
        Some(header_fields(headers)[ws_key_name()])
    } else {
        None
    }
}

/// Reads the key of a WebSocket handshake from the header fields of a request.
pub fn extract_ws_key(headers: &http::HeaderMap<http::HeaderValue>) -> (key: Option<Vec<u8>>)
    ensures
        match key {
            Some(k) => ws_key_in(*headers) == Some(k@),
            None => ws_key_in(*headers) is None,
        },
{
    proof {
        reveal_strlit("sec-websocket-key");
    }
    first_header_value(headers, "sec-websocket-key")
}

} // verus!
