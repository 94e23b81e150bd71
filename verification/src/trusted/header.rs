//! Response headers, as the `http` crate holds them.

use http::header::CONTENT_TYPE;
use http::{HeaderMap, HeaderValue};
use vstd::prelude::*;

verus! {

#[verifier::external_type_specification]
#[verifier::external_body]
#[verifier::reject_recursive_types(T)]
pub struct ExHeaderMap<T>(HeaderMap<T>);

#[verifier::external_type_specification]
#[verifier::external_body]
pub struct ExHeaderValue(HeaderValue);

/// The values that a header map holds under each header name, in the order
/// in which they were added. Names are in lower case.
pub uninterp spec fn header_values(headers: HeaderMap) -> Map<Seq<char>, Seq<Seq<u8>>>;

/// The bytes of a header value.
pub uninterp spec fn header_value_bytes(value: HeaderValue) -> Seq<u8>;

/// Whether `b` is a byte that `HeaderValue::to_str` lets through: a printable
/// ASCII character or a tab.
pub open spec fn visible_ascii(b: u8) -> bool {
    32 <= b < 127 || b == 9
}

/// The first value under the name `content-type`, if there is one.
pub open spec fn content_type_bytes(values: Map<Seq<char>, Seq<Seq<u8>>>) -> Option<Seq<u8>> {
    if values.contains_key("content-type"@) && values["content-type"@].len() > 0 {
        Some(values["content-type"@][0])
    } else {
        None
    }
}

/// The text of a header value: its bytes read as ASCII characters, where all
/// of them are visible ASCII.
pub open spec fn header_text(bytes: Seq<u8>) -> Option<Seq<char>> {
    if forall|i: int| 0 <= i < bytes.len() ==> visible_ascii(#[trigger] bytes[i]) {
        Some(Seq::new(bytes.len(), |i: int| bytes[i] as char))
    } else {
        None
    }
}

/// `HeaderMap::get` with the name `CONTENT_TYPE`: the first value stored
/// under that name, or `None` where the map has none.
#[verifier::external_body]
pub(crate) fn content_type(headers: &HeaderMap) -> (value: Option<&HeaderValue>)
    ensures
        match value {
            Some(v) => content_type_bytes(header_values(*headers)) == Some(header_value_bytes(*v)),
            None => content_type_bytes(header_values(*headers)) is None,
        },
{
    headers.get(CONTENT_TYPE)
}

/// `HeaderValue::to_str`: the value as text where every byte is visible
/// ASCII, and `None` (the crate's `ToStrError`) where one is not.
#[verifier::external_body]
pub(crate) fn to_str(value: &HeaderValue) -> (text: Option<&str>)
    ensures
        match text {
            Some(t) => header_text(header_value_bytes(*value)) == Some(t@),
            None => header_text(header_value_bytes(*value)) is None,
        },
{
    value.to_str().ok()
}

} // verus!
