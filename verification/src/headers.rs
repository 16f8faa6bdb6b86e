//! The header collection of the HTTP client, as far as requests fill it.
//!
//! A request carries its headers in the client's own `HeaderMap`, so that they
//! can be handed to the transport as they are. This module declares that type
//! and states what filling it does; none of these statements is proved here.

use reqwest::header::{HeaderMap, HeaderName, HeaderValue};
use vstd::prelude::*;

verus! {

/// `http::header::HeaderMap`, opaque to the verifier.
#[verifier::external_type_specification]
#[verifier::external_body]
#[verifier::reject_recursive_types(T)]
pub struct ExHeaderMap<T>(HeaderMap<T>);

/// `http::header::HeaderValue`, opaque to the verifier.
#[verifier::external_type_specification]
#[verifier::external_body]
pub struct ExHeaderValue(HeaderValue);

/// Header fields as a mathematical map from a field's name to its value.
pub type Fields = Map<Seq<char>, Seq<char>>;

/// The fields that a header map holds: each name with the text of the value
/// stored under it.
pub uninterp spec fn header_fields(map: HeaderMap<HeaderValue>) -> Map<Seq<char>, Seq<char>>;

/// A character that may stand in a header value: a tab, or anything from the
/// space upwards but the delete character.
pub open spec fn is_value_char(c: char) -> bool {
    c == '\t' || (c as u32 >= 32 && c as u32 != 127)
}

/// Text that the header collection accepts as a value.
pub open spec fn is_value_text(text: Seq<char>) -> bool {
    forall|i: int| 0 <= i < text.len() ==> is_value_char(#[trigger] text[i])
}

/// A short header name in lower case: letters and hyphens only.
pub open spec fn is_field_name(name: Seq<char>) -> bool {
    &&& 1 <= name.len() <= 64
    &&& forall|i: int|
        0 <= i < name.len() ==> (#[trigger] name[i] == '-' || ('a' <= name[i] && name[i] <= 'z'))
}

/// `HeaderMap::new`: the map it returns holds no field.
#[verifier::external_body]
pub(crate) fn no_headers() -> (fresh: HeaderMap)
    ensures
        header_fields(fresh) == Fields::empty(),
{
    HeaderMap::new()
}

/// `HeaderMap::insert`, with the name made by `HeaderName::from_lowercase` and
/// the value by `HeaderValue::from_str`.
///
/// `from_str` refuses exactly the texts that hold a byte below 32 other than
/// the tab, or the byte 127; every byte of a character beyond ASCII is above
/// 127, so the test can be stated on characters. A refused value leaves the
/// map as it was. An accepted one is stored under the name, in place of what
/// stood there. `from_lowercase` accepts every name of at most 64 bytes made
/// of lower-case letters and hyphens, and `insert` cannot run out of room
/// below 1024 names (its limit is 32768 slots).
#[verifier::external_body]
pub(crate) fn put_header(map: &mut HeaderMap, name: &str, value: &str) -> (accepted: bool)
    requires
        is_field_name(name@),
        header_fields(*old(map)).dom().finite(),
        header_fields(*old(map)).dom().len() < 1024,
    ensures
        accepted == is_value_text(value@),
        accepted ==> header_fields(*final(map)) == header_fields(*old(map)).insert(name@, value@),
        !accepted ==> header_fields(*final(map)) == header_fields(*old(map)),
{
    match HeaderValue::from_str(value) {
        Ok(v) => {
            map.insert(HeaderName::from_lowercase(name.as_bytes()).unwrap(), v);
            true
        },
        Err(_) => false,
    }
}

} // verus!
