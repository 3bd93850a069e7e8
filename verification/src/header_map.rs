//! The boundary to the HTTP header types.
//!
//! Header maps and header values belong to the `http` crate, and what
//! is inside them cannot be seen from here. This module names what they
//! hold and states, without proof, what the handful of their operations
//! that the gateway uses do with it.

use vstd::prelude::*;
use vstd::utf8::encode_utf8;
use axum::http::{HeaderMap, HeaderValue};
use crate::headers::is_header_name;
use crate::text::{is_visible, lemma_visible_encoding};

verus! {

/// `http::HeaderMap`, as `axum` hands it on: a map from header names to
/// one or more values each.
#[verifier::external_type_specification]
#[verifier::external_body]
#[verifier::reject_recursive_types(T)]
pub struct ExHeaderMap<T>(axum::http::HeaderMap<T>);

/// `http::HeaderValue`: the bytes of one header value.
#[verifier::external_type_specification]
#[verifier::external_body]
pub struct ExHeaderValue(axum::http::HeaderValue);

/// Header names in stored form, each with the bytes of a value.
pub type Entries = Map<Seq<char>, Seq<u8>>;

/// What a header map holds, as far as a lookup by name can tell: for
/// each name in the map, in its stored lower-case form, the bytes of the
/// first value filed under it.
pub uninterp spec fn header_entries(headers: HeaderMap) -> Map<Seq<char>, Seq<u8>>;

/// The number of names in a header map.
pub uninterp spec fn header_name_count(headers: HeaderMap) -> nat;

/// The bytes of a header value.
pub uninterp spec fn header_value_bytes(value: HeaderValue) -> Seq<u8>;

/// The largest number of names that a map may hold when a value is set
/// in it. A header map gives up rather than grow past 32,768 slots, and
/// a map that is flooded with colliding names asks to grow as soon as a
/// fifth of its slots are taken: at that size, with 6,554 names.
pub const MAX_NAMES: usize = 6553;

/// A byte that may stand in a header value that is read as text: visible
/// ASCII, a space or a tab.
pub open spec fn is_text_byte(b: u8) -> bool {
    (32 <= b && b < 127) || b == 9
}

/// A byte that may stand in a header value: anything but the control
/// characters, the tab excepted.
pub open spec fn is_value_byte(b: u8) -> bool {
    (32 <= b && b != 127) || b == 9
}

/// Header value bytes that can be read as text.
pub open spec fn is_text(bytes: Seq<u8>) -> bool {
    forall|i: int| 0 <= i < bytes.len() ==> is_text_byte(#[trigger] bytes[i])
}

/// Bytes that can be stored as a header value.
pub open spec fn is_value(bytes: Seq<u8>) -> bool {
    forall|i: int| 0 <= i < bytes.len() ==> is_value_byte(#[trigger] bytes[i])
}

/// ASCII bytes read as characters.
pub open spec fn ascii_text(bytes: Seq<u8>) -> Seq<char> {
    Seq::new(bytes.len(), |i: int| bytes[i] as char)
}

/// A text that can be stored as a header value.
pub open spec fn storable(text: Seq<char>) -> bool {
    is_value(encode_utf8(text))
}

/// Bytes that read as text read as visible text.
pub proof fn lemma_text_is_visible(bytes: Seq<u8>)
    requires
        is_text(bytes),
    ensures
        is_visible(ascii_text(bytes)),
{
    assert forall|i: int| 0 <= i < bytes.len() implies crate::text::is_visible_char(
        #[trigger] ascii_text(bytes)[i],
    ) by {
        assert(is_text_byte(bytes[i]));
    }
}

/// A visible text can be stored as a header value.
pub proof fn lemma_visible_is_storable(text: Seq<char>)
    requires
        is_visible(text),
    ensures
        storable(text),
{
    lemma_visible_encoding(text);
    assert forall|i: int| 0 <= i < encode_utf8(text).len() implies is_value_byte(
        #[trigger] encode_utf8(text)[i],
    ) by {
        assert(crate::text::is_visible_char(text[i]));
    }
}

/// `HeaderMap::new`: a map that holds nothing.
#[verifier::external_body]
pub(crate) fn empty_headers() -> (headers: HeaderMap)
    ensures
        header_entries(headers) == Entries::empty(),
        header_name_count(headers) == 0,
{
    HeaderMap::new()
}

/// `HeaderMap::keys_len`: the number of names in the map.
#[verifier::external_body]
pub(crate) fn name_count(headers: &HeaderMap) -> (count: usize)
    ensures
        count == header_name_count(*headers),
{
    headers.keys_len()
}

/// `HeaderMap::get` with a name in stored form: the first value filed
/// under the name, if the map holds the name.
#[verifier::external_body]
pub(crate) fn get_value<'a>(headers: &'a HeaderMap, name: &str) -> (found: Option<&'a HeaderValue>)
    requires
        is_header_name(name@),
    ensures
        found is Some <==> header_entries(*headers).contains_key(name@),
        found matches Some(value) ==> header_value_bytes(*value) == header_entries(*headers)[name@],
{
    headers.get(name)
}

/// `HeaderMap::insert` with a name in stored form: the value becomes
/// the only one under the name, whatever was filed there before, and no
/// other name is touched. A name that the map did not hold counts as
/// one more. The call needs room in the map, see [`MAX_NAMES`].
#[verifier::external_body]
pub(crate) fn set_value(headers: &mut HeaderMap, name: &'static str, value: HeaderValue)
    requires
        is_header_name(name@),
        header_name_count(*old(headers)) <= MAX_NAMES,
    ensures
        header_entries(*final(headers)) == header_entries(*old(headers)).insert(
            name@,
            header_value_bytes(value),
        ),
        header_name_count(*final(headers)) == header_name_count(*old(headers)) + (if header_entries(
            *old(headers),
        ).contains_key(name@) {
            0nat
        } else {
            1nat
        }),
{
    headers.insert(name, value);
}

/// `HeaderValue::to_str`: the value as text, if each of its bytes is
/// visible ASCII, a space or a tab. The text then has one character
/// for each byte.
#[verifier::external_body]
pub(crate) fn value_text<'a>(value: &'a HeaderValue) -> (text: Option<&'a str>)
    ensures
        text is Some <==> is_text(header_value_bytes(*value)),
        text matches Some(s) ==> s@ == ascii_text(header_value_bytes(*value)),
{
    value.to_str().ok()
}

/// `HeaderValue::from_str`: a value that holds the UTF-8 bytes of the
/// text, if none of them is a control character other than the tab.
#[verifier::external_body]
pub(crate) fn text_value(text: &str) -> (value: Option<HeaderValue>)
    ensures
        value is Some <==> is_value(encode_utf8(text@)),
        value matches Some(v) ==> header_value_bytes(v) == encode_utf8(text@),
{
    HeaderValue::from_str(text).ok()
}

} // verus!
