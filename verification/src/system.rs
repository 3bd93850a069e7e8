//! What the gateway takes from its surroundings: fresh identifiers and
//! the time of day.

use vstd::prelude::*;
use crate::text::{is_visible, is_visible_char};

verus! {

/// A lower-case hexadecimal digit.
pub open spec fn is_lower_hex(c: char) -> bool {
    ('0' <= c && c <= '9') || ('a' <= c && c <= 'f')
}

/// The canonical text of a random (version 4) UUID: 36 characters,
/// lower-case hexadecimal digits in groups of 8, 4, 4, 4 and 12 with a
/// hyphen between the groups, the third group starting with `4` and the
/// fourth with `8`, `9`, `a` or `b`.
pub open spec fn is_uuid_v4(text: Seq<char>) -> bool {
    &&& text.len() == 36
    &&& forall|i: int|
        0 <= i < 36 ==> if i == 8 || i == 13 || i == 18 || i == 23 {
            #[trigger] text[i] == '-'
        } else {
            is_lower_hex(text[i])
        }
    &&& text[14] == '4'
    &&& (text[19] == '8' || text[19] == '9' || text[19] == 'a' || text[19] == 'b')
}

/// The text of a UUID is visible, and not empty.
pub proof fn lemma_uuid_is_visible(text: Seq<char>)
    requires
        is_uuid_v4(text),
    ensures
        is_visible(text),
        text.len() > 0,
{
    assert forall|i: int| 0 <= i < text.len() implies is_visible_char(#[trigger] text[i]) by {
        if i == 8 || i == 13 || i == 18 || i == 23 {
            assert(text[i] == '-');
        } else {
            assert(is_lower_hex(text[i]));
        }
    }
}

/// `Uuid::new_v4`, written out with `to_string`: a random identifier in
/// canonical text form. Which one is a matter of chance; two calls are
/// not known to give the same. (The call gives up if the operating
/// system has no random bytes to offer.)
#[verifier::external_body]
pub(crate) fn random_request_id() -> (id: String)
    ensures
        is_uuid_v4(id@),
{
    uuid::Uuid::new_v4().to_string()
}

/// `Utc::now` read with `timestamp_millis`: the milliseconds that have
/// passed since the Unix epoch by the system clock, which does not go
/// below zero. (The call gives up if the clock is set before the epoch.)
#[verifier::external_body]
pub(crate) fn now_millis() -> (millis: i64)
    ensures
        millis >= 0,
{
    chrono::Utc::now().timestamp_millis()
}

} // verus!
