//! The calls this library makes into the clock, the random UUID generator
//! and Unicode case mapping. Each is a trusted item: its contract is what
//! the called function's documentation or source shows, and nothing more.
use vstd::prelude::*;

use crate::text::{ascii_lowercase, is_ascii_text, is_lower_hex};

verus! {

/// What `str::to_lowercase` returns for a string: each character replaced
/// by its Unicode lower-case mapping (which may be several characters), with
/// a capital sigma mapped by its context (`ς` at the end of a word, `σ`
/// elsewhere). The mapping is fixed by the Unicode tables that `std`
/// carries, so the result depends on the argument alone.
pub uninterp spec fn lowercase_of(s: Seq<char>) -> Seq<char>;

/// Calls `str::to_lowercase`. Claimed: the result is `lowercase_of` of the
/// argument's characters, and for text that is all ASCII it is the text
/// with `'A'..='Z'` mapped to `'a'..='z'` (ASCII letters lower-case to
/// ASCII letters, and every other ASCII character is its own lower case).
/// Nothing more is claimed of the mapping.
#[verifier::external_body]
pub(crate) fn to_lowercase(s: &str) -> (r: String)
    ensures
        r@ == lowercase_of(s@),
        is_ascii_text(s@) ==> r@ == ascii_lowercase(s@),
{
    s.to_lowercase()
}

/// Calls `chrono::Utc::now` and converts the instant with
/// `DateTime::timestamp_millis`. Nothing is claimed of the result: it is
/// the time of the call, in milliseconds since the Unix epoch.
#[verifier::external_body]
pub(crate) fn now_millis() -> (t: i64) {
    chrono::Utc::now().timestamp_millis()
}

/// Calls `uuid::Uuid::new_v4` and formats the result with `Uuid::simple`.
/// Claimed, as `uuid`'s formatting code shows: 32 characters, each a
/// lower-case hexadecimal digit. Which digits come out is random.
#[verifier::external_body]
pub(crate) fn random_uuid_simple() -> (s: String)
    ensures
        s@.len() == 32,
        forall|i: int| 0 <= i < 32 ==> is_lower_hex(#[trigger] s@[i]),
{
    uuid::Uuid::new_v4().simple().to_string()
}

} // verus!
