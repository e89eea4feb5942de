//! Calls into `uuid`, `chrono` and the parts of std that vstd leaves unspecified.
//! Each item here is trusted: its contract is believed, not proved.
use vstd::prelude::*;

use crate::numbers::uuid_text;

verus! {

/// `uuid::Uuid::new_v4`: a fresh random UUID, handed back as its 128-bit value
/// (`Uuid::as_u128`). Nothing is claimed of the value: it comes from the
/// operating system's random number generator.
#[verifier::external_body]
pub(crate) fn new_request_id() -> u128 {
    uuid::Uuid::new_v4().as_u128()
}

/// `Display` of `uuid::Uuid` for the UUID whose 128-bit value is `id`
/// (`Uuid::from_u128`): the lower-case hyphenated form, as uuid's `fmt.rs`
/// writes it through `LowerHex` and `format_hyphenated`.
#[verifier::external_body]
pub(crate) fn request_id_text(id: u128) -> (s: String)
    ensures
        s@ == uuid_text(id),
{
    uuid::Uuid::from_u128(id).to_string()
}

/// `chrono::Utc::now`, as microseconds since the Unix epoch
/// (`DateTime::timestamp_micros`). Nothing is claimed of the value: it is
/// the system clock.
#[verifier::external_body]
pub(crate) fn now_micros() -> i64 {
    chrono::Utc::now().timestamp_micros()
}

/// What `str::to_lowercase` gives: the Unicode lower-case mapping of each character.
pub uninterp spec fn unicode_lowercase(s: Seq<char>) -> Seq<char>;

/// `str::to_lowercase`. The contract only names the result: the Unicode
/// case tables are not written out here.
#[verifier::external_body]
pub(crate) fn to_lowercase(s: &str) -> (r: String)
    ensures
        r@ == unicode_lowercase(s@),
{
    s.to_lowercase()
}

/// What `String::from_utf8_lossy` gives for a byte sequence.
pub uninterp spec fn utf8_lossy(b: Seq<u8>) -> Seq<char>;

/// `String::from_utf8_lossy`, made an owned `String`. The contract names the
/// result and states the documented fact that valid UTF-8 is decoded as is;
/// how invalid sequences become U+FFFD is left unsaid.
#[verifier::external_body]
pub(crate) fn from_utf8_lossy(b: &Vec<u8>) -> (r: String)
    ensures
        r@ == utf8_lossy(b@),
        vstd::utf8::valid_utf8(b@) ==> r@ == vstd::utf8::decode_utf8(b@),
{
    String::from_utf8_lossy(b.as_slice()).into_owned()
}

} // verus!
