//! The two values that a new print job takes from its surroundings: the wall
//! clock and a fresh random identifier.

use vstd::prelude::*;

verus! {

/// `chrono::Utc::now().timestamp_millis()`: the current time in milliseconds
/// since the Unix epoch. The value depends on the clock, so nothing pins it
/// down; `Utc::now` panics on a clock set before the epoch, so a value that
/// comes back is not negative.
#[verifier::external_body]
pub(crate) fn now_millis() -> (ms: i64)
    ensures
        ms >= 0,
{
    chrono::Utc::now().timestamp_millis()
}

/// Whether `c` is a lower-case hexadecimal digit.
pub open spec fn lower_hex_digit(c: char) -> bool {
    ('0' <= c && c <= '9') || ('a' <= c && c <= 'f')
}

/// Whether `s` has the layout of a hyphenated version-4 UUID: 36 characters
/// with hyphens at positions 8, 13, 18 and 23, lower-case hexadecimal digits
/// everywhere else, the version digit `4` at position 14 and a variant digit
/// of `8`, `9`, `a` or `b` at position 19.
pub open spec fn hyphenated_uuid(s: Seq<char>) -> bool {
    &&& s.len() == 36
    &&& s[8] == '-'
    &&& s[13] == '-'
    &&& s[18] == '-'
    &&& s[23] == '-'
    &&& forall|i: int|
        0 <= i < 36 && i != 8 && i != 13 && i != 18 && i != 23 ==> lower_hex_digit(
            #[trigger] s[i],
        )
    &&& s[14] == '4'
    &&& (s[19] == '8' || s[19] == '9' || s[19] == 'a' || s[19] == 'b')
}

/// `uuid::Uuid::new_v4().to_string()`: a random version-4 UUID in its
/// hyphenated lower-case form. The value is random; what holds of every
/// outcome is the hyphenated lower-case layout of the crate's formatting and
/// the version and variant bits that `new_v4` sets.
#[verifier::external_body]
pub(crate) fn new_task_id() -> (id: String)
    ensures
        hyphenated_uuid(id@),
{
    uuid::Uuid::new_v4().to_string()
}

} // verus!
