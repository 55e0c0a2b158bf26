//! Values the library takes from the environment: random identifiers and
//! the current time.

use vstd::prelude::*;

use crate::text::is_ascii_text;

verus! {

/// True for the lowercase hexadecimal digits.
pub open spec fn is_lower_hex(c: char) -> bool {
    ('0' <= c && c <= '9') || ('a' <= c && c <= 'f')
}

/// The hyphenated textual form of a UUID: 32 lowercase hex digits in groups
/// of 8-4-4-4-12.
pub open spec fn is_uuid_text(s: Seq<char>) -> bool {
    &&& s.len() == 36
    &&& forall|i: int|
        0 <= i < 36 ==> (if i == 8 || i == 13 || i == 18 || i == 23 {
            s[i] == '-'
        } else {
            is_lower_hex(s[i])
        })
}

/// A hyphenated UUID of version 4 and of the RFC 4122 variant: the version
/// digit (index 14) is `4`, and the variant digit (index 19) is one of `8`,
/// `9`, `a`, `b`.
pub open spec fn is_uuid_v4_text(s: Seq<char>) -> bool {
    &&& is_uuid_text(s)
    &&& s[14] == '4'
    &&& (s[19] == '8' || s[19] == '9' || s[19] == 'a' || s[19] == 'b')
}

/// True for the ASCII decimal digits.
pub open spec fn is_digit(c: char) -> bool {
    '0' <= c && c <= '9'
}

/// The year field of an RFC 3339 timestamp, `y` chars wide: four digits, or
/// for years past 9999 a `+` followed by the digits.
pub open spec fn is_rfc3339_year(s: Seq<char>, y: int) -> bool {
    if y == 4 {
        forall|i: int| 0 <= i < 4 ==> is_digit(#[trigger] s[i])
    } else {
        &&& s[0] == '+'
        &&& forall|i: int| 1 <= i < y ==> is_digit(#[trigger] s[i])
    }
}

/// `s` reads `YYYY-MM-DDTHH:MM:SS`, then an optional `.` with 3, 6 or 9
/// fraction digits, then the UTC offset `+00:00`, where the year field is
/// `y` chars wide.
pub open spec fn is_rfc3339_utc_with_year(s: Seq<char>, y: int) -> bool {
    let n = s.len() as int;
    let frac = n - y - 21;
    &&& is_rfc3339_year(s, y)
    &&& (frac == 0 || frac == 4 || frac == 7 || frac == 10)
    &&& s[y] == '-'
    &&& is_digit(s[y + 1]) && is_digit(s[y + 2])
    &&& s[y + 3] == '-'
    &&& is_digit(s[y + 4]) && is_digit(s[y + 5])
    &&& s[y + 6] == 'T'
    &&& is_digit(s[y + 7]) && is_digit(s[y + 8])
    &&& s[y + 9] == ':'
    &&& is_digit(s[y + 10]) && is_digit(s[y + 11])
    &&& s[y + 12] == ':'
    &&& is_digit(s[y + 13]) && is_digit(s[y + 14])
    &&& frac > 0 ==> s[y + 15] == '.'
    &&& forall|i: int| y + 16 <= i < y + 15 + frac ==> is_digit(#[trigger] s[i])
    &&& s[n - 6] == '+'
    &&& s[n - 5] == '0'
    &&& s[n - 4] == '0'
    &&& s[n - 3] == ':'
    &&& s[n - 2] == '0'
    &&& s[n - 1] == '0'
}

/// An RFC 3339 UTC timestamp as chrono's `to_rfc3339` writes it: a four-digit
/// year (years 0 to 9999), or `+` and six or seven chars of year otherwise.
/// With a four-digit year, `-` stands at 4 and 7, `T` at 10 and `:` at 13
/// and 16.
pub open spec fn is_rfc3339_utc_text(s: Seq<char>) -> bool {
    ||| is_rfc3339_utc_with_year(s, 4)
    ||| is_rfc3339_utc_with_year(s, 6)
    ||| is_rfc3339_utc_with_year(s, 7)
}

/// A fresh random version-4 UUID in hyphenated form.
///
/// Calls `uuid::Uuid::new_v4` and formats the result with `to_string`.
/// The value is random; the contract states the text that the crate's
/// `Display` impl writes (lowercase, hyphenated, 36 chars) and the two
/// digits that `new_v4` fixes: the version `4` and the RFC 4122 variant.
/// `new_v4` panics if the operating system's random source fails; nothing
/// here excludes that.
#[verifier::external_body]
pub(crate) fn new_uuid_string() -> (r: String)
    ensures
        is_uuid_v4_text(r@),
{
    uuid::Uuid::new_v4().to_string()
}

/// The current UTC time as an RFC 3339 string.
///
/// Calls `chrono::Utc::now` and `DateTime::to_rfc3339`. The value depends on
/// the clock; the contract states the form that chrono writes for a UTC time
/// (`YYYY-MM-DDTHH:MM:SS`, the non-zero fraction in 3, 6 or 9 digits, and
/// `+00:00`), which is ASCII and at least 25 chars long. Which instant it is
/// is left unstated. `Utc::now` panics on a clock set before 1970 or past
/// the last year chrono represents; nothing here excludes that.
#[verifier::external_body]
pub(crate) fn now_rfc3339() -> (r: String)
    ensures
        is_rfc3339_utc_text(r@),
        r@.len() >= 25,
        is_ascii_text(r@),
{
    chrono::Utc::now().to_rfc3339()
}

} // verus!
