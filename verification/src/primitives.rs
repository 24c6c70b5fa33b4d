//! Identifiers, instants and calendar dates, held as plain integers so that
//! the rules of the crate can compare and order them.

use vstd::arithmetic::power::pow;
use vstd::prelude::*;

use crate::text::hex_lower_char;

verus! {

/// A 128-bit universally unique identifier, as the number its sixteen bytes
/// spell most significant byte first.
#[derive(Clone, Copy, Debug, PartialEq, Eq, Hash, Structural)]
pub struct Uuid(pub u128);

/// An instant, in microseconds since 1970-01-01T00:00:00Z.
#[derive(Clone, Copy, Debug, PartialEq, Eq, Hash, Structural)]
pub struct Timestamp(pub i64);

/// A calendar date, in days since 0001-01-01 of the proleptic Gregorian
/// calendar, that day being day 1.
#[derive(Clone, Copy, Debug, PartialEq, Eq, Hash, Structural)]
pub struct CalendarDate(pub i32);

/// The `k`-th hexadecimal digit of `bits` counted from the most significant
/// one, for `0 <= k < 32`.
pub open spec fn hex_digit(bits: u128, k: int) -> int {
    (bits as int / pow(16, (31 - k) as nat)) % 16
}

/// How many hyphens stand before position `i` of the hyphenated form.
pub open spec fn hyphens_before(i: int) -> int {
    if i < 8 {
        0
    } else if i < 13 {
        1
    } else if i < 18 {
        2
    } else if i < 23 {
        3
    } else {
        4
    }
}

/// The hyphenated lower-case form of an identifier: 32 hexadecimal digits in
/// groups of 8, 4, 4, 4 and 12.
pub open spec fn uuid_text(bits: u128) -> Seq<char> {
    Seq::new(
        36,
        |i: int|
            if i == 8 || i == 13 || i == 18 || i == 23 {
                '-'
            } else {
                hex_lower_char(hex_digit(bits, i - hyphens_before(i)))
            },
    )
}

/// Whether `bits` carries the marks of a random (version 4) identifier of the
/// RFC 9562 variant.
pub open spec fn is_random_uuid(bits: u128) -> bool {
    &&& hex_digit(bits, 12) == 4
    &&& 8 <= hex_digit(bits, 16) <= 11
}

/// Calls `uuid::Uuid::new_v4`. The bits are random; the source masks in the
/// version digit 4 and the variant bits `10`, which is all that is claimed.
#[verifier::external_body]
fn random_uuid_bits() -> (bits: u128)
    ensures
        is_random_uuid(bits),
{
    uuid::Uuid::new_v4().as_u128()
}

/// Calls the `Display` impl of `uuid::Uuid`, which writes the hyphenated
/// lower-case form.
#[verifier::external_body]
fn uuid_to_string(bits: u128) -> (s: String)
    ensures
        s@ == uuid_text(bits),
{
    uuid::Uuid::from_u128(bits).to_string()
}

/// Calls `chrono::Utc::now` and takes its whole seconds since the Unix epoch.
/// The clock decides the value; chrono refuses a clock that stands before the
/// epoch, so the result is never negative.
#[verifier::external_body]
pub(crate) fn clock_seconds() -> (seconds: i64)
    ensures
        seconds >= 0,
{
    chrono::Utc::now().timestamp()
}

impl Uuid {
    /// A fresh random identifier.
    pub fn new_v4() -> (id: Uuid)
        ensures
            is_random_uuid(id.0),
    {
        Uuid(random_uuid_bits())
    }

    /// The hyphenated lower-case text of the identifier.
    pub fn to_text(&self) -> (s: String)
        ensures
            s@ == uuid_text(self.0),
    {
        uuid_to_string(self.0)
    }
}

} // verus!
