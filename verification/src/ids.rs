//! Identifiers and timestamps. UUIDs are held as `u128` and points in time as
//! seconds and nanoseconds since the Unix epoch; the clock and the random
//! generator are reached through the wrappers below, whose contracts are trusted.
use vstd::prelude::*;
use vstd::arithmetic::power::pow;

verus! {

/// A point in time: whole seconds since 1970-01-01 UTC and the nanoseconds
/// within that second.
#[derive(Debug, Clone, Copy, PartialEq, Eq, Structural)]
pub struct Timestamp {
    pub secs: i64,
    pub nanos: u32,
}

/// `chrono::Utc::now`, taken apart into seconds (`DateTime::timestamp`) and
/// nanoseconds (`DateTime::timestamp_subsec_nanos`). The reading depends on the
/// clock, so only the documented range of the nanoseconds is claimed.
#[verifier::external_body]
pub(crate) fn now() -> (t: Timestamp)
    ensures
        t.nanos < 2_000_000_000,
{
    let now = chrono::Utc::now();
    Timestamp { secs: now.timestamp(), nanos: now.timestamp_subsec_nanos() }
}

/// `uuid::Uuid::new_v4`, as its 128-bit value (`Uuid::as_u128`). The value is
/// random, so nothing is claimed of it.
#[verifier::external_body]
pub(crate) fn new_uuid() -> (id: u128) {
    uuid::Uuid::new_v4().as_u128()
}

/// Lowercase hexadecimal digit for a value below 16.
pub open spec fn hex_digit(n: int) -> char {
    if n < 10 {
        ((48 + n) as u32) as char
    } else {
        ((87 + n) as u32) as char
    }
}

/// The `k`-th hexadecimal digit of `id`, counting from the most significant.
pub open spec fn uuid_nibble(id: u128, k: int) -> int {
    (id as int / pow(16, (31 - k) as nat)) % 16
}

/// Index of the hexadecimal digit shown at position `i` of the hyphenated form.
pub open spec fn uuid_digit_index(i: int) -> int {
    if i < 8 {
        i
    } else if i < 13 {
        i - 1
    } else if i < 18 {
        i - 2
    } else if i < 23 {
        i - 3
    } else {
        i - 4
    }
}

/// The hyphenated lowercase text of a UUID: `xxxxxxxx-xxxx-xxxx-xxxx-xxxxxxxxxxxx`.
pub open spec fn uuid_text(id: u128) -> Seq<char> {
    Seq::new(
        36,
        |i: int|
            if i == 8 || i == 13 || i == 18 || i == 23 {
                '-'
            } else {
                hex_digit(uuid_nibble(id, uuid_digit_index(i)))
            },
    )
}

/// `uuid::Uuid::from_u128` followed by its `Display` (`to_string`), which the
/// crate documents as the hyphenated lowercase form.
#[verifier::external_body]
pub(crate) fn uuid_to_string(id: u128) -> (s: String)
    ensures
        s@ == uuid_text(id),
{
    uuid::Uuid::from_u128(id).to_string()
}

/// A fresh random UUID in its hyphenated text form.
pub fn new_uuid_string() -> (s: String)
    ensures
        exists|id: u128| s@ == uuid_text(id),
{
    let id = new_uuid();
    uuid_to_string(id)
}

} // verus!
