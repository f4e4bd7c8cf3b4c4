//! Identifiers and clock readings: random UUIDs and UTC timestamps.

use vstd::prelude::*;

verus! {

/// The lower-case hexadecimal digit of the four bits of `id` that begin `4 * k` bits
/// below its top, for `k` in `0..32`.
pub open spec fn hex_digit_at(id: u128, k: int) -> char {
    "0123456789abcdef"@[((id >> ((124 - 4 * k) as u128)) & 0xfu128) as int]
}

/// The simple text of the UUID whose 128 bits are `id`: its 32 lower-case hex
/// digits, most significant first, without hyphens (`uuid::fmt::Simple`).
pub open spec fn uuid_simple(id: u128) -> Seq<char> {
    Seq::new(32, |k: int| hex_digit_at(id, k))
}

/// The hyphenated lower-case text of the UUID whose 128 bits are `id`
/// (`uuid::Uuid::to_string`): its 32 hex digits in groups of 8, 4, 4, 4 and 12,
/// joined by `-`.
pub open spec fn uuid_hyphenated(id: u128) -> Seq<char> {
    let h = uuid_simple(id);
    h.subrange(0, 8) + "-"@ + h.subrange(8, 12) + "-"@ + h.subrange(12, 16) + "-"@ + h.subrange(16, 20) + "-"@
        + h.subrange(20, 32)
}

/// The text chrono gives for the UTC instant `secs`/`nanos` under the pattern
/// `%Y%m%dT%H%M%S%.fZ`, or `None` when chrono rejects the instant.
pub uninterp spec fn compact_timestamp_text(secs: i64, nanos: u32) -> Option<Seq<char>>;

/// A UUID has version 4 and the RFC 4122 variant when its version nibble reads 4
/// and its two variant bits read `0b10`.
pub open spec fn is_v4(id: u128) -> bool {
    &&& (id >> 76u128) & 0xfu128 == 4u128
    &&& (id >> 62u128) & 3u128 == 2u128
}

/// `uuid::Uuid::new_v4`, read as its 128-bit value (`Uuid::as_u128`).
/// The bits are random; the source masks in version 4 and the RFC 4122 variant,
/// which is all that is claimed of the result.
#[verifier::external_body]
pub(crate) fn new_uuid_v4() -> (id: u128)
    ensures
        is_v4(id),
{
    uuid::Uuid::new_v4().as_u128()
}

/// `uuid::Uuid::to_string` on the UUID with the 128-bit value `id` (built by
/// `Uuid::from_u128`, which takes the bytes big-endian): the source writes each byte
/// as two lower-case hex digits, high nibble first, and puts hyphens after the 4th,
/// 6th, 8th and 10th byte.
#[verifier::external_body]
pub(crate) fn uuid_to_string(id: u128) -> (s: String)
    ensures
        s@ == uuid_hyphenated(id),
{
    uuid::Uuid::from_u128(id).to_string()
}

/// `uuid::Uuid::simple` on the UUID with the 128-bit value `id`, as text: the same
/// 32 lower-case hex digits, big-endian, with no hyphens.
#[verifier::external_body]
pub(crate) fn uuid_simple_text(id: u128) -> (s: String)
    ensures
        s@ == uuid_simple(id),
{
    uuid::Uuid::from_u128(id).simple().to_string()
}

/// `chrono::Utc::now`, read as whole seconds since the Unix epoch
/// (`timestamp`) and the nanoseconds past that second (`timestamp_subsec_nanos`).
/// The reading depends on the clock; chrono documents that the nanoseconds stay
/// below two billion (they exceed a billion only inside a leap second).
#[verifier::external_body]
pub(crate) fn utc_now() -> (t: (i64, u32))
    ensures
        t.1 < 2_000_000_000u32,
{
    let now = chrono::Utc::now();
    (now.timestamp(), now.timestamp_subsec_nanos())
}

/// `chrono::DateTime::<Utc>::from_timestamp` followed by `format("%Y%m%dT%H%M%S%.fZ")`:
/// the compact text used in receipt file names, `None` when chrono rejects the instant.
#[verifier::external_body]
pub(crate) fn compact_timestamp(secs: i64, nanos: u32) -> (r: Option<String>)
    ensures
        r matches Some(s) ==> compact_timestamp_text(secs, nanos) == Some(s@),
        r is None ==> compact_timestamp_text(secs, nanos) is None,
{
    match chrono::DateTime::<chrono::Utc>::from_timestamp(secs, nanos) {
        Some(t) => Some(t.format("%Y%m%dT%H%M%S%.fZ").to_string()),
        None => None,
    }
}

/// A version-4 UUID is never the nil UUID.
pub proof fn lemma_v4_not_nil(id: u128)
    requires
        is_v4(id),
    ensures
        id != 0,
{
    assert((id >> 76u128) & 0xfu128 == 4u128 ==> id != 0) by (bit_vector);
}

} // verus!
