//! Validation of geohash strings, the location codes that users type.
use vstd::prelude::*;

verus! {

/// Longest geohash accepted, in characters.
pub const MAX_GEOHASH_LEN: usize = 12;

/// The base32 alphabet of geohashes: digits and lower-case letters but `a`, `i`, `l`, `o`.
pub open spec fn is_base32_char(c: char) -> bool {
    ('0' <= c && c <= '9') || ('b' <= c && c <= 'z' && c != 'i' && c != 'l' && c != 'o')
}

pub open spec fn all_base32(s: Seq<char>) -> bool {
    forall|i: int| 0 <= i < s.len() ==> is_base32_char(#[trigger] s[i])
}

/// A geohash that names a cell: one to twelve characters of the base32 alphabet.
pub open spec fn is_valid_geohash(s: Seq<char>) -> bool {
    0 < s.len() <= MAX_GEOHASH_LEN && all_base32(s)
}

/// Why a geohash was refused.
#[derive(Clone, Copy, Debug, PartialEq, Eq, Structural)]
pub enum GeohashError {
    /// Nothing was entered.
    Empty,
    /// Too long, or a character outside the alphabet.
    Invalid,
}

/// What `validate_geohash` returns for a string.
pub open spec fn geohash_check(s: Seq<char>) -> Result<(), GeohashError> {
    if s.len() == 0 {
        Err(GeohashError::Empty)
    } else if is_valid_geohash(s) {
        Ok(())
    } else {
        Err(GeohashError::Invalid)
    }
}

/// Relies on geohash::decode: it refuses a string longer than twelve bytes or with
/// a byte outside the base32 alphabet, and decodes every other non-empty string.
/// Each character of the alphabet is one byte, so where all characters are in it
/// their count is the byte length, and where one is not the string is refused either way.
/// It is not called on the empty string, where its bit shift overflows.
#[verifier::external_body]
fn geohash_decodes(hash: &str) -> (r: bool)
    requires
        hash@.len() > 0,
    ensures
        r == (hash@.len() <= MAX_GEOHASH_LEN && all_base32(hash@)),
{
    geohash::decode(hash).is_ok()
}

/// Checks that `hash` decodes to a location.
pub fn validate_geohash(hash: &str) -> (r: Result<(), GeohashError>)
    ensures
        r == geohash_check(hash@),
{
    if hash.is_empty() {
        Err(GeohashError::Empty)
    } else if geohash_decodes(hash) {
        Ok(())
    } else {
        Err(GeohashError::Invalid)
    }
}

/// Whether `hash` names a location that a forecast can be fetched for.
pub fn has_coordinates(hash: &str) -> (r: bool)
    ensures
        r == is_valid_geohash(hash@),
{
    validate_geohash(hash).is_ok()
}

/// A string longer than twelve characters is never accepted as a geohash.
pub proof fn lemma_long_geohash_refused(s: Seq<char>)
    requires
        s.len() > MAX_GEOHASH_LEN,
    ensures
        !is_valid_geohash(s),
        geohash_check(s) == Err::<(), GeohashError>(GeohashError::Invalid),
{
}

} // verus!
