//! Range predicates over Hangul code units, and the helpers that move
//! between `String` and 16-bit code-unit vectors.
//!
//! The code-unit layout (Hangul compatibility jamo and composed syllables):
//! - 12593..=12622: consonant jamo,
//! - 12623..=12643: vowel jamo,
//! - 44032..=55203: composed syllables.

use vstd::prelude::*;

verus! {

/// An ASCII uppercase letter becomes its lowercase form; everything else is
/// unchanged.
pub open spec fn spec_to_lower(c: u16) -> u16 {
    if 64 < c && c < 91 {
        (c + 32) as u16
    } else {
        c
    }
}

pub fn to_lower(c: &u16) -> (r: u16)
    ensures
        r == spec_to_lower(*c),
{
    if 64 < *c && *c < 91 {
        *c + 32
    } else {
        *c
    }
}

/// The five tensed (doubled) consonants.
pub open spec fn spec_is_tensory(c: u16) -> bool {
    ||| c == 12594  // ssang-kiyeok
    ||| c == 12600  // ssang-tikeut
    ||| c == 12611  // ssang-pieup
    ||| c == 12614  // ssang-sios
    ||| c == 12617  // ssang-cieuc
}

pub fn is_tensory(c: u16) -> (r: bool)
    ensures
        r == spec_is_tensory(c),
{
    c == 12594 || c == 12600 || c == 12611 || c == 12614 || c == 12617
}

/// The 19 consonants that may fill a syllable's initial slot: the consonant
/// range minus the 11 clusters.
pub open spec fn spec_is_valid_cho(c: u16) -> bool {
    12592 < c && c < 12623 && c != 12595 && c != 12597 && c != 12598 && !(12601 < c && c < 12609)
        && c != 12612
}

pub fn is_valid_cho(c: u16) -> (r: bool)
    ensures
        r == spec_is_valid_cho(c),
{
    12592 < c && c < 12623 && (c != 12595 && c != 12597 && c != 12598 && !(12601 < c && c < 12609)
        && c != 12612)
}

/// The 21 vowels; every vowel may fill the medial slot.
pub open spec fn spec_is_valid_joong(c: u16) -> bool {
    12622 < c && c < 12644
}

pub fn is_valid_joong(c: u16) -> (r: bool)
    ensures
        r == spec_is_valid_joong(c),
{
    12622 < c && c < 12644
}

/// The 27 consonants that may fill a syllable's final slot: the consonant
/// range minus the three tensed consonants that are never legal finals.
pub open spec fn spec_is_valid_jong(c: u16) -> bool {
    12592 < c && c < 12623 && c != 12600 && c != 12611 && c != 12617
}

pub fn is_valid_jong(c: u16) -> (r: bool)
    ensures
        r == spec_is_valid_jong(c),
{
    12592 < c && c < 12623 && (c != 12600 && c != 12611 && c != 12617)
}

/// A composed-syllable code unit.
pub open spec fn spec_is_jamo(c: u16) -> bool {
    44031 < c && c < 55204
}

pub fn is_jamo(c: u16) -> (r: bool)
    ensures
        r == spec_is_jamo(c),
{
    44031 < c && c < 55204
}

/// A loose jamo code unit (consonant or vowel).
pub open spec fn spec_is_non_jamo(c: u16) -> bool {
    12592 < c && c < 12644
}

pub fn is_non_jamo(c: u16) -> (r: bool)
    ensures
        r == spec_is_non_jamo(c),
{
    12592 < c && c < 12644
}

/// Any Hangul code unit: a loose jamo or a composed syllable.
pub open spec fn spec_is_hangul(c: u16) -> bool {
    spec_is_jamo(c) || spec_is_non_jamo(c)
}

pub fn is_hangul(c: u16) -> (r: bool)
    ensures
        r == spec_is_hangul(c),
{
    is_jamo(c) || is_non_jamo(c)
}

/// Any consonant jamo, clusters and tensed forms included.
pub open spec fn spec_is_valid_consonant(c: u16) -> bool {
    12592 < c && c < 12623
}

pub fn is_valid_consonant(c: u16) -> (r: bool)
    ensures
        r == spec_is_valid_consonant(c),
{
    12592 < c && c < 12623
}

/// Any vowel jamo.
pub open spec fn spec_is_valid_vowel(c: u16) -> bool {
    spec_is_valid_joong(c)
}

pub fn is_valid_vowel(c: u16) -> (r: bool)
    ensures
        r == spec_is_valid_vowel(c),
{
    is_valid_joong(c)
}

/// The Unicode scalar value of a character.
pub open spec fn char_val(c: char) -> u32 {
    c as u32
}

/// Relies on String::from_utf16: a sequence without surrogate code units is
/// valid UTF-16 and decodes one character per unit, each with the unit's own
/// scalar value.
#[verifier::external_body]
pub fn from_v16(v: &[u16]) -> (r: String)
    requires
        forall|i: int| 0 <= i < v@.len() ==> (#[trigger] v@[i]) < 0xD800 || v@[i] >= 0xE000,
    ensures
        r@.len() == v@.len(),
        forall|i: int| 0 <= i < v@.len() ==> #[trigger] char_val(r@[i]) == v@[i] as u32,
{
    String::from_utf16(v).unwrap()
}

/// Every character of the sequence lies in the basic multilingual plane.
pub open spec fn spec_all_bmp(s: Seq<char>) -> bool {
    forall|i: int| 0 <= i < s.len() ==> #[trigger] char_val(s[i]) < 0x10000
}

/// Relies on str::encode_utf16: each character in the basic multilingual
/// plane becomes exactly one code unit holding its scalar value; characters
/// beyond it become two units, so the output is never shorter than the input.
#[verifier::external_body]
pub fn into_v16(s: &str) -> (r: Vec<u16>)
    ensures
        r@.len() >= s@.len(),
        spec_all_bmp(s@) ==> r@.len() == s@.len(),
        spec_all_bmp(s@) ==> forall|i: int|
            0 <= i < s@.len() ==> (#[trigger] r@[i]) as u32 == char_val(s@[i]),
{
    s.encode_utf16().collect()
}

} // verus!
