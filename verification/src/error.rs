//! Diagnoses raised by the strict construction entry points of `KorChar`.
//! The streaming parser and serializer never raise them.

use vstd::prelude::*;

verus! {

/// Why a code unit or a slot triple was rejected.
#[non_exhaustive]
#[derive(Debug, PartialEq)]
pub enum KorError {
    /// The value cannot fill the initial slot.
    InvalidCho(u16),
    /// The value cannot fill the medial slot.
    InvalidJoong(u16),
    /// The value cannot fill the final slot.
    InvalidJong(u16),
    /// The value is neither a loose jamo nor a composed syllable.
    InvalidHangul(u16),
    /// A keystroke sequence decoded to more than one character.
    TooManyChars(Vec<u16>),
    /// A medial or final is present without an initial.
    MissingCho,
    /// An initial is present without a medial.
    MissingJoong,
}

} // verus!
