//! Conversion between the two-set Korean keyboard's Latin keystrokes and
//! composed Hangul text, with a validated model of a single Hangul unit.
//!
//! All text is handled as 16-bit code units. The crate offers:
//! - membership predicates for the jamo and syllable ranges (`utils`),
//! - the 23-entry compound-jamo codec and the `KorChar` syllable model
//!   (`kor_char`),
//! - the streaming keystroke parser and its inverse serializer (`qwerty`).

pub mod error;
pub mod kor_char;
pub mod qwerty;
pub mod tables;
pub mod utils;

pub use error::KorError;
pub use kor_char::KorChar;
pub use kor_char::assemble;
pub use kor_char::disassemble;
pub use qwerty::kor_to_qwerty;
pub use qwerty::qwerty_to_kor;
pub use utils::from_v16;
pub use utils::into_v16;
pub use utils::is_hangul;
pub use utils::is_jamo;
pub use utils::is_non_jamo;
pub use utils::is_tensory;
pub use utils::is_valid_cho;
pub use utils::is_valid_consonant;
pub use utils::is_valid_jong;
pub use utils::is_valid_joong;
pub use utils::is_valid_vowel;
pub use utils::to_lower;
