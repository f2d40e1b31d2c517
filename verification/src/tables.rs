//! The canonical ordered tables of the 19 initial consonants, 21 vowels and
//! 27 final consonants, as total functions from ordinal to code unit and
//! back. The ordinals drive the arithmetic syllable encoding in `kor_char`.

use crate::utils::{spec_is_valid_cho, spec_is_valid_jong, spec_is_valid_joong};
use vstd::prelude::*;

verus! {

/// Code unit of the initial consonant at ordinal `i` (0..19).
pub open spec fn spec_cho_of(i: int) -> u16 {
    if i == 0 {
        12593  // kiyeok
    } else if i == 1 {
        12594  // ssang-kiyeok
    } else if i == 2 {
        12596  // nieun
    } else if i == 3 {
        12599  // tikeut
    } else if i == 4 {
        12600  // ssang-tikeut
    } else if i == 5 {
        12601  // rieul
    } else if i == 6 {
        12609  // mieum
    } else if i == 7 {
        12610  // pieup
    } else if i == 8 {
        12611  // ssang-pieup
    } else if i == 9 {
        12613  // sios
    } else if i == 10 {
        12614  // ssang-sios
    } else if i == 11 {
        12615  // ieung
    } else if i == 12 {
        12616  // cieuc
    } else if i == 13 {
        12617  // ssang-cieuc
    } else if i == 14 {
        12618  // chieuch
    } else if i == 15 {
        12619  // khieukh
    } else if i == 16 {
        12620  // thieuth
    } else if i == 17 {
        12621  // phieuph
    } else {
        12622  // hieuh
    }
}

/// Ordinal of a valid initial consonant.
pub open spec fn spec_cho_index(c: u16) -> int {
    if c == 12593 {
        0
    } else if c == 12594 {
        1
    } else if c == 12596 {
        2
    } else if c == 12599 {
        3
    } else if c == 12600 {
        4
    } else if c == 12601 {
        5
    } else if c == 12609 {
        6
    } else if c == 12610 {
        7
    } else if c == 12611 {
        8
    } else if c == 12613 {
        9
    } else if c == 12614 {
        10
    } else if c == 12615 {
        11
    } else if c == 12616 {
        12
    } else if c == 12617 {
        13
    } else if c == 12618 {
        14
    } else if c == 12619 {
        15
    } else if c == 12620 {
        16
    } else if c == 12621 {
        17
    } else {
        18
    }
}

/// Code unit of the vowel at ordinal `i` (0..21); the vowel table is the
/// contiguous range 12623..=12643 in order.
pub open spec fn spec_joong_of(i: int) -> u16 {
    (12623 + i) as u16
}

/// Ordinal of a valid vowel.
pub open spec fn spec_joong_index(c: u16) -> int {
    c - 12623
}

/// Code unit of the final consonant at ordinal `i` (0..27).
pub open spec fn spec_jong_of(i: int) -> u16 {
    if i <= 6 {
        (12593 + i) as u16  // kiyeok .. tikeut, contiguous
    } else if i <= 16 {
        (12594 + i) as u16  // rieul .. pieup, contiguous after skipping ssang-tikeut
    } else if i == 17 {
        12612  // pieup-sios
    } else if i <= 21 {
        (12595 + i) as u16  // sios .. cieuc, contiguous
    } else {
        (12596 + i) as u16  // chieuch .. hieuh, contiguous after skipping ssang-cieuc
    }
}

/// Ordinal of a valid final consonant.
pub open spec fn spec_jong_index(c: u16) -> int {
    if c <= 12599 {
        c - 12593
    } else if c <= 12610 {
        c - 12594
    } else if c == 12612 {
        17
    } else if c <= 12616 {
        c - 12595
    } else {
        c - 12596
    }
}

/// The initial-consonant table and its ordinal lookup invert each other.
pub proof fn lemma_cho_table_bijective()
    ensures
        forall|c: u16|
            spec_is_valid_cho(c) ==> 0 <= #[trigger] spec_cho_index(c) < 19 && spec_cho_of(
                spec_cho_index(c),
            ) == c && spec_is_valid_cho(spec_cho_of(spec_cho_index(c))),
        forall|i: int|
            0 <= i < 19 ==> spec_is_valid_cho(#[trigger] spec_cho_of(i)) && spec_cho_index(
                spec_cho_of(i),
            ) == i,
{
}

/// The vowel table and its ordinal lookup invert each other.
pub proof fn lemma_joong_table_bijective()
    ensures
        forall|c: u16|
            spec_is_valid_joong(c) ==> 0 <= #[trigger] spec_joong_index(c) < 21 && spec_joong_of(
                spec_joong_index(c),
            ) == c,
        forall|i: int|
            0 <= i < 21 ==> spec_is_valid_joong(#[trigger] spec_joong_of(i)) && spec_joong_index(
                spec_joong_of(i),
            ) == i,
{
}

/// The final-consonant table and its ordinal lookup invert each other.
pub proof fn lemma_jong_table_bijective()
    ensures
        forall|c: u16|
            spec_is_valid_jong(c) ==> 0 <= #[trigger] spec_jong_index(c) < 27 && spec_jong_of(
                spec_jong_index(c),
            ) == c,
        forall|i: int|
            0 <= i < 27 ==> spec_is_valid_jong(#[trigger] spec_jong_of(i)) && spec_jong_index(
                spec_jong_of(i),
            ) == i,
{
}

/// Initial-consonant code unit at ordinal `i`.
pub fn cho_at(i: u16) -> (r: u16)
    requires
        i < 19,
    ensures
        r == spec_cho_of(i as int),
{
    match i {
        0 => 12593,
        1 => 12594,
        2 => 12596,
        3 => 12599,
        4 => 12600,
        5 => 12601,
        6 => 12609,
        7 => 12610,
        8 => 12611,
        9 => 12613,
        10 => 12614,
        11 => 12615,
        12 => 12616,
        13 => 12617,
        14 => 12618,
        15 => 12619,
        16 => 12620,
        17 => 12621,
        _ => 12622,
    }
}

/// Vowel code unit at ordinal `i`.
pub fn joong_at(i: u16) -> (r: u16)
    requires
        i < 21,
    ensures
        r == spec_joong_of(i as int),
{
    12623 + i
}

/// Final-consonant code unit at ordinal `i`.
pub fn jong_at(i: u16) -> (r: u16)
    requires
        i < 27,
    ensures
        r == spec_jong_of(i as int),
{
    if i <= 6 {
        12593 + i
    } else if i <= 16 {
        12594 + i
    } else if i == 17 {
        12612
    } else if i <= 21 {
        12595 + i
    } else {
        12596 + i
    }
}

/// Ordinal of a valid initial consonant.
pub fn rev_ind_cho(c: u16) -> (r: u16)
    requires
        spec_is_valid_cho(c),
    ensures
        r < 19,
        r == spec_cho_index(c),
        spec_cho_of(r as int) == c,
{
    match c {
        12593 => 0,
        12594 => 1,
        12596 => 2,
        12599 => 3,
        12600 => 4,
        12601 => 5,
        12609 => 6,
        12610 => 7,
        12611 => 8,
        12613 => 9,
        12614 => 10,
        12615 => 11,
        12616 => 12,
        12617 => 13,
        12618 => 14,
        12619 => 15,
        12620 => 16,
        12621 => 17,
        _ => 18,
    }
}

/// Ordinal of a valid vowel.
pub fn rev_ind_joong(c: u16) -> (r: u16)
    requires
        spec_is_valid_joong(c),
    ensures
        r < 21,
        r == spec_joong_index(c),
        spec_joong_of(r as int) == c,
{
    c - 12623
}

/// Final-slot code for the arithmetic encoding: 0 for no final, otherwise
/// the final's ordinal plus one.
pub fn rev_ind_jong(c: Option<u16>) -> (r: u16)
    requires
        c matches Some(j) ==> spec_is_valid_jong(j),
    ensures
        c is None ==> r == 0,
        c matches Some(j) ==> 1 <= r <= 27 && r == spec_jong_index(j) + 1 && spec_jong_of(
            r as int - 1,
        ) == j,
{
    match c {
        None => 0,
        Some(j) => {
            proof {
                lemma_jong_table_bijective();
            }
            if j <= 12599 {
                j - 12593 + 1
            } else if j <= 12610 {
                j - 12594 + 1
            } else if j == 12612 {
                18
            } else if j <= 12616 {
                j - 12595 + 1
            } else {
                j - 12596 + 1
            }
        },
    }
}

/// The initial-consonant table as a vector.
pub fn chos() -> (r: Vec<u16>)
    ensures
        r@.len() == 19,
        forall|i: int| 0 <= i < 19 ==> r@[i] == spec_cho_of(i),
{
    let mut v: Vec<u16> = Vec::new();
    let mut i: u16 = 0;
    while i < 19
        invariant
            i <= 19,
            v@.len() == i as int,
            forall|k: int| 0 <= k < i as int ==> v@[k] == spec_cho_of(k),
        decreases 19 - i,
    {
        v.push(cho_at(i));
        i = i + 1;
    }
    v
}

/// The vowel table as a vector.
pub fn joongs() -> (r: Vec<u16>)
    ensures
        r@.len() == 21,
        forall|i: int| 0 <= i < 21 ==> r@[i] == spec_joong_of(i),
{
    let mut v: Vec<u16> = Vec::new();
    let mut i: u16 = 0;
    while i < 21
        invariant
            i <= 21,
            v@.len() == i as int,
            forall|k: int| 0 <= k < i as int ==> v@[k] == spec_joong_of(k),
        decreases 21 - i,
    {
        v.push(joong_at(i));
        i = i + 1;
    }
    v
}

/// The final-consonant table as a vector.
pub fn jongs() -> (r: Vec<u16>)
    ensures
        r@.len() == 27,
        forall|i: int| 0 <= i < 27 ==> r@[i] == spec_jong_of(i),
{
    let mut v: Vec<u16> = Vec::new();
    let mut i: u16 = 0;
    while i < 27
        invariant
            i <= 27,
            v@.len() == i as int,
            forall|k: int| 0 <= k < i as int ==> v@[k] == spec_jong_of(k),
        decreases 27 - i,
    {
        v.push(jong_at(i));
        i = i + 1;
    }
    v
}

} // verus!
