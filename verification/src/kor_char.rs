//! The validated model of a single Hangul unit: either a loose jamo or a
//! composed syllable, held as the slot triple {initial, medial, final}, plus
//! the stateless codec over the 23 legal compound-jamo pairs.

use crate::error::KorError;
use crate::tables::{
    cho_at, jong_at, joong_at, lemma_cho_table_bijective, lemma_jong_table_bijective,
    lemma_joong_table_bijective, rev_ind_cho, rev_ind_jong, rev_ind_joong, spec_cho_index,
    spec_cho_of, spec_jong_index, spec_jong_of, spec_joong_index, spec_joong_of,
};
use crate::utils::{
    char_val, is_valid_cho, is_valid_jong, is_valid_joong, spec_is_hangul, spec_is_tensory,
    spec_is_valid_cho, spec_is_valid_consonant, spec_is_valid_jong, spec_is_valid_joong,
};
use vstd::prelude::*;

verus! {

/// The compound jamo formed by typing base jamo `c1` then `c2`: defined on
/// exactly the 23 legal pairs (11 consonant clusters, 5 tensed consonants,
/// 7 vowel compounds).
pub open spec fn spec_assemble(c1: u16, c2: u16) -> Option<u16> {
    if c1 == 12593 && c2 == 12593 {
        Some(12594u16)  // kiyeok + kiyeok
    } else if c1 == 12593 && c2 == 12613 {
        Some(12595u16)  // kiyeok + sios
    } else if c1 == 12596 && c2 == 12616 {
        Some(12597u16)  // nieun + cieuc
    } else if c1 == 12596 && c2 == 12622 {
        Some(12598u16)  // nieun + hieuh
    } else if c1 == 12599 && c2 == 12599 {
        Some(12600u16)  // tikeut + tikeut
    } else if c1 == 12601 && c2 == 12593 {
        Some(12602u16)  // rieul + kiyeok
    } else if c1 == 12601 && c2 == 12609 {
        Some(12603u16)  // rieul + mieum
    } else if c1 == 12601 && c2 == 12610 {
        Some(12604u16)  // rieul + pieup
    } else if c1 == 12601 && c2 == 12613 {
        Some(12605u16)  // rieul + sios
    } else if c1 == 12601 && c2 == 12620 {
        Some(12606u16)  // rieul + thieuth
    } else if c1 == 12601 && c2 == 12621 {
        Some(12607u16)  // rieul + phieuph
    } else if c1 == 12601 && c2 == 12622 {
        Some(12608u16)  // rieul + hieuh
    } else if c1 == 12610 && c2 == 12610 {
        Some(12611u16)  // pieup + pieup
    } else if c1 == 12610 && c2 == 12613 {
        Some(12612u16)  // pieup + sios
    } else if c1 == 12613 && c2 == 12613 {
        Some(12614u16)  // sios + sios
    } else if c1 == 12616 && c2 == 12616 {
        Some(12617u16)  // cieuc + cieuc
    } else if c1 == 12631 && c2 == 12623 {
        Some(12632u16)  // o + a
    } else if c1 == 12631 && c2 == 12624 {
        Some(12633u16)  // o + ae
    } else if c1 == 12631 && c2 == 12643 {
        Some(12634u16)  // o + i
    } else if c1 == 12636 && c2 == 12627 {
        Some(12637u16)  // u + eo
    } else if c1 == 12636 && c2 == 12628 {
        Some(12638u16)  // u + e
    } else if c1 == 12636 && c2 == 12643 {
        Some(12639u16)  // u + i
    } else if c1 == 12641 && c2 == 12643 {
        Some(12642u16)  // eu + i
    } else {
        None
    }
}

/// The two base jamo that form the compound `c`: defined on exactly the 23
/// compounds; the inverse of `spec_assemble`.
pub open spec fn spec_disassemble(c: u16) -> Option<(u16, u16)> {
    if c == 12594 {
        Some((12593u16, 12593u16))
    } else if c == 12595 {
        Some((12593u16, 12613u16))
    } else if c == 12597 {
        Some((12596u16, 12616u16))
    } else if c == 12598 {
        Some((12596u16, 12622u16))
    } else if c == 12600 {
        Some((12599u16, 12599u16))
    } else if c == 12602 {
        Some((12601u16, 12593u16))
    } else if c == 12603 {
        Some((12601u16, 12609u16))
    } else if c == 12604 {
        Some((12601u16, 12610u16))
    } else if c == 12605 {
        Some((12601u16, 12613u16))
    } else if c == 12606 {
        Some((12601u16, 12620u16))
    } else if c == 12607 {
        Some((12601u16, 12621u16))
    } else if c == 12608 {
        Some((12601u16, 12622u16))
    } else if c == 12611 {
        Some((12610u16, 12610u16))
    } else if c == 12612 {
        Some((12610u16, 12613u16))
    } else if c == 12614 {
        Some((12613u16, 12613u16))
    } else if c == 12617 {
        Some((12616u16, 12616u16))
    } else if c == 12632 {
        Some((12631u16, 12623u16))
    } else if c == 12633 {
        Some((12631u16, 12624u16))
    } else if c == 12634 {
        Some((12631u16, 12643u16))
    } else if c == 12637 {
        Some((12636u16, 12627u16))
    } else if c == 12638 {
        Some((12636u16, 12628u16))
    } else if c == 12639 {
        Some((12636u16, 12643u16))
    } else if c == 12642 {
        Some((12641u16, 12643u16))
    } else {
        None
    }
}

/// Compound jamo formed by typing `c1` then `c2`, for the 23 legal pairs.
pub fn assemble(c1: u16, c2: u16) -> (r: Option<u16>)
    ensures
        r == spec_assemble(c1, c2),
{
    match (c1, c2) {
        (12593, 12593) => Some(12594),
        (12593, 12613) => Some(12595),
        (12596, 12616) => Some(12597),
        (12596, 12622) => Some(12598),
        (12599, 12599) => Some(12600),
        (12601, 12593) => Some(12602),
        (12601, 12609) => Some(12603),
        (12601, 12610) => Some(12604),
        (12601, 12613) => Some(12605),
        (12601, 12620) => Some(12606),
        (12601, 12621) => Some(12607),
        (12601, 12622) => Some(12608),
        (12610, 12610) => Some(12611),
        (12610, 12613) => Some(12612),
        (12613, 12613) => Some(12614),
        (12616, 12616) => Some(12617),
        (12631, 12623) => Some(12632),
        (12631, 12624) => Some(12633),
        (12631, 12643) => Some(12634),
        (12636, 12627) => Some(12637),
        (12636, 12628) => Some(12638),
        (12636, 12643) => Some(12639),
        (12641, 12643) => Some(12642),
        _ => None,
    }
}

/// The two base jamo of the compound `c`, for the 23 compounds.
pub fn disassemble(c: u16) -> (r: Option<(u16, u16)>)
    ensures
        r == spec_disassemble(c),
{
    match c {
        12594 => Some((12593, 12593)),
        12595 => Some((12593, 12613)),
        12597 => Some((12596, 12616)),
        12598 => Some((12596, 12622)),
        12600 => Some((12599, 12599)),
        12602 => Some((12601, 12593)),
        12603 => Some((12601, 12609)),
        12604 => Some((12601, 12610)),
        12605 => Some((12601, 12613)),
        12606 => Some((12601, 12620)),
        12607 => Some((12601, 12621)),
        12608 => Some((12601, 12622)),
        12611 => Some((12610, 12610)),
        12612 => Some((12610, 12613)),
        12614 => Some((12613, 12613)),
        12617 => Some((12616, 12616)),
        12632 => Some((12631, 12623)),
        12633 => Some((12631, 12624)),
        12634 => Some((12631, 12643)),
        12637 => Some((12636, 12627)),
        12638 => Some((12636, 12628)),
        12639 => Some((12636, 12643)),
        12642 => Some((12641, 12643)),
        _ => None,
    }
}

/// Law: disassembling any of the 23 compound jamo and reassembling the two
/// halves returns the compound.
pub proof fn lemma_disassemble_assemble(c: u16)
    requires
        spec_disassemble(c) is Some,
    ensures
        spec_assemble((spec_disassemble(c)->0).0, (spec_disassemble(c)->0).1) == Some(c),
{
}

/// Law: assembling any of the 23 legal base pairs and disassembling the
/// compound returns the pair.
pub proof fn lemma_assemble_disassemble(c1: u16, c2: u16)
    requires
        spec_assemble(c1, c2) is Some,
    ensures
        spec_disassemble(spec_assemble(c1, c2)->0) == Some((c1, c2)),
{
}

/// A consonant that is not a legal initial is one of the 11 clusters: it is
/// not tensed, and it splits into a legal final followed by a legal initial.
pub proof fn lemma_cluster_split(c: u16)
    requires
        spec_is_valid_consonant(c),
        !spec_is_valid_cho(c),
    ensures
        !spec_is_tensory(c),
        spec_disassemble(c) is Some,
        spec_is_valid_jong((spec_disassemble(c)->0).0),
        spec_is_valid_cho((spec_disassemble(c)->0).1),
{
}

/// Every consonant that is not tensed is a legal final.
pub proof fn lemma_non_tensory_is_jong(c: u16)
    requires
        spec_is_valid_consonant(c),
        !spec_is_tensory(c),
    ensures
        spec_is_valid_jong(c),
{
}

/// A non-tensed compound consonant splits into a legal final followed by a
/// legal initial.
pub proof fn lemma_compound_final_split(c: u16)
    requires
        spec_is_valid_consonant(c),
        !spec_is_tensory(c),
        spec_disassemble(c) is Some,
    ensures
        spec_is_valid_jong((spec_disassemble(c)->0).0),
        spec_is_valid_cho((spec_disassemble(c)->0).1),
{
}

/// One Hangul unit: a loose jamo (exactly one of the initial or medial slots
/// filled) or a composed syllable (initial, medial and optionally final).
#[derive(Copy, Clone, Debug, Eq, Hash, PartialEq, Structural)]
pub struct KorChar {
    cho: Option<u16>,
    joong: Option<u16>,
    jong: Option<u16>,
}

/// The initial slot of a composed syllable as `from_u16` fills it.
pub open spec fn spec_syl_cho(c: u16) -> u16 {
    spec_cho_of((c - 44032) / 588)
}

/// The medial slot of a composed syllable as `from_u16` fills it.
pub open spec fn spec_syl_joong(c: u16) -> u16 {
    spec_joong_of(((c - 44032) % 588) / 28)
}

/// The final slot of a composed syllable as `from_u16` fills it.
pub open spec fn spec_syl_jong(c: u16) -> Option<u16> {
    if ((c - 44032) % 588) % 28 == 0 {
        None
    } else {
        Some(spec_jong_of(((c - 44032) % 588) % 28 - 1))
    }
}

/// The slot triple that `from_u16` promises for the Hangul code unit `c`.
pub open spec fn spec_from_u16_fields(c: u16, k: KorChar) -> bool {
    if 12593 <= c && c <= 12622 {
        k.spec_cho() == Some(c) && k.spec_joong() is None && k.spec_jong() is None
    } else if 12623 <= c && c <= 12643 {
        k.spec_cho() is None && k.spec_joong() == Some(c) && k.spec_jong() is None
    } else {
        k.spec_cho() == Some(spec_syl_cho(c)) && k.spec_joong() == Some(spec_syl_joong(c))
            && k.spec_jong() == spec_syl_jong(c)
    }
}

/// When is a triple accepted by `combine`: a fully valid syllable, a lone
/// initial-shaped consonant, or a lone medial.
pub open spec fn spec_combine_valid(
    cho: Option<u16>,
    joong: Option<u16>,
    jong: Option<u16>,
) -> bool {
    ||| spec_combine_full(cho, joong, jong)
    ||| spec_combine_lone_cho(cho, joong, jong)
    ||| spec_combine_lone_joong(cho, joong, jong)
}

/// A fully valid syllable triple.
pub open spec fn spec_combine_full(
    cho: Option<u16>,
    joong: Option<u16>,
    jong: Option<u16>,
) -> bool {
    &&& cho matches Some(c) && spec_is_valid_cho(c)
    &&& joong matches Some(j) && spec_is_valid_joong(j)
    &&& jong matches Some(f) ==> spec_is_valid_jong(f)
}

/// A lone consonant shaped like an initial or a final, with the other slots
/// absent.
pub open spec fn spec_combine_lone_cho(
    cho: Option<u16>,
    joong: Option<u16>,
    jong: Option<u16>,
) -> bool {
    &&& cho matches Some(c) && (spec_is_valid_cho(c) || spec_is_valid_jong(c))
    &&& joong is None
    &&& jong is None
}

/// A lone valid medial, with the other slots absent.
pub open spec fn spec_combine_lone_joong(
    cho: Option<u16>,
    joong: Option<u16>,
    jong: Option<u16>,
) -> bool {
    &&& joong matches Some(j) && spec_is_valid_joong(j)
    &&& cho is None
    &&& jong is None
}

/// The diagnosis for a rejected triple, in priority order: an invalid slot
/// (initial, then medial, then final), else a missing initial, else a
/// missing medial.
pub open spec fn spec_combine_err(
    cho: Option<u16>,
    joong: Option<u16>,
    jong: Option<u16>,
) -> KorError {
    if cho is Some && !spec_is_valid_cho(cho->0) {
        KorError::InvalidCho(cho->0)
    } else if joong is Some && !spec_is_valid_joong(joong->0) {
        KorError::InvalidJoong(joong->0)
    } else if jong is Some && !spec_is_valid_jong(jong->0) {
        KorError::InvalidJong(jong->0)
    } else if cho is None {
        KorError::MissingCho
    } else {
        KorError::MissingJoong
    }
}

impl KorChar {
    /// Every slot ever stored is a jamo of the right class; this is what
    /// makes `to_u16` always land on a valid character.
    #[verifier::type_invariant]
    spec fn wf(self) -> bool {
        &&& self.cho matches Some(c) ==> spec_is_valid_consonant(c)
        &&& self.joong matches Some(j) ==> spec_is_valid_joong(j)
        &&& self.jong matches Some(f) ==> spec_is_valid_jong(f)
    }

    /// The initial slot.
    pub closed spec fn spec_cho(self) -> Option<u16> {
        self.cho
    }

    /// The medial slot.
    pub closed spec fn spec_joong(self) -> Option<u16> {
        self.joong
    }

    /// The final slot.
    pub closed spec fn spec_jong(self) -> Option<u16> {
        self.jong
    }

    /// A fully valid composed syllable: valid initial and medial, and a
    /// valid final if one is present.
    pub open spec fn spec_is_valid(self) -> bool {
        &&& self.spec_cho() matches Some(c) && spec_is_valid_cho(c)
        &&& self.spec_joong() matches Some(j) && spec_is_valid_joong(j)
        &&& (self.spec_jong() matches Some(f) ==> spec_is_valid_jong(f))
    }

    /// The code of the final slot in the arithmetic encoding: 0 for no
    /// final, otherwise the final's ordinal plus one.
    pub open spec fn spec_jong_code(jong: Option<u16>) -> int {
        match jong {
            None => 0,
            Some(f) => spec_jong_index(f) + 1,
        }
    }

    /// The code unit this unit displays as: the stored jamo for a loose
    /// form, the arithmetic encoding for a fully valid syllable, and the
    /// replacement sentinel `?` for any other combination.
    pub open spec fn spec_to_u16(self) -> u16 {
        match (self.spec_cho(), self.spec_joong()) {
            (Some(c), None) => c,
            (None, None) => match self.spec_jong() {
                Some(f) => f,
                None => 63,
            },
            (None, Some(j)) => j,
            (Some(c), Some(j)) => if self.spec_is_valid() {
                (44032 + spec_cho_index(c) * 588 + spec_joong_index(j) * 28 + Self::spec_jong_code(
                    self.spec_jong(),
                )) as u16
            } else {
                63
            },
        }
    }

    /// Classify a code unit: a consonant jamo becomes a lone initial, a
    /// vowel jamo a lone medial, a composed-syllable unit is decomposed
    /// arithmetically, and anything else is rejected.
    pub fn from_u16(c: u16) -> (r: Result<KorChar, KorError>)
        ensures
            spec_is_hangul(c) ==> (r matches Ok(k) && spec_from_u16_fields(c, k)),
            !spec_is_hangul(c) ==> (r matches Err(e) && e == KorError::InvalidHangul(c)),
    {
        if c <= 12643 {
            if c >= 12593 {
                if c < 12623 {
                    Ok(KorChar { cho: Some(c), joong: None, jong: None })
                } else {
                    Ok(KorChar { cho: None, joong: Some(c), jong: None })
                }
            } else {
                Err(KorError::InvalidHangul(c))
            }
        } else if 44032 <= c && c <= 55203 {
            let off = c - 44032;
            let cho_i = off / 588;
            let joong_i = (off % 588) / 28;
            let jong_i = (off % 588) % 28;
            proof {
                lemma_cho_table_bijective();
                lemma_joong_table_bijective();
                lemma_jong_table_bijective();
            }
            let cho_v = cho_at(cho_i);
            let joong_v = joong_at(joong_i);
            let jong_v = if jong_i == 0 {
                None
            } else {
                Some(jong_at(jong_i - 1))
            };
            let r = KorChar::combine(Some(cho_v), Some(joong_v), jong_v);
            Ok(r.unwrap())
        } else {
            Err(KorError::InvalidHangul(c))
        }
    }

    /// Encode this unit back to a code unit; always below the surrogate
    /// range.
    pub fn to_u16(&self) -> (r: u16)
        ensures
            r == self.spec_to_u16(),
            r < 0xD800,
    {
        proof {
            use_type_invariant(&*self);
            lemma_cho_table_bijective();
            lemma_joong_table_bijective();
            lemma_jong_table_bijective();
        }
        if self.joong.is_none() {
            if self.cho.is_some() {
                self.cho.unwrap()
            } else if self.jong.is_some() {
                self.jong.unwrap()
            } else {
                63
            }
        } else if self.cho.is_none() {
            self.joong.unwrap()
        } else if self.is_valid() {
            44032 + rev_ind_cho(self.cho.unwrap()) * 588 + rev_ind_joong(self.joong.unwrap()) * 28
                + rev_ind_jong(self.jong)
        } else {
            63
        }
    }

    /// Whether the final slot is filled.
    pub fn has_jong(&self) -> (r: bool)
        ensures
            r == (self.spec_jong() is Some),
    {
        self.jong.is_some()
    }

    /// Whether this unit is a fully valid composed syllable (a lone jamo is
    /// not).
    pub fn is_valid(&self) -> (r: bool)
        ensures
            r == self.spec_is_valid(),
    {
        match (self.cho, self.joong) {
            (Some(c), Some(j)) => is_valid_cho(c) && is_valid_joong(j) && (match self.jong {
                None => true,
                Some(f) => is_valid_jong(f),
            }),
            _ => false,
        }
    }

    /// Build a unit from the slot triple, accepting a fully valid syllable,
    /// a lone initial-shaped consonant, or a lone medial; otherwise the
    /// diagnosis of `spec_combine_err`.
    pub fn combine(cho: Option<u16>, joong: Option<u16>, jong: Option<u16>) -> (r: Result<
        KorChar,
        KorError,
    >)
        ensures
            spec_combine_valid(cho, joong, jong) ==> (r matches Ok(k) && k.spec_cho() == cho
                && k.spec_joong() == joong && k.spec_jong() == jong),
            !spec_combine_valid(cho, joong, jong) ==> (r matches Err(e) && e
                == spec_combine_err(cho, joong, jong)),
    {
        let ok = match (cho, joong) {
            (Some(c), Some(j)) => is_valid_cho(c) && is_valid_joong(j) && (match jong {
                None => true,
                Some(f) => is_valid_jong(f),
            }),
            (Some(c), None) => (is_valid_cho(c) || is_valid_jong(c)) && jong.is_none(),
            (None, Some(j)) => is_valid_joong(j) && jong.is_none(),
            (None, None) => false,
        };
        if ok {
            Ok(KorChar { cho, joong, jong })
        } else {
            Err(Self::find_error(cho, joong, jong))
        }
    }

    /// The diagnosis for a triple that `combine` rejects.
    fn find_error(cho: Option<u16>, joong: Option<u16>, jong: Option<u16>) -> (r: KorError)
        ensures
            r == spec_combine_err(cho, joong, jong),
    {
        match cho {
            Some(c) if !is_valid_cho(c) => {
                return KorError::InvalidCho(c);
            },
            _ => {},
        }
        match joong {
            Some(j) if !is_valid_joong(j) => {
                return KorError::InvalidJoong(j);
            },
            _ => {},
        }
        match jong {
            Some(f) if !is_valid_jong(f) => {
                return KorError::InvalidJong(f);
            },
            _ => {},
        }
        if cho.is_none() {
            KorError::MissingCho
        } else {
            KorError::MissingJoong
        }
    }

    /// A copy with the initial slot set to `c`, if `c` is a legal initial.
    pub fn set_cho(&self, c: u16) -> (r: Result<Self, KorError>)
        ensures
            spec_is_valid_cho(c) ==> (r matches Ok(k) && k.spec_cho() == Some(c)
                && k.spec_joong() == self.spec_joong() && k.spec_jong() == self.spec_jong()),
            !spec_is_valid_cho(c) ==> (r matches Err(e) && e == KorError::InvalidCho(c)),
    {
        proof {
            use_type_invariant(&*self);
        }
        if is_valid_cho(c) {
            Ok(KorChar { cho: Some(c), joong: self.joong, jong: self.jong })
        } else {
            Err(KorError::InvalidCho(c))
        }
    }

    /// A copy with the medial slot set to `c`, if `c` is a legal medial.
    pub fn set_joong(&self, c: u16) -> (r: Result<Self, KorError>)
        ensures
            spec_is_valid_joong(c) ==> (r matches Ok(k) && k.spec_cho() == self.spec_cho()
                && k.spec_joong() == Some(c) && k.spec_jong() == self.spec_jong()),
            !spec_is_valid_joong(c) ==> (r matches Err(e) && e == KorError::InvalidJoong(c)),
    {
        proof {
            use_type_invariant(&*self);
        }
        if is_valid_joong(c) {
            Ok(KorChar { cho: self.cho, joong: Some(c), jong: self.jong })
        } else {
            Err(KorError::InvalidJoong(c))
        }
    }

    /// A copy with the final slot set to `c`; clearing the final always
    /// succeeds, a new final must be a legal final.
    pub fn set_jong(&self, c: Option<u16>) -> (r: Result<Self, KorError>)
        ensures
            (c matches Some(f) ==> spec_is_valid_jong(f)) ==> (r matches Ok(k) && k.spec_cho()
                == self.spec_cho() && k.spec_joong() == self.spec_joong() && k.spec_jong() == c),
            (c matches Some(f) && !spec_is_valid_jong(f)) ==> (r matches Err(e) && e == KorError::InvalidJong(c->0)),
    {
        proof {
            use_type_invariant(&*self);
        }
        let ok = match c {
            None => true,
            Some(f) => is_valid_jong(f),
        };
        if ok {
            Ok(KorChar { cho: self.cho, joong: self.joong, jong: c })
        } else {
            Err(KorError::InvalidJong(c.unwrap()))
        }
    }

    /// The slot triple (initial, medial, final).
    pub fn disassemble(&self) -> (r: (Option<u16>, Option<u16>, Option<u16>))
        ensures
            r == (self.spec_cho(), self.spec_joong(), self.spec_jong()),
    {
        (self.cho, self.joong, self.jong)
    }

    /// Classify a character, read as a 16-bit code unit (truncating, as the
    /// keystroke stream itself is 16-bit).
    pub fn from_char(c: char) -> (r: Result<KorChar, KorError>)
        ensures
            ({
                let u = (char_val(c) % 0x10000) as u16;
                &&& spec_is_hangul(u) ==> (r matches Ok(k) && spec_from_u16_fields(u, k))
                &&& !spec_is_hangul(u) ==> (r matches Err(e) && e == KorError::InvalidHangul(u))
            }),
    {
        let v: u32 = c as u32;
        KorChar::from_u16((v % 0x10000) as u16)
    }

    /// Parse a keystroke sequence that types exactly one Hangul unit; a
    /// sequence that decodes to more than one character is rejected.
    pub fn from_qwerty(qwerty: &Vec<u16>) -> (r: Result<KorChar, KorError>)
        ensures
            ({
                let kor = crate::qwerty::spec_qwerty_to_kor(qwerty@);
                &&& (kor.len() == 1 && spec_is_hangul(kor[0])) ==> (r matches Ok(k)
                    && spec_from_u16_fields(kor[0], k))
                &&& (kor.len() == 1 && !spec_is_hangul(kor[0])) ==> (r matches Err(e) && e
                    == KorError::InvalidHangul(kor[0]))
                &&& kor.len() != 1 ==> (r matches Err(e) && e matches KorError::TooManyChars(v)
                    && v@ == kor)
            }),
    {
        let kor = crate::qwerty::qwerty_to_kor(qwerty);
        if kor.len() == 1 {
            KorChar::from_u16(kor[0])
        } else {
            Err(KorError::TooManyChars(kor))
        }
    }

    /// The keystroke sequence that types this unit.
    pub fn to_qwerty(&self) -> (r: Vec<u16>)
        ensures
            r@ == crate::qwerty::spec_unit_keys(self.spec_to_u16()),
    {
        let u = self.to_u16();
        let mut v: Vec<u16> = Vec::new();
        v.push(u);
        let r = crate::qwerty::kor_to_qwerty(&v);
        proof {
            assert(v@.drop_first() =~= Seq::<u16>::empty());
            assert(crate::qwerty::spec_kor_to_qwerty(Seq::<u16>::empty()) =~= Seq::<u16>::empty());
            assert(r@ =~= crate::qwerty::spec_unit_keys(self.spec_to_u16()));
        }
        r
    }

    /// The character this unit displays as.
    pub fn to_char(&self) -> (r: char)
        ensures
            char_val(r) == self.spec_to_u16() as u32,
    {
        let u = self.to_u16();
        char_from_u32(u as u32).unwrap()
    }
}

/// Relies on char::from_u32: it returns the character with the given scalar
/// value, and None exactly on surrogate values and values beyond the last
/// code point.
#[verifier::external_body]
fn char_from_u32(c: u32) -> (r: Option<char>)
    ensures
        r matches Some(ch) ==> char_val(ch) == c,
        (c < 0xD800 || (0xE000 <= c && c <= 0x10FFFF)) <==> r is Some,
{
    char::from_u32(c)
}

/// The slots that `from_u16` computes for a composed-syllable code unit are
/// valid for their slot class.
pub proof fn lemma_syl_parts_classes(c: u16)
    requires
        44032 <= c <= 55203,
    ensures
        spec_is_valid_cho(spec_syl_cho(c)),
        spec_is_valid_joong(spec_syl_joong(c)),
        spec_syl_jong(c) matches Some(f) ==> spec_is_valid_jong(f),
{
    lemma_cho_table_bijective();
    lemma_joong_table_bijective();
    lemma_jong_table_bijective();
    let off = (c - 44032) as int;
    let ci = off / 588;
    let rem = off % 588;
    let ji = rem / 28;
    let fi = rem % 28;
    assert(0 <= ci < 19 && 0 <= rem < 588 && 0 <= ji < 21 && 0 <= fi < 28) by (nonlinear_arith)
        requires
            0 <= off <= 11171,
            ci == off / 588,
            rem == off % 588,
            ji == rem / 28,
            fi == rem % 28,
    ;
}

/// Law: decomposing a composed-syllable code unit as `from_u16` does and
/// re-encoding the triple as `to_u16` does returns the original code unit.
pub proof fn lemma_syllable_round_trip(s: u16)
    requires
        44032 <= s <= 55203,
    ensures
        forall|k: KorChar| #[trigger] spec_from_u16_fields(s, k) ==> k.spec_to_u16() == s,
{
    lemma_cho_table_bijective();
    lemma_joong_table_bijective();
    lemma_jong_table_bijective();
    let off = (s - 44032) as int;
    let ci = off / 588;
    let rem = off % 588;
    let ji = rem / 28;
    let fi = rem % 28;
    vstd::arithmetic::div_mod::lemma_fundamental_div_mod(off, 588);
    vstd::arithmetic::div_mod::lemma_fundamental_div_mod(rem, 28);
    assert(0 <= ci < 19 && 0 <= rem < 588 && 0 <= ji < 21 && 0 <= fi < 28) by (nonlinear_arith)
        requires
            0 <= off <= 11171,
            ci == off / 588,
            rem == off % 588,
            ji == rem / 28,
            fi == rem % 28,
    ;
    assert forall|k: KorChar| #[trigger] spec_from_u16_fields(s, k) implies k.spec_to_u16()
        == s by {
        assert(k.spec_is_valid());
        assert(spec_cho_index(spec_cho_of(ci)) == ci);
        assert(spec_joong_index(spec_joong_of(ji)) == ji);
        if fi != 0 {
            assert(spec_jong_index(spec_jong_of(fi - 1)) == fi - 1);
        }
        assert(44032 + ci * 588 + ji * 28 + fi == s);
    }
}

/// Law: `from_u16` accepts exactly the Hangul code units (loose jamo or
/// composed syllable), and every accepted unit re-encodes to itself.
pub proof fn lemma_hangul_round_trip(u: u16)
    requires
        spec_is_hangul(u),
    ensures
        forall|k: KorChar| #[trigger] spec_from_u16_fields(u, k) ==> k.spec_to_u16() == u,
{
    if 44032 <= u && u <= 55203 {
        lemma_syllable_round_trip(u);
    }
}

} // verus!
