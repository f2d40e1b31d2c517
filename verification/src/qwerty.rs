//! The streaming converter between two-set keyboard keystrokes and Hangul:
//! a single-pass four-state parser (`qwerty_to_kor`) and its inverse
//! serializer (`kor_to_qwerty`).
//!
//! The parser consumes one keystroke at a time, plus one synthetic trailing
//! boundary (a space) that flushes pending state and is then discarded from
//! the output. Its behaviour is pinned by `spec_step`, the transition
//! function of the state machine, folded over the input by `spec_run`.

use crate::kor_char::{
    disassemble, lemma_cluster_split, lemma_compound_final_split, lemma_non_tensory_is_jong,
    spec_assemble, spec_disassemble, KorChar,
};
use crate::kor_char::{spec_syl_cho, spec_syl_jong, spec_syl_joong};
use crate::tables::{spec_cho_index, spec_jong_index, spec_joong_index};
use crate::utils::{
    is_non_jamo, is_tensory, is_valid_consonant, is_valid_vowel, spec_is_jamo, spec_is_non_jamo,
    spec_is_tensory, spec_is_valid_cho, spec_is_valid_consonant, spec_is_valid_jong,
    spec_is_valid_joong, spec_is_valid_vowel,
};
use vstd::prelude::*;

verus! {

/// The jamo a keystroke code maps to; an unmapped code passes through
/// unchanged.
pub open spec fn spec_key_to_jamo(q: u16) -> u16 {
    if q == 113 || q == 81 {
        if q == 113 {
            12610  // q: pieup
        } else {
            12611  // Q: ssang-pieup
        }
    } else if q == 119 || q == 87 {
        if q == 119 {
            12616  // w: cieuc
        } else {
            12617  // W: ssang-cieuc
        }
    } else if q == 101 || q == 69 {
        if q == 101 {
            12599  // e: tikeut
        } else {
            12600  // E: ssang-tikeut
        }
    } else if q == 114 || q == 82 {
        if q == 114 {
            12593  // r: kiyeok
        } else {
            12594  // R: ssang-kiyeok
        }
    } else if q == 116 || q == 84 {
        if q == 116 {
            12613  // t: sios
        } else {
            12614  // T: ssang-sios
        }
    } else if q == 111 || q == 79 {
        if q == 111 {
            12624  // o: ae
        } else {
            12626  // O: yae
        }
    } else if q == 112 || q == 80 {
        if q == 112 {
            12628  // p: e
        } else {
            12630  // P: ye
        }
    } else if q == 121 || q == 89 {
        12635  // y, Y: yo
    } else if q == 117 || q == 85 {
        12629  // u, U: yeo
    } else if q == 105 || q == 73 {
        12625  // i, I: ya
    } else if q == 97 || q == 65 {
        12609  // a, A: mieum
    } else if q == 115 || q == 83 {
        12596  // s, S: nieun
    } else if q == 100 || q == 68 {
        12615  // d, D: ieung
    } else if q == 102 || q == 70 {
        12601  // f, F: rieul
    } else if q == 103 || q == 71 {
        12622  // g, G: hieuh
    } else if q == 104 || q == 72 {
        12631  // h, H: o
    } else if q == 106 || q == 74 {
        12627  // j, J: eo
    } else if q == 107 || q == 75 {
        12623  // k, K: a
    } else if q == 108 || q == 76 {
        12643  // l, L: i
    } else if q == 122 || q == 90 {
        12619  // z, Z: khieukh
    } else if q == 120 || q == 88 {
        12620  // x, X: thieuth
    } else if q == 99 || q == 67 {
        12618  // c, C: chieuch
    } else if q == 118 || q == 86 {
        12621  // v, V: phieuph
    } else if q == 98 || q == 66 {
        12640  // b, B: yu
    } else if q == 110 || q == 78 {
        12636  // n, N: u
    } else if q == 109 || q == 77 {
        12641  // m, M: eu
    } else {
        q
    }
}

/// The keystroke a jamo serializes to. Where a plain and a shifted key share
/// one jamo, the lowercase key is kept; a tensed or shifted-only jamo keeps
/// its own distinct key.
pub open spec fn spec_jamo_to_key(k: u16) -> Option<u16> {
    if k == 12610 {
        Some(113u16)  // pieup: q
    } else if k == 12611 {
        Some(81u16)  // ssang-pieup: Q
    } else if k == 12616 {
        Some(119u16)  // cieuc: w
    } else if k == 12617 {
        Some(87u16)  // ssang-cieuc: W
    } else if k == 12599 {
        Some(101u16)  // tikeut: e
    } else if k == 12600 {
        Some(69u16)  // ssang-tikeut: E
    } else if k == 12593 {
        Some(114u16)  // kiyeok: r
    } else if k == 12594 {
        Some(82u16)  // ssang-kiyeok: R
    } else if k == 12613 {
        Some(116u16)  // sios: t
    } else if k == 12614 {
        Some(84u16)  // ssang-sios: T
    } else if k == 12635 {
        Some(121u16)  // yo: y
    } else if k == 12629 {
        Some(117u16)  // yeo: u
    } else if k == 12625 {
        Some(105u16)  // ya: i
    } else if k == 12624 {
        Some(111u16)  // ae: o
    } else if k == 12626 {
        Some(79u16)  // yae: O
    } else if k == 12628 {
        Some(112u16)  // e: p
    } else if k == 12630 {
        Some(80u16)  // ye: P
    } else if k == 12609 {
        Some(97u16)  // mieum: a
    } else if k == 12596 {
        Some(115u16)  // nieun: s
    } else if k == 12615 {
        Some(100u16)  // ieung: d
    } else if k == 12601 {
        Some(102u16)  // rieul: f
    } else if k == 12622 {
        Some(103u16)  // hieuh: g
    } else if k == 12631 {
        Some(104u16)  // o: h
    } else if k == 12627 {
        Some(106u16)  // eo: j
    } else if k == 12623 {
        Some(107u16)  // a: k
    } else if k == 12643 {
        Some(108u16)  // i: l
    } else if k == 12619 {
        Some(122u16)  // khieukh: z
    } else if k == 12620 {
        Some(120u16)  // thieuth: x
    } else if k == 12618 {
        Some(99u16)  // chieuch: c
    } else if k == 12621 {
        Some(118u16)  // phieuph: v
    } else if k == 12640 {
        Some(98u16)  // yu: b
    } else if k == 12636 {
        Some(110u16)  // u: n
    } else if k == 12641 {
        Some(109u16)  // eu: m
    } else {
        None
    }
}

/// Keystroke-to-jamo lookup; an unmapped keystroke passes through unchanged.
pub fn qwerty_key_to_kor(q: u16) -> (r: u16)
    ensures
        r == spec_key_to_jamo(q),
{
    match q {
        113 => 12610,
        81 => 12611,
        119 => 12616,
        87 => 12617,
        101 => 12599,
        69 => 12600,
        114 => 12593,
        82 => 12594,
        116 => 12613,
        84 => 12614,
        121 => 12635,
        89 => 12635,
        117 => 12629,
        85 => 12629,
        105 => 12625,
        73 => 12625,
        111 => 12624,
        79 => 12626,
        112 => 12628,
        80 => 12630,
        97 => 12609,
        65 => 12609,
        115 => 12596,
        83 => 12596,
        100 => 12615,
        68 => 12615,
        102 => 12601,
        70 => 12601,
        103 => 12622,
        71 => 12622,
        104 => 12631,
        72 => 12631,
        106 => 12627,
        74 => 12627,
        107 => 12623,
        75 => 12623,
        108 => 12643,
        76 => 12643,
        122 => 12619,
        90 => 12619,
        120 => 12620,
        88 => 12620,
        99 => 12618,
        67 => 12618,
        118 => 12621,
        86 => 12621,
        98 => 12640,
        66 => 12640,
        110 => 12636,
        78 => 12636,
        109 => 12641,
        77 => 12641,
        _ => q,
    }
}

/// Jamo-to-keystroke lookup; defined on the 33 keyboard jamo.
pub fn kor_key_to_qwerty(k: u16) -> (r: Option<u16>)
    ensures
        r == spec_jamo_to_key(k),
{
    match k {
        12610 => Some(113),
        12611 => Some(81),
        12616 => Some(119),
        12617 => Some(87),
        12599 => Some(101),
        12600 => Some(69),
        12593 => Some(114),
        12594 => Some(82),
        12613 => Some(116),
        12614 => Some(84),
        12635 => Some(121),
        12629 => Some(117),
        12625 => Some(105),
        12624 => Some(111),
        12626 => Some(79),
        12628 => Some(112),
        12630 => Some(80),
        12609 => Some(97),
        12596 => Some(115),
        12615 => Some(100),
        12601 => Some(102),
        12622 => Some(103),
        12631 => Some(104),
        12627 => Some(106),
        12623 => Some(107),
        12643 => Some(108),
        12619 => Some(122),
        12620 => Some(120),
        12618 => Some(99),
        12621 => Some(118),
        12640 => Some(98),
        12636 => Some(110),
        12641 => Some(109),
        _ => None,
    }
}

/// The parser's state: nothing pending, a pending initial, a pending
/// initial + medial, or a pending initial + medial + tentative final.
#[derive(Clone, Copy, Debug)]
pub enum ParseState {
    Empty,
    Cho(u16),
    Joong(u16, u16),
    Jong(u16, u16, u16),
}

/// Every consonant held by a state is a consonant jamo and every medial a
/// vowel jamo; the step function preserves this.
pub open spec fn spec_state_wf(st: ParseState) -> bool {
    match st {
        ParseState::Empty => true,
        ParseState::Cho(c) => spec_is_valid_consonant(c),
        ParseState::Joong(c, j) => spec_is_valid_consonant(c) && spec_is_valid_joong(j),
        ParseState::Jong(c, j, f) => spec_is_valid_consonant(c) && spec_is_valid_joong(j)
            && spec_is_valid_consonant(f),
    }
}

/// The arithmetic code unit of the open syllable (initial, medial).
pub open spec fn spec_encode_cj(c: u16, j: u16) -> u16 {
    (44032 + spec_cho_index(c) * 588 + spec_joong_index(j) * 28) as u16
}

/// The arithmetic code unit of the closed syllable (initial, medial, final).
pub open spec fn spec_encode_cjf(c: u16, j: u16, f: u16) -> u16 {
    (44032 + spec_cho_index(c) * 588 + spec_joong_index(j) * 28 + spec_jong_index(f) + 1) as u16
}

/// Emit a pending (initial, medial) pair: the composed syllable when the
/// initial is a legal initial, otherwise the two jamo separately.
pub open spec fn spec_emit_open(c: u16, j: u16, out: Seq<u16>) -> Seq<u16> {
    if spec_is_valid_cho(c) && spec_is_valid_joong(j) {
        out.push(spec_encode_cj(c, j))
    } else {
        out.push(c).push(j)
    }
}

/// Emit a pending (initial, medial) pair where a cluster initial splits: its
/// first half is emitted alone and its second half opens the syllable.
pub open spec fn spec_emit_open_split(c: u16, j: u16, out: Seq<u16>) -> Seq<u16> {
    if spec_is_valid_cho(c) && spec_is_valid_joong(j) {
        out.push(spec_encode_cj(c, j))
    } else {
        let p = spec_disassemble(c)->0;
        out.push(p.0).push(spec_encode_cj(p.1, j))
    }
}

/// Emit a pending (initial, medial, final) triple before a non-merging
/// consonant: the closed syllable, else the open syllable plus the loose
/// final, else all three jamo separately.
pub open spec fn spec_emit_closed(c: u16, j: u16, f: u16, out: Seq<u16>) -> Seq<u16> {
    if spec_is_valid_cho(c) && spec_is_valid_joong(j) && spec_is_valid_jong(f) {
        out.push(spec_encode_cjf(c, j, f))
    } else if spec_is_valid_cho(c) && spec_is_valid_joong(j) {
        out.push(spec_encode_cj(c, j)).push(f)
    } else {
        out.push(c).push(j).push(f)
    }
}

/// Emit the closing syllable when a compound final splits before a vowel:
/// the syllable keeps `f1` as its final; a cluster initial splits as in
/// `spec_emit_open_split`.
pub open spec fn spec_emit_with_final_split(c: u16, j: u16, f1: u16, out: Seq<u16>) -> Seq<u16> {
    if spec_is_valid_cho(c) && spec_is_valid_joong(j) && spec_is_valid_jong(f1) {
        out.push(spec_encode_cjf(c, j, f1))
    } else {
        let p = spec_disassemble(c)->0;
        out.push(p.0).push(spec_encode_cjf(p.1, j, f1))
    }
}

/// Emit a pending (initial, medial, final) triple before a boundary: the
/// closed syllable; for a tensed final, the open syllable plus the loose
/// final; a cluster initial splits.
pub open spec fn spec_emit_final_other(c: u16, j: u16, f: u16, out: Seq<u16>) -> Seq<u16> {
    if spec_is_valid_cho(c) && spec_is_valid_joong(j) && spec_is_valid_jong(f) {
        out.push(spec_encode_cjf(c, j, f))
    } else if spec_is_tensory(f) {
        if spec_is_valid_cho(c) && spec_is_valid_joong(j) {
            out.push(spec_encode_cj(c, j)).push(f)
        } else {
            let p = spec_disassemble(c)->0;
            out.push(p.0).push(spec_encode_cj(p.1, j)).push(f)
        }
    } else {
        let p = spec_disassemble(c)->0;
        out.push(p.0).push(spec_encode_cjf(p.1, j, f))
    }
}

/// One transition of the parser: maps the keystroke through the table, then
/// follows the state machine, returning the next state and the new output.
pub open spec fn spec_step(st: ParseState, out: Seq<u16>, q: u16) -> (ParseState, Seq<u16>) {
    let x = spec_key_to_jamo(q);
    match st {
        ParseState::Empty => {
            if spec_is_valid_consonant(x) {
                (ParseState::Cho(x), out)
            } else if spec_is_valid_vowel(x) && out.len() > 0 && spec_is_valid_vowel(out.last()) {
                match spec_assemble(out.last(), x) {
                    Some(v) => (ParseState::Empty, out.drop_last().push(v)),
                    None => (ParseState::Empty, out.push(x)),
                }
            } else {
                (ParseState::Empty, out.push(x))
            }
        },
        ParseState::Cho(c) => {
            if spec_is_valid_consonant(x) {
                match spec_assemble(c, x) {
                    Some(n) => if !spec_is_tensory(n) {
                        (ParseState::Cho(n), out)
                    } else {
                        (ParseState::Cho(x), out.push(c))
                    },
                    None => (ParseState::Cho(x), out.push(c)),
                }
            } else if spec_is_valid_vowel(x) {
                (ParseState::Joong(c, x), out)
            } else {
                (ParseState::Empty, out.push(c).push(x))
            }
        },
        ParseState::Joong(c, j) => {
            if spec_is_valid_consonant(x) {
                (ParseState::Jong(c, j, x), out)
            } else if spec_is_valid_vowel(x) {
                match spec_assemble(j, x) {
                    Some(nv) => (ParseState::Joong(c, nv), out),
                    None => (ParseState::Empty, spec_emit_open(c, j, out).push(x)),
                }
            } else {
                (ParseState::Empty, spec_emit_open_split(c, j, out).push(x))
            }
        },
        ParseState::Jong(c, j, f) => {
            if spec_is_valid_consonant(x) {
                match spec_assemble(f, x) {
                    Some(n) => if !spec_is_tensory(n) {
                        (ParseState::Jong(c, j, n), out)
                    } else {
                        (ParseState::Cho(x), spec_emit_closed(c, j, f, out))
                    },
                    None => (ParseState::Cho(x), spec_emit_closed(c, j, f, out)),
                }
            } else if spec_is_valid_vowel(x) {
                if spec_disassemble(f) is Some && !spec_is_tensory(f) {
                    let p = spec_disassemble(f)->0;
                    (ParseState::Joong(p.1, x), spec_emit_with_final_split(c, j, p.0, out))
                } else {
                    (ParseState::Joong(f, x), spec_emit_open_split(c, j, out))
                }
            } else {
                (ParseState::Empty, spec_emit_final_other(c, j, f, out).push(x))
            }
        },
    }
}

/// `spec_step` folded over a whole input.
pub open spec fn spec_run(st: ParseState, out: Seq<u16>, input: Seq<u16>) -> (ParseState, Seq<u16>)
    decreases input.len(),
{
    if input.len() == 0 {
        (st, out)
    } else {
        let n = spec_step(st, out, input[0]);
        spec_run(n.0, n.1, input.drop_first())
    }
}

/// What the parser returns: the run over the input plus the synthetic
/// trailing boundary, with that boundary dropped from the output.
pub open spec fn spec_qwerty_to_kor(input: Seq<u16>) -> Seq<u16> {
    spec_run(ParseState::Empty, Seq::empty(), input.push(32)).1.drop_last()
}

proof fn lemma_run_snoc(st: ParseState, out: Seq<u16>, input: Seq<u16>, q: u16)
    ensures
        spec_run(st, out, input.push(q)) == spec_step(
            spec_run(st, out, input).0,
            spec_run(st, out, input).1,
            q,
        ),
    decreases input.len(),
{
    if input.len() == 0 {
        assert(input.push(q)[0] == q);
        assert(input.push(q).drop_first() =~= input);
        let n = spec_step(st, out, q);
        assert(spec_run(st, out, input.push(q)) == spec_run(n.0, n.1, input));
        assert(spec_run(n.0, n.1, input) == (n.0, n.1));
        assert(spec_run(st, out, input) == (st, out));
    } else {
        assert(input.push(q)[0] == input[0]);
        assert(input.push(q).drop_first() =~= input.drop_first().push(q));
        let n = spec_step(st, out, input[0]);
        assert(spec_run(st, out, input.push(q)) == spec_run(n.0, n.1, input.drop_first().push(q)));
        assert(spec_run(st, out, input) == spec_run(n.0, n.1, input.drop_first()));
        lemma_run_snoc(n.0, n.1, input.drop_first(), q);
    }
}

/// Emit a pending (initial, medial) pair before a non-merging vowel: the
/// composed syllable, else the two jamo raw.
fn emit_open(out: &mut Vec<u16>, c: u16, j: u16)
    requires
        spec_is_valid_consonant(c),
        spec_is_valid_joong(j),
    ensures
        final(out)@ == spec_emit_open(c, j, old(out)@),
{
    match KorChar::combine(Some(c), Some(j), None) {
        Ok(h) => {
            out.push(h.to_u16());
        },
        Err(_) => {
            out.push(c);
            out.push(j);
        },
    }
}

/// Emit a pending (initial, medial) pair before a boundary or under a
/// migrating final: the composed syllable, else split the cluster initial.
fn emit_open_split(out: &mut Vec<u16>, c: u16, j: u16)
    requires
        spec_is_valid_consonant(c),
        spec_is_valid_joong(j),
    ensures
        final(out)@ == spec_emit_open_split(c, j, old(out)@),
{
    match KorChar::combine(Some(c), Some(j), None) {
        Ok(h) => {
            out.push(h.to_u16());
        },
        Err(_) => {
            proof {
                lemma_cluster_split(c);
            }
            let p = disassemble(c).unwrap();
            out.push(p.0);
            let h = KorChar::combine(Some(p.1), Some(j), None).unwrap();
            out.push(h.to_u16());
        },
    }
}

/// Emit a pending triple before a non-merging consonant, with the full
/// fallback chain of `spec_emit_closed`.
fn emit_closed(out: &mut Vec<u16>, c: u16, j: u16, f: u16)
    requires
        spec_is_valid_consonant(c),
        spec_is_valid_joong(j),
        spec_is_valid_consonant(f),
    ensures
        final(out)@ == spec_emit_closed(c, j, f, old(out)@),
{
    match KorChar::combine(Some(c), Some(j), Some(f)) {
        Ok(h) => {
            out.push(h.to_u16());
        },
        Err(_) => {
            match KorChar::combine(Some(c), Some(j), None) {
                Ok(h) => {
                    out.push(h.to_u16());
                    out.push(f);
                },
                Err(_) => {
                    out.push(c);
                    out.push(j);
                    out.push(f);
                },
            }
        },
    }
}

/// Emit the closing syllable of a compound final that splits before a
/// vowel, keeping its first half as the final.
fn emit_with_final_split(out: &mut Vec<u16>, c: u16, j: u16, f1: u16)
    requires
        spec_is_valid_consonant(c),
        spec_is_valid_joong(j),
        spec_is_valid_jong(f1),
    ensures
        final(out)@ == spec_emit_with_final_split(c, j, f1, old(out)@),
{
    match KorChar::combine(Some(c), Some(j), Some(f1)) {
        Ok(h) => {
            out.push(h.to_u16());
        },
        Err(_) => {
            proof {
                lemma_cluster_split(c);
            }
            let p = disassemble(c).unwrap();
            out.push(p.0);
            let h = KorChar::combine(Some(p.1), Some(j), Some(f1)).unwrap();
            out.push(h.to_u16());
        },
    }
}

/// Emit a pending triple before a boundary, with the full fallback chain
/// of `spec_emit_final_other`.
fn emit_final_other(out: &mut Vec<u16>, c: u16, j: u16, f: u16)
    requires
        spec_is_valid_consonant(c),
        spec_is_valid_joong(j),
        spec_is_valid_consonant(f),
    ensures
        final(out)@ == spec_emit_final_other(c, j, f, old(out)@),
{
    match KorChar::combine(Some(c), Some(j), Some(f)) {
        Ok(h) => {
            out.push(h.to_u16());
        },
        Err(_) => {
            if is_tensory(f) {
                match KorChar::combine(Some(c), Some(j), None) {
                    Ok(h) => {
                        out.push(h.to_u16());
                        out.push(f);
                    },
                    Err(_) => {
                        proof {
                            lemma_cluster_split(c);
                        }
                        let p = disassemble(c).unwrap();
                        out.push(p.0);
                        let h = KorChar::combine(Some(p.1), Some(j), None).unwrap();
                        out.push(h.to_u16());
                        out.push(f);
                    },
                }
            } else {
                proof {
                    lemma_non_tensory_is_jong(f);
                    lemma_cluster_split(c);
                }
                let p = disassemble(c).unwrap();
                out.push(p.0);
                let h = KorChar::combine(Some(p.1), Some(j), Some(f)).unwrap();
                out.push(h.to_u16());
            }
        },
    }
}

/// One executable transition of the parser.
fn step(st: ParseState, out: &mut Vec<u16>, q: u16) -> (r: ParseState)
    requires
        spec_state_wf(st),
    ensures
        spec_state_wf(r),
        r == spec_step(st, old(out)@, q).0,
        final(out)@ == spec_step(st, old(out)@, q).1,
{
    let x = qwerty_key_to_kor(q);
    match st {
        ParseState::Empty => {
            if is_valid_consonant(x) {
                ParseState::Cho(x)
            } else if is_valid_vowel(x) && out.len() > 0 && is_valid_vowel(out[out.len() - 1]) {
                let last = out[out.len() - 1];
                match crate::kor_char::assemble(last, x) {
                    Some(v) => {
                        out.pop();
                        out.push(v);
                    },
                    None => {
                        out.push(x);
                    },
                }
                ParseState::Empty
            } else {
                out.push(x);
                ParseState::Empty
            }
        },
        ParseState::Cho(c) => {
            if is_valid_consonant(x) {
                match crate::kor_char::assemble(c, x) {
                    Some(n) if !is_tensory(n) => {
                        proof {
                            lemma_assemble_classes(c, x);
                        }
                        ParseState::Cho(n)
                    },
                    _ => {
                        out.push(c);
                        ParseState::Cho(x)
                    },
                }
            } else if is_valid_vowel(x) {
                ParseState::Joong(c, x)
            } else {
                out.push(c);
                out.push(x);
                ParseState::Empty
            }
        },
        ParseState::Joong(c, j) => {
            if is_valid_consonant(x) {
                ParseState::Jong(c, j, x)
            } else if is_valid_vowel(x) {
                match crate::kor_char::assemble(j, x) {
                    Some(nv) => {
                        proof {
                            lemma_assemble_classes(j, x);
                        }
                        ParseState::Joong(c, nv)
                    },
                    None => {
                        emit_open(out, c, j);
                        out.push(x);
                        ParseState::Empty
                    },
                }
            } else {
                emit_open_split(out, c, j);
                out.push(x);
                ParseState::Empty
            }
        },
        ParseState::Jong(c, j, f) => {
            if is_valid_consonant(x) {
                match crate::kor_char::assemble(f, x) {
                    Some(n) if !is_tensory(n) => {
                        proof {
                            lemma_assemble_classes(f, x);
                        }
                        ParseState::Jong(c, j, n)
                    },
                    _ => {
                        emit_closed(out, c, j, f);
                        ParseState::Cho(x)
                    },
                }
            } else if is_valid_vowel(x) {
                match disassemble(f) {
                    Some(p) if !is_tensory(f) => {
                        proof {
                            lemma_compound_final_split(f);
                        }
                        emit_with_final_split(out, c, j, p.0);
                        ParseState::Joong(p.1, x)
                    },
                    _ => {
                        emit_open_split(out, c, j);
                        ParseState::Joong(f, x)
                    },
                }
            } else {
                emit_final_other(out, c, j, f);
                out.push(x);
                ParseState::Empty
            }
        },
    }
}

/// Assembling two consonants gives a consonant; assembling two vowels gives
/// a vowel.
proof fn lemma_assemble_classes(a: u16, b: u16)
    requires
        spec_assemble(a, b) is Some,
    ensures
        spec_is_valid_consonant(a) ==> spec_is_valid_consonant(spec_assemble(a, b)->0),
        spec_is_valid_joong(a) ==> spec_is_valid_joong(spec_assemble(a, b)->0),
{
}

/// Convert a keystroke sequence to Hangul: single-pass, total, never fails;
/// malformed compositions degrade to raw jamo emission.
pub fn qwerty_to_kor(string: &Vec<u16>) -> (r: Vec<u16>)
    ensures
        r@ == spec_qwerty_to_kor(string@),
{
    let mut result: Vec<u16> = Vec::new();
    let mut st = ParseState::Empty;
    let mut index: usize = 0;
    while index < string.len()
        invariant
            index <= string@.len(),
            spec_state_wf(st),
            st == spec_run(ParseState::Empty, Seq::<u16>::empty(), string@.take(index as int)).0,
            result@ == spec_run(
                ParseState::Empty,
                Seq::<u16>::empty(),
                string@.take(index as int),
            ).1,
        decreases string@.len() - index,
    {
        let q = string[index];
        proof {
            assert(string@.take(index as int + 1) =~= string@.take(index as int).push(q));
            lemma_run_snoc(ParseState::Empty, Seq::empty(), string@.take(index as int), q);
        }
        st = step(st, &mut result, q);
        index += 1;
    }
    proof {
        assert(string@.take(string@.len() as int) =~= string@);
        lemma_run_snoc(ParseState::Empty, Seq::empty(), string@, 32);
    }
    // the synthetic trailing boundary flushes any pending state
    step(st, &mut result, 32);
    result.pop();
    result
}

/// The keystrokes one jamo serializes to: its own key, or the keys of its
/// two halves when it has no key of its own.
pub open spec fn spec_jamo_keys(j: u16) -> Seq<u16> {
    match spec_jamo_to_key(j) {
        Some(q) => seq![q],
        None => match spec_disassemble(j) {
            Some(p) => seq![spec_jamo_to_key(p.0)->0, spec_jamo_to_key(p.1)->0],
            None => seq![j],
        },
    }
}

/// The keystrokes one code unit serializes to: a loose jamo by `spec_jamo_keys`,
/// a composed syllable slot by slot, and anything else unchanged.
pub open spec fn spec_unit_keys(c: u16) -> Seq<u16> {
    if spec_is_non_jamo(c) {
        spec_jamo_keys(c)
    } else if spec_is_jamo(c) {
        spec_jamo_keys(spec_syl_cho(c)) + spec_jamo_keys(spec_syl_joong(c)) + (match spec_syl_jong(
            c,
        ) {
            Some(f) => spec_jamo_keys(f),
            None => Seq::empty(),
        })
    } else {
        seq![c]
    }
}

/// What the serializer returns: the per-unit keystrokes, concatenated.
pub open spec fn spec_kor_to_qwerty(input: Seq<u16>) -> Seq<u16>
    decreases input.len(),
{
    if input.len() == 0 {
        Seq::empty()
    } else {
        spec_unit_keys(input[0]) + spec_kor_to_qwerty(input.drop_first())
    }
}

/// Every jamo either has a key of its own or splits into two keyed halves.
pub open spec fn spec_keyable(j: u16) -> bool {
    if spec_jamo_to_key(j) is Some {
        true
    } else {
        spec_disassemble(j) matches Some(p) && spec_jamo_to_key(p.0) is Some && spec_jamo_to_key(
            p.1,
        ) is Some
    }
}

/// Every loose jamo has a keystroke path: a key of its own, or a split into
/// two keyed halves. A miss would be a defect in the fixed tables.
pub proof fn lemma_jamo_keyable(j: u16)
    requires
        spec_is_non_jamo(j),
    ensures
        spec_keyable(j),
{
}

fn push_jamo_keys(out: &mut Vec<u16>, j: u16)
    requires
        spec_is_non_jamo(j),
    ensures
        final(out)@ == old(out)@ + spec_jamo_keys(j),
{
    proof {
        lemma_jamo_keyable(j);
    }
    match kor_key_to_qwerty(j) {
        Some(q) => {
            out.push(q);
            proof {
                assert(out@ =~= old(out)@ + spec_jamo_keys(j));
            }
        },
        None => {
            let p = disassemble(j).unwrap();
            let qa = kor_key_to_qwerty(p.0).unwrap();
            let qb = kor_key_to_qwerty(p.1).unwrap();
            out.push(qa);
            out.push(qb);
            proof {
                assert(out@ =~= old(out)@ + spec_jamo_keys(j));
            }
        },
    }
}

proof fn lemma_k2q_snoc(input: Seq<u16>, c: u16)
    ensures
        spec_kor_to_qwerty(input.push(c)) == spec_kor_to_qwerty(input) + spec_unit_keys(c),
    decreases input.len(),
{
    if input.len() == 0 {
        assert(input.push(c)[0] == c);
        assert(input.push(c).drop_first() =~= input);
        assert(spec_kor_to_qwerty(input.push(c)) == spec_unit_keys(c) + spec_kor_to_qwerty(input));
        assert(spec_kor_to_qwerty(input) == Seq::<u16>::empty());
        assert(spec_unit_keys(c) + Seq::<u16>::empty() =~= Seq::<u16>::empty() + spec_unit_keys(c));
    } else {
        assert(input.push(c)[0] == input[0]);
        assert(input.push(c).drop_first() =~= input.drop_first().push(c));
        assert(spec_kor_to_qwerty(input.push(c)) == spec_unit_keys(input[0])
            + spec_kor_to_qwerty(input.drop_first().push(c)));
        assert(spec_kor_to_qwerty(input) == spec_unit_keys(input[0]) + spec_kor_to_qwerty(
            input.drop_first(),
        ));
        lemma_k2q_snoc(input.drop_first(), c);
        assert(spec_unit_keys(input[0]) + (spec_kor_to_qwerty(input.drop_first()) + spec_unit_keys(
            c,
        )) =~= (spec_unit_keys(input[0]) + spec_kor_to_qwerty(input.drop_first())) + spec_unit_keys(
            c,
        ));
    }
}

/// Looking a keyed jamo's keystroke back up in the forward table returns
/// the jamo.
proof fn lemma_key_round(x: u16)
    requires
        spec_jamo_to_key(x) is Some,
    ensures
        spec_key_to_jamo(spec_jamo_to_key(x)->0) == x,
{
}

/// Every legal initial has a keystroke of its own.
proof fn lemma_valid_cho_keyed(c: u16)
    requires
        spec_is_valid_cho(c),
    ensures
        spec_jamo_to_key(c) is Some,
{
}

/// A consonant without a keystroke of its own is one of the 11 clusters:
/// not tensed, split into two keyed consonants that assemble back to it.
proof fn lemma_unkeyed_consonant_split(c: u16)
    requires
        spec_is_valid_consonant(c),
        spec_jamo_to_key(c) is None,
    ensures
        spec_disassemble(c) is Some,
        !spec_is_tensory(c),
        spec_is_valid_consonant((spec_disassemble(c)->0).0),
        spec_is_valid_consonant((spec_disassemble(c)->0).1),
        spec_jamo_to_key((spec_disassemble(c)->0).0) is Some,
        spec_jamo_to_key((spec_disassemble(c)->0).1) is Some,
        spec_assemble((spec_disassemble(c)->0).0, (spec_disassemble(c)->0).1) == Some(c),
{
}

/// A vowel without a keystroke of its own is one of the 7 compounds: split
/// into two keyed vowels that assemble back to it.
proof fn lemma_unkeyed_vowel_split(c: u16)
    requires
        spec_is_valid_joong(c),
        spec_jamo_to_key(c) is None,
    ensures
        spec_disassemble(c) is Some,
        spec_is_valid_joong((spec_disassemble(c)->0).0),
        spec_is_valid_joong((spec_disassemble(c)->0).1),
        spec_jamo_to_key((spec_disassemble(c)->0).0) is Some,
        spec_jamo_to_key((spec_disassemble(c)->0).1) is Some,
        spec_assemble((spec_disassemble(c)->0).0, (spec_disassemble(c)->0).1) == Some(c),
{
}

/// Running the parser over a concatenation runs it over the parts in turn.
proof fn lemma_run_append(st: ParseState, out: Seq<u16>, a: Seq<u16>, b: Seq<u16>)
    ensures
        spec_run(st, out, a + b) == spec_run(spec_run(st, out, a).0, spec_run(st, out, a).1, b),
    decreases a.len(),
{
    if a.len() == 0 {
        assert(a + b =~= b);
        assert(spec_run(st, out, a) == (st, out));
    } else {
        assert((a + b)[0] == a[0]);
        assert((a + b).drop_first() =~= a.drop_first() + b);
        let n = spec_step(st, out, a[0]);
        assert(spec_run(st, out, a + b) == spec_run(n.0, n.1, a.drop_first() + b));
        assert(spec_run(st, out, a) == spec_run(n.0, n.1, a.drop_first()));
        lemma_run_append(n.0, n.1, a.drop_first(), b);
    }
}

/// Typing a consonant's keystrokes from the empty state pends it as the
/// initial and emits nothing.
proof fn lemma_run_consonant_from_empty(c: u16, out: Seq<u16>)
    requires
        spec_is_valid_consonant(c),
    ensures
        spec_run(ParseState::Empty, out, spec_jamo_keys(c)) == (ParseState::Cho(c), out),
{
    if spec_jamo_to_key(c) is Some {
        lemma_key_round(c);
        let q = spec_jamo_to_key(c)->0;
        let s = spec_jamo_keys(c);
        assert(s =~= seq![q]);
        let n = spec_step(ParseState::Empty, out, q);
        assert(n == (ParseState::Cho(c), out));
        assert(s.drop_first() =~= Seq::<u16>::empty());
        assert(spec_run(n.0, n.1, Seq::<u16>::empty()) == n);
        assert(spec_run(ParseState::Empty, out, s) == spec_run(n.0, n.1, s.drop_first()));
    } else {
        lemma_unkeyed_consonant_split(c);
        let p = spec_disassemble(c)->0;
        lemma_key_round(p.0);
        lemma_key_round(p.1);
        let qa = spec_jamo_to_key(p.0)->0;
        let qb = spec_jamo_to_key(p.1)->0;
        let s = spec_jamo_keys(c);
        assert(s =~= seq![qa, qb]);
        let n1 = spec_step(ParseState::Empty, out, qa);
        assert(n1 == (ParseState::Cho(p.0), out));
        let n2 = spec_step(ParseState::Cho(p.0), out, qb);
        assert(n2 == (ParseState::Cho(c), out));
        assert(s.drop_first() =~= seq![qb]);
        assert(seq![qb].drop_first() =~= Seq::<u16>::empty());
        assert(spec_run(ParseState::Empty, out, s) == spec_run(n1.0, n1.1, s.drop_first()));
        assert(spec_run(n1.0, n1.1, seq![qb]) == spec_run(n2.0, n2.1, seq![qb].drop_first()));
        assert(spec_run(n2.0, n2.1, Seq::<u16>::empty()) == n2);
    }
}

/// Typing a vowel's keystrokes into an empty state with empty output leaves
/// exactly that vowel in the output.
proof fn lemma_run_vowel_from_empty(v: u16, out: Seq<u16>)
    requires
        spec_is_valid_joong(v),
        out.len() == 0,
    ensures
        spec_run(ParseState::Empty, out, spec_jamo_keys(v)) == (
            ParseState::Empty,
            out.push(v),
        ),
{
    if spec_jamo_to_key(v) is Some {
        lemma_key_round(v);
        let q = spec_jamo_to_key(v)->0;
        let s = spec_jamo_keys(v);
        assert(s =~= seq![q]);
        let n = spec_step(ParseState::Empty, out, q);
        assert(n == (ParseState::Empty, out.push(v)));
        assert(s.drop_first() =~= Seq::<u16>::empty());
        assert(spec_run(ParseState::Empty, out, s) == spec_run(n.0, n.1, s.drop_first()));
        assert(spec_run(n.0, n.1, Seq::<u16>::empty()) == n);
    } else {
        lemma_unkeyed_vowel_split(v);
        let p = spec_disassemble(v)->0;
        lemma_key_round(p.0);
        lemma_key_round(p.1);
        let qa = spec_jamo_to_key(p.0)->0;
        let qb = spec_jamo_to_key(p.1)->0;
        let s = spec_jamo_keys(v);
        assert(s =~= seq![qa, qb]);
        let n1 = spec_step(ParseState::Empty, out, qa);
        assert(n1 == (ParseState::Empty, out.push(p.0)));
        let mid = out.push(p.0);
        assert(mid.last() == p.0);
        let n2 = spec_step(ParseState::Empty, mid, qb);
        assert(mid.drop_last() =~= out);
        assert(n2 == (ParseState::Empty, out.push(v)));
        assert(s.drop_first() =~= seq![qb]);
        assert(seq![qb].drop_first() =~= Seq::<u16>::empty());
        assert(spec_run(ParseState::Empty, out, s) == spec_run(n1.0, n1.1, s.drop_first()));
        assert(spec_run(n1.0, n1.1, seq![qb]) == spec_run(n2.0, n2.1, seq![qb].drop_first()));
        assert(spec_run(n2.0, n2.1, Seq::<u16>::empty()) == n2);
    }
}

/// Typing a medial's keystrokes while an initial is pending pends the
/// (initial, medial) pair and emits nothing.
proof fn lemma_run_joong_keys(cv: u16, jv: u16, out: Seq<u16>)
    requires
        spec_is_valid_joong(jv),
    ensures
        spec_run(ParseState::Cho(cv), out, spec_jamo_keys(jv)) == (
            ParseState::Joong(cv, jv),
            out,
        ),
{
    if spec_jamo_to_key(jv) is Some {
        lemma_key_round(jv);
        let q = spec_jamo_to_key(jv)->0;
        let s = spec_jamo_keys(jv);
        assert(s =~= seq![q]);
        let n = spec_step(ParseState::Cho(cv), out, q);
        assert(n == (ParseState::Joong(cv, jv), out));
        assert(s.drop_first() =~= Seq::<u16>::empty());
        assert(spec_run(ParseState::Cho(cv), out, s) == spec_run(n.0, n.1, s.drop_first()));
        assert(spec_run(n.0, n.1, Seq::<u16>::empty()) == n);
    } else {
        lemma_unkeyed_vowel_split(jv);
        let p = spec_disassemble(jv)->0;
        lemma_key_round(p.0);
        lemma_key_round(p.1);
        let qa = spec_jamo_to_key(p.0)->0;
        let qb = spec_jamo_to_key(p.1)->0;
        let s = spec_jamo_keys(jv);
        assert(s =~= seq![qa, qb]);
        let n1 = spec_step(ParseState::Cho(cv), out, qa);
        assert(n1 == (ParseState::Joong(cv, p.0), out));
        let n2 = spec_step(ParseState::Joong(cv, p.0), out, qb);
        assert(n2 == (ParseState::Joong(cv, jv), out));
        assert(s.drop_first() =~= seq![qb]);
        assert(seq![qb].drop_first() =~= Seq::<u16>::empty());
        assert(spec_run(ParseState::Cho(cv), out, s) == spec_run(n1.0, n1.1, s.drop_first()));
        assert(spec_run(n1.0, n1.1, seq![qb]) == spec_run(n2.0, n2.1, seq![qb].drop_first()));
        assert(spec_run(n2.0, n2.1, Seq::<u16>::empty()) == n2);
    }
}

/// Typing a final's keystrokes while (initial, medial) are pending pends
/// the full triple and emits nothing.
proof fn lemma_run_jong_keys(cv: u16, jv: u16, fv: u16, out: Seq<u16>)
    requires
        spec_is_valid_jong(fv),
    ensures
        spec_run(ParseState::Joong(cv, jv), out, spec_jamo_keys(fv)) == (
            ParseState::Jong(cv, jv, fv),
            out,
        ),
{
    if spec_jamo_to_key(fv) is Some {
        lemma_key_round(fv);
        let q = spec_jamo_to_key(fv)->0;
        let s = spec_jamo_keys(fv);
        assert(s =~= seq![q]);
        let n = spec_step(ParseState::Joong(cv, jv), out, q);
        assert(n == (ParseState::Jong(cv, jv, fv), out));
        assert(s.drop_first() =~= Seq::<u16>::empty());
        assert(spec_run(ParseState::Joong(cv, jv), out, s) == spec_run(n.0, n.1, s.drop_first()));
        assert(spec_run(n.0, n.1, Seq::<u16>::empty()) == n);
    } else {
        lemma_unkeyed_consonant_split(fv);
        let p = spec_disassemble(fv)->0;
        lemma_key_round(p.0);
        lemma_key_round(p.1);
        let qa = spec_jamo_to_key(p.0)->0;
        let qb = spec_jamo_to_key(p.1)->0;
        let s = spec_jamo_keys(fv);
        assert(s =~= seq![qa, qb]);
        let n1 = spec_step(ParseState::Joong(cv, jv), out, qa);
        assert(n1 == (ParseState::Jong(cv, jv, p.0), out));
        let n2 = spec_step(ParseState::Jong(cv, jv, p.0), out, qb);
        assert(n2 == (ParseState::Jong(cv, jv, fv), out));
        assert(s.drop_first() =~= seq![qb]);
        assert(seq![qb].drop_first() =~= Seq::<u16>::empty());
        assert(spec_run(ParseState::Joong(cv, jv), out, s) == spec_run(n1.0, n1.1, s.drop_first()));
        assert(spec_run(n1.0, n1.1, seq![qb]) == spec_run(n2.0, n2.1, seq![qb].drop_first()));
        assert(spec_run(n2.0, n2.1, Seq::<u16>::empty()) == n2);
    }
}

/// The arithmetic encoding of the slots that `from_u16` computes returns
/// the original syllable code unit.
proof fn lemma_syl_encode(c: u16)
    requires
        44032 <= c <= 55203,
    ensures
        spec_syl_jong(c) is None ==> spec_encode_cj(spec_syl_cho(c), spec_syl_joong(c)) == c,
        spec_syl_jong(c) matches Some(f) ==> spec_encode_cjf(spec_syl_cho(c), spec_syl_joong(c), f)
            == c,
{
    crate::tables::lemma_cho_table_bijective();
    crate::tables::lemma_joong_table_bijective();
    crate::tables::lemma_jong_table_bijective();
    let off = (c - 44032) as int;
    let ci = off / 588;
    let rem = off % 588;
    let ji = rem / 28;
    let fi = rem % 28;
    vstd::arithmetic::div_mod::lemma_fundamental_div_mod(off, 588);
    vstd::arithmetic::div_mod::lemma_fundamental_div_mod(rem, 28);
    assert(0 <= ci < 19 && 0 <= rem < 588 && 0 <= ji < 21 && 0 <= fi < 28) by (nonlinear_arith)
        requires
            0 <= off <= 11171,
            ci == off / 588,
            rem == off % 588,
            ji == rem / 28,
            fi == rem % 28,
    ;
    assert(44032 + ci * 588 + ji * 28 + fi == c);
}

/// Law: the keystroke sequence that serializes one Hangul unit parses back
/// to exactly that unit.
pub proof fn lemma_unit_round_trip(c: u16)
    requires
        crate::utils::spec_is_hangul(c),
    ensures
        spec_qwerty_to_kor(spec_unit_keys(c)) == seq![c],
{
    let keys = spec_unit_keys(c);
    let full = keys.push(32u16);
    let boundary = seq![32u16];
    assert(full =~= keys + boundary);
    assert(boundary.drop_first() =~= Seq::<u16>::empty());
    if spec_is_non_jamo(c) {
        if spec_is_valid_consonant(c) {
            lemma_run_consonant_from_empty(c, Seq::empty());
            lemma_run_append(ParseState::Empty, Seq::empty(), keys, boundary);
            let n = spec_step(ParseState::Cho(c), Seq::empty(), 32);
            assert(n == (ParseState::Empty, Seq::<u16>::empty().push(c).push(32u16)));
            assert(spec_run(ParseState::Cho(c), Seq::empty(), boundary) == spec_run(
                n.0,
                n.1,
                boundary.drop_first(),
            ));
            assert(spec_run(n.0, n.1, Seq::<u16>::empty()) == n);
            assert(n.1.drop_last() =~= seq![c]);
        } else {
            lemma_run_vowel_from_empty(c, Seq::empty());
            lemma_run_append(ParseState::Empty, Seq::empty(), keys, boundary);
            let mid = Seq::<u16>::empty().push(c);
            let n = spec_step(ParseState::Empty, mid, 32);
            assert(n == (ParseState::Empty, mid.push(32u16)));
            assert(spec_run(ParseState::Empty, mid, boundary) == spec_run(
                n.0,
                n.1,
                boundary.drop_first(),
            ));
            assert(spec_run(n.0, n.1, Seq::<u16>::empty()) == n);
            assert(n.1.drop_last() =~= seq![c]);
        }
    } else {
        crate::kor_char::lemma_syl_parts_classes(c);
        lemma_syl_encode(c);
        let cv = spec_syl_cho(c);
        let jv = spec_syl_joong(c);
        lemma_valid_cho_keyed(cv);
        let cho_keys = spec_jamo_keys(cv);
        let joong_keys = spec_jamo_keys(jv);
        lemma_run_consonant_from_empty(cv, Seq::empty());
        lemma_run_joong_keys(cv, jv, Seq::empty());
        match spec_syl_jong(c) {
            None => {
                assert(keys == cho_keys + joong_keys + Seq::<u16>::empty());
                assert(keys =~= cho_keys + joong_keys);
                lemma_run_append(ParseState::Empty, Seq::empty(), cho_keys, joong_keys);
                lemma_run_append(ParseState::Empty, Seq::empty(), keys, boundary);
                assert(spec_run(ParseState::Empty, Seq::empty(), keys) == (
                    ParseState::Joong(cv, jv),
                    Seq::<u16>::empty(),
                ));
                let n = spec_step(ParseState::Joong(cv, jv), Seq::empty(), 32);
                assert(spec_emit_open_split(cv, jv, Seq::empty()) =~= Seq::<u16>::empty().push(c));
                assert(n == (ParseState::Empty, Seq::<u16>::empty().push(c).push(32u16)));
                assert(spec_run(ParseState::Joong(cv, jv), Seq::empty(), boundary) == spec_run(
                    n.0,
                    n.1,
                    boundary.drop_first(),
                ));
                assert(spec_run(n.0, n.1, Seq::<u16>::empty()) == n);
                assert(n.1.drop_last() =~= seq![c]);
            },
            Some(fv) => {
                let jong_keys = spec_jamo_keys(fv);
                assert(keys == cho_keys + joong_keys + jong_keys);
                lemma_run_jong_keys(cv, jv, fv, Seq::empty());
                lemma_run_append(ParseState::Empty, Seq::empty(), cho_keys, joong_keys);
                lemma_run_append(
                    ParseState::Empty,
                    Seq::empty(),
                    cho_keys + joong_keys,
                    jong_keys,
                );
                lemma_run_append(ParseState::Empty, Seq::empty(), keys, boundary);
                assert(spec_run(ParseState::Empty, Seq::empty(), cho_keys + joong_keys) == (
                    ParseState::Joong(cv, jv),
                    Seq::<u16>::empty(),
                ));
                assert(spec_run(ParseState::Empty, Seq::empty(), keys) == (
                    ParseState::Jong(cv, jv, fv),
                    Seq::<u16>::empty(),
                ));
                let n = spec_step(ParseState::Jong(cv, jv, fv), Seq::empty(), 32);
                assert(spec_emit_final_other(cv, jv, fv, Seq::empty()) =~= Seq::<
                    u16,
                >::empty().push(c));
                assert(n == (ParseState::Empty, Seq::<u16>::empty().push(c).push(32u16)));
                assert(spec_run(ParseState::Jong(cv, jv, fv), Seq::empty(), boundary) == spec_run(
                    n.0,
                    n.1,
                    boundary.drop_first(),
                ));
                assert(spec_run(n.0, n.1, Seq::<u16>::empty()) == n);
                assert(n.1.drop_last() =~= seq![c]);
            },
        }
    }
}

/// Convert Hangul to the keystroke sequence that types it: per code unit, a
/// loose jamo directly or via its halves, a composed syllable slot by slot,
/// anything else copied through. Total, never fails.
pub fn kor_to_qwerty(string: &Vec<u16>) -> (r: Vec<u16>)
    ensures
        r@ == spec_kor_to_qwerty(string@),
{
    let mut result: Vec<u16> = Vec::new();
    let mut i: usize = 0;
    while i < string.len()
        invariant
            i <= string@.len(),
            result@ == spec_kor_to_qwerty(string@.take(i as int)),
        decreases string@.len() - i,
    {
        let c = string[i];
        proof {
            assert(string@.take(i as int + 1) =~= string@.take(i as int).push(c));
            lemma_k2q_snoc(string@.take(i as int), c);
        }
        if is_non_jamo(c) {
            push_jamo_keys(&mut result, c);
        } else if crate::utils::is_jamo(c) {
            proof {
                crate::kor_char::lemma_syl_parts_classes(c);
            }
            let k = KorChar::from_u16(c).unwrap();
            let parts = k.disassemble();
            push_jamo_keys(&mut result, parts.0.unwrap());
            push_jamo_keys(&mut result, parts.1.unwrap());
            match parts.2 {
                Some(f) => {
                    push_jamo_keys(&mut result, f);
                },
                None => {},
            }
            proof {
                assert(result@ =~= spec_kor_to_qwerty(string@.take(i as int + 1)));
            }
        } else {
            result.push(c);
            proof {
                assert(result@ =~= spec_kor_to_qwerty(string@.take(i as int + 1)));
            }
        }
        i += 1;
    }
    proof {
        assert(string@.take(string@.len() as int) =~= string@);
    }
    result
}

} // verus!
