use h_hangul::assemble;
use h_hangul::disassemble;
use h_hangul::from_v16;
use h_hangul::into_v16;
use h_hangul::is_jamo;
use h_hangul::is_non_jamo;
use h_hangul::is_tensory;
use h_hangul::is_valid_consonant;
use h_hangul::is_valid_vowel;
use h_hangul::kor_to_qwerty;
use h_hangul::qwerty_to_kor;
use h_hangul::to_lower;
use h_hangul::KorChar;
use h_hangul::KorError;

fn v16(s: &str) -> Vec<u16> {
    s.encode_utf16().collect()
}

#[test]
fn forward_scenario() {
    assert_eq!(qwerty_to_kor(&v16("rhkr")), v16("곽"));
    assert_eq!(kor_to_qwerty(&v16("곽")), v16("rhkr"));
}

#[test]
fn no_accidental_tensing() {
    assert_eq!(qwerty_to_kor(&v16("rr")), v16("ㄱㄱ"));
    assert_eq!(qwerty_to_kor(&v16("R")), v16("ㄲ"));
}

#[test]
fn final_cluster_split_before_vowel() {
    assert_eq!(qwerty_to_kor(&v16("rtlrtl")), v16("ㄱ식시"));
}

#[test]
fn sentence_round_trip() {
    let kor = qwerty_to_kor(&v16("dPqlrns rnlcksgdk"));
    assert_eq!(kor, v16("예비군 귀찮아"));
    assert_eq!(kor_to_qwerty(&kor), v16("dPqlrns rnlcksgdk"));
}

#[test]
fn forward_idempotent_normalization() {
    for k in ["rhkr", "rtlE", "qkQ", "Rk", "ml ml", "abc 123", "rkRkskek"] {
        let k = v16(k);
        let once = qwerty_to_kor(&k);
        let again = qwerty_to_kor(&kor_to_qwerty(&once));
        assert_eq!(once, again);
    }
}

#[test]
fn compound_codec_scenarios() {
    assert_eq!(assemble('ㄱ' as u16, 'ㅅ' as u16), Some('ㄳ' as u16));
    assert_eq!(assemble('ㅡ' as u16, 'ㅣ' as u16), Some('ㅢ' as u16));
    assert_eq!(assemble('ㄱ' as u16, 'ㄴ' as u16), None);
    assert_eq!(disassemble('ㅢ' as u16), Some(('ㅡ' as u16, 'ㅣ' as u16)));
    assert_eq!(disassemble('ㄱ' as u16), None);
}

#[test]
fn error_variants() {
    assert_eq!(KorChar::from_u16(100), Err(KorError::InvalidHangul(100)));
    assert_eq!(KorChar::from_u16(13000), Err(KorError::InvalidHangul(13000)));
    assert_eq!(
        KorChar::combine(None, None, Some('ㄱ' as u16)),
        Err(KorError::MissingCho)
    );
    assert_eq!(
        KorChar::combine(Some('ㄱ' as u16), None, Some('ㄱ' as u16)),
        Err(KorError::MissingJoong)
    );
    match KorChar::from_qwerty(&v16("rhkrrhkr")) {
        Err(KorError::TooManyChars(s)) => assert_eq!(s, v16("곽곽")),
        other => panic!("expected a too-many-characters diagnosis, got {other:?}"),
    }
}

#[test]
fn loose_forms_and_setters() {
    let lone = KorChar::from_u16('ㄱ' as u16).unwrap();
    assert_eq!(lone.disassemble(), (Some('ㄱ' as u16), None, None));
    assert!(!lone.is_valid());
    assert!(!lone.has_jong());
    assert_eq!(lone.to_u16(), 'ㄱ' as u16);

    let vowel = KorChar::from_u16('ㅏ' as u16).unwrap();
    assert_eq!(vowel.disassemble(), (None, Some('ㅏ' as u16), None));
    assert_eq!(vowel.to_u16(), 'ㅏ' as u16);

    let ga = KorChar::from_u16('가' as u16).unwrap();
    assert!(ga.is_valid());
    let gak = ga.set_jong(Some('ㄱ' as u16)).unwrap();
    assert!(gak.has_jong());
    assert_eq!(gak.to_u16(), '각' as u16);
    assert_eq!(gak.set_jong(None).unwrap().to_u16(), '가' as u16);
    assert_eq!(gak.set_cho('ㄴ' as u16).unwrap().to_u16(), '낙' as u16);
    assert_eq!(gak.set_joong('ㅗ' as u16).unwrap().to_u16(), '곡' as u16);
    assert_eq!(ga.set_cho('ㄳ' as u16), Err(KorError::InvalidCho('ㄳ' as u16)));
    assert_eq!(ga.set_joong('ㄱ' as u16), Err(KorError::InvalidJoong('ㄱ' as u16)));
    assert_eq!(
        ga.set_jong(Some('ㄸ' as u16)),
        Err(KorError::InvalidJong('ㄸ' as u16))
    );
}

#[test]
fn char_conversions() {
    assert_eq!(KorChar::from_u16('곽' as u16).unwrap().to_char(), '곽');
    assert_eq!(KorChar::from_char('곽').unwrap().to_u16(), '곽' as u16);
    assert_eq!(KorChar::from_char('a'), Err(KorError::InvalidHangul(97)));
    assert_eq!(KorChar::from_u16('ㅢ' as u16).unwrap().to_qwerty(), v16("ml"));
    assert_eq!(KorChar::from_qwerty(&v16("rhkr")).unwrap().to_u16(), '곽' as u16);
}

#[test]
fn string_helpers() {
    assert_eq!(from_v16(&[44032]), "가");
    assert_eq!(into_v16("가"), vec![44032u16]);
    assert_eq!(into_v16(""), Vec::<u16>::new());
    assert_eq!(from_v16(&into_v16("예비군 귀찮아")), "예비군 귀찮아");
}

#[test]
fn predicate_helpers() {
    assert_eq!(to_lower(&('A' as u16)), 'a' as u16);
    assert_eq!(to_lower(&('a' as u16)), 'a' as u16);
    assert_eq!(to_lower(&('?' as u16)), '?' as u16);
    assert!(is_tensory('ㄲ' as u16));
    assert!(!is_tensory('ㄳ' as u16));
    assert!(is_valid_consonant('ㄳ' as u16));
    assert!(!is_valid_consonant('ㅏ' as u16));
    assert!(is_valid_vowel('ㅢ' as u16));
    // `is_jamo` covers the composed-syllable range, `is_non_jamo` the
    // loose-jamo range
    assert!(is_jamo('가' as u16));
    assert!(!is_jamo('ㄱ' as u16));
    assert!(is_non_jamo('ㄱ' as u16));
    assert!(!is_non_jamo('가' as u16));
}
