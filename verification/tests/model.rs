use h_hangul::is_hangul;
use h_hangul::is_valid_cho;
use h_hangul::is_valid_jong;
use h_hangul::is_valid_joong;
use h_hangul::tables::chos;
use h_hangul::tables::jongs;
use h_hangul::tables::joongs;
use h_hangul::KorChar;
use h_hangul::KorError;

#[test]
fn combine_test() {
    let samples = vec![
        ('배' as u16, (Some('ㅂ' as u16), Some('ㅐ' as u16), None)),
        ('현' as u16, (Some('ㅎ' as u16), Some('ㅕ' as u16), Some('ㄴ' as u16))),
        ('솔' as u16, (Some('ㅅ' as u16), Some('ㅗ' as u16), Some('ㄹ' as u16))),
        ('서' as u16, (Some('ㅅ' as u16), Some('ㅓ' as u16), None)),
        ('울' as u16, (Some('ㅇ' as u16), Some('ㅜ' as u16), Some('ㄹ' as u16))),
        ('대' as u16, (Some('ㄷ' as u16), Some('ㅐ' as u16), None)),
        ('학' as u16, (Some('ㅎ' as u16), Some('ㅏ' as u16), Some('ㄱ' as u16))),
        ('교' as u16, (Some('ㄱ' as u16), Some('ㅛ' as u16), None)),
        ('예' as u16, (Some('ㅇ' as u16), Some('ㅖ' as u16), None)),
        ('비' as u16, (Some('ㅂ' as u16), Some('ㅣ' as u16), None)),
        ('군' as u16, (Some('ㄱ' as u16), Some('ㅜ' as u16), Some('ㄴ' as u16))),
        ('귀' as u16, (Some('ㄱ' as u16), Some('ㅟ' as u16), None)),
        ('찮' as u16, (Some('ㅊ' as u16), Some('ㅏ' as u16), Some('ㄶ' as u16))),
        ('아' as u16, (Some('ㅇ' as u16), Some('ㅏ' as u16), None)),
        ('값' as u16, (Some('ㄱ' as u16), Some('ㅏ' as u16), Some('ㅄ' as u16))),
        ('뷁' as u16, (Some('ㅂ' as u16), Some('ㅞ' as u16), Some('ㄺ' as u16))),
        ('힣' as u16, (Some('ㅎ' as u16), Some('ㅣ' as u16), Some('ㅎ' as u16))),
        ('밖' as u16, (Some('ㅂ' as u16), Some('ㅏ' as u16), Some('ㄲ' as u16))),
    ];

    for (syl, (cho, joong, jong)) in samples.into_iter() {
        assert!(KorChar::from_u16(syl).unwrap() == KorChar::combine(cho, joong, jong).unwrap());
        assert_eq!(KorChar::combine(cho, joong, jong).unwrap().to_u16(), syl);
        assert!(is_hangul(KorChar::combine(cho, joong, jong).unwrap().to_u16()));
    }

    let invalids = vec![
        (
            (Some('ㄶ' as u16), Some('ㅏ' as u16), Some('ㅊ' as u16)),
            KorError::InvalidCho('ㄶ' as u16),
        ),
        (
            (Some('ㅂ' as u16), Some('ㄲ' as u16), Some('ㄲ' as u16)),
            KorError::InvalidJoong('ㄲ' as u16),
        ),
        (
            (Some('ㅂ' as u16), Some('ㅏ' as u16), Some('ㄸ' as u16)),
            KorError::InvalidJong('ㄸ' as u16),
        ),
        (
            (Some('ㅂ' as u16), Some(65533), Some('ㄱ' as u16)),
            KorError::InvalidJoong(65533),
        ),
    ];

    for ((cho, joong, jong), err) in invalids.into_iter() {
        println!("{err:?}, {:?}", KorChar::combine(cho, joong, jong).unwrap_err());
        assert_eq!(KorChar::combine(cho, joong, jong), Err(err));
    }
}

#[test]
fn u16_conversion_test() {
    for c in 12000..60000 {
        match KorChar::from_u16(c) {
            Ok(k) => {
                assert!(is_hangul(c));
                assert_eq!(c, k.to_u16());
            }
            _ => {
                assert!(!is_hangul(c));
            }
        }
    }
}

#[test]
fn validity_checkers() {
    let chos = chos();
    let joongs = joongs();
    let jongs = jongs();

    for c in 12000..13000 {
        if chos.contains(&c) {
            assert!(is_valid_cho(c));
            assert!(is_hangul(c));
        } else {
            assert!(!is_valid_cho(c));
        }

        if joongs.contains(&c) {
            assert!(is_valid_joong(c));
            assert!(is_hangul(c));
        } else {
            assert!(!is_valid_joong(c));
        }

        if jongs.contains(&c) {
            assert!(is_valid_jong(c));
            assert!(is_hangul(c));
        } else {
            assert!(!is_valid_jong(c));
        }
    }
}
