use h_hangul::assemble;
use h_hangul::disassemble;
use h_hangul::is_hangul;
use h_hangul::kor_to_qwerty;
use h_hangul::qwerty_to_kor;
use h_hangul::KorChar;

#[test]
fn consonant_assembly_test() {
    let compounds = vec![
        'ㄲ' as u16, 'ㄳ' as u16, 'ㄵ' as u16, 'ㄶ' as u16, 'ㄸ' as u16, 'ㄺ' as u16, 'ㄻ' as u16,
        'ㄼ' as u16, 'ㄽ' as u16, 'ㄾ' as u16, 'ㄿ' as u16, 'ㅀ' as u16, 'ㅃ' as u16, 'ㅄ' as u16,
        'ㅆ' as u16, 'ㅉ' as u16, 'ㅘ' as u16, 'ㅙ' as u16, 'ㅚ' as u16, 'ㅝ' as u16, 'ㅞ' as u16,
        'ㅟ' as u16, 'ㅢ' as u16,
    ];

    for c in 12000..60000 {
        match disassemble(c) {
            Some((c1, c2)) => {
                assert!(compounds.contains(&c));
                assert_eq!(assemble(c1, c2).unwrap(), c);
            }
            None => {
                assert!(!compounds.contains(&c));
            }
        }
    }
}

#[test]
fn korean_qwerty_conversion_test() {
    let samples = vec![
        ("", ""),
        ("ㄹ", "f"),
        ("리", "fl"),
        ("린", "fls"),
        ("리누", "flsn"),
        ("리눅", "flsnr"),
        ("리눇", "flsnrt"),
        ("리눅스", "flsnrtm"),
        ("예비군 귀찮아", "dPqlrns rnlcksgdk"),
        ("가까나다따라마바빠사싸", "rkRkskekEkfkakqkQktkTk"),
        ("가갸개걔", "rkrirorO"),
        (
            "그녀의 친구라도 이 노랠 듣는다면 그녀에게 전해줘요 내가 아직 사랑한다고~",
            "rmsudml clsrnfkeh dl shfof emesmsekaus rmsudprp wjsgownjdy sork dkwlr tkfkdgksekrh~",
        ),
        (
            "우리가 처음 만난 그 시간 그 자리에 내가 매일 기다린다고~",
            "dnflrk cjdma akssks rm tlrks rm wkfldp sork aodlf rlekflsekrh~",
        ),
        ("값비싼 손목시계", "rkqtqlTks thsahrtlrP"),
        ("앉아서 이빨 뽑아", "dkswdktj dlQkf Qhqdk"),
        ("내 몫 챙겨", "so ahrt codru"),
        ("밖에서", "qkRdptj"),
        ("ㄱㄱ", "rr"),
        ("우끼욱기", "dnRldnrrl"),
        ("내일 바빠?", "sodlf qkQk?"),
        ("바ㅃ", "qkQ"),
        ("ㅣ", "l"),
        ("ㅢ", "ml"),
        ("ㅢ ㅢ", "ml ml"),
        ("ㄳ", "rt"),
        ("ㄱ시", "rtl"),
        ("ㄱ싱", "rtld"),
        ("ㄱ식시", "rtlrtl"),
        ("ㄱ시띠", "rtlEl"),
        ("ㄱ시ㄸ", "rtlE"),
        ("곽", "rhkr"),
    ];

    for (korean, qwerty) in samples.into_iter() {
        let korean = korean.encode_utf16().collect::<Vec<u16>>();
        let qwerty = qwerty.encode_utf16().collect::<Vec<u16>>();

        assert_eq!(qwerty_to_kor(&qwerty), korean);
        assert_eq!(kor_to_qwerty(&korean), qwerty);
        assert_eq!(qwerty_to_kor(&kor_to_qwerty(&qwerty_to_kor(&qwerty))), korean);
        assert_eq!(kor_to_qwerty(&qwerty_to_kor(&kor_to_qwerty(&korean))), qwerty);

        for c in korean.into_iter() {
            if is_hangul(c) {
                let new_kor_char = KorChar::from_u16(c).unwrap();
                let new_qwerty = new_kor_char.to_qwerty();
                let new_new_kor_char = KorChar::from_qwerty(&new_qwerty).unwrap();

                assert_eq!(c, new_new_kor_char.to_u16());
            }
        }
    }
}
