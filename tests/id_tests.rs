use core::str::FromStr;

use saudi_id::{Id, IdType, ParseError};

#[test]
fn static_tests() {
    let id = Id::try_from(1_581_872_353).unwrap();
    assert_eq!(id.get_type(), IdType::Citizen);
}

#[test]
fn random_generated_tests() {
    for _ in 0..10_000_usize {
        let cit_id = Id::new(&IdType::Citizen);
        assert_eq!(cit_id, Id::try_from(cit_id.digits.clone()).unwrap());
        assert_eq!(cit_id, Id::from_str(&cit_id.to_string()).unwrap());
        assert_eq!(
            cit_id.to_string(),
            cit_id
                .digits
                .clone()
                .iter()
                .map(ToString::to_string)
                .collect::<String>()
        );

        let res_id = Id::new(&IdType::Resident);
        assert_eq!(res_id, Id::try_from(res_id.digits.clone()).unwrap());
        assert_eq!(res_id, Id::from_str(&res_id.to_string()).unwrap());
        assert_eq!(
            res_id.to_string(),
            res_id
                .digits
                .clone()
                .iter()
                .map(ToString::to_string)
                .collect::<String>()
        );
    }
}

#[test]
fn prefixes_of_categories() {
    assert_eq!(IdType::Citizen.prefix(), 1);
    assert_eq!(IdType::Resident.prefix(), 2);
}

#[test]
fn integer_keeps_digits_in_order() {
    let id = Id::try_from(1_581_872_353_u32).unwrap();
    assert_eq!(id.digits, vec![1, 5, 8, 1, 8, 7, 2, 3, 5, 3]);
}

#[test]
fn integer_to_text_round_trip() {
    let id = Id::try_from(2_581_872_351_u32).unwrap();
    let text = id.to_string();
    assert_eq!(text, "2581872351");
    assert_eq!(Id::from_str(&text).unwrap(), id);
}

#[test]
fn resident_literal_is_resident() {
    let id = Id::try_from(2_581_872_351_u32).unwrap();
    assert_eq!(id.get_type(), IdType::Resident);
}

#[test]
fn generated_categories_are_kept() {
    for _ in 0..1_000_usize {
        let res_id = Id::new(&IdType::Resident);
        assert_eq!(res_id.get_type(), IdType::Resident);
        assert_eq!(res_id.digits[0], 2);
        let cit_id = Id::new(&IdType::Citizen);
        assert_eq!(cit_id.get_type(), IdType::Citizen);
        assert_eq!(cit_id.digits[0], 1);
        assert!(luhnr::validate(&cit_id.digits));
        assert_eq!(cit_id.digits.len(), 10);
    }
}

#[test]
fn short_sequence_rejected() {
    assert_eq!(Id::try_from(vec![1_u8, 2, 3]), Err(ParseError::InvalidId));
    assert_eq!(Id::try_from(Vec::<u8>::new()), Err(ParseError::InvalidId));
}

#[test]
fn long_sequence_rejected() {
    let digits = vec![1_u8, 5, 8, 1, 8, 7, 2, 3, 5, 3, 0];
    assert!(luhnr::validate(&digits[..10]));
    assert_eq!(Id::try_from(digits), Err(ParseError::InvalidId));
}

#[test]
fn small_integers_rejected() {
    assert_eq!(Id::try_from(0_u32), Err(ParseError::InvalidId));
    assert_eq!(Id::try_from(158_187_235_u32), Err(ParseError::InvalidId));
    assert_eq!(Id::try_from(u32::MAX), Err(ParseError::InvalidId));
}

#[test]
fn bad_prefix_rejected() {
    let digits = vec![9_u8, 5, 8, 1, 8, 7, 2, 3, 5, 6];
    assert!(luhnr::validate(&digits));
    assert_eq!(Id::try_from(digits), Err(ParseError::InvalidId));
    assert_eq!(Id::try_from(3_581_872_359_u32), Err(ParseError::InvalidId));
}

#[test]
fn generated_bad_prefix_rejected() {
    for _ in 0..100_usize {
        let digits = luhnr::generate_with_prefix(10, &[9]).unwrap();
        assert!(luhnr::validate(&digits));
        assert_eq!(Id::try_from(digits), Err(ParseError::InvalidId));
    }
}

#[test]
fn bad_checksum_rejected() {
    assert_eq!(Id::try_from(1_581_872_354_u32), Err(ParseError::InvalidId));
    let mut digits = Id::try_from(1_581_872_353_u32).unwrap().digits;
    digits[9] = (digits[9] + 1) % 10;
    assert_eq!(Id::try_from(digits), Err(ParseError::InvalidId));
}

#[test]
fn non_digit_element_rejected() {
    let digits = vec![1_u8, 5, 8, 1, 8, 7, 2, 3, 10, 3];
    assert_eq!(Id::try_from(digits), Err(ParseError::InvalidId));
    let digits = vec![1_u8, 5, 8, 1, 8, 7, 2, 3, 5, 13];
    assert_eq!(Id::try_from(digits), Err(ParseError::InvalidId));
}

#[test]
fn text_rejections() {
    assert_eq!(Id::from_str(""), Err(ParseError::InvalidId));
    assert_eq!(Id::from_str("abc"), Err(ParseError::InvalidId));
    assert_eq!(Id::from_str(" 1581872353"), Err(ParseError::InvalidId));
    assert_eq!(Id::from_str("1581872353 "), Err(ParseError::InvalidId));
    assert_eq!(Id::from_str("-1581872353"), Err(ParseError::InvalidId));
    assert_eq!(Id::from_str("15818-72353"), Err(ParseError::InvalidId));
    assert_eq!(Id::from_str("4294967296"), Err(ParseError::InvalidId));
    assert_eq!(Id::from_str("1581872354"), Err(ParseError::InvalidId));
    assert_eq!(Id::from_str("123"), Err(ParseError::InvalidId));
}

#[test]
fn text_accepted_forms() {
    let id = Id::from_str("1581872353").unwrap();
    assert_eq!(id.digits, vec![1, 5, 8, 1, 8, 7, 2, 3, 5, 3]);
    let signed = Id::from_str("+1581872353").unwrap();
    assert_eq!(signed, id);
    let padded = Id::from_str("01581872353").unwrap();
    assert_eq!(padded, id);
}

#[test]
fn text_formatting_exact() {
    let id = Id::try_from(vec![1_u8, 5, 8, 1, 8, 7, 2, 3, 5, 3]).unwrap();
    let text = id.to_string();
    assert_eq!(text, "1581872353");
    assert_eq!(text.len(), 10);
    assert!(text.chars().all(|c| c.is_ascii_digit()));
}

#[test]
fn equality_follows_digits() {
    let a = Id::try_from(1_581_872_353_u32).unwrap();
    let b = Id::try_from(vec![1_u8, 5, 8, 1, 8, 7, 2, 3, 5, 3]).unwrap();
    let c = Id::try_from(2_581_872_351_u32).unwrap();
    assert_eq!(a, b);
    assert_ne!(a, c);
}

#[test]
fn clone_is_independent() {
    let original = Id::try_from(1_581_872_353_u32).unwrap();
    let mut copy = original.clone();
    assert_eq!(copy, original);
    copy.digits[0] = 2;
    copy.digits.push(4);
    assert_eq!(original.digits, vec![1, 5, 8, 1, 8, 7, 2, 3, 5, 3]);
    assert_ne!(copy, original);
}
