use std::str::FromStr;
use up_engine::shortid::{ParseShortIdError, ShortId};
use uuid::Uuid;

#[test]
pub fn shortid_string_roundtrip() {
    let id: ShortId =
        ShortId::from_uuid(Uuid::from_str("5a3b3743-4f32-4fb6-8d0c-03bc793ff79d").unwrap().as_u128());

    let value = id.to_string();

    assert_eq!("2T7CVM6KSJ9YV8T303QHWKZXWX", value);

    let parsed_id: ShortId = ShortId::from_str(&value).unwrap();

    assert_eq!(id, parsed_id);
}

#[test]
pub fn subsequent_different() {
    let id1 = ShortId::new();
    let id2 = ShortId::new();

    assert_ne!(id1, id2);
}

#[test]
pub fn malformed_id_does_not_parse() {
    assert!(matches!(
        ShortId::from_str("574wP6790o0E5hVakwJbk2m7L"),
        Err(ParseShortIdError::DecodeFailure)
    ))
}

#[test]
pub fn shortid_json_roundtrip() {
    let id: ShortId =
        ShortId::from_uuid(Uuid::from_str("001a4929-cd4e-4719-822c-4ec8fe8e743b").unwrap().as_u128());

    assert_eq!(
        "\"00394JKKAE8WCR4B2ES3Z8WX1V\"",
        serde_json::to_string(&id.to_string()).unwrap()
    );
    let text: String = serde_json::from_str("\"00394JKKAE8WCR4B2ES3Z8WX1V\"").unwrap();
    assert_eq!(id, ShortId::from_str(&text).unwrap());
}

#[test]
fn short_text_of_small_numbers() {
    assert_eq!(ShortId::from_uuid(0).to_string(), "00000000000000000000000000");
    assert_eq!(ShortId::from_uuid(1).to_string(), "00000000000000000000000001");
    assert_eq!(ShortId::from_uuid(31).to_string(), "0000000000000000000000000Z");
    assert_eq!(ShortId::from_uuid(32).to_string(), "00000000000000000000000010");
    assert_eq!(ShortId::from_uuid(u128::MAX).to_string(), "7ZZZZZZZZZZZZZZZZZZZZZZZZZ");
    assert_eq!(ShortId::from_uuid(0x001a4929_cd4e_4719_822c_4ec8fe8e743b).to_string(), "00394JKKAE8WCR4B2ES3Z8WX1V");
}

#[test]
fn short_text_is_read_in_either_case() {
    assert_eq!(ShortId::from_str("0000000000000000000000000z").unwrap().as_uuid(), 31);
    assert_eq!(ShortId::from_str("0000000000000000000000000Z").unwrap().into_uuid(), 31);
    assert_eq!(ShortId::from_str("0000000000000000000000001a").unwrap().as_uuid(), 42);
    assert_eq!(ShortId::from_str("7ZZZZZZZZZZZZZZZZZZZZZZZZZ").unwrap().as_uuid(), u128::MAX);
}

#[test]
fn high_bits_of_the_first_digit_are_dropped() {
    assert_eq!(ShortId::from_str("80000000000000000000000000").unwrap().as_uuid(), 0);
    assert_eq!(ShortId::from_str("ZZZZZZZZZZZZZZZZZZZZZZZZZZ").unwrap().as_uuid(), u128::MAX);
}

#[test]
fn excluded_letters_are_no_digits() {
    for bad in ["I", "L", "O", "U", "i", "l", "o", "u", "-", " ", "\u{e9}"] {
        let text = format!("{}{}", "0".repeat(25), bad);
        assert_eq!(ShortId::from_str(&text), Err(ParseShortIdError::DecodeFailure));
    }
    assert_eq!(ShortId::from_str(""), Err(ParseShortIdError::DecodeFailure));
    assert_eq!(ShortId::from_str(&"0".repeat(27)), Err(ParseShortIdError::DecodeFailure));
    assert_eq!(
        ParseShortIdError::DecodeFailure.to_string(),
        "value could not be parsed as an identifier"
    );
}

#[test]
fn fresh_identifiers_carry_the_marks_of_version_four() {
    let id = ShortId::new().as_uuid();
    assert_eq!(Uuid::from_u128(id).get_version_num(), 4);
    assert_eq!(id & 0xc000_0000_0000_0000, 0x8000_0000_0000_0000);
}
