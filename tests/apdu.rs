use speculos_client::{decode_apdu_data, encode_apdu_request, DecodeError, WireValue};

fn data_object(text: &str) -> WireValue {
    WireValue::Object(vec![("data".to_string(), WireValue::Str(text.to_string()))])
}

#[test]
fn apdu_request_is_lower_case_hex_in_data_field() {
    assert_eq!(encode_apdu_request(&[1, 2, 3, 15, 16]), data_object("0102030f10"));
    assert_eq!(encode_apdu_request(&[0xe0, 0x01, 0x00, 0x00, 0xff]), data_object("e0010000ff"));
}

#[test]
fn apdu_request_of_empty_payload() {
    assert_eq!(encode_apdu_request(&[]), data_object(""));
}

#[test]
fn hex_round_trip_all_lengths() {
    for len in 0..40usize {
        let data: Vec<u8> = (0..len).map(|i| (i * 37 + 11) as u8).collect();
        let encoded = encode_apdu_request(&data);
        let text = match encoded {
            WireValue::Object(fields) => match &fields[0].1 {
                WireValue::Str(s) => s.clone(),
                other => panic!("unexpected field {:?}", other),
            },
            other => panic!("unexpected value {:?}", other),
        };
        assert_eq!(text.len(), 2 * len);
        assert_eq!(decode_apdu_data(&text), Ok(data));
    }
}

#[test]
fn decode_accepts_either_case() {
    assert_eq!(decode_apdu_data("9000"), Ok(vec![0x90, 0x00]));
    assert_eq!(decode_apdu_data("aBcD"), Ok(vec![0xab, 0xcd]));
    assert_eq!(decode_apdu_data(""), Ok(vec![]));
}

#[test]
fn decode_odd_length_fails() {
    assert_eq!(decode_apdu_data("123"), Err(DecodeError::OddLength));
    assert_eq!(decode_apdu_data("9"), Err(DecodeError::OddLength));
}

#[test]
fn decode_non_hex_fails() {
    assert_eq!(decode_apdu_data("zz"), Err(DecodeError::InvalidHexCharacter));
    assert_eq!(decode_apdu_data("90 0"), Err(DecodeError::InvalidHexCharacter));
    assert_eq!(decode_apdu_data("0x90"), Err(DecodeError::InvalidHexCharacter));
    assert!(decode_apdu_data("é0").is_err());
}
