use vstd::prelude::*;

use crate::wire::{fields_view, lemma_object_view, Json, WireValue};

verus! {

/// The sixteen lower-case hexadecimal digits, in order of value.
pub open spec fn hex_digit(n: int) -> char {
    "0123456789abcdef"@[n]
}

/// Lower-case hex text of a byte buffer: two digits per byte, high nibble first.
pub open spec fn hex_text(data: Seq<u8>) -> Seq<char> {
    Seq::new(
        2 * data.len(),
        |i: int|
            if i % 2 == 0 {
                hex_digit(data[i / 2] as int / 16)
            } else {
                hex_digit(data[i / 2] as int % 16)
            },
    )
}

/// A hexadecimal digit of either case.
pub open spec fn is_hex_char(c: char) -> bool {
    ||| '0' <= c <= '9'
    ||| 'a' <= c <= 'f'
    ||| 'A' <= c <= 'F'
}

/// The value of a hexadecimal digit.
pub open spec fn hex_value(c: char) -> int {
    if '0' <= c <= '9' {
        c as int - '0' as int
    } else if 'a' <= c <= 'f' {
        c as int - 'a' as int + 10
    } else {
        c as int - 'A' as int + 10
    }
}

/// Text that decodes as hex: an even number of hexadecimal digits.
pub open spec fn is_hex_text(text: Seq<char>) -> bool {
    &&& text.len() % 2 == 0
    &&& forall|i: int| 0 <= i < text.len() ==> is_hex_char(#[trigger] text[i])
}

/// The bytes that hex text stands for, each from a pair of digits.
pub open spec fn hex_bytes(text: Seq<char>) -> Seq<u8> {
    Seq::new(
        text.len() / 2,
        |i: int| (hex_value(text[2 * i]) * 16 + hex_value(text[2 * i + 1])) as u8,
    )
}

/// Every character is in the ASCII range.
pub open spec fn is_ascii_text(text: Seq<char>) -> bool {
    forall|i: int| 0 <= i < text.len() ==> (#[trigger] text[i]) as int <= 127
}

/// Why an APDU payload's hex text could not be decoded.
#[derive(Debug, Clone, Copy, PartialEq, Eq, Structural)]
pub enum DecodeError {
    /// The text has an odd number of digits.
    OddLength,
    /// The text holds a character that is not a hexadecimal digit.
    InvalidHexCharacter,
}

#[verifier::external_type_specification]
pub struct ExFromHexError(hex::FromHexError);

/// Relies on `hex::encode`: each byte becomes two lower-case digits, high nibble first.
#[verifier::external_body]
fn hex_encode(data: &[u8]) -> (r: String)
    ensures
        r@ == hex_text(data@),
{
    hex::encode(data)
}

/// Relies on `hex::decode`: it accepts an even number of digits of either case and
/// turns each pair into one byte; on ASCII text it reports an odd length first.
#[verifier::external_body]
fn hex_decode(text: &str) -> (r: Result<Vec<u8>, hex::FromHexError>)
    ensures
        r is Ok <==> is_hex_text(text@),
        r matches Ok(v) ==> v@ == hex_bytes(text@),
        is_ascii_text(text@) ==> (r matches Err(hex::FromHexError::OddLength) <==> text@.len() % 2
            == 1),
{
    hex::decode(text)
}

/// The request body of the APDU endpoint: `{"data": "<hex>"}`.
pub open spec fn apdu_request_json(data: Seq<u8>) -> Json {
    Json::Object(seq![("data"@, Json::Str(hex_text(data)))])
}

/// Encodes an APDU payload as the body the emulator's `/apdu` endpoint takes.
pub fn encode_apdu_request(data: &[u8]) -> (r: WireValue)
    ensures
        r@ == apdu_request_json(data@),
{
    let text = hex_encode(data);
    let key = "data".to_owned();
    let fields = vec![(key, WireValue::Str(text))];
    let r = WireValue::Object(fields);
    proof {
        lemma_object_view(r);
        assert(fields_view(r->Object_0@) =~= seq![("data"@, Json::Str(hex_text(data@)))]);
    }
    r
}

/// Decodes the hex text of the `data` field of an `/apdu` response into its bytes.
pub fn decode_apdu_data(text: &str) -> (r: Result<Vec<u8>, DecodeError>)
    ensures
        r is Ok <==> is_hex_text(text@),
        r matches Ok(v) ==> v@ == hex_bytes(text@),
        is_ascii_text(text@) && text@.len() % 2 == 1 ==> r == Err::<Vec<u8>, DecodeError>(
            DecodeError::OddLength,
        ),
        is_ascii_text(text@) && text@.len() % 2 == 0 && !is_hex_text(text@) ==> r == Err::<
            Vec<u8>,
            DecodeError,
        >(DecodeError::InvalidHexCharacter),
{
    match hex_decode(text) {
        Ok(v) => Ok(v),
        Err(hex::FromHexError::OddLength) => Err(DecodeError::OddLength),
        Err(_) => Err(DecodeError::InvalidHexCharacter),
    }
}

proof fn lemma_digit_round_trip(n: int)
    requires
        0 <= n < 16,
    ensures
        is_hex_char(hex_digit(n)),
        hex_value(hex_digit(n)) == n,
{
    reveal_strlit("0123456789abcdef");
}

/// Hex text of any buffer, of any length including zero, is valid hex text and decodes
/// back to that same buffer.
pub proof fn lemma_hex_round_trip(data: Seq<u8>)
    ensures
        is_hex_text(hex_text(data)),
        hex_bytes(hex_text(data)) == data,
{
    let text = hex_text(data);
    assert forall|i: int| 0 <= i < text.len() implies is_hex_char(#[trigger] text[i]) by {
        lemma_digit_round_trip(data[i / 2] as int / 16);
        lemma_digit_round_trip(data[i / 2] as int % 16);
    }
    assert forall|i: int| 0 <= i < data.len() implies #[trigger] hex_bytes(text)[i] == data[i] by {
        assert((2 * i) / 2 == i);
        assert((2 * i + 1) / 2 == i);
        lemma_digit_round_trip(data[i] as int / 16);
        lemma_digit_round_trip(data[i] as int % 16);
        let b = data[i] as int;
        assert(b / 16 * 16 + b % 16 == b);
    }
    assert(hex_bytes(text) =~= data);
}

} // verus!
