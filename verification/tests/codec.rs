use monero_rpc::codec::{decode_hex, encode_hex};
use monero_rpc::error::{DecodeError, FormatError};
use monero_rpc::hash::{BlockHash, BlockHashingBlob, HashString, HashType, PaymentId};
use monero_rpc::json::Json;

#[test]
fn encode_hex_writes_two_lowercase_digits_per_byte() {
    assert_eq!(encode_hex(&[]), "");
    assert_eq!(encode_hex(&[0x00]), "00");
    assert_eq!(encode_hex(&[1, 2, 3, 15, 16]), "0102030f10");
    assert_eq!(encode_hex(&[0xde, 0xad, 0xbe, 0xef, 0xff]), "deadbeefff");
}

#[test]
fn encode_hex_is_twice_as_long_as_its_input() {
    for n in [0usize, 1, 8, 32, 76] {
        let bytes: Vec<u8> = (0..n).map(|i| (i * 37 % 256) as u8).collect();
        let text = encode_hex(&bytes);
        assert_eq!(text.len(), 2 * n);
        assert!(text.chars().all(|c| c.is_ascii_digit() || ('a'..='f').contains(&c)));
    }
}

#[test]
fn decode_hex_reads_both_cases() {
    assert_eq!(decode_hex("0102030f10", 5), Ok(vec![1, 2, 3, 15, 16]));
    assert_eq!(decode_hex("DEADbeef", 4), Ok(vec![0xde, 0xad, 0xbe, 0xef]));
    assert_eq!(decode_hex("", 0), Ok(vec![]));
}

#[test]
fn decode_hex_gives_the_bytes_back_for_every_byte_value() {
    let bytes: Vec<u8> = (0..=255u8).collect();
    let text = encode_hex(&bytes);
    assert_eq!(decode_hex(&text, 256), Ok(bytes));
}

#[test]
fn decode_hex_refuses_what_is_not_a_digit() {
    assert_eq!(decode_hex("zz", 1), Err(FormatError::InvalidHexCharacter));
    assert_eq!(decode_hex("0g", 1), Err(FormatError::InvalidHexCharacter));
    assert_eq!(decode_hex("0x01", 1), Err(FormatError::InvalidHexCharacter));
    assert_eq!(decode_hex("01 02", 2), Err(FormatError::InvalidHexCharacter));
    assert_eq!(decode_hex("0102\n", 2), Err(FormatError::InvalidHexCharacter));
    assert_eq!(decode_hex("\u{e9}\u{e9}", 1), Err(FormatError::InvalidHexCharacter));
    assert_eq!(decode_hex("0", 1).is_err(), true);
}

#[test]
fn decode_hex_refuses_an_odd_number_of_digits() {
    assert_eq!(decode_hex("abc", 1), Err(FormatError::OddLength));
    assert_eq!(decode_hex("a", 0), Err(FormatError::OddLength));
}

#[test]
fn decode_hex_refuses_another_length() {
    assert_eq!(decode_hex("abcd", 1), Err(FormatError::WrongLength));
    assert_eq!(decode_hex("abcd", 3), Err(FormatError::WrongLength));
    assert_eq!(decode_hex("", 1), Err(FormatError::WrongLength));
}

#[test]
fn decode_hex_names_the_first_fault_in_its_order() {
    // a character that is no digit counts before the length does
    assert_eq!(decode_hex("xyz", 1), Err(FormatError::InvalidHexCharacter));
    // an odd number of digits counts before the wrong number of bytes
    assert_eq!(decode_hex("abcde", 1), Err(FormatError::OddLength));
}

#[test]
fn identifier_kinds_have_their_lengths() {
    assert_eq!(BlockHash::len_bytes(), 32);
    assert_eq!(BlockHashingBlob::len_bytes(), 76);
    assert_eq!(PaymentId::len_bytes(), 8);
    assert_eq!(BlockHash([7u8; 32]).bytes(), &[7u8; 32][..]);
    assert_eq!(BlockHash::from_slice(&[9u8; 32]), BlockHash([9u8; 32]));
    assert_eq!(PaymentId::from_slice(&[1, 2, 3, 4, 5, 6, 7, 8]), PaymentId([1, 2, 3, 4, 5, 6, 7, 8]));
}

#[test]
fn hash_string_round_trips_each_kind() {
    let hash = BlockHash([0xab; 32]);
    let text = HashString(hash).encode();
    assert_eq!(text, "ab".repeat(32));
    assert_eq!(HashString::<BlockHash>::decode(&text), Ok(HashString(hash)));

    let mut raw = [0u8; 76];
    for (i, b) in raw.iter_mut().enumerate() {
        *b = i as u8;
    }
    let blob = BlockHashingBlob(raw);
    let text = HashString(blob).encode();
    assert_eq!(text.len(), 152);
    assert_eq!(HashString::<BlockHashingBlob>::decode(&text), Ok(HashString(blob)));

    let id = PaymentId([0x01, 0x23, 0x45, 0x67, 0x89, 0xab, 0xcd, 0xef]);
    assert_eq!(HashString(id).encode(), "0123456789abcdef");
    assert_eq!(HashString::<PaymentId>::decode("0123456789abcdef"), Ok(HashString(id)));
}

#[test]
fn hash_string_refuses_the_length_of_another_kind() {
    assert_eq!(
        HashString::<BlockHash>::decode(&"ab".repeat(31)),
        Err(FormatError::WrongLength)
    );
    assert_eq!(
        HashString::<BlockHash>::decode(&"ab".repeat(33)),
        Err(FormatError::WrongLength)
    );
    assert_eq!(
        HashString::<PaymentId>::decode(&"ab".repeat(32)),
        Err(FormatError::WrongLength)
    );
    assert_eq!(
        HashString::<BlockHashingBlob>::decode(&"ab".repeat(32)),
        Err(FormatError::WrongLength)
    );
}

#[test]
fn hash_string_travels_as_json_text() {
    let id = PaymentId([0xff, 0, 0xff, 0, 0xff, 0, 0xff, 0]);
    assert_eq!(HashString(id).serialize(), Json::Text("ff00ff00ff00ff00".to_string()));
    assert_eq!(
        HashString::<PaymentId>::deserialize(&Json::Text("ff00ff00ff00ff00".to_string())),
        Ok(HashString(id))
    );
    assert_eq!(
        HashString::<PaymentId>::deserialize(&Json::Unsigned(5)),
        Err(DecodeError::WrongType)
    );
    assert_eq!(
        HashString::<PaymentId>::deserialize(&Json::Text("ff00".to_string())),
        Err(DecodeError::Format(FormatError::WrongLength))
    );
    assert_eq!(
        HashString::<PaymentId>::deserialize(&Json::Text("gg00ff00ff00ff00".to_string())),
        Err(DecodeError::Format(FormatError::InvalidHexCharacter))
    );
}
