use paymesh::util::felt::Felt;
use paymesh::util::hex::{hex_string, HEX_DIGITS};

fn felt(last: &[u8]) -> Felt {
    let mut bytes = [0u8; 32];
    bytes[32 - last.len()..].copy_from_slice(last);
    Felt { bytes }
}

#[test]
fn digits_are_lower_case() {
    assert_eq!(HEX_DIGITS, "0123456789abcdef");
    assert_eq!(hex_string(&felt(&[0xab, 0xcd, 0xef])), "0xabcdef");
}

#[test]
fn zero_is_one_digit() {
    assert_eq!(hex_string(&felt(&[])), "0x0");
}

#[test]
fn small_numbers_have_no_leading_zero() {
    assert_eq!(hex_string(&felt(&[0x01])), "0x1");
    assert_eq!(hex_string(&felt(&[0x0f])), "0xf");
    assert_eq!(hex_string(&felt(&[0x10])), "0x10");
    assert_eq!(hex_string(&felt(&[0x0a, 0xbc])), "0xabc");
    assert_eq!(hex_string(&felt(&[0x01, 0x00])), "0x100");
}

#[test]
fn zeros_inside_and_behind_stay() {
    assert_eq!(hex_string(&felt(&[0x10, 0x00, 0x20, 0x00])), "0x10002000");
    assert_eq!(hex_string(&felt(&[0x00, 0x09, 0x00, 0x90])), "0x90090");
}

#[test]
fn every_digit_is_written() {
    let value = felt(&[0x01, 0x23, 0x45, 0x67, 0x89, 0xab, 0xcd, 0xef]);
    assert_eq!(hex_string(&value), "0x123456789abcdef");
}

#[test]
fn full_width_number_has_64_digits() {
    let value = Felt { bytes: [0xff; 32] };
    assert_eq!(hex_string(&value), format!("0x{}", "f".repeat(64)));
    let mut bytes = [0u8; 32];
    bytes[0] = 0x08;
    bytes[7] = 0x11;
    assert_eq!(
        hex_string(&Felt { bytes }),
        format!("0x800000000000011{}", "0".repeat(48))
    );
}

#[test]
fn text_agrees_with_the_chain_library() {
    for last in [&[][..], &[0x01][..], &[0x0a, 0xbc][..], &[0xde, 0xad, 0xbe, 0xef, 0x00][..]] {
        let value = felt(last);
        let native = starknet::core::types::Felt::from_bytes_be(&value.bytes);
        assert_eq!(hex_string(&value), native.to_hex_string());
    }
}
