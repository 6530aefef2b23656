use topup::address::{parse_address, Address};
use topup::codec::{decode, AbiCall, CallKind, CodecError};
use topup::hexnum::{parse_hex, to_hex};
use topup::word::Uint256;

fn addr(s: &str) -> Address {
    parse_address(s).unwrap()
}

#[test]
fn encode_balance_of_scenario() {
    let call = AbiCall::BalanceOf { account: addr("0x1111111111111111111111111111111111111111") };
    let encoded = call.encode();
    let mut expected: Vec<u8> = vec![0x70, 0xa0, 0x82, 0x31];
    expected.extend(std::iter::repeat(0u8).take(12));
    expected.extend(std::iter::repeat(0x11u8).take(20));
    assert_eq!(encoded, expected);
}

#[test]
fn encode_transfer_scenario() {
    let call = AbiCall::Transfer {
        to: addr("0x2222222222222222222222222222222222222222"),
        amount: Uint256::from_u128(1000000000),
    };
    let encoded = call.encode();
    let mut expected: Vec<u8> = vec![0xa9, 0x05, 0x9c, 0xbb];
    expected.extend(std::iter::repeat(0u8).take(12));
    expected.extend(std::iter::repeat(0x22u8).take(20));
    expected.extend(std::iter::repeat(0u8).take(28));
    expected.extend(vec![0x3b, 0x9a, 0xca, 0x00]);
    assert_eq!(encoded, expected);
}

#[test]
fn round_trip_balance_of() {
    let call = AbiCall::BalanceOf { account: addr("0xabcdefABCDEF00112233445566778899aabbccdd") };
    let encoded = call.encode();
    match decode(&encoded, CallKind::BalanceOf) {
        Ok(AbiCall::BalanceOf { account }) => {
            assert_eq!(
                account.bytes(),
                addr("0xabcdefABCDEF00112233445566778899aabbccdd").bytes()
            );
        }
        other => panic!("expected a balanceOf call, got {:?}", other),
    }
}

#[test]
fn round_trip_transfer() {
    let call = AbiCall::Transfer {
        to: addr("0x00000000000000000000000000000000000000ff"),
        amount: Uint256::from_u128(u128::MAX),
    };
    let encoded = call.encode();
    match decode(&encoded, CallKind::Transfer) {
        Ok(AbiCall::Transfer { to, amount }) => {
            assert_eq!(to.bytes(), addr("0x00000000000000000000000000000000000000ff").bytes());
            assert_eq!(amount.bytes(), Uint256::from_u128(u128::MAX).bytes());
        }
        other => panic!("expected a transfer call, got {:?}", other),
    }
}

#[test]
fn decode_rejects_mismatched_selector() {
    let call = AbiCall::BalanceOf { account: addr("0x1111111111111111111111111111111111111111") };
    let encoded = call.encode();
    assert!(matches!(decode(&encoded, CallKind::Transfer), Err(CodecError::SelectorMismatch)));
}

#[test]
fn decode_rejects_short_input() {
    let bytes: Vec<u8> = vec![0x70, 0xa0];
    assert!(matches!(decode(&bytes, CallKind::BalanceOf), Err(CodecError::SelectorMismatch)));
}

#[test]
fn decode_rejects_wrong_length() {
    let mut bytes: Vec<u8> = vec![0x70, 0xa0, 0x82, 0x31];
    bytes.extend(std::iter::repeat(0u8).take(31));
    assert!(matches!(decode(&bytes, CallKind::BalanceOf), Err(CodecError::MalformedField)));
}

#[test]
fn decode_rejects_nonzero_address_padding() {
    let mut bytes: Vec<u8> = vec![0x70, 0xa0, 0x82, 0x31];
    bytes.push(1u8);
    bytes.extend(std::iter::repeat(0u8).take(31));
    assert!(matches!(decode(&bytes, CallKind::BalanceOf), Err(CodecError::MalformedField)));
}

#[test]
fn word_of_zero_is_all_zero() {
    let w = Uint256::from_u128(0);
    assert_eq!(w.bytes(), &vec![0u8; 32]);
}

#[test]
fn word_of_max_u128_fills_low_half() {
    let w = Uint256::from_u128(u128::MAX);
    let mut expected = vec![0u8; 16];
    expected.extend(std::iter::repeat(0xffu8).take(16));
    assert_eq!(w.bytes(), &expected);
}

#[test]
fn hex_round_trip_representative_values() {
    for v in [
        0u128,
        1,
        15,
        16,
        255,
        1000000000,
        u128::from(u64::MAX),
        1u128 << 127,
        u128::MAX,
    ] {
        assert_eq!(parse_hex(&to_hex(v)), Some(v));
    }
}

#[test]
fn to_hex_is_canonical() {
    assert_eq!(to_hex(0), "0x0");
    assert_eq!(to_hex(1), "0x1");
    assert_eq!(to_hex(48879), "0xbeef");
    assert_eq!(to_hex(u128::MAX), "0xffffffffffffffffffffffffffffffff");
}

#[test]
fn parse_hex_accepts_plain_and_prefixed() {
    assert_eq!(parse_hex("0x1"), Some(1));
    assert_eq!(parse_hex("1"), Some(1));
    assert_eq!(parse_hex("0X1"), None);
    assert_eq!(parse_hex("0x00ff"), Some(255));
    assert_eq!(parse_hex("DeadBeef"), Some(0xdeadbeef));
}

#[test]
fn parse_hex_rejects_junk() {
    assert_eq!(parse_hex(""), None);
    assert_eq!(parse_hex("0x"), None);
    assert_eq!(parse_hex("+5"), None);
    assert_eq!(parse_hex("xyz"), None);
    assert_eq!(parse_hex("0x12g4"), None);
    // 33 significant digits: one past the 128-bit range.
    assert_eq!(parse_hex("0x100000000000000000000000000000000"), None);
    // Leading zeros do not change the value, whatever the length.
    assert_eq!(parse_hex("0x0000000000000000000000000000000000000001"), Some(1));
}

#[test]
fn parse_address_accepts_either_case_and_prefix() {
    let lower = parse_address("0xabcdef0123456789abcdef0123456789abcdef01").unwrap();
    let upper = parse_address("ABCDEF0123456789ABCDEF0123456789ABCDEF01").unwrap();
    assert_eq!(lower.bytes(), upper.bytes());
    assert_eq!(lower.to_hex_string(), "0xabcdef0123456789abcdef0123456789abcdef01");
}

#[test]
fn parse_address_rejects_bad_input() {
    assert!(parse_address("").is_none());
    assert!(parse_address("0x1234").is_none());
    assert!(parse_address("0xabcdef0123456789abcdef0123456789abcdef0").is_none());
    assert!(parse_address("0xabcdef0123456789abcdef0123456789abcdef012").is_none());
    assert!(parse_address("0xzbcdef0123456789abcdef0123456789abcdef01").is_none());
}
