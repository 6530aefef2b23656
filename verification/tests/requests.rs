use topup::address::parse_address;
use topup::codec::AbiCall;
use topup::error::PipelineError;
use topup::hexnum::bytes_to_hex;
use topup::request::{
    balance_request, estimate_gas_request, gas_price_request, send_raw_request,
    token_balance_request, tx_count_request,
};

#[test]
fn balance_request_body_is_bit_exact() {
    let a = parse_address("0x1111111111111111111111111111111111111111").unwrap();
    assert_eq!(
        balance_request(&a, 7),
        "{\"jsonrpc\":\"2.0\",\"method\":\"eth_getBalance\",\"params\":\
         [\"0x1111111111111111111111111111111111111111\",\"latest\"],\"id\":7}"
    );
}

#[test]
fn token_balance_request_body_is_bit_exact() {
    let from = parse_address("0x1291351b8Aa33FdC64Ac77C8302Db523d5B43AeF").unwrap();
    let contract = parse_address("0x3333333333333333333333333333333333333333").unwrap();
    let watched = parse_address("0x2222222222222222222222222222222222222222").unwrap();
    let data = AbiCall::BalanceOf { account: watched }.encode();
    assert_eq!(
        token_balance_request(&from, &contract, &data, 12),
        "{\"jsonrpc\":\"2.0\",\"method\":\"eth_call\",\"params\":[{\
         \"from\":\"0x1291351b8aa33fdc64ac77c8302db523d5b43aef\",\
         \"to\":\"0x3333333333333333333333333333333333333333\",\
         \"data\":\"0x70a082310000000000000000000000002222222222222222222222222222222222222222\"},\
         \"latest\"],\"id\":12}"
    );
}

#[test]
fn gas_price_request_body_is_bit_exact() {
    assert_eq!(
        gas_price_request(2),
        "{\"jsonrpc\":\"2.0\",\"method\":\"eth_gasPrice\",\"params\":[],\"id\":2}"
    );
}

#[test]
fn estimate_gas_request_body_is_bit_exact() {
    let to = parse_address("0x2222222222222222222222222222222222222222").unwrap();
    assert_eq!(
        estimate_gas_request(&to, 0x9184e72a000, 3),
        "{\"jsonrpc\":\"2.0\",\"method\":\"eth_estimateGas\",\"params\":[{\
         \"to\":\"0x2222222222222222222222222222222222222222\",\
         \"gasPrice\":\"0x9184e72a000\"}],\"id\":3}"
    );
}

#[test]
fn tx_count_request_body_is_bit_exact() {
    let a = parse_address("0x1291351b8Aa33FdC64Ac77C8302Db523d5B43AeF").unwrap();
    assert_eq!(
        tx_count_request(&a, 4),
        "{\"jsonrpc\":\"2.0\",\"method\":\"eth_getTransactionCount\",\"params\":\
         [\"0x1291351b8aa33fdc64ac77c8302db523d5b43aef\",\"latest\"],\"id\":4}"
    );
}

#[test]
fn send_raw_request_body_is_bit_exact() {
    let payload: Vec<u8> = vec![0xf8, 0x6b, 0x01, 0x00];
    assert_eq!(
        send_raw_request(&payload, 5),
        "{\"jsonrpc\":\"2.0\",\"method\":\"eth_sendRawTransaction\",\"params\":\
         [\"0xf86b0100\"],\"id\":5}"
    );
}

#[test]
fn bytes_to_hex_renders_each_byte() {
    let bytes: Vec<u8> = vec![0x00, 0x0f, 0xf0, 0xff];
    assert_eq!(bytes_to_hex(&bytes), "0x000ff0ff");
    let empty: Vec<u8> = vec![];
    assert_eq!(bytes_to_hex(&empty), "0x");
}

#[test]
fn error_messages_name_their_cause() {
    assert_eq!(PipelineError::Transport.message(), "transport failure");
    assert_eq!(PipelineError::Deserialize.message(), "response is not valid JSON");
    assert_eq!(PipelineError::NoResult.message(), "response carries no result");
    assert_eq!(PipelineError::ParseError.message(), "malformed hexadecimal numeral");
    assert_eq!(
        PipelineError::SelectorMismatch.message(),
        "call payload has a mismatched selector"
    );
    assert_eq!(PipelineError::MalformedField.message(), "call payload has a malformed field");
    assert_eq!(PipelineError::AddressParse.message(), "malformed address");
    assert_eq!(PipelineError::Signing.message(), "signing failed");
}
