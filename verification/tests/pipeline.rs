use topup::address::parse_address;
use topup::error::PipelineError;
use topup::pipeline::{build_transaction, Action, Config, Dispatcher, Outcome, Path, State};
use topup::sign::sign_transaction;

const SENDER: &str = "0x1291351b8Aa33FdC64Ac77C8302Db523d5B43AeF";
const RECIPIENT: &str = "0x2222222222222222222222222222222222222222";
const CONTRACT: &str = "0x3333333333333333333333333333333333333333";
// The scalar one: a valid secp256k1 signing key.
const KEY: &str = "0000000000000000000000000000000000000000000000000000000000000001";

fn native_config(threshold: u128) -> Config {
    Config {
        sender: parse_address(SENDER).unwrap(),
        token_contract: None,
        threshold,
        transfer_amount: 1000000000,
        chain_id: 5,
        private_key: KEY.to_string(),
    }
}

fn token_config(threshold: u128) -> Config {
    Config {
        sender: parse_address(SENDER).unwrap(),
        token_contract: Some(parse_address(CONTRACT).unwrap()),
        threshold,
        transfer_amount: 1000000000,
        chain_id: 5,
        private_key: KEY.to_string(),
    }
}

fn body_of(action: Action) -> String {
    match action {
        Action::SendRpc { body } => body,
        other => panic!("expected an RPC action, got {:?}", other),
    }
}

fn message_of(action: Action) -> String {
    match action {
        Action::Report { message } => message,
        other => panic!("expected a report, got {:?}", other),
    }
}

#[test]
fn path_selection_is_a_function_of_configuration() {
    // No token contract configured: the native balance query goes out,
    // whatever the event carried.
    let mut d = Dispatcher::new(native_config(5));
    let body = body_of(d.start(RECIPIENT));
    assert!(body.contains("\"method\":\"eth_getBalance\""));
    assert!(matches!(d.state, State::AwaitingBalance { path: Path::Native, .. }));

    // A token contract configured: the token balance query goes out for
    // the same event.
    let mut d = Dispatcher::new(token_config(5));
    let body = body_of(d.start(RECIPIENT));
    assert!(body.contains("\"method\":\"eth_call\""));
    assert!(body.contains("\"to\":\"0x3333333333333333333333333333333333333333\""));
    assert!(matches!(d.state, State::AwaitingBalance { path: Path::Token, .. }));
}

#[test]
fn low_balance_reaches_the_build_sequence() {
    // A mocked node answers one wei; any positive threshold is above it,
    // so the dispatch moves on to building and the gas price query goes
    // out exactly once.
    let mut d = Dispatcher::new(native_config(5));
    let body = body_of(d.start(RECIPIENT));
    assert_eq!(
        body,
        "{\"jsonrpc\":\"2.0\",\"method\":\"eth_getBalance\",\"params\":\
         [\"0x2222222222222222222222222222222222222222\",\"latest\"],\"id\":1}"
    );
    let next = body_of(d.on_response("{\"jsonrpc\":\"2.0\",\"id\":1,\"result\":\"0x1\"}"));
    assert_eq!(next, "{\"jsonrpc\":\"2.0\",\"method\":\"eth_gasPrice\",\"params\":[],\"id\":2}");
    assert!(matches!(d.state, State::AwaitingGasPrice { .. }));
}

#[test]
fn missing_result_fails_before_any_build_step() {
    // A mocked node answers without a result field: the dispatch fails
    // at the balance query and no further request goes out.
    let mut d = Dispatcher::new(native_config(5));
    let _ = body_of(d.start(RECIPIENT));
    let report = message_of(d.on_response("{\"jsonrpc\":\"2.0\",\"id\":1}"));
    assert_eq!(report, "failed: response carries no result");
    assert!(matches!(
        d.state,
        State::Done { outcome: Outcome::Failed { error: PipelineError::NoResult } }
    ));
}

#[test]
fn balance_at_threshold_is_ignored() {
    let mut d = Dispatcher::new(native_config(0x10));
    let _ = body_of(d.start(RECIPIENT));
    let report = message_of(d.on_response("{\"jsonrpc\":\"2.0\",\"id\":1,\"result\":\"0x10\"}"));
    assert_eq!(report, "success: ignored");
    assert!(matches!(d.state, State::Done { outcome: Outcome::Ignored }));
}

#[test]
fn invalid_json_fails_the_dispatch() {
    let mut d = Dispatcher::new(native_config(5));
    let _ = body_of(d.start(RECIPIENT));
    let report = message_of(d.on_response("not json at all"));
    assert_eq!(report, "failed: response is not valid JSON");
}

#[test]
fn malformed_balance_numeral_fails_the_dispatch() {
    let mut d = Dispatcher::new(native_config(5));
    let _ = body_of(d.start(RECIPIENT));
    let report = message_of(d.on_response("{\"jsonrpc\":\"2.0\",\"id\":1,\"result\":\"0xzz\"}"));
    assert_eq!(report, "failed: malformed hexadecimal numeral");
}

#[test]
fn unparsable_event_address_fails_at_once() {
    let mut d = Dispatcher::new(native_config(5));
    let report = message_of(d.start("no address here"));
    assert_eq!(report, "failed: malformed address");
    assert!(matches!(
        d.state,
        State::Done { outcome: Outcome::Failed { error: PipelineError::AddressParse } }
    ));
}

#[test]
fn transport_failure_is_reported() {
    let mut d = Dispatcher::new(native_config(5));
    let _ = body_of(d.start(RECIPIENT));
    let report = message_of(d.on_transport_error());
    assert_eq!(report, "failed: transport failure");
}

#[test]
fn response_without_a_dispatch_does_nothing() {
    let mut d = Dispatcher::new(native_config(5));
    let action = d.on_response("{\"jsonrpc\":\"2.0\",\"id\":1,\"result\":\"0x1\"}");
    assert!(matches!(action, Action::Nothing));
    assert!(matches!(d.state, State::Idle));
}

#[test]
fn native_dispatch_runs_to_submission() {
    let mut d = Dispatcher::new(native_config(5));
    let _ = body_of(d.start(RECIPIENT));
    let _ = body_of(d.on_response("{\"jsonrpc\":\"2.0\",\"id\":1,\"result\":\"0x1\"}"));
    let estimate_req =
        body_of(d.on_response("{\"jsonrpc\":\"2.0\",\"id\":2,\"result\":\"0x9184e72a000\"}"));
    // The estimate is asked at the fetched price, before any margin.
    assert_eq!(
        estimate_req,
        "{\"jsonrpc\":\"2.0\",\"method\":\"eth_estimateGas\",\"params\":[{\
         \"to\":\"0x2222222222222222222222222222222222222222\",\
         \"gasPrice\":\"0x9184e72a000\"}],\"id\":3}"
    );
    let nonce_req = body_of(d.on_response("{\"jsonrpc\":\"2.0\",\"id\":3,\"result\":\"0x5208\"}"));
    assert_eq!(
        nonce_req,
        "{\"jsonrpc\":\"2.0\",\"method\":\"eth_getTransactionCount\",\"params\":\
         [\"0x1291351b8aa33fdc64ac77c8302db523d5b43aef\",\"latest\"],\"id\":4}"
    );
    // The nonce arrives; the transaction is built, signed with the real
    // signer, and handed out for broadcast.
    let submit_req = body_of(d.on_response("{\"jsonrpc\":\"2.0\",\"id\":4,\"result\":\"0x0\"}"));
    assert!(submit_req.starts_with(
        "{\"jsonrpc\":\"2.0\",\"method\":\"eth_sendRawTransaction\",\"params\":[\"0x"
    ));
    assert!(submit_req.ends_with("\"],\"id\":5}"));
    assert!(matches!(d.state, State::AwaitingSubmission));

    let report = message_of(d.on_response("{\"jsonrpc\":\"2.0\",\"id\":5,\"result\":\"0xhash\"}"));
    assert_eq!(report, "success: tx sended: 0xhash");
    assert!(matches!(d.state, State::Done { outcome: Outcome::Submitted { .. } }));
}

#[test]
fn token_dispatch_submits_an_encoded_transfer() {
    let mut d = Dispatcher::new(token_config(5));
    let _ = body_of(d.start(RECIPIENT));
    let _ = body_of(d.on_response("{\"jsonrpc\":\"2.0\",\"id\":1,\"result\":\"0x1\"}"));
    let _ = body_of(d.on_response("{\"jsonrpc\":\"2.0\",\"id\":2,\"result\":\"0x3b9aca00\"}"));
    let _ = body_of(d.on_response("{\"jsonrpc\":\"2.0\",\"id\":3,\"result\":\"0x5208\"}"));
    let submit_req = body_of(d.on_response("{\"jsonrpc\":\"2.0\",\"id\":4,\"result\":\"0x7\"}"));
    assert!(submit_req.starts_with(
        "{\"jsonrpc\":\"2.0\",\"method\":\"eth_sendRawTransaction\",\"params\":[\"0x"
    ));
    assert!(matches!(d.state, State::AwaitingSubmission));
}

#[test]
fn oversized_chain_id_fails_as_a_signing_error() {
    // A chain id whose recovery value would overflow 64 bits can never
    // be bound into a signature; the dispatch fails instead of signing.
    let mut cfg = native_config(5);
    cfg.chain_id = u64::MAX;
    let mut d = Dispatcher::new(cfg);
    let _ = body_of(d.start(RECIPIENT));
    let _ = body_of(d.on_response("{\"jsonrpc\":\"2.0\",\"id\":1,\"result\":\"0x1\"}"));
    let _ = body_of(d.on_response("{\"jsonrpc\":\"2.0\",\"id\":2,\"result\":\"0x1\"}"));
    let _ = body_of(d.on_response("{\"jsonrpc\":\"2.0\",\"id\":3,\"result\":\"0x5208\"}"));
    let report = message_of(d.on_response("{\"jsonrpc\":\"2.0\",\"id\":4,\"result\":\"0x0\"}"));
    assert_eq!(report, "failed: signing failed");
    assert!(matches!(
        d.state,
        State::Done { outcome: Outcome::Failed { error: PipelineError::Signing } }
    ));
}

#[test]
fn rejected_key_fails_as_a_signing_error() {
    let mut cfg = native_config(5);
    cfg.private_key = "zz".to_string();
    let mut d = Dispatcher::new(cfg);
    let _ = body_of(d.start(RECIPIENT));
    let _ = body_of(d.on_response("{\"jsonrpc\":\"2.0\",\"id\":1,\"result\":\"0x1\"}"));
    let _ = body_of(d.on_response("{\"jsonrpc\":\"2.0\",\"id\":2,\"result\":\"0x1\"}"));
    let _ = body_of(d.on_response("{\"jsonrpc\":\"2.0\",\"id\":3,\"result\":\"0x5208\"}"));
    let report = message_of(d.on_response("{\"jsonrpc\":\"2.0\",\"id\":4,\"result\":\"0x0\"}"));
    assert_eq!(report, "failed: signing failed");
}

#[test]
fn get_id_counts_upward() {
    let mut d = Dispatcher::new(native_config(5));
    assert_eq!(d.get_id(), 1);
    assert_eq!(d.get_id(), 2);
    assert_eq!(d.get_id(), 3);
    assert_eq!(d.next_id, 4);
}

#[test]
fn signing_is_deterministic() {
    let cfg = native_config(5);
    let tx = build_transaction(
        &cfg,
        Path::Native,
        parse_address(RECIPIENT).unwrap(),
        42000,
        20000000000,
        0,
    )
    .unwrap();
    let once = sign_transaction(KEY, &tx).unwrap();
    let again = sign_transaction(KEY, &tx).unwrap();
    assert!(!once.is_empty());
    assert_eq!(once, again);
    // The payload is a signed serialization, not the bare call data.
    assert_ne!(once, tx.data);
}
