//! The dispatch pipeline: balance check, decision, transaction build,
//! sign and submit, driven as a state machine.
//!
//! The caller owns the I/O: it performs each [`Action`] (an HTTP POST of
//! the given body, or forwarding a report) and feeds the outcome back in.
//! Every decision between two requests is made here, in verified code.

use crate::address::{parse_address, parse_address_spec, Address};
use crate::codec::{encode_view, AbiCall, CallView};
use crate::error::PipelineError;
use crate::hexnum::{parse_hex, parse_hex_spec};
use crate::request::{
    balance_request, balance_request_view, estimate_gas_request, estimate_gas_request_view,
    gas_price_request, gas_price_request_view, send_raw_request, send_raw_request_view,
    token_balance_request, token_balance_request_view, tx_count_request, tx_count_request_view,
};
use crate::response::{extract_result, rpc_outcome_of};
use crate::sign::{
    chain_id_signable, key_accepted, sign_transaction, signed_payload_of, UnsignedTransaction,
};
use crate::word::{be_word_of_u128, Uint256};
use vstd::prelude::*;
use vstd::string::StringExecFns;

verus! {

/// Which asset is watched and topped up.
#[derive(Clone, Copy, Debug, PartialEq, Eq, Structural)]
pub enum Path {
    /// The chain's native currency.
    Native,
    /// The configured token contract's asset.
    Token,
}

/// Immutable per-process configuration, built once at start-up and
/// passed by reference into every dispatch.
pub struct Config {
    /// The funding account: sender of every top-up transaction.
    pub sender: Address,
    /// The token contract to watch; `None` selects the native path.
    pub token_contract: Option<Address>,
    /// Balances strictly below this trigger a top-up, in base units.
    pub threshold: u128,
    /// The fixed amount each top-up moves, in base units.
    pub transfer_amount: u128,
    /// Network identifier bound into every signature. An id too large
    /// for its recovery value to fit 64 bits cannot be bound and fails
    /// the dispatch at the signing step.
    pub chain_id: u64,
    /// Hex-encoded signing key; never leaves the signing component.
    pub private_key: String,
}

/// The terminal outcome of one dispatch.
#[derive(Debug)]
pub enum Outcome {
    /// The transaction was broadcast; the node returned this hash.
    Submitted { tx_hash: String },
    /// The balance was at or above the threshold; nothing was sent.
    Ignored,
    /// A step failed; no further request was made.
    Failed { error: PipelineError },
}

/// Where a dispatch stands while a request is in flight.
#[derive(Debug)]
pub enum State {
    /// No dispatch has begun.
    Idle,
    /// The balance query is out.
    AwaitingBalance { path: Path, recipient: Address },
    /// The balance was below the threshold; the gas price query is out.
    AwaitingGasPrice { path: Path, recipient: Address },
    /// The gas estimate query is out; `gas_price` already carries its margin.
    AwaitingGasEstimate { path: Path, recipient: Address, gas_price: u128 },
    /// The nonce query is out; `gas` already carries its margin.
    AwaitingNonce { path: Path, recipient: Address, gas_price: u128, gas: u128 },
    /// The signed payload has been handed out for broadcast.
    AwaitingSubmission,
    /// The dispatch is over.
    Done { outcome: Outcome },
}

/// What the caller must do next.
#[derive(Debug)]
pub enum Action {
    /// POST this body to the JSON-RPC endpoint and feed the response
    /// back through `on_response`, or `on_transport_error`.
    SendRpc { body: String },
    /// Forward this message to the notification channel; the dispatch
    /// is over.
    Report { message: String },
    /// No request was in flight; nothing to do.
    Nothing,
}

/// The path is a pure function of configuration alone: a configured
/// token contract selects the token path, none the native path. The
/// event's content plays no part.
pub open spec fn path_of_config(cfg: Config) -> Path {
    if cfg.token_contract is Some {
        Path::Token
    } else {
        Path::Native
    }
}

/// The request-id counter after one draw: it grows until it sticks at
/// the top; ids are correlation hints, not uniqueness-critical keys.
pub open spec fn bumped(id: u64) -> u64 {
    if id == u64::MAX {
        id
    } else {
        (id + 1) as u64
    }
}

/// Margin on the fetched gas price: doubled before submission.
pub open spec fn with_price_margin(p: nat) -> nat {
    2 * p
}

/// Margin on the estimated gas of a native transfer: doubled.
pub open spec fn with_native_gas_margin(g: nat) -> nat {
    2 * g
}

/// Margin on the estimated gas of a token transfer: extra gas per
/// payload byte on top of the raw estimate.
pub open spec fn with_token_gas_margin(g: nat, data_len: nat) -> nat {
    g + data_len * 680
}

/// The `transfer(recipient, amount)` call a token top-up encodes.
pub open spec fn transfer_call_view(cfg: Config, recipient: Seq<u8>) -> CallView {
    CallView::Transfer { to: recipient, amount: be_word_of_u128(cfg.transfer_amount) }
}

/// The report of a dispatch that was ignored.
pub open spec fn ignored_message_view() -> Seq<char> {
    "success: ignored"@
}

/// The report of a broadcast transaction.
pub open spec fn submitted_message_view(hash: Seq<char>) -> Seq<char> {
    "success: tx sended: "@ + hash
}

/// The report of a failed dispatch.
pub open spec fn failed_message_view(e: PipelineError) -> Seq<char> {
    "failed: "@ + e.message_view()
}

/// One dispatch at a time: configuration, the state between requests,
/// and the request-id counter. Ids are correlation hints only; a fresh
/// dispatcher starts them over.
pub struct Dispatcher {
    pub cfg: Config,
    pub state: State,
    pub next_id: u64,
}

/// The dispatch failed with `e`: terminal failed state, a failure
/// report, and no request id consumed.
pub open spec fn failed_to(pre: Dispatcher, post: Dispatcher, r: Action, e: PipelineError) -> bool {
    &&& post.cfg == pre.cfg
    &&& post.next_id == pre.next_id
    &&& post.state matches State::Done { outcome: Outcome::Failed { error } } && error == e
    &&& r matches Action::Report { message } && message@ == failed_message_view(e)
}

/// The signing step of the dispatch, for a transaction with exactly
/// these fields: an accepted key hands its signed payload out for
/// broadcast; a rejected key, or a chain id too large for its recovery
/// value to be bound at all, fails the dispatch.
pub open spec fn sign_step(
    pre: Dispatcher,
    post: Dispatcher,
    r: Action,
    from: Seq<u8>,
    to: Seq<u8>,
    value: u128,
    gas: u128,
    gas_price: u128,
    nonce: u128,
    data: Seq<u8>,
) -> bool {
    if chain_id_signable(pre.cfg.chain_id) && key_accepted(pre.cfg.private_key@) {
        &&& post.cfg == pre.cfg
        &&& post.state is AwaitingSubmission
        &&& post.next_id == bumped(pre.next_id)
        &&& r matches Action::SendRpc { body } && body@ == send_raw_request_view(
            signed_payload_of(
                pre.cfg.private_key@,
                from,
                to,
                value,
                gas,
                gas_price,
                nonce,
                pre.cfg.chain_id,
                data,
            ),
            pre.next_id as nat,
        )
    } else {
        failed_to(pre, post, r, PipelineError::Signing)
    }
}

/// The transition relation of one dispatch step: how the machine moves
/// from `pre` to `post`, and which action it hands out, on the outcome
/// of the in-flight request.
///
/// A balance strictly below the threshold starts the build sequence;
/// one at or above it ends the dispatch as ignored with no further
/// request. Any error, and any numeral whose value would overflow its
/// margin, moves directly to the failed terminal state.
pub open spec fn steps_to(
    pre: Dispatcher,
    post: Dispatcher,
    outcome: Result<Seq<char>, PipelineError>,
    r: Action,
) -> bool {
    &&& post.cfg == pre.cfg
    &&& (pre.state is Idle ==> post.state is Idle && r is Nothing && post.next_id == pre.next_id)
    &&& (pre.state matches State::Done { .. } ==> post.state == pre.state && r is Nothing
        && post.next_id == pre.next_id)
    &&& (pre.state matches State::AwaitingBalance { path, recipient } ==> match outcome {
        Ok(s) => match parse_hex_spec(s) {
            Some(balance) => if balance < pre.cfg.threshold {
                &&& post.state matches State::AwaitingGasPrice { path: p2, recipient: r2 } && p2
                    == path && r2@ == recipient@
                &&& post.next_id == bumped(pre.next_id)
                &&& r matches Action::SendRpc { body } && body@ == gas_price_request_view(
                    pre.next_id as nat,
                )
            } else {
                &&& post.state matches State::Done { outcome: Outcome::Ignored }
                &&& post.next_id == pre.next_id
                &&& r matches Action::Report { message } && message@ == ignored_message_view()
            },
            None => failed_to(pre, post, r, PipelineError::ParseError),
        },
        Err(e) => failed_to(pre, post, r, e),
    })
    &&& (pre.state matches State::AwaitingGasPrice { path, recipient } ==> match outcome {
        Ok(s) => match parse_hex_spec(s) {
            Some(price) => if with_price_margin(price as nat) <= u128::MAX {
                &&& post.state matches State::AwaitingGasEstimate {
                    path: p2,
                    recipient: r2,
                    gas_price,
                } && p2 == path && r2@ == recipient@ && gas_price as nat == with_price_margin(
                    price as nat,
                )
                &&& post.next_id == bumped(pre.next_id)
                &&& r matches Action::SendRpc { body } && body@ == estimate_gas_request_view(
                    recipient@,
                    price as nat,
                    pre.next_id as nat,
                )
            } else {
                failed_to(pre, post, r, PipelineError::ParseError)
            },
            None => failed_to(pre, post, r, PipelineError::ParseError),
        },
        Err(e) => failed_to(pre, post, r, e),
    })
    &&& (pre.state matches State::AwaitingGasEstimate { path, recipient, gas_price }
        ==> match outcome {
        Ok(s) => match parse_hex_spec(s) {
            Some(estimate) => {
                // 68 is the encoded transfer call's length: the token
                // margin is per byte of the payload.
                let gas_with_margin = if path is Native {
                    with_native_gas_margin(estimate as nat)
                } else {
                    with_token_gas_margin(estimate as nat, 68)
                };
                if gas_with_margin <= u128::MAX {
                    &&& post.state matches State::AwaitingNonce {
                        path: p2,
                        recipient: r2,
                        gas_price: gp2,
                        gas,
                    } && p2 == path && r2@ == recipient@ && gp2 == gas_price && gas as nat
                        == gas_with_margin
                    &&& post.next_id == bumped(pre.next_id)
                    &&& r matches Action::SendRpc { body } && body@ == tx_count_request_view(
                        pre.cfg.sender@,
                        pre.next_id as nat,
                    )
                } else {
                    failed_to(pre, post, r, PipelineError::ParseError)
                }
            },
            None => failed_to(pre, post, r, PipelineError::ParseError),
        },
        Err(e) => failed_to(pre, post, r, e),
    })
    &&& (pre.state matches State::AwaitingNonce { path, recipient, gas_price, gas }
        ==> match outcome {
        Ok(s) => match parse_hex_spec(s) {
            Some(nonce) => {
                &&& (path is Native ==> sign_step(
                    pre,
                    post,
                    r,
                    pre.cfg.sender@,
                    recipient@,
                    pre.cfg.transfer_amount,
                    gas,
                    gas_price,
                    nonce,
                    Seq::<u8>::empty(),
                ))
                &&& (path is Token ==> (pre.cfg.token_contract matches Some(contract)
                    ==> sign_step(
                    pre,
                    post,
                    r,
                    pre.cfg.sender@,
                    contract@,
                    0u128,
                    gas,
                    gas_price,
                    nonce,
                    encode_view(transfer_call_view(pre.cfg, recipient@)),
                )))
                &&& (path is Token && pre.cfg.token_contract is None ==> failed_to(
                    pre,
                    post,
                    r,
                    PipelineError::AddressParse,
                ))
            },
            None => failed_to(pre, post, r, PipelineError::ParseError),
        },
        Err(e) => failed_to(pre, post, r, e),
    })
    &&& (pre.state is AwaitingSubmission ==> match outcome {
        Ok(s) => {
            &&& post.state matches State::Done { outcome: Outcome::Submitted { tx_hash } }
                && tx_hash@ == s
            &&& post.next_id == pre.next_id
            &&& r matches Action::Report { message } && message@ == submitted_message_view(s)
        },
        Err(e) => failed_to(pre, post, r, e),
    })
}

/// One response outcome as the mathematics sees it: the extracted
/// `result` text, or the error.
pub open spec fn result_view(outcome: Result<String, PipelineError>) -> Result<
    Seq<char>,
    PipelineError,
> {
    match outcome {
        Ok(s) => Ok(s@),
        Err(e) => Err(e),
    }
}

/// Builds the failure report.
fn report_failure(e: PipelineError) -> (r: String)
    ensures
        r@ == failed_message_view(e),
{
    let mut out = String::from_str("failed: ");
    let detail = e.message();
    out.append(detail.as_str());
    out
}

/// Builds the ignored report.
fn report_ignored() -> (r: String)
    ensures
        r@ == ignored_message_view(),
{
    String::from_str("success: ignored")
}

/// Builds the submission report.
fn report_submitted(hash: &String) -> (r: String)
    ensures
        r@ == submitted_message_view(hash@),
{
    let mut out = String::from_str("success: tx sended: ");
    out.append(hash.as_str());
    out
}

/// Assembles the unsigned top-up transaction for one path.
///
/// The native path moves the fixed amount to the recipient with an
/// empty payload; the token path moves nothing natively and calls
/// `transfer(recipient, amount)` on the configured contract. A token
/// build without a configured contract fails as an address error.
pub fn build_transaction(
    cfg: &Config,
    path: Path,
    recipient: Address,
    gas: u128,
    gas_price: u128,
    nonce: u128,
) -> (r: Result<UnsignedTransaction, PipelineError>)
    ensures
        path is Native ==> (r matches Ok(tx) && {
            &&& tx.from@ == cfg.sender@
            &&& tx.to@ == recipient@
            &&& tx.value == cfg.transfer_amount
            &&& tx.gas == gas
            &&& tx.gas_price == gas_price
            &&& tx.nonce == nonce
            &&& tx.chain_id == cfg.chain_id
            &&& tx.data@ == Seq::<u8>::empty()
        }),
        path is Token ==> (cfg.token_contract matches Some(contract) ==> (r matches Ok(tx) && {
            &&& tx.from@ == cfg.sender@
            &&& tx.to@ == contract@
            &&& tx.value == 0
            &&& tx.gas == gas
            &&& tx.gas_price == gas_price
            &&& tx.nonce == nonce
            &&& tx.chain_id == cfg.chain_id
            &&& tx.data@ == encode_view(transfer_call_view(*cfg, recipient@))
        })),
        path is Token && cfg.token_contract is None ==> (r matches Err(e) && e
            == PipelineError::AddressParse),
{
    match path {
        Path::Native => Ok(
            UnsignedTransaction {
                from: cfg.sender.clone(),
                to: recipient,
                value: cfg.transfer_amount,
                gas,
                gas_price,
                nonce,
                chain_id: cfg.chain_id,
                data: Vec::new(),
            },
        ),
        Path::Token => match &cfg.token_contract {
            None => Err(PipelineError::AddressParse),
            Some(contract) => {
                let amount = Uint256::from_u128(cfg.transfer_amount);
                let call = AbiCall::Transfer { to: recipient, amount };
                let data = call.encode();
                Ok(
                    UnsignedTransaction {
                        from: cfg.sender.clone(),
                        to: contract.clone(),
                        value: 0,
                        gas,
                        gas_price,
                        nonce,
                        chain_id: cfg.chain_id,
                        data,
                    },
                )
            },
        },
    }
}

impl Dispatcher {
    /// A fresh dispatcher: idle, with the first request id.
    pub fn new(cfg: Config) -> (r: Dispatcher)
        ensures
            r.cfg == cfg,
            r.state is Idle,
            r.next_id == 1,
    {
        Dispatcher { cfg, state: State::Idle, next_id: 1 }
    }

    /// Draws the next request id; the counter only ever grows.
    pub fn get_id(&mut self) -> (r: u64)
        ensures
            r == old(self).next_id,
            final(self).next_id == bumped(old(self).next_id),
            final(self).cfg == old(self).cfg,
            final(self).state == old(self).state,
    {
        let id = self.next_id;
        if self.next_id < u64::MAX {
            self.next_id = self.next_id + 1;
        }
        id
    }

    /// Moves to the failed terminal state.
    fn fail(&mut self, e: PipelineError) -> (r: Action)
        ensures
            failed_to(*old(self), *final(self), r, e),
    {
        self.state = State::Done { outcome: Outcome::Failed { error: e } };
        Action::Report { message: report_failure(e) }
    }

    /// Begins a dispatch for one delivered event: the watched address is
    /// the recipient of a possible top-up. The path is chosen from the
    /// configuration alone; an unparsable address fails at once.
    pub fn start(&mut self, watched_address: &str) -> (r: Action)
        ensures
            final(self).cfg == old(self).cfg,
            parse_address_spec(watched_address@) is None ==> failed_to(
                *old(self),
                *final(self),
                r,
                PipelineError::AddressParse,
            ),
            parse_address_spec(watched_address@) matches Some(a) ==> {
                &&& final(self).state matches State::AwaitingBalance { path, recipient }
                    && path == path_of_config(old(self).cfg) && recipient@ == a
                &&& final(self).next_id == bumped(old(self).next_id)
                &&& path_of_config(old(self).cfg) is Native ==> (r matches Action::SendRpc { body }
                    && body@ == balance_request_view(a, old(self).next_id as nat))
                &&& path_of_config(old(self).cfg) is Token ==> (old(self).cfg.token_contract
                    matches Some(contract) && r matches Action::SendRpc { body }
                    && body@ == token_balance_request_view(
                    old(self).cfg.sender@,
                    contract@,
                    encode_view(CallView::BalanceOf { account: a }),
                    old(self).next_id as nat,
                ))
            },
    {
        match parse_address(watched_address) {
            None => self.fail(PipelineError::AddressParse),
            Some(recipient) => {
                let token = match &self.cfg.token_contract {
                    Some(_) => true,
                    None => false,
                };
                if token {
                    self._run_erc20(recipient)
                } else {
                    self._run_eth(recipient)
                }
            },
        }
    }

    /// Starts the native-path dispatch: queries the recipient's wei
    /// balance with `eth_getBalance`.
    pub fn _run_eth(&mut self, recipient: Address) -> (r: Action)
        ensures
            final(self).cfg == old(self).cfg,
            final(self).next_id == bumped(old(self).next_id),
            final(self).state matches State::AwaitingBalance { path, recipient: rec } && path
                == Path::Native && rec@ == recipient@,
            r matches Action::SendRpc { body } && body@ == balance_request_view(
                recipient@,
                old(self).next_id as nat,
            ),
    {
        let id = self.get_id();
        let body = balance_request(&recipient, id);
        self.state = State::AwaitingBalance { path: Path::Native, recipient };
        Action::SendRpc { body }
    }

    /// Starts the token-path dispatch: queries the recipient's token
    /// balance by sending an encoded `balanceOf` call through
    /// `eth_call` to the configured contract.
    pub fn _run_erc20(&mut self, recipient: Address) -> (r: Action)
        requires
            old(self).cfg.token_contract is Some,
        ensures
            final(self).cfg == old(self).cfg,
            final(self).next_id == bumped(old(self).next_id),
            final(self).state matches State::AwaitingBalance { path, recipient: rec } && path
                == Path::Token && rec@ == recipient@,
            old(self).cfg.token_contract matches Some(contract) && r matches Action::SendRpc {
                body,
            } && body@ == token_balance_request_view(
                old(self).cfg.sender@,
                contract@,
                encode_view(CallView::BalanceOf { account: recipient@ }),
                old(self).next_id as nat,
            ),
    {
        let id = self.get_id();
        let call = AbiCall::BalanceOf { account: recipient.clone() };
        let data = call.encode();
        let body = match &self.cfg.token_contract {
            Some(contract) => token_balance_request(&self.cfg.sender, contract, &data, id),
            None => vstd::pervasive::unreached(),
        };
        self.state = State::AwaitingBalance { path: Path::Token, recipient };
        Action::SendRpc { body }
    }

    /// Records a transport failure of the in-flight request.
    pub fn on_transport_error(&mut self) -> (r: Action)
        ensures
            failed_to(*old(self), *final(self), r, PipelineError::Transport),
    {
        self.fail(PipelineError::Transport)
    }

    /// Feeds back the response body of the in-flight request: the
    /// dispatch advances exactly as `on_result` does on the body's
    /// extracted outcome.
    pub fn on_response(&mut self, body: &str) -> (r: Action)
        ensures
            steps_to(*old(self), *final(self), rpc_outcome_of(body@), r),
    {
        let outcome = extract_result(body);
        proof {
            assert(result_view(outcome) == rpc_outcome_of(body@));
        }
        self.on_result(outcome)
    }

    /// Advances the dispatch on the outcome of the in-flight request,
    /// exactly as the transition relation [`steps_to`] states.
    pub fn on_result(&mut self, outcome: Result<String, PipelineError>) -> (r: Action)
        ensures
            steps_to(*old(self), *final(self), result_view(outcome), r),
    {
        let mut st = State::Idle;
        core::mem::swap(&mut st, &mut self.state);
        match st {
            State::Idle => {
                Action::Nothing
            },
            State::Done { outcome: prior } => {
                self.state = State::Done { outcome: prior };
                Action::Nothing
            },
            State::AwaitingBalance { path, recipient } => match outcome {
                Err(e) => self.fail(e),
                Ok(s) => match parse_hex(s.as_str()) {
                    None => self.fail(PipelineError::ParseError),
                    Some(balance) => {
                        if balance < self.cfg.threshold {
                            let id = self.get_id();
                            let body = gas_price_request(id);
                            self.state = State::AwaitingGasPrice { path, recipient };
                            Action::SendRpc { body }
                        } else {
                            self.state = State::Done { outcome: Outcome::Ignored };
                            Action::Report { message: report_ignored() }
                        }
                    },
                },
            },
            State::AwaitingGasPrice { path, recipient } => match outcome {
                Err(e) => self.fail(e),
                Ok(s) => match parse_hex(s.as_str()) {
                    None => self.fail(PipelineError::ParseError),
                    Some(price) => {
                        if price <= u128::MAX / 2 {
                            let id = self.get_id();
                            let body = estimate_gas_request(&recipient, price, id);
                            self.state = State::AwaitingGasEstimate {
                                path,
                                recipient,
                                gas_price: 2 * price,
                            };
                            Action::SendRpc { body }
                        } else {
                            self.fail(PipelineError::ParseError)
                        }
                    },
                },
            },
            State::AwaitingGasEstimate { path, recipient, gas_price } => match outcome {
                Err(e) => self.fail(e),
                Ok(s) => match parse_hex(s.as_str()) {
                    None => self.fail(PipelineError::ParseError),
                    Some(estimate) => {
                        let gas_opt: Option<u128> = match path {
                            Path::Native => if estimate <= u128::MAX / 2 {
                                Some(2 * estimate)
                            } else {
                                None
                            },
                            // 68 is the encoded transfer call's length.
                            Path::Token => if estimate <= u128::MAX - 68 * 680 {
                                Some(estimate + 68 * 680)
                            } else {
                                None
                            },
                        };
                        match gas_opt {
                            None => self.fail(PipelineError::ParseError),
                            Some(gas) => {
                                let id = self.get_id();
                                let body = tx_count_request(&self.cfg.sender, id);
                                self.state = State::AwaitingNonce {
                                    path,
                                    recipient,
                                    gas_price,
                                    gas,
                                };
                                Action::SendRpc { body }
                            },
                        }
                    },
                },
            },
            State::AwaitingNonce { path, recipient, gas_price, gas } => match outcome {
                Err(e) => self.fail(e),
                Ok(s) => match parse_hex(s.as_str()) {
                    None => self.fail(PipelineError::ParseError),
                    Some(nonce) => {
                        match build_transaction(&self.cfg, path, recipient, gas, gas_price, nonce) {
                            Err(e) => self.fail(e),
                            Ok(tx) => if self.cfg.chain_id > (u64::MAX - 36) / 2 {
                                self.fail(PipelineError::Signing)
                            } else {
                                match sign_transaction(self.cfg.private_key.as_str(), &tx) {
                                    Err(e) => self.fail(e),
                                    Ok(payload) => {
                                        let id = self.get_id();
                                        let body = send_raw_request(&payload, id);
                                        self.state = State::AwaitingSubmission;
                                        Action::SendRpc { body }
                                    },
                                }
                            },
                        }
                    },
                },
            },
            State::AwaitingSubmission => match outcome {
                Err(e) => self.fail(e),
                Ok(s) => {
                    let message = report_submitted(&s);
                    self.state = State::Done { outcome: Outcome::Submitted { tx_hash: s } };
                    Action::Report { message }
                },
            },
        }
    }
}

} // verus!
