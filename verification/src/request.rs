//! JSON-RPC request bodies, built bit-exactly.
//!
//! Every request is `{"jsonrpc":"2.0","method":M,"params":P,"id":N}`,
//! specified here character by character. Addresses and byte strings are
//! embedded in their canonical `0x`-prefixed lower-case hexadecimal form,
//! so no escaping can ever be needed.

use crate::address::Address;
use crate::hexnum::{bytes_to_hex, dec_chars, hex_0x_of_bytes, push_dec, to_hex, to_hex_view};
use vstd::prelude::*;
use vstd::string::StringExecFns;

verus! {

/// Body of `eth_getBalance(address, "latest")`.
pub open spec fn balance_request_view(addr: Seq<u8>, id: nat) -> Seq<char> {
    "{\"jsonrpc\":\"2.0\",\"method\":\"eth_getBalance\",\"params\":[\""@ + hex_0x_of_bytes(addr)
        + "\",\"latest\"],\"id\":"@ + dec_chars(id) + "}"@
}

/// Body of `eth_call({from, to, data}, "latest")`: a read-only contract
/// call of `data` on contract `to`.
pub open spec fn token_balance_request_view(from: Seq<u8>, contract: Seq<u8>, data: Seq<u8>, id: nat) -> Seq<char> {
    "{\"jsonrpc\":\"2.0\",\"method\":\"eth_call\",\"params\":[{\"from\":\""@ + hex_0x_of_bytes(from)
        + "\",\"to\":\""@ + hex_0x_of_bytes(contract) + "\",\"data\":\""@ + hex_0x_of_bytes(data)
        + "\"},\"latest\"],\"id\":"@ + dec_chars(id) + "}"@
}

/// Body of `eth_gasPrice()`.
pub open spec fn gas_price_request_view(id: nat) -> Seq<char> {
    "{\"jsonrpc\":\"2.0\",\"method\":\"eth_gasPrice\",\"params\":[],\"id\":"@ + dec_chars(id)
        + "}"@
}

/// Body of `eth_estimateGas({to, gasPrice})`, with the gas price as
/// fetched, before any margin is applied.
pub open spec fn estimate_gas_request_view(to: Seq<u8>, gas_price: nat, id: nat) -> Seq<char> {
    "{\"jsonrpc\":\"2.0\",\"method\":\"eth_estimateGas\",\"params\":[{\"to\":\""@
        + hex_0x_of_bytes(to) + "\",\"gasPrice\":\""@ + to_hex_view(gas_price) + "\"}],\"id\":"@
        + dec_chars(id) + "}"@
}

/// Body of `eth_getTransactionCount(address, "latest")`.
pub open spec fn tx_count_request_view(addr: Seq<u8>, id: nat) -> Seq<char> {
    "{\"jsonrpc\":\"2.0\",\"method\":\"eth_getTransactionCount\",\"params\":[\""@
        + hex_0x_of_bytes(addr) + "\",\"latest\"],\"id\":"@ + dec_chars(id) + "}"@
}

/// Body of `eth_sendRawTransaction(payload)`.
pub open spec fn send_raw_request_view(payload: Seq<u8>, id: nat) -> Seq<char> {
    "{\"jsonrpc\":\"2.0\",\"method\":\"eth_sendRawTransaction\",\"params\":[\""@
        + hex_0x_of_bytes(payload) + "\"],\"id\":"@ + dec_chars(id) + "}"@
}

/// Builds the `eth_getBalance` body for `addr`.
pub fn balance_request(addr: &Address, id: u64) -> (r: String)
    ensures
        r@ == balance_request_view(addr@, id as nat),
{
    let mut out = String::new();
    out.append("{\"jsonrpc\":\"2.0\",\"method\":\"eth_getBalance\",\"params\":[\"");
    let a = addr.to_hex_string();
    out.append(a.as_str());
    out.append("\",\"latest\"],\"id\":");
    push_dec(&mut out, id);
    out.append("}");
    proof {
        assert(out@ =~= balance_request_view(addr@, id as nat));
    }
    out
}

/// Builds the `eth_call` body that queries `balanceOf` through the
/// token contract.
pub fn token_balance_request(from: &Address, contract: &Address, data: &Vec<u8>, id: u64) -> (r:
    String)
    ensures
        r@ == token_balance_request_view(from@, contract@, data@, id as nat),
{
    let mut out = String::new();
    out.append("{\"jsonrpc\":\"2.0\",\"method\":\"eth_call\",\"params\":[{\"from\":\"");
    let f = from.to_hex_string();
    out.append(f.as_str());
    out.append("\",\"to\":\"");
    let c = contract.to_hex_string();
    out.append(c.as_str());
    out.append("\",\"data\":\"");
    let d = bytes_to_hex(data);
    out.append(d.as_str());
    out.append("\"},\"latest\"],\"id\":");
    push_dec(&mut out, id);
    out.append("}");
    proof {
        assert(out@ =~= token_balance_request_view(from@, contract@, data@, id as nat));
    }
    out
}

/// Builds the `eth_gasPrice` body.
pub fn gas_price_request(id: u64) -> (r: String)
    ensures
        r@ == gas_price_request_view(id as nat),
{
    let mut out = String::new();
    out.append("{\"jsonrpc\":\"2.0\",\"method\":\"eth_gasPrice\",\"params\":[],\"id\":");
    push_dec(&mut out, id);
    out.append("}");
    proof {
        assert(out@ =~= gas_price_request_view(id as nat));
    }
    out
}

/// Builds the `eth_estimateGas` body for a transfer to `to` at the
/// fetched gas price.
pub fn estimate_gas_request(to: &Address, gas_price: u128, id: u64) -> (r: String)
    ensures
        r@ == estimate_gas_request_view(to@, gas_price as nat, id as nat),
{
    let mut out = String::new();
    out.append("{\"jsonrpc\":\"2.0\",\"method\":\"eth_estimateGas\",\"params\":[{\"to\":\"");
    let t = to.to_hex_string();
    out.append(t.as_str());
    out.append("\",\"gasPrice\":\"");
    let p = to_hex(gas_price);
    out.append(p.as_str());
    out.append("\"}],\"id\":");
    push_dec(&mut out, id);
    out.append("}");
    proof {
        assert(out@ =~= estimate_gas_request_view(to@, gas_price as nat, id as nat));
    }
    out
}

/// Builds the `eth_getTransactionCount` body for `addr`.
pub fn tx_count_request(addr: &Address, id: u64) -> (r: String)
    ensures
        r@ == tx_count_request_view(addr@, id as nat),
{
    let mut out = String::new();
    out.append("{\"jsonrpc\":\"2.0\",\"method\":\"eth_getTransactionCount\",\"params\":[\"");
    let a = addr.to_hex_string();
    out.append(a.as_str());
    out.append("\",\"latest\"],\"id\":");
    push_dec(&mut out, id);
    out.append("}");
    proof {
        assert(out@ =~= tx_count_request_view(addr@, id as nat));
    }
    out
}

/// Builds the `eth_sendRawTransaction` body for a signed payload.
pub fn send_raw_request(payload: &Vec<u8>, id: u64) -> (r: String)
    ensures
        r@ == send_raw_request_view(payload@, id as nat),
{
    let mut out = String::new();
    out.append("{\"jsonrpc\":\"2.0\",\"method\":\"eth_sendRawTransaction\",\"params\":[\"");
    let p = bytes_to_hex(payload);
    out.append(p.as_str());
    out.append("\"],\"id\":");
    push_dec(&mut out, id);
    out.append("}");
    proof {
        assert(out@ =~= send_raw_request_view(payload@, id as nat));
    }
    out
}

} // verus!
