//! A balance-watching top-up pipeline for an account on an
//! Ethereum-style chain.
//!
//! When an event names a watched address, the pipeline checks its
//! balance — the chain's native currency, or a token's when a contract
//! is configured — and, strictly below a configured threshold, builds,
//! signs and broadcasts a fixed-amount top-up transaction over
//! JSON-RPC. The call payloads, the request bodies, the numeral
//! handling and every decision between two requests are verified;
//! JSON parsing and signing are called through trusted declarations.
//!
//! The caller owns all I/O: [`pipeline::Dispatcher`] hands out each
//! request body as an [`pipeline::Action`] and is fed the response.

pub mod address;
pub mod bytes;
pub mod codec;
pub mod error;
pub mod hexnum;
pub mod pipeline;
pub mod request;
pub mod response;
pub mod sign;
pub mod word;
