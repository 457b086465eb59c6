//! A relay between one HTTP "pay" request and one contract call on Starknet.
//!
//! The crate holds the decisions of the relay: which strings are addresses,
//! how configuration text becomes a signer identity, which request is served
//! by which handler, what call a pay request turns into and what the caller
//! is told about the outcome. Sockets, the async runtime and the RPC round
//! trip are left to the program that embeds it.

pub mod http;
pub mod util;
