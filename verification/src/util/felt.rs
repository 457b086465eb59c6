//! Field elements of the chain, and what the `starknet` crate computes on them.
//!
//! A field element is kept as its 32 big-endian bytes. Parsing and hashing
//! a function name are done by `starknet`; the contracts of the functions
//! that call it are stated, not proved.

use vstd::prelude::*;

verus! {

/// A field element: the chain's native number, as 32 big-endian bytes.
#[derive(Clone, Copy, Debug, PartialEq, Eq, Hash)]
pub struct Felt {
    pub bytes: [u8; 32],
}

impl View for Felt {
    type V = Seq<u8>;

    open spec fn view(&self) -> Seq<u8> {
        self.bytes@
    }
}

/// The number of bytes of a field element.
pub const FELT_BYTES: usize = 32;

/// The bytes of the element that `starknet` reads from a hexadecimal string,
/// or `None` where it reads none.
pub uninterp spec fn felt_from_hex(text: Seq<char>) -> Option<Seq<u8>>;

/// The bytes of the entry point selector that `starknet` derives from a
/// function name, or `None` where it derives none.
pub uninterp spec fn selector_from_name(name: Seq<char>) -> Option<Seq<u8>>;

/// The bytes of a Cairo short string: the ASCII codes of its characters,
/// right-aligned in 32 bytes.
pub open spec fn short_string(text: Seq<char>) -> Seq<u8>
    recommends
        text.len() < FELT_BYTES,
{
    Seq::new(
        FELT_BYTES as nat,
        |i: int|
            if i < FELT_BYTES - text.len() {
                0u8
            } else {
                text[i - (FELT_BYTES - text.len())] as u8
            },
    )
}

/// The views of an optional element.
pub open spec fn view_of(value: Option<Felt>) -> Option<Seq<u8>> {
    match value {
        Some(felt) => Some(felt@),
        None => None,
    }
}

/// Calls `Felt::from_hex` of `starknet` and keeps, of an element that it
/// returns, the bytes that `Felt::to_bytes_be` gives. The contract claims
/// that the outcome depends on the characters of `text` and on nothing
/// else; which texts are read, and to what, it leaves to `starknet`.
#[verifier::external_body]
pub(crate) fn parse_hex(text: &str) -> (parsed: Option<Felt>)
    ensures
        view_of(parsed) == felt_from_hex(text@),
{
    match starknet::core::types::Felt::from_hex(text) {
        Ok(value) => Some(Felt { bytes: value.to_bytes_be() }),
        Err(_) => None,
    }
}

/// Calls `get_selector_from_name` of `starknet`, which hashes the name of a
/// contract function into its entry point selector, and keeps the bytes
/// that `Felt::to_bytes_be` gives. The contract claims that the outcome
/// depends on the name alone, and that there is a selector for a name of
/// ASCII characters and for no other.
#[verifier::external_body]
pub(crate) fn entry_point_selector(name: &str) -> (selector: Option<Felt>)
    ensures
        view_of(selector) == selector_from_name(name@),
        selector.is_some() == vstd::utf8::is_ascii_chars(name@),
{
    match starknet::core::utils::get_selector_from_name(name) {
        Ok(value) => Some(Felt { bytes: value.to_bytes_be() }),
        Err(_) => None,
    }
}

/// The bytes of the constant `chain_id::MAINNET` of `starknet`, as
/// `Felt::to_bytes_be` gives them. The contract claims what `starknet`
/// documents: the constant is the short string `SN_MAIN`.
#[verifier::external_body]
pub(crate) fn mainnet_chain_id() -> (id: Felt)
    ensures
        id@ == short_string("SN_MAIN"@),
{
    Felt { bytes: starknet::core::chain_id::MAINNET.to_bytes_be() }
}

/// The bytes of the constant `chain_id::SEPOLIA` of `starknet`, as
/// `Felt::to_bytes_be` gives them. The contract claims what `starknet`
/// documents: the constant is the short string `SN_SEPOLIA`.
#[verifier::external_body]
pub(crate) fn sepolia_chain_id() -> (id: Felt)
    ensures
        id@ == short_string("SN_SEPOLIA"@),
{
    Felt { bytes: starknet::core::chain_id::SEPOLIA.to_bytes_be() }
}

} // verus!
