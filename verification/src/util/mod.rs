//! The chain connector: addresses, field elements and signer configuration.

pub mod connector;
pub mod felt;
pub mod hex;
pub mod settings;
pub mod text;
pub mod timeout;
