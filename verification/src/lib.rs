//! Canonicalisation and signing of exchange actions.
//!
//! A user intent (place or cancel orders, change leverage or isolated margin,
//! transfer funds, register a trading agent) is resolved against the asset
//! index, reduced to its canonical tuple, hashed, signed under the typed-data
//! domain of the configured network, and wrapped into a signed envelope.

pub mod error;
pub mod asset;
pub mod abi;
pub mod crypto;
pub mod typed_data;
pub mod action;
pub mod signer;
pub mod exchange_client;
