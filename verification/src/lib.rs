//! Client-side rules of the Lighter exchange SDK, with their proofs:
//! transaction validation and attributes, nonce bookkeeping, what a signer
//! client does after each answer, how error answers are read, connection
//! settings, where the signer library is looked for, websocket subscriptions
//! and the order-book and account state kept from websocket updates, and the
//! parsing of channel names and numerals.

pub mod constants;
pub mod error;
pub mod text;
pub mod types;
pub mod numeric;
pub mod ws;
pub mod decimal;
pub mod models;
pub mod nonce;
pub mod ffi;
pub mod client;
pub mod rest;
pub mod config;
