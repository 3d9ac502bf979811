//! Data returned by the exchange's REST and websocket APIs.

pub mod account;
pub mod asset;
pub mod auth;
pub mod common;
pub mod order;
pub mod order_book;
pub mod trade;
pub mod ws;
