//! Websocket-side logic: channel names, subscriptions, local state kept from
//! websocket updates, and what each received message does to that state.

pub mod channel;
pub mod subscriptions;
pub mod handler;
pub mod updates;
pub mod market_stats;
