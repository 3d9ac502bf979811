//! Transaction requests, transaction payloads and their validation rules.

pub mod enums;
pub mod order_info;
pub mod transact_opts;
pub mod tx_info;
pub mod tx_request;
pub mod validation;
