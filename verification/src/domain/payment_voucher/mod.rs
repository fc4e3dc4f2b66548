//! Payment vouchers: receipts of money received, against an invoice or
//! standing alone.
pub mod service;
pub mod row;
pub mod types;
