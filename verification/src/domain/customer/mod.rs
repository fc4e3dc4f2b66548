//! Customers that documents are addressed to.
pub mod service;
pub mod row;
pub mod types;
