//! Quotations and their path to acceptance.
pub mod state_machine;
pub mod types;
pub mod service;
pub mod row;
