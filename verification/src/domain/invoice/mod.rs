//! Invoices, their payment-driven status and the overdue rules.
pub mod state_machine;
pub mod types;
pub mod service;
pub mod row;
