//! The user's own businesses: the issuer details printed on documents,
//! bank accounts, payment QR codes and logo.
pub mod service;
pub mod row;
pub mod types;
