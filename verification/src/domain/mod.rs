//! The business records and the rules that govern them.
pub mod customer;
pub mod invoice;
pub mod quotation;
pub mod business_profile;
pub mod document;
pub mod payment_voucher;
pub mod pdf_template;
