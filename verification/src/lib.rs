//! Verified core of a small-business invoicing application: customers,
//! business profiles, quotations, invoices, payment vouchers and PDF
//! templates, with their validation rules and status state machines.
use vstd::prelude::*;

pub mod archive;
pub mod binary64;
pub mod clock;
pub mod domain;
pub mod codec;
pub mod error;
pub mod ids;
pub mod json;
pub mod numbering;
pub mod text;

verus! {

} // verus!
