use vstd::prelude::*;

use crate::binary64::Real64;

verus! {

/// A receipt of a payment.
#[derive(Debug, Clone)]
pub struct PaymentVoucher {
    pub id: String,
    pub number: String,
    /// `None` for a receipt that is not tied to an invoice.
    pub invoice_id: Option<String>,
    pub customer_id: String,
    pub customer_snapshot: serde_json::Value,
    /// Linked receipts take the invoice's profile.
    pub business_profile_id: Option<String>,
    pub date: String,
    pub amount: Real64,
    pub currency: String,
    pub payment_method: String,
    pub notes: Option<String>,
    pub created_at: String,
}

/// What the user supplies to record a payment.
#[derive(Debug, Clone)]
pub struct CreatePaymentVoucherInput {
    /// `Some` to record against an invoice, whose customer and currency
    /// the receipt takes; `None` for a standalone receipt, which then needs
    /// `customer_id` and `currency`.
    pub invoice_id: Option<String>,
    pub customer_id: Option<String>,
    pub currency: Option<String>,
    /// Used for standalone receipts only.
    pub business_profile_id: Option<String>,
    pub date: String,
    pub amount: Real64,
    pub payment_method: String,
    pub notes: Option<String>,
}

/// What the user supplies to correct a recorded payment.
#[derive(Debug, Clone)]
pub struct UpdatePaymentVoucherInput {
    pub id: String,
    pub date: String,
    pub amount: Real64,
    pub payment_method: String,
    pub notes: Option<String>,
}

} // verus!
