use vstd::prelude::*;

use crate::binary64::Real64;

use super::state_machine::QuotationStatus;

verus! {

/// A quotation (price offer) to a customer.
#[derive(Debug, Clone)]
pub struct Quotation {
    pub id: String,
    pub number: String,
    pub customer_id: String,
    /// The customer record as it was when the quotation was last saved.
    pub customer_snapshot: serde_json::Value,
    /// `None` for quotations made before business profiles existed.
    pub business_profile_id: Option<String>,
    pub issue_date: String,
    pub valid_until: String,
    pub currency: String,
    pub tax_enabled: bool,
    pub tax_rate: Option<Real64>,
    pub subtotal: Real64,
    pub tax_amount: Real64,
    pub total: Real64,
    pub status: QuotationStatus,
    pub converted_invoice_id: Option<String>,
    pub notes: Option<String>,
    pub terms: Option<String>,
    pub created_at: String,
    pub updated_at: String,
}

/// A line of a quotation.
#[derive(Debug, Clone)]
pub struct QuotationLineItem {
    pub id: String,
    pub quotation_id: String,
    /// 1-based position on the document.
    pub position: i32,
    pub description: String,
    pub quantity: Real64,
    pub unit_price: Real64,
    pub line_total: Real64,
    pub line_currency: String,
    pub exchange_rate_to_doc_currency: Option<Real64>,
    pub tax_rate: Option<Real64>,
    pub discount_rate: Option<Real64>,
}

/// A quotation with its lines in position order.
#[derive(Debug, Clone)]
pub struct QuotationWithLines {
    pub quotation: Quotation,
    pub lines: Vec<QuotationLineItem>,
}

/// A line as the user enters it, for quotations and invoices alike.
#[derive(Debug, Clone)]
pub struct LineItemInput {
    pub description: String,
    pub quantity: Real64,
    pub unit_price: Real64,
}

/// What the user supplies to create a quotation.
#[derive(Debug, Clone)]
pub struct CreateQuotationInput {
    pub customer_id: String,
    pub business_profile_id: Option<String>,
    pub issue_date: String,
    pub valid_until: String,
    pub currency: String,
    pub tax_enabled: bool,
    pub tax_rate: Option<Real64>,
    pub lines: Vec<LineItemInput>,
    pub notes: Option<String>,
    pub terms: Option<String>,
}

/// What the user supplies to edit a draft quotation.
#[derive(Debug, Clone)]
pub struct UpdateQuotationInput {
    pub id: String,
    pub customer_id: String,
    pub business_profile_id: Option<String>,
    pub issue_date: String,
    pub valid_until: String,
    pub currency: String,
    pub tax_enabled: bool,
    pub tax_rate: Option<Real64>,
    pub lines: Vec<LineItemInput>,
    pub notes: Option<String>,
    pub terms: Option<String>,
}

} // verus!
