use vstd::prelude::*;

use crate::binary64::Real64;
use crate::domain::quotation::types::LineItemInput;

use super::state_machine::InvoiceStatus;

verus! {

/// An invoice to a customer.
#[derive(Debug, Clone)]
pub struct Invoice {
    pub id: String,
    pub number: String,
    pub customer_id: String,
    /// The customer record as it was when the invoice was last saved.
    pub customer_snapshot: serde_json::Value,
    /// `None` for invoices made before business profiles existed.
    pub business_profile_id: Option<String>,
    pub source_quotation_id: Option<String>,
    pub issue_date: String,
    pub due_date: String,
    pub currency: String,
    pub tax_enabled: bool,
    pub tax_rate: Option<Real64>,
    pub subtotal: Real64,
    pub tax_amount: Real64,
    pub total: Real64,
    /// The sum of the payment vouchers recorded against the invoice.
    pub paid_amount: Real64,
    /// The profile's payment methods and bank accounts when last saved.
    pub payment_methods_snapshot: serde_json::Value,
    /// Bank accounts of the chosen profile to print.
    pub selected_bank_account_ids: Vec<String>,
    /// QR codes of the chosen profile to print.
    pub selected_qr_ids: Vec<String>,
    /// Plain payment methods to print, such as "Cash".
    pub selected_static_methods: Vec<String>,
    pub status: InvoiceStatus,
    pub notes: Option<String>,
    pub terms: Option<String>,
    pub created_at: String,
    pub updated_at: String,
}

/// A line of an invoice.
#[derive(Debug, Clone)]
pub struct InvoiceLineItem {
    pub id: String,
    pub invoice_id: String,
    /// 1-based position on the document.
    pub position: i32,
    pub description: String,
    pub quantity: Real64,
    pub unit_price: Real64,
    pub line_total: Real64,
    pub line_currency: String,
    pub exchange_rate_to_doc_currency: Option<Real64>,
    pub tax_rate: Option<Real64>,
    pub discount_rate: Option<Real64>,
}

/// An invoice with its lines in position order.
#[derive(Debug, Clone)]
pub struct InvoiceWithLines {
    pub invoice: Invoice,
    pub lines: Vec<InvoiceLineItem>,
}

/// What the user supplies to create an invoice.
#[derive(Debug, Clone)]
pub struct CreateInvoiceInput {
    pub customer_id: String,
    pub business_profile_id: Option<String>,
    pub issue_date: String,
    pub due_date: String,
    pub currency: String,
    pub tax_enabled: bool,
    pub tax_rate: Option<Real64>,
    pub lines: Vec<LineItemInput>,
    pub notes: Option<String>,
    pub terms: Option<String>,
    pub selected_bank_account_ids: Vec<String>,
    pub selected_qr_ids: Vec<String>,
    pub selected_static_methods: Vec<String>,
}

/// What the user supplies to edit a draft invoice.
#[derive(Debug, Clone)]
pub struct UpdateInvoiceInput {
    pub id: String,
    pub customer_id: String,
    pub business_profile_id: Option<String>,
    pub issue_date: String,
    pub due_date: String,
    pub currency: String,
    pub tax_enabled: bool,
    pub tax_rate: Option<Real64>,
    pub lines: Vec<LineItemInput>,
    pub notes: Option<String>,
    pub terms: Option<String>,
    pub selected_bank_account_ids: Vec<String>,
    pub selected_qr_ids: Vec<String>,
    pub selected_static_methods: Vec<String>,
}

/// What the user supplies to turn an accepted quotation into an invoice.
#[derive(Debug, Clone)]
pub struct CreateFromQuotationInput {
    pub quotation_id: String,
    pub business_profile_id: Option<String>,
    pub issue_date: String,
    pub due_date: String,
}

} // verus!
