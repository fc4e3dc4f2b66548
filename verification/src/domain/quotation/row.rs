//! The stored form of a quotation: its columns as plain values, and the
//! JSON text of its customer snapshot.
use vstd::prelude::*;

use crate::binary64::Real64;
use crate::error::{serialize_error, AppError, AppResult};
use crate::json::{
    json_value_error, json_value_parse, json_value_text, parse_json_value, render_json_value,
};
use crate::text::concat2;

use super::state_machine::{quotation_status_parse, QuotationStatus};
use super::types::Quotation;

verus! {

/// The columns of a stored quotation, as read.
#[derive(Debug, Clone)]
pub struct QuotationRow {
    pub id: String,
    pub number: String,
    pub customer_id: String,
    pub customer_snapshot: String,
    pub business_profile_id: Option<String>,
    pub issue_date: String,
    pub valid_until: String,
    pub currency: String,
    pub tax_enabled: i64,
    pub tax_rate: Option<Real64>,
    pub subtotal: Real64,
    pub tax_amount: Real64,
    pub total: Real64,
    pub status: String,
    pub converted_invoice_id: Option<String>,
    pub notes: Option<String>,
    pub terms: Option<String>,
    pub created_at: String,
    pub updated_at: String,
}

/// Why a stored quotation cannot be read back: an unknown status, then a
/// snapshot that does not parse.
pub open spec fn quotation_row_error(row: QuotationRow) -> Option<Seq<char>> {
    if quotation_status_parse(row.status@) is None {
        Some("unknown status "@ + row.status@)
    } else {
        json_value_error(row.customer_snapshot@)
    }
}

/// `q` is the quotation that `row` stores: the same plain fields, the
/// parsed status, and tax enabled when the flag is not 0.
pub open spec fn quotation_from_row(q: Quotation, row: QuotationRow) -> bool {
    &&& q.id@ == row.id@
    &&& q.number@ == row.number@
    &&& q.customer_id@ == row.customer_id@
    &&& q.business_profile_id == row.business_profile_id
    &&& q.issue_date@ == row.issue_date@
    &&& q.valid_until@ == row.valid_until@
    &&& q.currency@ == row.currency@
    &&& q.tax_enabled == (row.tax_enabled != 0)
    &&& q.tax_rate == row.tax_rate
    &&& q.subtotal == row.subtotal
    &&& q.tax_amount == row.tax_amount
    &&& q.total == row.total
    &&& Some(q.status) == quotation_status_parse(row.status@)
    &&& q.converted_invoice_id == row.converted_invoice_id
    &&& q.notes == row.notes
    &&& q.terms == row.terms
    &&& q.created_at@ == row.created_at@
    &&& q.updated_at@ == row.updated_at@
}

/// Assembles a quotation from its stored columns and what parsing its
/// snapshot gave: an unknown status is refused first, then a snapshot
/// that did not parse.
pub fn quotation_from_parts(row: QuotationRow, snapshot: Result<serde_json::Value, String>) -> (r:
    Result<Quotation, String>)
    ensures
        if quotation_status_parse(row.status@) is None {
            r matches Err(e) && e@ == "unknown status "@ + row.status@
        } else {
            match snapshot {
                Err(m) => r matches Err(e) && e@ == m@,
                Ok(v) => r matches Ok(q) && quotation_from_row(q, row) && q.customer_snapshot == v,
            }
        },
{
    let status = match QuotationStatus::from_str(row.status.as_str()) {
        Some(s) => s,
        None => return Err(concat2("unknown status ", row.status.as_str())),
    };
    let customer_snapshot = snapshot?;
    Ok(
        Quotation {
            id: row.id,
            number: row.number,
            customer_id: row.customer_id,
            customer_snapshot,
            business_profile_id: row.business_profile_id,
            issue_date: row.issue_date,
            valid_until: row.valid_until,
            currency: row.currency,
            tax_enabled: row.tax_enabled != 0,
            tax_rate: row.tax_rate,
            subtotal: row.subtotal,
            tax_amount: row.tax_amount,
            total: row.total,
            status,
            converted_invoice_id: row.converted_invoice_id,
            notes: row.notes,
            terms: row.terms,
            created_at: row.created_at,
            updated_at: row.updated_at,
        },
    )
}

/// Reads a stored quotation back, parsing its snapshot; the error is the
/// reason it cannot be.
pub fn decode_quotation_row(row: QuotationRow) -> (r: Result<Quotation, String>)
    ensures
        match quotation_row_error(row) {
            Some(m) => r matches Err(e) && e@ == m,
            None => r matches Ok(q) && quotation_from_row(q, row) && q.customer_snapshot
                == json_value_parse(row.customer_snapshot@),
        },
{
    let snapshot = parse_json_value(row.customer_snapshot.as_str());
    quotation_from_parts(row, snapshot)
}

/// The JSON text to store for a quotation's customer snapshot: what
/// `serde_json` writes for it.
pub fn quotation_snapshot_text(q: &Quotation) -> (r: AppResult<String>)
    ensures
        r matches Ok(text) && text@ == json_value_text(q.customer_snapshot),
{
    match render_json_value(&q.customer_snapshot) {
        Ok(t) => Ok(t),
        Err(e) => Err(serialize_error("snapshot", e)),
    }
}

} // verus!
