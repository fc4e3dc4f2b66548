//! The stored form of a payment voucher: its columns as plain values, and
//! the JSON text of its customer snapshot.
use vstd::prelude::*;

use crate::binary64::Real64;
use crate::error::{serialize_error, AppError, AppResult};
use crate::json::{
    json_value_error, json_value_parse, json_value_text, parse_json_value, render_json_value,
};

use super::types::PaymentVoucher;

verus! {

/// The columns of a stored payment voucher, as read.
#[derive(Debug, Clone)]
pub struct PaymentVoucherRow {
    pub id: String,
    pub number: String,
    pub invoice_id: Option<String>,
    pub customer_id: String,
    pub customer_snapshot: String,
    pub business_profile_id: Option<String>,
    pub date: String,
    pub amount: Real64,
    pub currency: String,
    pub payment_method: String,
    pub notes: Option<String>,
    pub created_at: String,
}

/// `pv` is the voucher that `row` stores: the same plain fields.
pub open spec fn voucher_from_row(pv: PaymentVoucher, row: PaymentVoucherRow) -> bool {
    &&& pv.id@ == row.id@
    &&& pv.number@ == row.number@
    &&& pv.invoice_id == row.invoice_id
    &&& pv.customer_id@ == row.customer_id@
    &&& pv.business_profile_id == row.business_profile_id
    &&& pv.date@ == row.date@
    &&& pv.amount == row.amount
    &&& pv.currency@ == row.currency@
    &&& pv.payment_method@ == row.payment_method@
    &&& pv.notes == row.notes
    &&& pv.created_at@ == row.created_at@
}

/// Assembles a voucher from its stored columns and what parsing its
/// snapshot gave.
pub fn voucher_from_parts(row: PaymentVoucherRow, snapshot: Result<serde_json::Value, String>) -> (r:
    Result<PaymentVoucher, String>)
    ensures
        match snapshot {
            Err(m) => r matches Err(e) && e@ == m@,
            Ok(v) => r matches Ok(pv) && voucher_from_row(pv, row) && pv.customer_snapshot == v,
        },
{
    let customer_snapshot = snapshot?;
    Ok(
        PaymentVoucher {
            id: row.id,
            number: row.number,
            invoice_id: row.invoice_id,
            customer_id: row.customer_id,
            customer_snapshot,
            business_profile_id: row.business_profile_id,
            date: row.date,
            amount: row.amount,
            currency: row.currency,
            payment_method: row.payment_method,
            notes: row.notes,
            created_at: row.created_at,
        },
    )
}

/// Reads a stored voucher back, parsing its snapshot; it fails only on a
/// snapshot that does not parse.
pub fn decode_voucher_row(row: PaymentVoucherRow) -> (r: Result<PaymentVoucher, String>)
    ensures
        match json_value_error(row.customer_snapshot@) {
            Some(m) => r matches Err(e) && e@ == m,
            None => r matches Ok(pv) && voucher_from_row(pv, row) && pv.customer_snapshot
                == json_value_parse(row.customer_snapshot@),
        },
{
    let snapshot = parse_json_value(row.customer_snapshot.as_str());
    voucher_from_parts(row, snapshot)
}

/// The JSON text to store for a voucher's customer snapshot: what
/// `serde_json` writes for it.
pub fn voucher_snapshot_text(pv: &PaymentVoucher) -> (r: AppResult<String>)
    ensures
        r matches Ok(text) && text@ == json_value_text(pv.customer_snapshot),
{
    match render_json_value(&pv.customer_snapshot) {
        Ok(t) => Ok(t),
        Err(e) => Err(serialize_error("snapshot", e)),
    }
}

} // verus!
