use vstd::prelude::*;

use crate::binary64::{real_le, zero, zero_spec, Real64};
use crate::clock::{is_iso_date, now_timestamp, parses_as_iso_date};
use crate::domain::invoice::service::allows_payment_voucher;
use crate::domain::invoice::service::allows_payment_voucher_spec;
use crate::domain::invoice::state_machine::invoice_status_text;
use crate::domain::invoice::types::Invoice;
use crate::error::{
    is_not_found, is_validation, not_found, validation, validation_owned, AppError, AppResult,
};
use crate::ids::{is_uuid_v4_text, new_uuid};
use crate::text::{
    concat3, copy_string, is_blank, is_blank_seq, opt_view, trim, trim_opt, trim_opt_spec,
    trim_seq,
};

use super::types::{CreatePaymentVoucherInput, PaymentVoucher, UpdatePaymentVoucherInput};

verus! {

/// The first rule a payment breaks, by its message; `None` when it may be
/// recorded.
pub open spec fn voucher_rule_error(date_ok: bool, amount: Real64, payment_method: Seq<char>) -> Option<Seq<char>> {
    if !date_ok {
        Some("date 必须是 YYYY-MM-DD 格式"@)
    } else if real_le(amount, zero_spec()) {
        Some("amount 必须大于 0"@)
    } else if is_blank_seq(payment_method) {
        Some("payment_method 不能为空"@)
    } else {
        None
    }
}

/// Checks a payment, given whether its date parsed: an amount not at or
/// below 0 and a payment method.
pub fn check_voucher(date_ok: bool, amount: Real64, payment_method: &str) -> (r: AppResult<()>)
    ensures
        match voucher_rule_error(date_ok, amount, payment_method@) {
            None => r is Ok,
            Some(m) => r matches Err(e) && is_validation(e, m),
        },
{
    if !date_ok {
        return Err(validation("date 必须是 YYYY-MM-DD 格式"));
    }
    if amount.le(&zero()) {
        return Err(validation("amount 必须大于 0"));
    }
    if is_blank(payment_method) {
        return Err(validation("payment_method 不能为空"));
    }
    Ok(())
}

/// Checks a payment, parsing its date as `YYYY-MM-DD`.
pub fn validate(date: &str, amount: Real64, payment_method: &str) -> (r: AppResult<()>)
    ensures
        match voucher_rule_error(parses_as_iso_date(date@), amount, payment_method@) {
            None => r is Ok,
            Some(m) => r matches Err(e) && is_validation(e, m),
        },
{
    let ok = is_iso_date(date);
    check_voucher(ok, amount, payment_method)
}

/// The record a payment is drawn from: the invoice it pays, or the customer
/// of a standalone receipt.
#[derive(Debug)]
pub enum VoucherSource {
    Invoice(String),
    Customer(String),
}

/// The first reason a standalone receipt lacks what it needs.
pub open spec fn standalone_error(input: CreatePaymentVoucherInput) -> Option<Seq<char>> {
    if input.customer_id is None {
        Some("独立 PV 必须提供 customer_id"@)
    } else if input.currency is None || is_blank_seq(input.currency->0@) {
        Some("独立 PV 必须提供 currency"@)
    } else {
        None
    }
}

/// Checks a new payment and says which record it is drawn from.
pub fn voucher_source(input: &CreatePaymentVoucherInput) -> (r: AppResult<VoucherSource>)
    ensures
        match voucher_rule_error(parses_as_iso_date(input.date@), input.amount, input.payment_method@) {
            Some(m) => r matches Err(e) && is_validation(e, m),
            None => match input.invoice_id {
                Some(inv) => r matches Ok(VoucherSource::Invoice(i)) && i@ == inv@,
                None => match standalone_error(*input) {
                    Some(m) => r matches Err(e) && is_validation(e, m),
                    None => r matches Ok(VoucherSource::Customer(c)) && c@ == input.customer_id->0@,
                },
            },
        },
{
    validate(input.date.as_str(), input.amount, input.payment_method.as_str())?;
    match &input.invoice_id {
        Some(inv) => Ok(VoucherSource::Invoice(copy_string(inv))),
        None => {
            let cid = match &input.customer_id {
                None => return Err(validation("独立 PV 必须提供 customer_id")),
                Some(c) => c,
            };
            match &input.currency {
                None => return Err(validation("独立 PV 必须提供 currency")),
                Some(cur) => {
                    if is_blank(cur.as_str()) {
                        return Err(validation("独立 PV 必须提供 currency"));
                    }
                },
            }
            Ok(VoucherSource::Customer(copy_string(cid)))
        },
    }
}

/// Whom a payment is from and in which currency.
#[derive(Debug, Clone)]
pub struct VoucherParty {
    pub customer_id: String,
    pub customer_snapshot: serde_json::Value,
    pub currency: String,
    pub business_profile_id: Option<String>,
}

/// The message when a payment is recorded against an invoice in `status`.
pub open spec fn voucher_refused(status: Seq<char>) -> Seq<char> {
    "Invoice 状态为 "@ + status + " 时不能记录付款"@
}

/// The party of a payment against the stored invoice `invoice_id` (`found`,
/// if any): the invoice's customer, snapshot, currency and profile. Drafts
/// and void invoices take no payments.
pub fn party_from_invoice(found: Option<Invoice>, invoice_id: &str) -> (r: AppResult<VoucherParty>)
    ensures
        match found {
            None => r matches Err(e) && is_not_found(e, "invoice"@, invoice_id@),
            Some(inv) => if allows_payment_voucher_spec(inv.status) {
                r matches Ok(p) && p.customer_id@ == inv.customer_id@ && p.customer_snapshot
                    == inv.customer_snapshot && p.currency@ == inv.currency@
                    && p.business_profile_id == inv.business_profile_id
            } else {
                r matches Err(e) && is_validation(e, voucher_refused(invoice_status_text(inv.status)))
            },
        },
{
    let inv = match found {
        None => return Err(not_found("invoice", invoice_id)),
        Some(inv) => inv,
    };
    if !allows_payment_voucher(inv.status) {
        return Err(
            validation_owned(concat3("Invoice 状态为 ", inv.status.as_str(), " 时不能记录付款")),
        );
    }
    Ok(
        VoucherParty {
            customer_id: inv.customer_id,
            customer_snapshot: inv.customer_snapshot,
            currency: inv.currency,
            business_profile_id: inv.business_profile_id,
        },
    )
}

/// The party of a standalone payment from customer `customer_id`, whose
/// snapshot is `snapshot` when the customer exists. The receipt needs a
/// currency, checked before the customer.
pub fn party_from_customer(
    input: &CreatePaymentVoucherInput,
    customer_id: &str,
    snapshot: Option<serde_json::Value>,
) -> (r: AppResult<VoucherParty>)
    ensures
        if input.currency is None || is_blank_seq(input.currency->0@) {
            r matches Err(e) && is_validation(e, "独立 PV 必须提供 currency"@)
        } else {
            match snapshot {
                None => r matches Err(e) && is_not_found(e, "customer"@, customer_id@),
                Some(s) => r matches Ok(p) && p.customer_id@ == customer_id@ && p.customer_snapshot
                    == s && p.currency@ == input.currency->0@ && p.business_profile_id
                    == input.business_profile_id,
            }
        },
{
    let currency = match &input.currency {
        None => return Err(validation("独立 PV 必须提供 currency")),
        Some(c) => {
            if is_blank(c.as_str()) {
                return Err(validation("独立 PV 必须提供 currency"));
            }
            copy_string(c)
        },
    };
    let s = match snapshot {
        None => return Err(not_found("customer", customer_id)),
        Some(s) => s,
    };
    Ok(
        VoucherParty {
            customer_id: String::from_str(customer_id),
            customer_snapshot: s,
            currency,
            business_profile_id: input.business_profile_id.clone(),
        },
    )
}

/// `pv` is the receipt recorded from `input` for `party`, numbered `number`.
pub open spec fn voucher_created_from(
    pv: PaymentVoucher,
    input: CreatePaymentVoucherInput,
    party: VoucherParty,
    number: Seq<char>,
) -> bool {
    &&& is_uuid_v4_text(pv.id@)
    &&& pv.number@ == number
    &&& pv.invoice_id == input.invoice_id
    &&& pv.customer_id@ == party.customer_id@
    &&& pv.customer_snapshot == party.customer_snapshot
    &&& pv.business_profile_id == party.business_profile_id
    &&& pv.date@ == input.date@
    &&& pv.amount == input.amount
    &&& pv.currency@ == party.currency@
    &&& pv.payment_method@ == trim_seq(input.payment_method@)
    &&& opt_view(pv.notes) == trim_opt_spec(input.notes)
}

/// Builds a receipt with a fresh id, stamped with the current time.
pub fn new_voucher(input: CreatePaymentVoucherInput, party: VoucherParty, number: String) -> (r:
    PaymentVoucher)
    ensures
        voucher_created_from(r, input, party, number@),
{
    PaymentVoucher {
        id: new_uuid(),
        number,
        invoice_id: input.invoice_id,
        customer_id: party.customer_id,
        customer_snapshot: party.customer_snapshot,
        business_profile_id: party.business_profile_id,
        date: input.date,
        amount: input.amount,
        currency: party.currency,
        payment_method: trim(input.payment_method.as_str()),
        notes: trim_opt(input.notes),
        created_at: now_timestamp(),
    }
}

/// Applies a correction to the stored receipt `input.id` (`existing`, if
/// any): date, amount, trimmed method and notes change; the rest stays.
pub fn apply_voucher_update(existing: Option<PaymentVoucher>, input: UpdatePaymentVoucherInput) -> (r:
    AppResult<PaymentVoucher>)
    ensures
        match existing {
            None => r matches Err(e) && is_not_found(e, "payment_voucher"@, input.id@),
            Some(pv) => r matches Ok(u) && u.date@ == input.date@ && u.amount == input.amount
                && u.payment_method@ == trim_seq(input.payment_method@) && opt_view(u.notes)
                == trim_opt_spec(input.notes) && u == (PaymentVoucher {
                date: u.date,
                amount: u.amount,
                payment_method: u.payment_method,
                notes: u.notes,
                ..pv
            }),
        },
{
    let pv = match existing {
        None => return Err(not_found("payment_voucher", input.id.as_str())),
        Some(pv) => pv,
    };
    let mut pv = pv;
    pv.date = input.date;
    pv.amount = input.amount;
    pv.payment_method = trim(input.payment_method.as_str());
    pv.notes = trim_opt(input.notes);
    Ok(pv)
}

} // verus!
