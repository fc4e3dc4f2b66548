//! The stored form of an invoice: its columns as plain values, and the
//! JSON text of its snapshot and list columns.
use vstd::prelude::*;

use crate::binary64::Real64;
use crate::error::{serialize_error, AppError, AppResult};
use crate::json::{
    json_string_list, json_string_list_text, json_value_error, json_value_parse, json_value_text,
    parse_json_value,
    parse_string_list, render_json_value, render_string_list, string_views,
};
use crate::text::concat2;

use super::state_machine::{invoice_status_parse, InvoiceStatus};
use super::types::Invoice;

verus! {

/// The columns of a stored invoice, as read.
#[derive(Debug, Clone)]
pub struct InvoiceRow {
    pub id: String,
    pub number: String,
    pub customer_id: String,
    pub customer_snapshot: String,
    pub business_profile_id: Option<String>,
    pub source_quotation_id: Option<String>,
    pub issue_date: String,
    pub due_date: String,
    pub currency: String,
    pub tax_enabled: i64,
    pub tax_rate: Option<Real64>,
    pub subtotal: Real64,
    pub tax_amount: Real64,
    pub total: Real64,
    pub paid_amount: Real64,
    pub payment_methods_snapshot: String,
    pub selected_bank_account_ids: String,
    pub selected_qr_ids: String,
    pub selected_static_methods: String,
    pub status: String,
    pub notes: Option<String>,
    pub terms: Option<String>,
    pub created_at: String,
    pub updated_at: String,
}

/// Why a stored invoice cannot be read back, checked in this order: an
/// unknown status, then each JSON column that does not parse.
pub open spec fn invoice_row_error(row: InvoiceRow) -> Option<Seq<char>> {
    if invoice_status_parse(row.status@) is None {
        Some("unknown status "@ + row.status@)
    } else if json_value_error(row.customer_snapshot@) is Some {
        json_value_error(row.customer_snapshot@)
    } else if json_value_error(row.payment_methods_snapshot@) is Some {
        json_value_error(row.payment_methods_snapshot@)
    } else if json_string_list(row.selected_bank_account_ids@) is Err {
        Some(json_string_list(row.selected_bank_account_ids@)->Err_0)
    } else if json_string_list(row.selected_qr_ids@) is Err {
        Some(json_string_list(row.selected_qr_ids@)->Err_0)
    } else if json_string_list(row.selected_static_methods@) is Err {
        Some(json_string_list(row.selected_static_methods@)->Err_0)
    } else {
        None
    }
}

/// The plain columns of `row` are those of `inv`: the same fields, the
/// parsed status, and tax enabled when the flag is not 0.
pub open spec fn invoice_columns_match(inv: Invoice, row: InvoiceRow) -> bool {
    &&& inv.id@ == row.id@
    &&& inv.number@ == row.number@
    &&& inv.customer_id@ == row.customer_id@
    &&& inv.business_profile_id == row.business_profile_id
    &&& inv.source_quotation_id == row.source_quotation_id
    &&& inv.issue_date@ == row.issue_date@
    &&& inv.due_date@ == row.due_date@
    &&& inv.currency@ == row.currency@
    &&& inv.tax_enabled == (row.tax_enabled != 0)
    &&& inv.tax_rate == row.tax_rate
    &&& inv.subtotal == row.subtotal
    &&& inv.tax_amount == row.tax_amount
    &&& inv.total == row.total
    &&& inv.paid_amount == row.paid_amount
    &&& Some(inv.status) == invoice_status_parse(row.status@)
    &&& inv.notes == row.notes
    &&& inv.terms == row.terms
    &&& inv.created_at@ == row.created_at@
    &&& inv.updated_at@ == row.updated_at@
}

/// `inv` is the invoice that `row` stores: its plain columns, and the
/// lists that its list columns hold.
pub open spec fn invoice_from_row(inv: Invoice, row: InvoiceRow) -> bool {
    &&& invoice_columns_match(inv, row)
    &&& Ok::<Seq<Seq<char>>, Seq<char>>(string_views(inv.selected_bank_account_ids@))
        == json_string_list(row.selected_bank_account_ids@)
    &&& Ok::<Seq<Seq<char>>, Seq<char>>(string_views(inv.selected_qr_ids@)) == json_string_list(
        row.selected_qr_ids@,
    )
    &&& Ok::<Seq<Seq<char>>, Seq<char>>(string_views(inv.selected_static_methods@))
        == json_string_list(row.selected_static_methods@)
}

/// What parsing the JSON columns of a stored invoice gave.
#[derive(Debug)]
pub struct InvoiceJsonParsed {
    pub customer_snapshot: Result<serde_json::Value, String>,
    pub payment_methods_snapshot: Result<serde_json::Value, String>,
    pub selected_bank_account_ids: Result<Vec<String>, String>,
    pub selected_qr_ids: Result<Vec<String>, String>,
    pub selected_static_methods: Result<Vec<String>, String>,
}

/// Why an invoice cannot be assembled from its stored status and parsed
/// JSON columns, checked in this order: an unknown status, then the first
/// column that did not parse.
pub open spec fn invoice_parts_error(status: Seq<char>, p: InvoiceJsonParsed) -> Option<Seq<char>> {
    if invoice_status_parse(status) is None {
        Some("unknown status "@ + status)
    } else if p.customer_snapshot is Err {
        Some(p.customer_snapshot->Err_0@)
    } else if p.payment_methods_snapshot is Err {
        Some(p.payment_methods_snapshot->Err_0@)
    } else if p.selected_bank_account_ids is Err {
        Some(p.selected_bank_account_ids->Err_0@)
    } else if p.selected_qr_ids is Err {
        Some(p.selected_qr_ids->Err_0@)
    } else if p.selected_static_methods is Err {
        Some(p.selected_static_methods->Err_0@)
    } else {
        None
    }
}

/// Assembles an invoice from its stored columns and what parsing its JSON
/// columns gave; the error is the reason it cannot be.
pub fn invoice_from_parts(row: InvoiceRow, parsed: InvoiceJsonParsed) -> (r: Result<Invoice, String>)
    ensures
        match invoice_parts_error(row.status@, parsed) {
            Some(m) => r matches Err(e) && e@ == m,
            None => r matches Ok(inv) && {
                &&& parsed.customer_snapshot == Ok::<serde_json::Value, String>(inv.customer_snapshot)
                &&& parsed.payment_methods_snapshot == Ok::<serde_json::Value, String>(
                    inv.payment_methods_snapshot,
                )
                &&& parsed.selected_bank_account_ids == Ok::<Vec<String>, String>(
                    inv.selected_bank_account_ids,
                )
                &&& parsed.selected_qr_ids == Ok::<Vec<String>, String>(inv.selected_qr_ids)
                &&& parsed.selected_static_methods == Ok::<Vec<String>, String>(
                    inv.selected_static_methods,
                )
                &&& invoice_columns_match(inv, row)
            },
        },
{
    let status = match InvoiceStatus::from_str(row.status.as_str()) {
        Some(s) => s,
        None => return Err(concat2("unknown status ", row.status.as_str())),
    };
    let customer_snapshot = parsed.customer_snapshot?;
    let payment_methods_snapshot = parsed.payment_methods_snapshot?;
    let selected_bank_account_ids = parsed.selected_bank_account_ids?;
    let selected_qr_ids = parsed.selected_qr_ids?;
    let selected_static_methods = parsed.selected_static_methods?;
    Ok(
        Invoice {
            id: row.id,
            number: row.number,
            customer_id: row.customer_id,
            customer_snapshot,
            business_profile_id: row.business_profile_id,
            source_quotation_id: row.source_quotation_id,
            issue_date: row.issue_date,
            due_date: row.due_date,
            currency: row.currency,
            tax_enabled: row.tax_enabled != 0,
            tax_rate: row.tax_rate,
            subtotal: row.subtotal,
            tax_amount: row.tax_amount,
            total: row.total,
            paid_amount: row.paid_amount,
            payment_methods_snapshot,
            selected_bank_account_ids,
            selected_qr_ids,
            selected_static_methods,
            status,
            notes: row.notes,
            terms: row.terms,
            created_at: row.created_at,
            updated_at: row.updated_at,
        },
    )
}

/// Reads a stored invoice back, parsing its JSON columns; the error is the
/// reason it cannot be.
pub fn decode_invoice_row(row: InvoiceRow) -> (r: Result<Invoice, String>)
    ensures
        match invoice_row_error(row) {
            Some(m) => r matches Err(e) && e@ == m,
            None => r matches Ok(inv) && invoice_from_row(inv, row) && inv.customer_snapshot
                == json_value_parse(row.customer_snapshot@) && inv.payment_methods_snapshot
                == json_value_parse(row.payment_methods_snapshot@),
        },
{
    let parsed = InvoiceJsonParsed {
        customer_snapshot: parse_json_value(row.customer_snapshot.as_str()),
        payment_methods_snapshot: parse_json_value(row.payment_methods_snapshot.as_str()),
        selected_bank_account_ids: parse_string_list(row.selected_bank_account_ids.as_str()),
        selected_qr_ids: parse_string_list(row.selected_qr_ids.as_str()),
        selected_static_methods: parse_string_list(row.selected_static_methods.as_str()),
    };
    invoice_from_parts(row, parsed)
}

/// The JSON text of an invoice's snapshot and list columns.
#[derive(Debug, Clone)]
pub struct InvoiceJson {
    pub customer_snapshot: String,
    pub payment_methods_snapshot: String,
    pub selected_bank_account_ids: String,
    pub selected_qr_ids: String,
    pub selected_static_methods: String,
}

/// `text` is what `serde_json` writes for the list `v`, and reads back as it.
pub open spec fn list_written(text: Seq<char>, v: Seq<String>) -> bool {
    &&& text == json_string_list_text(string_views(v))
    &&& json_string_list(text) == Ok::<Seq<Seq<char>>, Seq<char>>(string_views(v))
}

/// `j` holds what `serde_json` writes for the snapshots and lists of `inv`.
pub open spec fn invoice_json_written(inv: Invoice, j: InvoiceJson) -> bool {
    &&& j.customer_snapshot@ == json_value_text(inv.customer_snapshot)
    &&& j.payment_methods_snapshot@ == json_value_text(inv.payment_methods_snapshot)
    &&& list_written(j.selected_bank_account_ids@, inv.selected_bank_account_ids@)
    &&& list_written(j.selected_qr_ids@, inv.selected_qr_ids@)
    &&& list_written(j.selected_static_methods@, inv.selected_static_methods@)
}

/// The JSON text to store for an invoice's snapshot and list columns, as
/// `serde_json` writes them; it always succeeds.
pub fn invoice_json_columns(inv: &Invoice) -> (r: AppResult<InvoiceJson>)
    ensures
        r matches Ok(j) && invoice_json_written(*inv, j),
{
    let customer_snapshot = match render_json_value(&inv.customer_snapshot) {
        Ok(t) => t,
        Err(e) => return Err(serialize_error("snapshot", e)),
    };
    let payment_methods_snapshot = match render_json_value(&inv.payment_methods_snapshot) {
        Ok(t) => t,
        Err(e) => return Err(serialize_error("payment methods", e)),
    };
    let selected_bank_account_ids = match render_string_list(&inv.selected_bank_account_ids) {
        Ok(t) => t,
        Err(e) => return Err(serialize_error("selected_bank_account_ids", e)),
    };
    let selected_qr_ids = match render_string_list(&inv.selected_qr_ids) {
        Ok(t) => t,
        Err(e) => return Err(serialize_error("selected_qr_ids", e)),
    };
    let selected_static_methods = match render_string_list(&inv.selected_static_methods) {
        Ok(t) => t,
        Err(e) => return Err(serialize_error("selected_static_methods", e)),
    };
    Ok(
        InvoiceJson {
            customer_snapshot,
            payment_methods_snapshot,
            selected_bank_account_ids,
            selected_qr_ids,
            selected_static_methods,
        },
    )
}

/// `a` and `b` agree on every field but the two snapshots and the lists.
pub open spec fn invoice_plain_fields_equal(a: Invoice, b: Invoice) -> bool {
    &&& a.id@ == b.id@
    &&& a.number@ == b.number@
    &&& a.customer_id@ == b.customer_id@
    &&& a.business_profile_id == b.business_profile_id
    &&& a.source_quotation_id == b.source_quotation_id
    &&& a.issue_date@ == b.issue_date@
    &&& a.due_date@ == b.due_date@
    &&& a.currency@ == b.currency@
    &&& a.tax_enabled == b.tax_enabled
    &&& a.tax_rate == b.tax_rate
    &&& a.subtotal == b.subtotal
    &&& a.tax_amount == b.tax_amount
    &&& a.total == b.total
    &&& a.paid_amount == b.paid_amount
    &&& a.status == b.status
    &&& a.notes == b.notes
    &&& a.terms == b.terms
    &&& a.created_at@ == b.created_at@
    &&& a.updated_at@ == b.updated_at@
}

/// A stored invoice reads back as the invoice written: when its plain
/// columns hold the invoice's fields and its list columns the text
/// `invoice_json_columns` wrote, the list columns always parse, and an
/// invoice read back from the row has the same fields and the same lists.
pub proof fn stored_invoice_reads_back(inv: Invoice, j: InvoiceJson, row: InvoiceRow, back: Invoice)
    requires
        invoice_json_written(inv, j),
        invoice_columns_match(inv, row),
        row.selected_bank_account_ids@ == j.selected_bank_account_ids@,
        row.selected_qr_ids@ == j.selected_qr_ids@,
        row.selected_static_methods@ == j.selected_static_methods@,
        invoice_from_row(back, row),
    ensures
        json_string_list(row.selected_bank_account_ids@) is Ok,
        json_string_list(row.selected_qr_ids@) is Ok,
        json_string_list(row.selected_static_methods@) is Ok,
        invoice_plain_fields_equal(back, inv),
        string_views(back.selected_bank_account_ids@) == string_views(inv.selected_bank_account_ids@),
        string_views(back.selected_qr_ids@) == string_views(inv.selected_qr_ids@),
        string_views(back.selected_static_methods@) == string_views(inv.selected_static_methods@),
{
}

} // verus!
