use vstd::prelude::*;

use crate::binary64::Real64;
use crate::clock::{now_timestamp, parses_as_iso_date};
use crate::domain::document::{document_rule_error, validate_document, DocumentTotals};
use crate::error::{
    is_invalid_transition, is_not_found, is_validation, not_found, validation_owned, AppError,
    AppResult,
};
use crate::ids::{is_uuid_v4_text, new_uuid};
use crate::text::{
    concat2, copy_string, opt_view, owned, trim, trim_opt, trim_opt_spec, trim_seq,
};

use super::state_machine::{
    quotation_status_text, quotation_transition_allowed, transition, QuotationStatus,
};
use super::types::{
    CreateQuotationInput, LineItemInput, Quotation, QuotationLineItem, QuotationWithLines,
    UpdateQuotationInput,
};

verus! {

/// The first rule a quotation request breaks, by its message; `None` when
/// it may be saved.
pub open spec fn quotation_rule_error(
    issue_date: Seq<char>,
    valid_until: Seq<char>,
    currency: Seq<char>,
    tax_enabled: bool,
    tax_rate: Option<Real64>,
    lines: Seq<LineItemInput>,
) -> Option<Seq<char>> {
    document_rule_error(
        parses_as_iso_date(issue_date),
        parses_as_iso_date(valid_until),
        "valid_until"@,
        currency,
        tax_enabled,
        tax_rate,
        lines,
    )
}

/// Checks a quotation request: both dates as `YYYY-MM-DD`, a currency, at
/// least one line, a tax rate between 0 and 1 when tax applies, and lines
/// with a description, a positive quantity and a non-negative unit price.
pub fn validate_input(
    issue_date: &str,
    valid_until: &str,
    currency: &str,
    tax_enabled: bool,
    tax_rate: Option<Real64>,
    lines: &Vec<LineItemInput>,
) -> (r: AppResult<()>)
    ensures
        match quotation_rule_error(issue_date@, valid_until@, currency@, tax_enabled, tax_rate, lines@) {
            None => r is Ok,
            Some(m) => r matches Err(e) && is_validation(e, m),
        },
{
    validate_document(issue_date, valid_until, "valid_until", currency, tax_enabled, tax_rate, lines)
}

/// `item` is the line at 0-based index `i` built from `input`: a fresh
/// UUID, the quotation's id and currency, position `i + 1`, the trimmed
/// description and the computed line total.
pub open spec fn quotation_line_from(
    item: QuotationLineItem,
    input: LineItemInput,
    i: int,
    quotation_id: Seq<char>,
    currency: Seq<char>,
    line_total: Real64,
) -> bool {
    &&& is_uuid_v4_text(item.id@)
    &&& item.quotation_id@ == quotation_id
    &&& item.position == i + 1
    &&& item.description@ == trim_seq(input.description@)
    &&& item.quantity == input.quantity
    &&& item.unit_price == input.unit_price
    &&& item.line_total == line_total
    &&& item.line_currency@ == currency
    &&& item.exchange_rate_to_doc_currency is None
    &&& item.tax_rate is None
    &&& item.discount_rate is None
}

/// `items` are the lines built from `inputs`, one each, in order.
pub open spec fn quotation_lines_from(
    items: Seq<QuotationLineItem>,
    inputs: Seq<LineItemInput>,
    quotation_id: Seq<char>,
    currency: Seq<char>,
    line_totals: Seq<Real64>,
) -> bool {
    &&& items.len() == inputs.len()
    &&& forall|i: int|
        0 <= i < inputs.len() ==> quotation_line_from(
            #[trigger] items[i],
            inputs[i],
            i,
            quotation_id,
            currency,
            line_totals[i],
        )
}

/// Builds the lines of a quotation from the entered lines, with the line
/// totals (quantity times unit price) computed for them.
pub fn build_lines(
    inputs: &Vec<LineItemInput>,
    quotation_id: &str,
    currency: &str,
    line_totals: &Vec<Real64>,
) -> (r: Vec<QuotationLineItem>)
    requires
        line_totals@.len() == inputs@.len(),
        inputs@.len() < 0x7fff_ffff,
    ensures
        quotation_lines_from(r@, inputs@, quotation_id@, currency@, line_totals@),
{
    let mut out: Vec<QuotationLineItem> = Vec::new();
    let n = inputs.len();
    for i in 0..n
        invariant
            n == inputs@.len(),
            line_totals@.len() == n,
            n < 0x7fff_ffff,
            out@.len() == i,
            forall|j: int|
                0 <= j < i ==> quotation_line_from(
                    #[trigger] out@[j],
                    inputs@[j],
                    j,
                    quotation_id@,
                    currency@,
                    line_totals@[j],
                ),
    {
        let l = &inputs[i];
        out.push(
            QuotationLineItem {
                id: new_uuid(),
                quotation_id: owned(quotation_id),
                position: (i + 1) as i32,
                description: trim(l.description.as_str()),
                quantity: l.quantity,
                unit_price: l.unit_price,
                line_total: line_totals[i],
                line_currency: owned(currency),
                exchange_rate_to_doc_currency: None,
                tax_rate: None,
                discount_rate: None,
            },
        );
    }
    out
}

/// `q` is the new draft quotation that `input` describes, numbered
/// `number`, with the customer snapshot and amounts given.
pub open spec fn quotation_created_from(
    q: Quotation,
    input: CreateQuotationInput,
    customer_snapshot: serde_json::Value,
    totals: DocumentTotals,
    number: Seq<char>,
) -> bool {
    &&& is_uuid_v4_text(q.id@)
    &&& q.number@ == number
    &&& q.customer_id@ == input.customer_id@
    &&& q.customer_snapshot == customer_snapshot
    &&& q.business_profile_id == input.business_profile_id
    &&& q.issue_date@ == input.issue_date@
    &&& q.valid_until@ == input.valid_until@
    &&& q.currency@ == input.currency@
    &&& q.tax_enabled == input.tax_enabled
    &&& q.tax_rate == input.tax_rate
    &&& q.subtotal == totals.subtotal
    &&& q.tax_amount == totals.tax_amount
    &&& q.total == totals.total
    &&& q.status == QuotationStatus::Draft
    &&& q.converted_invoice_id is None
    &&& opt_view(q.notes) == trim_opt_spec(input.notes)
    &&& opt_view(q.terms) == trim_opt_spec(input.terms)
    &&& q.created_at@ == q.updated_at@
}

/// Builds a new draft quotation with a fresh id, stamped with the current
/// time. The request has passed `validate_input`; the customer snapshot,
/// the amounts and the number come from the caller.
pub fn new_quotation(
    input: CreateQuotationInput,
    customer_snapshot: serde_json::Value,
    totals: DocumentTotals,
    line_totals: Vec<Real64>,
    number: String,
) -> (r: QuotationWithLines)
    requires
        line_totals@.len() == input.lines@.len(),
        input.lines@.len() < 0x7fff_ffff,
    ensures
        quotation_created_from(r.quotation, input, customer_snapshot, totals, number@),
        quotation_lines_from(
            r.lines@,
            input.lines@,
            r.quotation.id@,
            input.currency@,
            line_totals@,
        ),
{
    let id = new_uuid();
    let now = now_timestamp();
    let lines = build_lines(&input.lines, id.as_str(), input.currency.as_str(), &line_totals);
    let q = Quotation {
        id,
        number,
        customer_id: input.customer_id,
        customer_snapshot,
        business_profile_id: input.business_profile_id,
        issue_date: input.issue_date,
        valid_until: input.valid_until,
        currency: input.currency,
        tax_enabled: input.tax_enabled,
        tax_rate: input.tax_rate,
        subtotal: totals.subtotal,
        tax_amount: totals.tax_amount,
        total: totals.total,
        status: QuotationStatus::Draft,
        converted_invoice_id: None,
        notes: trim_opt(input.notes),
        terms: trim_opt(input.terms),
        created_at: copy_string(&now),
        updated_at: now,
    };
    QuotationWithLines { quotation: q, lines }
}

/// The message when a quotation that is not a draft is edited.
pub open spec fn not_draft_error(status: Seq<char>) -> Seq<char> {
    "只有 Draft 状态可以修改，当前状态为 "@ + status
}

/// `q` is `existing` with the header fields of `input`: number, status,
/// link to an invoice and creation time stay.
pub open spec fn quotation_updated_from(
    q: Quotation,
    existing: Quotation,
    input: UpdateQuotationInput,
    customer_snapshot: serde_json::Value,
    totals: DocumentTotals,
    now: Seq<char>,
) -> bool {
    &&& q.id == existing.id
    &&& q.number == existing.number
    &&& q.status == existing.status
    &&& q.converted_invoice_id == existing.converted_invoice_id
    &&& q.created_at == existing.created_at
    &&& q.customer_id@ == input.customer_id@
    &&& q.customer_snapshot == customer_snapshot
    &&& q.business_profile_id == input.business_profile_id
    &&& q.issue_date@ == input.issue_date@
    &&& q.valid_until@ == input.valid_until@
    &&& q.currency@ == input.currency@
    &&& q.tax_enabled == input.tax_enabled
    &&& q.tax_rate == input.tax_rate
    &&& q.subtotal == totals.subtotal
    &&& q.tax_amount == totals.tax_amount
    &&& q.total == totals.total
    &&& opt_view(q.notes) == trim_opt_spec(input.notes)
    &&& opt_view(q.terms) == trim_opt_spec(input.terms)
    &&& q.updated_at@ == now
}

/// Applies an edit to the stored quotation with id `input.id` (`existing`,
/// if any): only a draft can be edited, and its lines are replaced.
pub fn apply_update(
    existing: Option<Quotation>,
    input: UpdateQuotationInput,
    customer_snapshot: serde_json::Value,
    totals: DocumentTotals,
    line_totals: Vec<Real64>,
    now: String,
) -> (r: AppResult<QuotationWithLines>)
    requires
        line_totals@.len() == input.lines@.len(),
        input.lines@.len() < 0x7fff_ffff,
    ensures
        match existing {
            None => r matches Err(e) && is_not_found(e, "quotation"@, input.id@),
            Some(old_q) => if old_q.status != QuotationStatus::Draft {
                r matches Err(e) && is_validation(
                    e,
                    not_draft_error(quotation_status_text(old_q.status)),
                )
            } else {
                r matches Ok(qwl) && quotation_updated_from(
                    qwl.quotation,
                    old_q,
                    input,
                    customer_snapshot,
                    totals,
                    now@,
                ) && quotation_lines_from(
                    qwl.lines@,
                    input.lines@,
                    input.id@,
                    input.currency@,
                    line_totals@,
                )
            },
        },
{
    let lines = build_lines(&input.lines, input.id.as_str(), input.currency.as_str(), &line_totals);
    let old_q = match existing {
        None => return Err(not_found("quotation", input.id.as_str())),
        Some(q) => q,
    };
    if old_q.status != QuotationStatus::Draft {
        return Err(
            validation_owned(concat2("只有 Draft 状态可以修改，当前状态为 ", old_q.status.as_str())),
        );
    }
    let q = Quotation {
        id: old_q.id,
        number: old_q.number,
        customer_id: input.customer_id,
        customer_snapshot,
        business_profile_id: input.business_profile_id,
        issue_date: input.issue_date,
        valid_until: input.valid_until,
        currency: input.currency,
        tax_enabled: input.tax_enabled,
        tax_rate: input.tax_rate,
        subtotal: totals.subtotal,
        tax_amount: totals.tax_amount,
        total: totals.total,
        status: old_q.status,
        converted_invoice_id: old_q.converted_invoice_id,
        notes: trim_opt(input.notes),
        terms: trim_opt(input.terms),
        created_at: old_q.created_at,
        updated_at: now,
    };
    Ok(QuotationWithLines { quotation: q, lines })
}

/// Moves the stored quotation with id `id` (`existing`, if any) to status
/// `to`, as the state machine allows, stamped `now`.
pub fn mark_with(existing: Option<Quotation>, id: &str, to: QuotationStatus, now: String) -> (r:
    AppResult<Quotation>)
    ensures
        match existing {
            None => r matches Err(e) && is_not_found(e, "quotation"@, id@),
            Some(q) => if quotation_transition_allowed(q.status, to) {
                r matches Ok(u) && u.status == to && u.updated_at@ == now@ && u == (Quotation {
                    status: u.status,
                    updated_at: u.updated_at,
                    ..q
                })
            } else {
                r matches Err(e) && is_invalid_transition(
                    e,
                    quotation_status_text(q.status),
                    quotation_status_text(to),
                )
            },
        },
{
    let q = match existing {
        None => return Err(not_found("quotation", id)),
        Some(q) => q,
    };
    let new_status = transition(q.status, to)?;
    let mut q = q;
    q.status = new_status;
    q.updated_at = now;
    Ok(q)
}

/// Moves a quotation to status `to`, stamped with the current time.
pub fn mark(existing: Option<Quotation>, id: &str, to: QuotationStatus) -> (r: AppResult<
    Quotation,
>)
    ensures
        match existing {
            None => r matches Err(e) && is_not_found(e, "quotation"@, id@),
            Some(q) => if quotation_transition_allowed(q.status, to) {
                r matches Ok(u) && u.status == to && u == (Quotation {
                    status: u.status,
                    updated_at: u.updated_at,
                    ..q
                })
            } else {
                r matches Err(e) && is_invalid_transition(
                    e,
                    quotation_status_text(q.status),
                    quotation_status_text(to),
                )
            },
        },
{
    mark_with(existing, id, to, now_timestamp())
}

/// Records that the quotation was turned into the invoice `invoice_id`.
pub fn link_invoice(q: Quotation, invoice_id: String, now: String) -> (r: Quotation)
    ensures
        r.converted_invoice_id == Some(invoice_id),
        r.updated_at@ == now@,
        r == (Quotation {
            converted_invoice_id: r.converted_invoice_id,
            updated_at: r.updated_at,
            ..q
        }),
{
    let mut q = q;
    q.converted_invoice_id = Some(invoice_id);
    q.updated_at = now;
    q
}

} // verus!
