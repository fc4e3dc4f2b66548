use vstd::prelude::*;

use crate::binary64::{is_positive_spec, real_le, zero, zero_spec, Real64};
use crate::clock::{is_iso_date, now_timestamp, parses_as_iso_date, today_iso};
use crate::domain::document::{document_rule_error, validate_document, DocumentTotals};
use crate::domain::quotation::service::link_invoice;
use crate::domain::quotation::state_machine::QuotationStatus;
use crate::domain::quotation::types::{LineItemInput, Quotation, QuotationWithLines};
use crate::error::{
    is_invalid_transition, is_not_found, is_validation, not_found, validation, validation_owned,
    AppError, AppResult,
};
use crate::ids::{is_uuid_v4_text, new_uuid};
use crate::text::{
    concat2, concat3, copy_opt, copy_string, opt_view, owned, seq_lt, str_lt, trim, trim_opt,
    trim_opt_spec, trim_seq,
};

use super::state_machine::{
    can_transition, invoice_status_text, invoice_transition_allowed, transition, InvoiceStatus,
};
use super::types::{
    CreateFromQuotationInput, CreateInvoiceInput, Invoice, InvoiceLineItem, InvoiceWithLines,
    UpdateInvoiceInput,
};

verus! {

/// The first rule an invoice request breaks, by its message; `None` when
/// it may be saved.
pub open spec fn invoice_rule_error(
    issue_date: Seq<char>,
    due_date: Seq<char>,
    currency: Seq<char>,
    tax_enabled: bool,
    tax_rate: Option<Real64>,
    lines: Seq<LineItemInput>,
) -> Option<Seq<char>> {
    document_rule_error(
        parses_as_iso_date(issue_date),
        parses_as_iso_date(due_date),
        "due_date"@,
        currency,
        tax_enabled,
        tax_rate,
        lines,
    )
}

/// Checks an invoice request: both dates as `YYYY-MM-DD`, a currency, at
/// least one line, a tax rate between 0 and 1 when tax applies, and lines
/// with a description, a positive quantity and a non-negative unit price.
pub fn validate_input(
    issue_date: &str,
    due_date: &str,
    currency: &str,
    tax_enabled: bool,
    tax_rate: Option<Real64>,
    lines: &Vec<LineItemInput>,
) -> (r: AppResult<()>)
    ensures
        match invoice_rule_error(issue_date@, due_date@, currency@, tax_enabled, tax_rate, lines@) {
            None => r is Ok,
            Some(m) => r matches Err(e) && is_validation(e, m),
        },
{
    validate_document(issue_date, due_date, "due_date", currency, tax_enabled, tax_rate, lines)
}

/// `item` is the line at 0-based index `i` built from `input`: a fresh
/// UUID, the invoice's id and currency, position `i + 1`, the trimmed
/// description and the computed line total.
pub open spec fn invoice_line_from(
    item: InvoiceLineItem,
    description: Seq<char>,
    quantity: Real64,
    unit_price: Real64,
    i: int,
    invoice_id: Seq<char>,
    currency: Seq<char>,
    line_total: Real64,
) -> bool {
    &&& is_uuid_v4_text(item.id@)
    &&& item.invoice_id@ == invoice_id
    &&& item.position == i + 1
    &&& item.description@ == trim_seq(description)
    &&& item.quantity == quantity
    &&& item.unit_price == unit_price
    &&& item.line_total == line_total
    &&& item.line_currency@ == currency
    &&& item.exchange_rate_to_doc_currency is None
    &&& item.tax_rate is None
    &&& item.discount_rate is None
}

/// `items` are the lines built from `inputs`, one each, in order.
pub open spec fn invoice_lines_from(
    items: Seq<InvoiceLineItem>,
    inputs: Seq<LineItemInput>,
    invoice_id: Seq<char>,
    currency: Seq<char>,
    line_totals: Seq<Real64>,
) -> bool {
    &&& items.len() == inputs.len()
    &&& forall|i: int|
        0 <= i < inputs.len() ==> invoice_line_from(
            #[trigger] items[i],
            inputs[i].description@,
            inputs[i].quantity,
            inputs[i].unit_price,
            i,
            invoice_id,
            currency,
            line_totals[i],
        )
}

/// Builds the lines of an invoice from entered lines, with the line totals
/// (quantity times unit price) computed for them.
pub fn build_lines(
    inputs: &Vec<LineItemInput>,
    invoice_id: &str,
    currency: &str,
    line_totals: &Vec<Real64>,
) -> (r: Vec<InvoiceLineItem>)
    requires
        line_totals@.len() == inputs@.len(),
        inputs@.len() < 0x7fff_ffff,
    ensures
        invoice_lines_from(r@, inputs@, invoice_id@, currency@, line_totals@),
{
    let mut out: Vec<InvoiceLineItem> = Vec::new();
    let n = inputs.len();
    for i in 0..n
        invariant
            n == inputs@.len(),
            line_totals@.len() == n,
            n < 0x7fff_ffff,
            out@.len() == i,
            forall|j: int|
                0 <= j < i ==> invoice_line_from(
                    #[trigger] out@[j],
                    inputs@[j].description@,
                    inputs@[j].quantity,
                    inputs@[j].unit_price,
                    j,
                    invoice_id@,
                    currency@,
                    line_totals@[j],
                ),
    {
        let l = &inputs[i];
        out.push(
            InvoiceLineItem {
                id: new_uuid(),
                invoice_id: owned(invoice_id),
                position: (i + 1) as i32,
                description: trim(l.description.as_str()),
                quantity: l.quantity,
                unit_price: l.unit_price,
                line_total: line_totals[i],
                line_currency: owned(currency),
                exchange_rate_to_doc_currency: None,
                tax_rate: None,
                discount_rate: None,
            },
        );
    }
    out
}

/// `inv` is the new draft invoice that `input` describes, numbered
/// `number`, with the snapshots and amounts given and nothing paid.
pub open spec fn invoice_created_from(
    inv: Invoice,
    input: CreateInvoiceInput,
    customer_snapshot: serde_json::Value,
    payment_methods_snapshot: serde_json::Value,
    totals: DocumentTotals,
    number: Seq<char>,
) -> bool {
    &&& is_uuid_v4_text(inv.id@)
    &&& inv.number@ == number
    &&& inv.customer_id@ == input.customer_id@
    &&& inv.customer_snapshot == customer_snapshot
    &&& inv.business_profile_id == input.business_profile_id
    &&& inv.source_quotation_id is None
    &&& inv.issue_date@ == input.issue_date@
    &&& inv.due_date@ == input.due_date@
    &&& inv.currency@ == input.currency@
    &&& inv.tax_enabled == input.tax_enabled
    &&& inv.tax_rate == input.tax_rate
    &&& inv.subtotal == totals.subtotal
    &&& inv.tax_amount == totals.tax_amount
    &&& inv.total == totals.total
    &&& inv.paid_amount == zero_spec()
    &&& inv.payment_methods_snapshot == payment_methods_snapshot
    &&& inv.selected_bank_account_ids == input.selected_bank_account_ids
    &&& inv.selected_qr_ids == input.selected_qr_ids
    &&& inv.selected_static_methods == input.selected_static_methods
    &&& inv.status == InvoiceStatus::Draft
    &&& opt_view(inv.notes) == trim_opt_spec(input.notes)
    &&& opt_view(inv.terms) == trim_opt_spec(input.terms)
    &&& inv.created_at@ == inv.updated_at@
}

/// Builds a new draft invoice with a fresh id, stamped with the current
/// time. The request has passed `validate_input`; the snapshots, amounts
/// and number come from the caller.
pub fn new_invoice(
    input: CreateInvoiceInput,
    customer_snapshot: serde_json::Value,
    payment_methods_snapshot: serde_json::Value,
    totals: DocumentTotals,
    line_totals: Vec<Real64>,
    number: String,
) -> (r: InvoiceWithLines)
    requires
        line_totals@.len() == input.lines@.len(),
        input.lines@.len() < 0x7fff_ffff,
    ensures
        invoice_created_from(
            r.invoice,
            input,
            customer_snapshot,
            payment_methods_snapshot,
            totals,
            number@,
        ),
        invoice_lines_from(r.lines@, input.lines@, r.invoice.id@, input.currency@, line_totals@),
{
    let id = new_uuid();
    let now = now_timestamp();
    let lines = build_lines(&input.lines, id.as_str(), input.currency.as_str(), &line_totals);
    let invoice = Invoice {
        id,
        number,
        customer_id: input.customer_id,
        customer_snapshot,
        business_profile_id: input.business_profile_id,
        source_quotation_id: None,
        issue_date: input.issue_date,
        due_date: input.due_date,
        currency: input.currency,
        tax_enabled: input.tax_enabled,
        tax_rate: input.tax_rate,
        subtotal: totals.subtotal,
        tax_amount: totals.tax_amount,
        total: totals.total,
        paid_amount: zero(),
        payment_methods_snapshot,
        selected_bank_account_ids: input.selected_bank_account_ids,
        selected_qr_ids: input.selected_qr_ids,
        selected_static_methods: input.selected_static_methods,
        status: InvoiceStatus::Draft,
        notes: trim_opt(input.notes),
        terms: trim_opt(input.terms),
        created_at: copy_string(&now),
        updated_at: now,
    };
    InvoiceWithLines { invoice, lines }
}

/// The first reason a quotation cannot become an invoice, in the order
/// checked; `None` when it can.
pub open spec fn conversion_error(
    issue_date_ok: bool,
    due_date_ok: bool,
    found: Option<QuotationWithLines>,
) -> Option<Seq<char>> {
    if !issue_date_ok {
        Some("issue_date 必须是 YYYY-MM-DD 格式"@)
    } else if !due_date_ok {
        Some("due_date 必须是 YYYY-MM-DD 格式"@)
    } else {
        match found {
            None => None,
            Some(q) => if q.quotation.status != QuotationStatus::Accepted {
                Some("只能从 已接受 状态的报价转发票"@)
            } else if q.quotation.converted_invoice_id is Some {
                Some("这份报价已经转过发票了"@)
            } else {
                None
            },
        }
    }
}

/// Checks that the quotation `quotation_id` (`found`, if stored) can become
/// an invoice, given whether the two dates parsed: it must exist, be
/// accepted and not converted yet. Gives the quotation back.
pub fn check_conversion(
    issue_date_ok: bool,
    due_date_ok: bool,
    quotation_id: &str,
    found: Option<QuotationWithLines>,
) -> (r: AppResult<QuotationWithLines>)
    ensures
        match conversion_error(issue_date_ok, due_date_ok, found) {
            Some(m) => r matches Err(e) && is_validation(e, m),
            None => match found {
                None => r matches Err(e) && is_not_found(e, "quotation"@, quotation_id@),
                Some(q) => r == Ok::<QuotationWithLines, AppError>(q),
            },
        },
{
    if !issue_date_ok {
        return Err(validation("issue_date 必须是 YYYY-MM-DD 格式"));
    }
    if !due_date_ok {
        return Err(validation("due_date 必须是 YYYY-MM-DD 格式"));
    }
    let q = match found {
        None => return Err(not_found("quotation", quotation_id)),
        Some(q) => q,
    };
    if q.quotation.status != QuotationStatus::Accepted {
        return Err(validation("只能从 已接受 状态的报价转发票"));
    }
    if q.quotation.converted_invoice_id.is_some() {
        return Err(validation("这份报价已经转过发票了"));
    }
    Ok(q)
}

/// Checks a conversion request, parsing its dates as `YYYY-MM-DD`.
pub fn conversion_source(input: &CreateFromQuotationInput, found: Option<QuotationWithLines>) -> (r:
    AppResult<QuotationWithLines>)
    ensures
        match conversion_error(
            parses_as_iso_date(input.issue_date@),
            parses_as_iso_date(input.due_date@),
            found,
        ) {
            Some(m) => r matches Err(e) && is_validation(e, m),
            None => match found {
                None => r matches Err(e) && is_not_found(e, "quotation"@, input.quotation_id@),
                Some(q) => r == Ok::<QuotationWithLines, AppError>(q),
            },
        },
{
    let issue_ok = is_iso_date(input.issue_date.as_str());
    let due_ok = is_iso_date(input.due_date.as_str());
    check_conversion(issue_ok, due_ok, input.quotation_id.as_str(), found)
}

/// The profile an invoice made from a quotation belongs to: the one asked
/// for, else the quotation's.
pub fn conversion_profile_id(requested: Option<String>, quotation_profile: Option<String>) -> (r:
    Option<String>)
    ensures
        r == (if requested is Some {
            requested
        } else {
            quotation_profile
        }),
{
    match requested {
        Some(p) => Some(p),
        None => quotation_profile,
    }
}

/// The entered-line form of the quotation's lines.
pub open spec fn quotation_line_inputs(q: QuotationWithLines) -> Seq<LineItemInput> {
    q.lines@.map_values(
        |l: crate::domain::quotation::types::QuotationLineItem|
            LineItemInput { description: l.description, quantity: l.quantity, unit_price: l.unit_price },
    )
}

/// `inv` is the draft invoice made from the accepted quotation `q`: the
/// quotation's customer, currency, tax settings, amounts, notes and terms,
/// the dates of the request, linked back to the quotation, nothing paid
/// and no payment options chosen yet.
pub open spec fn invoice_converted_from(
    inv: Invoice,
    q: Quotation,
    input: CreateFromQuotationInput,
    business_profile_id: Option<String>,
    payment_methods_snapshot: serde_json::Value,
    number: Seq<char>,
) -> bool {
    &&& is_uuid_v4_text(inv.id@)
    &&& inv.number@ == number
    &&& inv.customer_id@ == q.customer_id@
    &&& inv.customer_snapshot == q.customer_snapshot
    &&& inv.business_profile_id == business_profile_id
    &&& opt_view(inv.source_quotation_id) == Some(q.id@)
    &&& inv.issue_date@ == input.issue_date@
    &&& inv.due_date@ == input.due_date@
    &&& inv.currency@ == q.currency@
    &&& inv.tax_enabled == q.tax_enabled
    &&& inv.tax_rate == q.tax_rate
    &&& inv.subtotal == q.subtotal
    &&& inv.tax_amount == q.tax_amount
    &&& inv.total == q.total
    &&& inv.paid_amount == zero_spec()
    &&& inv.payment_methods_snapshot == payment_methods_snapshot
    &&& inv.selected_bank_account_ids@.len() == 0
    &&& inv.selected_qr_ids@.len() == 0
    &&& inv.selected_static_methods@.len() == 0
    &&& inv.status == InvoiceStatus::Draft
    &&& opt_view(inv.notes) == opt_view(q.notes)
    &&& opt_view(inv.terms) == opt_view(q.terms)
    &&& inv.created_at@ == inv.updated_at@
}

/// Builds the invoice for an accepted quotation (one that passed
/// `conversion_source`), and the quotation linked to it.
pub fn invoice_from_quotation(
    input: CreateFromQuotationInput,
    source: QuotationWithLines,
    business_profile_id: Option<String>,
    payment_methods_snapshot: serde_json::Value,
    line_totals: Vec<Real64>,
    number: String,
) -> (r: (InvoiceWithLines, Quotation))
    requires
        line_totals@.len() == source.lines@.len(),
        source.lines@.len() < 0x7fff_ffff,
    ensures
        invoice_converted_from(
            r.0.invoice,
            source.quotation,
            input,
            business_profile_id,
            payment_methods_snapshot,
            number@,
        ),
        invoice_lines_from(
            r.0.lines@,
            quotation_line_inputs(source),
            r.0.invoice.id@,
            source.quotation.currency@,
            line_totals@,
        ),
        r.1 == (Quotation {
            converted_invoice_id: r.1.converted_invoice_id,
            updated_at: r.1.updated_at,
            ..source.quotation
        }),
        opt_view(r.1.converted_invoice_id) == Some(r.0.invoice.id@),
        r.1.updated_at@ == r.0.invoice.created_at@,
{
    let ghost inputs = quotation_line_inputs(source);
    let mut line_inputs: Vec<LineItemInput> = Vec::new();
    let n = source.lines.len();
    for i in 0..n
        invariant
            n == source.lines@.len(),
            inputs == quotation_line_inputs(source),
            line_inputs@.len() == i,
            forall|j: int|
                0 <= j < i ==> {
                    &&& (#[trigger] line_inputs@[j]).description@ == inputs[j].description@
                    &&& line_inputs@[j].quantity == inputs[j].quantity
                    &&& line_inputs@[j].unit_price == inputs[j].unit_price
                },
    {
        let l = &source.lines[i];
        line_inputs.push(
            LineItemInput {
                description: copy_string(&l.description),
                quantity: l.quantity,
                unit_price: l.unit_price,
            },
        );
    }
    let id = new_uuid();
    let now = now_timestamp();
    let q = source.quotation;
    let lines = build_lines(&line_inputs, id.as_str(), q.currency.as_str(), &line_totals);
    assert(invoice_lines_from(lines@, inputs, id@, q.currency@, line_totals@)) by {
        assert forall|i: int| 0 <= i < inputs.len() implies invoice_line_from(
            #[trigger] lines@[i],
            inputs[i].description@,
            inputs[i].quantity,
            inputs[i].unit_price,
            i,
            id@,
            q.currency@,
            line_totals@[i],
        ) by {
            assert(line_inputs@[i].description@ == inputs[i].description@);
        }
    }
    let invoice = Invoice {
        id: copy_string(&id),
        number,
        customer_id: copy_string(&q.customer_id),
        customer_snapshot: q.customer_snapshot.clone(),
        business_profile_id,
        source_quotation_id: Some(copy_string(&q.id)),
        issue_date: input.issue_date,
        due_date: input.due_date,
        currency: copy_string(&q.currency),
        tax_enabled: q.tax_enabled,
        tax_rate: q.tax_rate,
        subtotal: q.subtotal,
        tax_amount: q.tax_amount,
        total: q.total,
        paid_amount: zero(),
        payment_methods_snapshot,
        selected_bank_account_ids: Vec::new(),
        selected_qr_ids: Vec::new(),
        selected_static_methods: Vec::new(),
        status: InvoiceStatus::Draft,
        notes: copy_opt(&q.notes),
        terms: copy_opt(&q.terms),
        created_at: copy_string(&now),
        updated_at: copy_string(&now),
    };
    let linked = link_invoice(q, id, now);
    (InvoiceWithLines { invoice, lines }, linked)
}

} // verus!

verus! {

/// The message when an invoice that is not a draft is edited.
pub open spec fn not_draft_error(status: Seq<char>) -> Seq<char> {
    "只有 Draft 状态可以修改，当前状态为 "@ + status
}

/// `inv` is `existing` with the header fields of `input`: number, status,
/// source quotation, paid amount and creation time stay.
pub open spec fn invoice_updated_from(
    inv: Invoice,
    existing: Invoice,
    input: UpdateInvoiceInput,
    customer_snapshot: serde_json::Value,
    payment_methods_snapshot: serde_json::Value,
    totals: DocumentTotals,
    now: Seq<char>,
) -> bool {
    &&& inv.id == existing.id
    &&& inv.number == existing.number
    &&& inv.status == existing.status
    &&& inv.source_quotation_id == existing.source_quotation_id
    &&& inv.paid_amount == existing.paid_amount
    &&& inv.created_at == existing.created_at
    &&& inv.customer_id@ == input.customer_id@
    &&& inv.customer_snapshot == customer_snapshot
    &&& inv.business_profile_id == input.business_profile_id
    &&& inv.issue_date@ == input.issue_date@
    &&& inv.due_date@ == input.due_date@
    &&& inv.currency@ == input.currency@
    &&& inv.tax_enabled == input.tax_enabled
    &&& inv.tax_rate == input.tax_rate
    &&& inv.subtotal == totals.subtotal
    &&& inv.tax_amount == totals.tax_amount
    &&& inv.total == totals.total
    &&& inv.payment_methods_snapshot == payment_methods_snapshot
    &&& inv.selected_bank_account_ids == input.selected_bank_account_ids
    &&& inv.selected_qr_ids == input.selected_qr_ids
    &&& inv.selected_static_methods == input.selected_static_methods
    &&& opt_view(inv.notes) == trim_opt_spec(input.notes)
    &&& opt_view(inv.terms) == trim_opt_spec(input.terms)
    &&& inv.updated_at@ == now
}

/// Applies an edit to the stored invoice with id `input.id` (`existing`, if
/// any): only a draft can be edited, and its lines are replaced.
pub fn apply_update(
    existing: Option<Invoice>,
    input: UpdateInvoiceInput,
    customer_snapshot: serde_json::Value,
    payment_methods_snapshot: serde_json::Value,
    totals: DocumentTotals,
    line_totals: Vec<Real64>,
    now: String,
) -> (r: AppResult<InvoiceWithLines>)
    requires
        line_totals@.len() == input.lines@.len(),
        input.lines@.len() < 0x7fff_ffff,
    ensures
        match existing {
            None => r matches Err(e) && is_not_found(e, "invoice"@, input.id@),
            Some(old_i) => if old_i.status != InvoiceStatus::Draft {
                r matches Err(e) && is_validation(
                    e,
                    not_draft_error(invoice_status_text(old_i.status)),
                )
            } else {
                r matches Ok(iwl) && invoice_updated_from(
                    iwl.invoice,
                    old_i,
                    input,
                    customer_snapshot,
                    payment_methods_snapshot,
                    totals,
                    now@,
                ) && invoice_lines_from(
                    iwl.lines@,
                    input.lines@,
                    input.id@,
                    input.currency@,
                    line_totals@,
                )
            },
        },
{
    let lines = build_lines(&input.lines, input.id.as_str(), input.currency.as_str(), &line_totals);
    let old_i = match existing {
        None => return Err(not_found("invoice", input.id.as_str())),
        Some(i) => i,
    };
    if old_i.status != InvoiceStatus::Draft {
        return Err(
            validation_owned(concat2("只有 Draft 状态可以修改，当前状态为 ", old_i.status.as_str())),
        );
    }
    let invoice = Invoice {
        id: old_i.id,
        number: old_i.number,
        customer_id: input.customer_id,
        customer_snapshot,
        business_profile_id: input.business_profile_id,
        source_quotation_id: old_i.source_quotation_id,
        issue_date: input.issue_date,
        due_date: input.due_date,
        currency: input.currency,
        tax_enabled: input.tax_enabled,
        tax_rate: input.tax_rate,
        subtotal: totals.subtotal,
        tax_amount: totals.tax_amount,
        total: totals.total,
        paid_amount: old_i.paid_amount,
        payment_methods_snapshot,
        selected_bank_account_ids: input.selected_bank_account_ids,
        selected_qr_ids: input.selected_qr_ids,
        selected_static_methods: input.selected_static_methods,
        status: old_i.status,
        notes: trim_opt(input.notes),
        terms: trim_opt(input.terms),
        created_at: old_i.created_at,
        updated_at: now,
    };
    Ok(InvoiceWithLines { invoice, lines })
}

/// `u` is `inv` with only its status and update time changed.
pub open spec fn restatused(u: Invoice, inv: Invoice, status: InvoiceStatus, now: Seq<char>) -> bool {
    &&& u.status == status
    &&& u.updated_at@ == now
    &&& u == (Invoice { status: u.status, updated_at: u.updated_at, ..inv })
}

fn with_status(inv: Invoice, status: InvoiceStatus, now: String) -> (u: Invoice)
    ensures
        restatused(u, inv, status, now@),
{
    let mut inv = inv;
    inv.status = status;
    inv.updated_at = now;
    inv
}

/// Moves the stored invoice with id `id` (`existing`, if any) to status
/// `to`, as the state machine allows, stamped `now`.
pub fn mark_with(existing: Option<Invoice>, id: &str, to: InvoiceStatus, now: String) -> (r:
    AppResult<Invoice>)
    ensures
        match existing {
            None => r matches Err(e) && is_not_found(e, "invoice"@, id@),
            Some(inv) => if invoice_transition_allowed(inv.status, to) {
                r matches Ok(u) && restatused(u, inv, to, now@)
            } else {
                r matches Err(e) && is_invalid_transition(
                    e,
                    invoice_status_text(inv.status),
                    invoice_status_text(to),
                )
            },
        },
{
    let inv = match existing {
        None => return Err(not_found("invoice", id)),
        Some(inv) => inv,
    };
    let new_status = transition(inv.status, to)?;
    Ok(with_status(inv, new_status, now))
}

/// Moves an invoice to status `to`, stamped with the current time.
pub fn mark(existing: Option<Invoice>, id: &str, to: InvoiceStatus) -> (r: AppResult<Invoice>)
    ensures
        match existing {
            None => r matches Err(e) && is_not_found(e, "invoice"@, id@),
            Some(inv) => if invoice_transition_allowed(inv.status, to) {
                r matches Ok(u) && restatused(u, inv, to, u.updated_at@)
            } else {
                r matches Err(e) && is_invalid_transition(
                    e,
                    invoice_status_text(inv.status),
                    invoice_status_text(to),
                )
            },
        },
{
    mark_with(existing, id, to, now_timestamp())
}

/// Sends an invoice; one whose due date is already before `today` goes on
/// to Overdue at once.
pub fn mark_sent_with(existing: Option<Invoice>, id: &str, today: &str, now: String) -> (r:
    AppResult<Invoice>)
    ensures
        match existing {
            None => r matches Err(e) && is_not_found(e, "invoice"@, id@),
            Some(inv) => if invoice_transition_allowed(inv.status, InvoiceStatus::Sent) {
                r matches Ok(u) && restatused(
                    u,
                    inv,
                    if seq_lt(inv.due_date@, today@) {
                        InvoiceStatus::Overdue
                    } else {
                        InvoiceStatus::Sent
                    },
                    now@,
                )
            } else {
                r matches Err(e) && is_invalid_transition(
                    e,
                    invoice_status_text(inv.status),
                    "Sent"@,
                )
            },
        },
{
    let sent = mark_with(existing, id, InvoiceStatus::Sent, now)?;
    if str_lt(sent.due_date.as_str(), today) {
        let stamp = copy_string(&sent.updated_at);
        let overdue = transition(sent.status, InvoiceStatus::Overdue)?;
        return Ok(with_status(sent, overdue, stamp));
    }
    Ok(sent)
}

/// Sends an invoice, checking its due date against today's date.
pub fn mark_sent(existing: Option<Invoice>, id: &str) -> (r: AppResult<Invoice>)
    ensures
        match existing {
            None => r matches Err(e) && is_not_found(e, "invoice"@, id@),
            Some(inv) => if invoice_transition_allowed(inv.status, InvoiceStatus::Sent) {
                r matches Ok(u) && (u.status == InvoiceStatus::Sent || u.status
                    == InvoiceStatus::Overdue) && restatused(u, inv, u.status, u.updated_at@)
            } else {
                r matches Err(e) && is_invalid_transition(
                    e,
                    invoice_status_text(inv.status),
                    "Sent"@,
                )
            },
        },
{
    let today = today_iso();
    mark_sent_with(existing, id, today.as_str(), now_timestamp())
}

/// Takes an overdue invoice back to PartialPaid when something has been
/// paid, else to Sent.
pub fn cancel_overdue_with(existing: Option<Invoice>, id: &str, now: String) -> (r: AppResult<
    Invoice,
>)
    ensures
        match existing {
            None => r matches Err(e) && is_not_found(e, "invoice"@, id@),
            Some(inv) => if inv.status != InvoiceStatus::Overdue {
                r matches Err(e) && is_validation(e, "只有 Overdue 状态可以取消逾期"@)
            } else {
                r matches Ok(u) && restatused(
                    u,
                    inv,
                    if is_positive_spec(inv.paid_amount) {
                        InvoiceStatus::PartialPaid
                    } else {
                        InvoiceStatus::Sent
                    },
                    now@,
                )
            },
        },
{
    let inv = match existing {
        None => return Err(not_found("invoice", id)),
        Some(inv) => inv,
    };
    if inv.status != InvoiceStatus::Overdue {
        return Err(validation("只有 Overdue 状态可以取消逾期"));
    }
    let target = if inv.paid_amount.is_positive() {
        InvoiceStatus::PartialPaid
    } else {
        InvoiceStatus::Sent
    };
    let new_status = transition(inv.status, target)?;
    Ok(with_status(inv, new_status, now))
}

/// Takes an overdue invoice back, stamped with the current time.
pub fn cancel_overdue(existing: Option<Invoice>, id: &str) -> (r: AppResult<Invoice>)
    ensures
        match existing {
            None => r matches Err(e) && is_not_found(e, "invoice"@, id@),
            Some(inv) => if inv.status != InvoiceStatus::Overdue {
                r matches Err(e) && is_validation(e, "只有 Overdue 状态可以取消逾期"@)
            } else {
                r matches Ok(u) && restatused(
                    u,
                    inv,
                    if is_positive_spec(inv.paid_amount) {
                        InvoiceStatus::PartialPaid
                    } else {
                        InvoiceStatus::Sent
                    },
                    u.updated_at@,
                )
            },
        },
{
    cancel_overdue_with(existing, id, now_timestamp())
}

/// The status a recorded payment total moves an invoice to, if any: an
/// invoice that is sent or overdue becomes Paid once the payments cover
/// the total and PartialPaid once anything is paid; a partly paid one
/// becomes Paid once covered. No other status moves, and none moves back.
pub open spec fn payment_target(status: InvoiceStatus, paid: Real64, total: Real64) -> Option<
    InvoiceStatus,
> {
    match status {
        InvoiceStatus::Sent | InvoiceStatus::Overdue => if real_le(total, paid) {
            Some(InvoiceStatus::Paid)
        } else if is_positive_spec(paid) {
            Some(InvoiceStatus::PartialPaid)
        } else {
            None
        },
        InvoiceStatus::PartialPaid => if real_le(total, paid) {
            Some(InvoiceStatus::Paid)
        } else {
            None
        },
        _ => None,
    }
}

/// The status after recording `paid` against an invoice in `status` with
/// total `total`: the payment target when the state machine allows it,
/// else unchanged.
pub open spec fn status_after_payment(status: InvoiceStatus, paid: Real64, total: Real64) -> InvoiceStatus {
    match payment_target(status, paid, total) {
        Some(t) => if invoice_transition_allowed(status, t) {
            t
        } else {
            status
        },
        None => status,
    }
}

/// The status that a payment total moves an invoice to, if any.
pub fn payment_status(status: InvoiceStatus, paid: Real64, total: Real64) -> (r: Option<
    InvoiceStatus,
>)
    ensures
        r == payment_target(status, paid, total),
{
    match status {
        InvoiceStatus::Sent | InvoiceStatus::Overdue => {
            if total.le(&paid) {
                Some(InvoiceStatus::Paid)
            } else if paid.is_positive() {
                Some(InvoiceStatus::PartialPaid)
            } else {
                None
            }
        },
        InvoiceStatus::PartialPaid => {
            if total.le(&paid) {
                Some(InvoiceStatus::Paid)
            } else {
                None
            }
        },
        _ => None,
    }
}

/// Records `new_paid` as the paid amount of the stored invoice with id
/// `invoice_id` (`existing`, if any) and moves its status as the payments
/// call for, stamped `now`.
pub fn apply_paid_amount_with(
    existing: Option<Invoice>,
    invoice_id: &str,
    new_paid: Real64,
    now: String,
) -> (r: AppResult<Invoice>)
    ensures
        match existing {
            None => r matches Err(e) && is_not_found(e, "invoice"@, invoice_id@),
            Some(inv) => r matches Ok(u) && u.paid_amount == new_paid && u.status
                == status_after_payment(inv.status, new_paid, inv.total) && u.updated_at@ == now@
                && u == (Invoice {
                paid_amount: u.paid_amount,
                status: u.status,
                updated_at: u.updated_at,
                ..inv
            }),
        },
{
    let inv = match existing {
        None => return Err(not_found("invoice", invoice_id)),
        Some(inv) => inv,
    };
    let mut inv = inv;
    inv.paid_amount = new_paid;
    inv.updated_at = now;
    if let Some(target) = payment_status(inv.status, new_paid, inv.total) {
        if can_transition(inv.status, target) {
            inv.status = target;
        }
    }
    Ok(inv)
}

/// Records a new paid amount, stamped with the current time.
pub fn apply_paid_amount(existing: Option<Invoice>, invoice_id: &str, new_paid: Real64) -> (r:
    AppResult<Invoice>)
    ensures
        match existing {
            None => r matches Err(e) && is_not_found(e, "invoice"@, invoice_id@),
            Some(inv) => r matches Ok(u) && u.paid_amount == new_paid && u.status
                == status_after_payment(inv.status, new_paid, inv.total) && u == (Invoice {
                paid_amount: u.paid_amount,
                status: u.status,
                updated_at: u.updated_at,
                ..inv
            }),
        },
{
    apply_paid_amount_with(existing, invoice_id, new_paid, now_timestamp())
}

/// Whether payment vouchers may be recorded, edited or deleted against an
/// invoice in `status`: not while it is a draft or void.
pub open spec fn allows_payment_voucher_spec(status: InvoiceStatus) -> bool {
    status != InvoiceStatus::Draft && status != InvoiceStatus::Void
}

/// Whether payment vouchers may be recorded against an invoice in `status`.
pub fn allows_payment_voucher(status: InvoiceStatus) -> (b: bool)
    ensures
        b == allows_payment_voucher_spec(status),
{
    !matches!(status, InvoiceStatus::Draft | InvoiceStatus::Void)
}

/// The message when vouchers of an invoice in `status` are changed.
pub open spec fn voucher_change_refused(status: InvoiceStatus) -> Seq<char> {
    "Invoice 状态为 "@ + invoice_status_text(status) + " 时不能修改付款记录"@
}

/// Checks that the vouchers of the stored invoice `invoice_id` (`existing`,
/// if any) may be edited or deleted.
pub fn assert_allows_payment_voucher(existing: &Option<Invoice>, invoice_id: &str) -> (r: AppResult<
    (),
>)
    ensures
        match *existing {
            None => r matches Err(e) && is_not_found(e, "invoice"@, invoice_id@),
            Some(inv) => if allows_payment_voucher_spec(inv.status) {
                r is Ok
            } else {
                r matches Err(e) && is_validation(e, voucher_change_refused(inv.status))
            },
        },
{
    match existing {
        None => Err(not_found("invoice", invoice_id)),
        Some(inv) => {
            if !allows_payment_voucher(inv.status) {
                return Err(
                    validation_owned(
                        concat3("Invoice 状态为 ", inv.status.as_str(), " 时不能修改付款记录"),
                    ),
                );
            }
            Ok(())
        },
    }
}

/// The status an invoice naturally has outside Void: Paid when a positive
/// total is covered, else Overdue when past due, else PartialPaid when
/// something is paid, else Sent.
pub open spec fn natural_status_spec(paid: Real64, total: Real64, due_date: Seq<char>, today: Seq<char>) -> InvoiceStatus {
    if real_le(total, paid) && is_positive_spec(total) {
        InvoiceStatus::Paid
    } else if seq_lt(due_date, today) {
        InvoiceStatus::Overdue
    } else if is_positive_spec(paid) {
        InvoiceStatus::PartialPaid
    } else {
        InvoiceStatus::Sent
    }
}

/// The status an invoice would have if it had not been voided.
pub fn natural_status(inv: &Invoice, today: &str) -> (s: InvoiceStatus)
    ensures
        s == natural_status_spec(inv.paid_amount, inv.total, inv.due_date@, today@),
{
    if inv.total.le(&inv.paid_amount) && inv.total.is_positive() {
        InvoiceStatus::Paid
    } else if str_lt(inv.due_date.as_str(), today) {
        InvoiceStatus::Overdue
    } else if inv.paid_amount.is_positive() {
        InvoiceStatus::PartialPaid
    } else {
        InvoiceStatus::Sent
    }
}

/// Brings a voided invoice back with its natural status (outside the state
/// machine, where Void stays terminal); amounts, lines and number stay.
pub fn restore_void_with(existing: Option<Invoice>, id: &str, today: &str, now: String) -> (r:
    AppResult<Invoice>)
    ensures
        match existing {
            None => r matches Err(e) && is_not_found(e, "invoice"@, id@),
            Some(inv) => if inv.status != InvoiceStatus::Void {
                r matches Err(e) && is_validation(e, "只有作废状态的 Invoice 可以恢复"@)
            } else {
                r matches Ok(u) && restatused(
                    u,
                    inv,
                    natural_status_spec(inv.paid_amount, inv.total, inv.due_date@, today@),
                    now@,
                )
            },
        },
{
    let inv = match existing {
        None => return Err(not_found("invoice", id)),
        Some(inv) => inv,
    };
    if inv.status != InvoiceStatus::Void {
        return Err(validation("只有作废状态的 Invoice 可以恢复"));
    }
    let natural = natural_status(&inv, today);
    Ok(with_status(inv, natural, now))
}

/// Restores a voided invoice against today's date.
pub fn restore_void(existing: Option<Invoice>, id: &str) -> (r: AppResult<Invoice>)
    ensures
        match existing {
            None => r matches Err(e) && is_not_found(e, "invoice"@, id@),
            Some(inv) => if inv.status != InvoiceStatus::Void {
                r matches Err(e) && is_validation(e, "只有作废状态的 Invoice 可以恢复"@)
            } else {
                r matches Ok(u) && u.status != InvoiceStatus::Draft && u.status
                    != InvoiceStatus::Void && restatused(u, inv, u.status, u.updated_at@)
            },
        },
{
    let today = today_iso();
    restore_void_with(existing, id, today.as_str(), now_timestamp())
}

/// Whether an invoice is one that the start-up sweep marks overdue: sent
/// or partly paid, with a due date before `today`.
pub open spec fn overdue_candidate_spec(status: InvoiceStatus, due_date: Seq<char>, today: Seq<char>) -> bool {
    (status == InvoiceStatus::Sent || status == InvoiceStatus::PartialPaid) && seq_lt(due_date, today)
}

/// Whether the start-up sweep should mark this invoice overdue.
pub fn is_overdue_candidate(inv: &Invoice, today: &str) -> (b: bool)
    ensures
        b == overdue_candidate_spec(inv.status, inv.due_date@, today@),
{
    (inv.status == InvoiceStatus::Sent || inv.status == InvoiceStatus::PartialPaid) && str_lt(
        inv.due_date.as_str(),
        today,
    )
}

} // verus!

verus! {

/// Recording payments never moves an invoice backwards: it either keeps its
/// status or takes a step the state machine allows, and that step only
/// ever leads to PartialPaid or Paid.
pub proof fn payment_status_moves_forward_only(status: InvoiceStatus, paid: Real64, total: Real64)
    ensures
        status_after_payment(status, paid, total) == status || (invoice_transition_allowed(
            status,
            status_after_payment(status, paid, total),
        ) && (status_after_payment(status, paid, total) == InvoiceStatus::Paid
            || status_after_payment(status, paid, total) == InvoiceStatus::PartialPaid)),
{
}

/// Payments that cover the total mark a sent, overdue or partly paid
/// invoice Paid, overpayment included.
pub proof fn covering_payment_marks_paid(status: InvoiceStatus, paid: Real64, total: Real64)
    requires
        status == InvoiceStatus::Sent || status == InvoiceStatus::Overdue || status
            == InvoiceStatus::PartialPaid,
        real_le(total, paid),
    ensures
        status_after_payment(status, paid, total) == InvoiceStatus::Paid,
{
}

/// A positive payment short of the total marks a sent or overdue invoice
/// PartialPaid.
pub proof fn partial_payment_marks_partial(status: InvoiceStatus, paid: Real64, total: Real64)
    requires
        status == InvoiceStatus::Sent || status == InvoiceStatus::Overdue,
        !real_le(total, paid),
        is_positive_spec(paid),
    ensures
        status_after_payment(status, paid, total) == InvoiceStatus::PartialPaid,
{
}

/// Payments never change a draft, paid or void invoice's status, and a
/// partly paid invoice stays partly paid when payments drop (a deleted
/// voucher does not downgrade it).
pub proof fn payment_leaves_settled_statuses(status: InvoiceStatus, paid: Real64, total: Real64)
    ensures
        (status == InvoiceStatus::Draft || status == InvoiceStatus::Paid || status
            == InvoiceStatus::Void) ==> status_after_payment(status, paid, total) == status,
        (status == InvoiceStatus::PartialPaid && !real_le(total, paid)) ==> status_after_payment(
            status,
            paid,
            total,
        ) == InvoiceStatus::PartialPaid,
{
}

/// A restored invoice is never a draft and never void.
pub proof fn restored_status_is_live(paid: Real64, total: Real64, due_date: Seq<char>, today: Seq<char>)
    ensures
        natural_status_spec(paid, total, due_date, today) != InvoiceStatus::Draft,
        natural_status_spec(paid, total, due_date, today) != InvoiceStatus::Void,
{
}

/// Every invoice the start-up sweep picks can be moved to Overdue.
pub proof fn overdue_candidates_can_become_overdue(status: InvoiceStatus, due_date: Seq<char>, today: Seq<char>)
    requires
        overdue_candidate_spec(status, due_date, today),
    ensures
        invoice_transition_allowed(status, InvoiceStatus::Overdue),
{
}

/// Cancelling an overdue invoice always takes a step the state machine
/// allows.
pub proof fn cancel_overdue_target_allowed(paid: Real64)
    ensures
        invoice_transition_allowed(
            InvoiceStatus::Overdue,
            if is_positive_spec(paid) {
                InvoiceStatus::PartialPaid
            } else {
                InvoiceStatus::Sent
            },
        ),
{
}

/// Payment vouchers are allowed exactly when the invoice is neither a
/// draft nor void.
pub proof fn vouchers_need_live_invoice(status: InvoiceStatus)
    ensures
        allows_payment_voucher_spec(status) <==> (status == InvoiceStatus::Sent || status
            == InvoiceStatus::PartialPaid || status == InvoiceStatus::Paid || status
            == InvoiceStatus::Overdue),
{
}

/// Recomputing the paid amount again with the same payments changes
/// nothing: the status reached is already the one those payments call for.
pub proof fn payment_recalc_is_idempotent(status: InvoiceStatus, paid: Real64, total: Real64)
    ensures
        status_after_payment(status_after_payment(status, paid, total), paid, total)
            == status_after_payment(status, paid, total),
{
}

/// `q` with its header replaced by `header`.
pub open spec fn with_header(q: QuotationWithLines, header: Quotation) -> QuotationWithLines {
    QuotationWithLines { quotation: header, lines: q.lines }
}

/// A quotation converts to an invoice at most once: the quotation that a
/// conversion links to its invoice is refused by every later conversion,
/// with the "already converted" message once the dates are valid.
pub proof fn quotation_converts_once(
    input: CreateFromQuotationInput,
    source: QuotationWithLines,
    business_profile_id: Option<String>,
    payment_methods_snapshot: serde_json::Value,
    number: Seq<char>,
    made: InvoiceWithLines,
    linked: Quotation,
    issue_date_ok: bool,
    due_date_ok: bool,
)
    requires
        conversion_error(true, true, Some(source)) is None,
        invoice_converted_from(
            made.invoice,
            source.quotation,
            input,
            business_profile_id,
            payment_methods_snapshot,
            number,
        ),
        linked == (Quotation {
            converted_invoice_id: linked.converted_invoice_id,
            updated_at: linked.updated_at,
            ..source.quotation
        }),
        opt_view(linked.converted_invoice_id) == Some(made.invoice.id@),
    ensures
        conversion_error(
            issue_date_ok,
            due_date_ok,
            Some(with_header(source, linked)),
        ) is Some,
        issue_date_ok && due_date_ok ==> conversion_error(
            issue_date_ok,
            due_date_ok,
            Some(with_header(source, linked)),
        ) == Some("这份报价已经转过发票了"@),
{
}

/// A sent or overdue invoice whose payments neither cover the total nor
/// amount to anything keeps its status: nothing paid is never "partly paid".
pub proof fn unpaid_invoice_keeps_status(status: InvoiceStatus, paid: Real64, total: Real64)
    requires
        status == InvoiceStatus::Sent || status == InvoiceStatus::Overdue,
        !real_le(total, paid),
        !is_positive_spec(paid),
    ensures
        status_after_payment(status, paid, total) == status,
{
}

/// Recording payments moves an invoice to PartialPaid only when something
/// is paid, and to Paid only when the payments cover the total.
pub proof fn payment_steps_are_earned(status: InvoiceStatus, paid: Real64, total: Real64)
    ensures
        status != InvoiceStatus::PartialPaid && status_after_payment(status, paid, total)
            == InvoiceStatus::PartialPaid ==> is_positive_spec(paid) && !real_le(total, paid),
        status != InvoiceStatus::Paid && status_after_payment(status, paid, total)
            == InvoiceStatus::Paid ==> real_le(total, paid),
{
}

/// A restored invoice is Paid exactly when its positive total is covered,
/// overpayment included.
pub proof fn restored_covered_invoice_is_paid(paid: Real64, total: Real64, due_date: Seq<char>, today: Seq<char>)
    ensures
        natural_status_spec(paid, total, due_date, today) == InvoiceStatus::Paid <==> (real_le(
            total,
            paid,
        ) && is_positive_spec(total)),
{
}

/// A restored invoice that is not paid off is Overdue exactly when its due
/// date has passed.
pub proof fn restored_unpaid_invoice_is_overdue_when_past_due(
    paid: Real64,
    total: Real64,
    due_date: Seq<char>,
    today: Seq<char>,
)
    requires
        !(real_le(total, paid) && is_positive_spec(total)),
    ensures
        natural_status_spec(paid, total, due_date, today) == InvoiceStatus::Overdue <==> seq_lt(
            due_date,
            today,
        ),
{
}

/// Before its due date, a restored invoice with a positive total has the
/// status that recording its payments against it as a sent invoice gives.
pub proof fn restored_status_agrees_with_payments(
    paid: Real64,
    total: Real64,
    due_date: Seq<char>,
    today: Seq<char>,
)
    requires
        is_positive_spec(total),
        !seq_lt(due_date, today),
    ensures
        natural_status_spec(paid, total, due_date, today) == status_after_payment(
            InvoiceStatus::Sent,
            paid,
            total,
        ),
{
}

/// An invoice made from a quotation bills the quotation's customer in its
/// currency, links back to it, and owes what it quoted: the same subtotal,
/// tax and total, with nothing paid yet; once sent, payments of the quoted
/// total settle it. Its dates are those of the request.
pub proof fn converted_invoice_owes_quoted_total(
    inv: Invoice,
    q: Quotation,
    input: CreateFromQuotationInput,
    business_profile_id: Option<String>,
    payment_methods_snapshot: serde_json::Value,
    number: Seq<char>,
)
    requires
        invoice_converted_from(inv, q, input, business_profile_id, payment_methods_snapshot, number),
        !crate::binary64::is_nan_bits(q.total.bits),
    ensures
        inv.customer_id@ == q.customer_id@,
        inv.currency@ == q.currency@,
        opt_view(inv.source_quotation_id) == Some(q.id@),
        inv.issue_date@ == input.issue_date@,
        inv.due_date@ == input.due_date@,
        inv.tax_enabled == q.tax_enabled,
        inv.tax_rate == q.tax_rate,
        inv.subtotal == q.subtotal,
        inv.tax_amount == q.tax_amount,
        inv.total == q.total,
        inv.paid_amount == zero_spec(),
        inv.status == InvoiceStatus::Draft,
        status_after_payment(InvoiceStatus::Sent, q.total, inv.total) == InvoiceStatus::Paid,
{
}

} // verus!
