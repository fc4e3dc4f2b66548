//! Rules shared by quotations and invoices: the checks a document request
//! must pass and the amounts computed for it.
use vstd::prelude::*;

use crate::binary64::{in_unit_interval_spec, is_negative_spec, real_le, zero, zero_spec, Real64};
use crate::clock::{is_iso_date, parses_as_iso_date};
use crate::error::{is_validation, validation, validation_owned, AppError, AppResult};
use crate::text::{concat2, decimal_seq, is_blank, is_blank_seq, push_decimal};

use super::quotation::types::LineItemInput;

verus! {

/// The amounts of a document, computed from its lines and tax settings.
#[derive(Debug, Clone, Copy)]
pub struct DocumentTotals {
    pub subtotal: Real64,
    pub tax_amount: Real64,
    pub total: Real64,
}

/// The problem with the line at 1-based position `pos`, if any, in the
/// order checked: a blank description, a quantity at or below 0, a negative
/// unit price (a NaN amount is neither).
pub open spec fn line_problem(l: LineItemInput, pos: nat) -> Option<Seq<char>> {
    if is_blank_seq(l.description@) {
        Some("第 "@ + decimal_seq(pos) + " 行描述不能为空"@)
    } else if real_le(l.quantity, zero_spec()) {
        Some("第 "@ + decimal_seq(pos) + " 行数量必须大于 0"@)
    } else if is_negative_spec(l.unit_price) {
        Some("第 "@ + decimal_seq(pos) + " 行单价不能为负数"@)
    } else {
        None
    }
}

/// The problem with the first faulty line, if any.
pub open spec fn first_line_problem(lines: Seq<LineItemInput>) -> Option<Seq<char>>
    decreases lines.len(),
{
    if lines.len() == 0 {
        None
    } else {
        match first_line_problem(lines.drop_last()) {
            Some(m) => Some(m),
            None => line_problem(lines.last(), lines.len()),
        }
    }
}

/// The first rule a document request breaks, by its message, in the order
/// checked; `None` when all hold. `second_date_field` names the date that
/// follows the issue date (`valid_until` or `due_date`).
pub open spec fn document_rule_error(
    issue_date_ok: bool,
    second_date_ok: bool,
    second_date_field: Seq<char>,
    currency: Seq<char>,
    tax_enabled: bool,
    tax_rate: Option<Real64>,
    lines: Seq<LineItemInput>,
) -> Option<Seq<char>> {
    if !issue_date_ok {
        Some("issue_date 必须是 YYYY-MM-DD 格式"@)
    } else if !second_date_ok {
        Some(second_date_field + " 必须是 YYYY-MM-DD 格式"@)
    } else if is_blank_seq(currency) {
        Some("currency 不能为空"@)
    } else if lines.len() == 0 {
        Some("至少要有一行项目"@)
    } else if tax_enabled && (tax_rate matches Some(r) && !in_unit_interval_spec(r)) {
        Some("tax_rate 必须在 0.0 ~ 1.0 之间"@)
    } else {
        first_line_problem(lines)
    }
}

proof fn lemma_first_problem_prefix(s: Seq<LineItemInput>, k: int)
    requires
        0 <= k <= s.len(),
        first_line_problem(s.take(k)) is Some,
    ensures
        first_line_problem(s) == first_line_problem(s.take(k)),
    decreases s.len(),
{
    if k < s.len() {
        assert(s.drop_last().take(k) =~= s.take(k));
        lemma_first_problem_prefix(s.drop_last(), k);
    } else {
        assert(s.take(k) =~= s);
    }
}

fn line_message(pos: usize, tail: &str) -> (r: String)
    ensures
        r@ == "第 "@ + decimal_seq(pos as nat) + tail@,
{
    let mut m = String::from_str("第 ");
    push_decimal(&mut m, pos);
    m.append(tail);
    m
}

/// Checks a document request, given whether its two dates parsed: the
/// dates, a currency, at least one line, a tax rate between 0 and 1 when
/// tax applies, then each line in order.
pub fn check_document(
    issue_date_ok: bool,
    second_date_ok: bool,
    second_date_field: &str,
    currency: &str,
    tax_enabled: bool,
    tax_rate: Option<Real64>,
    lines: &Vec<LineItemInput>,
) -> (r: AppResult<()>)
    ensures
        match document_rule_error(
            issue_date_ok,
            second_date_ok,
            second_date_field@,
            currency@,
            tax_enabled,
            tax_rate,
            lines@,
        ) {
            None => r is Ok,
            Some(m) => r matches Err(e) && is_validation(e, m),
        },
{
    if !issue_date_ok {
        return Err(validation("issue_date 必须是 YYYY-MM-DD 格式"));
    }
    if !second_date_ok {
        return Err(validation_owned(concat2(second_date_field, " 必须是 YYYY-MM-DD 格式")));
    }
    if is_blank(currency) {
        return Err(validation("currency 不能为空"));
    }
    if lines.len() == 0 {
        return Err(validation("至少要有一行项目"));
    }
    if tax_enabled {
        if let Some(r) = tax_rate {
            if !r.in_unit_interval() {
                return Err(validation("tax_rate 必须在 0.0 ~ 1.0 之间"));
            }
        }
    }
    let n = lines.len();
    for i in 0..n
        invariant
            n == lines@.len(),
            first_line_problem(lines@.take(i as int)) is None,
            document_rule_error(
                issue_date_ok,
                second_date_ok,
                second_date_field@,
                currency@,
                tax_enabled,
                tax_rate,
                lines@,
            ) == first_line_problem(lines@),
    {
        let l = &lines[i];
        assert(lines@.take(i + 1).drop_last() =~= lines@.take(i as int));
        assert(lines@.take(i + 1).last() == *l);
        proof {
            if line_problem(*l, (i + 1) as nat) is Some {
                lemma_first_problem_prefix(lines@, i + 1);
            }
        }
        if is_blank(l.description.as_str()) {
            return Err(validation_owned(line_message(i + 1, " 行描述不能为空")));
        }
        if l.quantity.le(&zero()) {
            return Err(validation_owned(line_message(i + 1, " 行数量必须大于 0")));
        }
        if l.unit_price.is_negative() {
            return Err(validation_owned(line_message(i + 1, " 行单价不能为负数")));
        }
    }
    assert(lines@.take(n as int) =~= lines@);
    Ok(())
}

/// Checks a document request, parsing its two dates as `YYYY-MM-DD`.
pub fn validate_document(
    issue_date: &str,
    second_date: &str,
    second_date_field: &str,
    currency: &str,
    tax_enabled: bool,
    tax_rate: Option<Real64>,
    lines: &Vec<LineItemInput>,
) -> (r: AppResult<()>)
    ensures
        match document_rule_error(
            parses_as_iso_date(issue_date@),
            parses_as_iso_date(second_date@),
            second_date_field@,
            currency@,
            tax_enabled,
            tax_rate,
            lines@,
        ) {
            None => r is Ok,
            Some(m) => r matches Err(e) && is_validation(e, m),
        },
{
    let issue_ok = is_iso_date(issue_date);
    let second_ok = is_iso_date(second_date);
    check_document(issue_ok, second_ok, second_date_field, currency, tax_enabled, tax_rate, lines)
}

} // verus!
