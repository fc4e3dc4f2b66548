use vstd::prelude::*;

use crate::error::{is_invalid_transition, AppError};
use crate::text::{owned, str_eq};

verus! {

/// Lifecycle status of an invoice.
#[derive(Debug, Clone, Copy, PartialEq, Eq, Structural)]
pub enum InvoiceStatus {
    Draft,
    Sent,
    PartialPaid,
    Paid,
    Overdue,
    Void,
}

/// The stored name of an invoice status.
pub open spec fn invoice_status_text(s: InvoiceStatus) -> Seq<char> {
    match s {
        InvoiceStatus::Draft => "Draft"@,
        InvoiceStatus::Sent => "Sent"@,
        InvoiceStatus::PartialPaid => "PartialPaid"@,
        InvoiceStatus::Paid => "Paid"@,
        InvoiceStatus::Overdue => "Overdue"@,
        InvoiceStatus::Void => "Void"@,
    }
}

/// The invoice status whose stored name is `s`, if any.
pub open spec fn invoice_status_parse(s: Seq<char>) -> Option<InvoiceStatus> {
    if s == "Draft"@ {
        Some(InvoiceStatus::Draft)
    } else if s == "Sent"@ {
        Some(InvoiceStatus::Sent)
    } else if s == "PartialPaid"@ {
        Some(InvoiceStatus::PartialPaid)
    } else if s == "Paid"@ {
        Some(InvoiceStatus::Paid)
    } else if s == "Overdue"@ {
        Some(InvoiceStatus::Overdue)
    } else if s == "Void"@ {
        Some(InvoiceStatus::Void)
    } else {
        None
    }
}

impl InvoiceStatus {
    /// The stored name.
    pub fn as_str(self) -> (r: &'static str)
        ensures
            r@ == invoice_status_text(self),
    {
        match self {
            InvoiceStatus::Draft => "Draft",
            InvoiceStatus::Sent => "Sent",
            InvoiceStatus::PartialPaid => "PartialPaid",
            InvoiceStatus::Paid => "Paid",
            InvoiceStatus::Overdue => "Overdue",
            InvoiceStatus::Void => "Void",
        }
    }

    /// Parses a stored name; anything else gives `None`.
    pub fn from_str(s: &str) -> (r: Option<Self>)
        ensures
            r == invoice_status_parse(s@),
    {
        if str_eq(s, "Draft") {
            Some(InvoiceStatus::Draft)
        } else if str_eq(s, "Sent") {
            Some(InvoiceStatus::Sent)
        } else if str_eq(s, "PartialPaid") {
            Some(InvoiceStatus::PartialPaid)
        } else if str_eq(s, "Paid") {
            Some(InvoiceStatus::Paid)
        } else if str_eq(s, "Overdue") {
            Some(InvoiceStatus::Overdue)
        } else if str_eq(s, "Void") {
            Some(InvoiceStatus::Void)
        } else {
            None
        }
    }
}

/// Parsing the stored name of an invoice status gives the status back.
pub proof fn invoice_status_round_trip(s: InvoiceStatus)
    ensures
        invoice_status_parse(invoice_status_text(s)) == Some(s),
{
    reveal_strlit("Draft");
    reveal_strlit("Sent");
    reveal_strlit("PartialPaid");
    reveal_strlit("Paid");
    reveal_strlit("Overdue");
    reveal_strlit("Void");
    assert("Draft"@[0] == 'D' && "Sent"@[0] == 'S' && "PartialPaid"@[0] == 'P');
    assert("Paid"@[0] == 'P' && "Overdue"@[0] == 'O' && "Void"@[0] == 'V');
    assert("PartialPaid"@.len() != "Paid"@.len());
}

/// The transitions the invoice state machine allows:
///   Draft → Sent → (PartialPaid → Paid); Sent and PartialPaid → Overdue;
///   Overdue → Sent, PartialPaid or Paid; every status but Draft → Void.
pub open spec fn invoice_transition_allowed(from: InvoiceStatus, to: InvoiceStatus) -> bool {
    match (from, to) {
        (InvoiceStatus::Draft, InvoiceStatus::Sent) => true,
        (InvoiceStatus::Sent, InvoiceStatus::PartialPaid) => true,
        (InvoiceStatus::Sent, InvoiceStatus::Paid) => true,
        (InvoiceStatus::Sent, InvoiceStatus::Overdue) => true,
        (InvoiceStatus::Sent, InvoiceStatus::Void) => true,
        (InvoiceStatus::PartialPaid, InvoiceStatus::Paid) => true,
        (InvoiceStatus::PartialPaid, InvoiceStatus::Overdue) => true,
        (InvoiceStatus::PartialPaid, InvoiceStatus::Void) => true,
        (InvoiceStatus::Overdue, InvoiceStatus::Sent) => true,
        (InvoiceStatus::Overdue, InvoiceStatus::PartialPaid) => true,
        (InvoiceStatus::Overdue, InvoiceStatus::Paid) => true,
        (InvoiceStatus::Overdue, InvoiceStatus::Void) => true,
        (InvoiceStatus::Paid, InvoiceStatus::Void) => true,
        _ => false,
    }
}

/// Whether the state machine allows moving an invoice from `from` to `to`.
pub fn can_transition(from: InvoiceStatus, to: InvoiceStatus) -> (b: bool)
    ensures
        b == invoice_transition_allowed(from, to),
{
    match (from, to) {
        (InvoiceStatus::Draft, InvoiceStatus::Sent) => true,
        (InvoiceStatus::Sent, InvoiceStatus::PartialPaid) => true,
        (InvoiceStatus::Sent, InvoiceStatus::Paid) => true,
        (InvoiceStatus::Sent, InvoiceStatus::Overdue) => true,
        (InvoiceStatus::Sent, InvoiceStatus::Void) => true,
        (InvoiceStatus::PartialPaid, InvoiceStatus::Paid) => true,
        (InvoiceStatus::PartialPaid, InvoiceStatus::Overdue) => true,
        (InvoiceStatus::PartialPaid, InvoiceStatus::Void) => true,
        (InvoiceStatus::Overdue, InvoiceStatus::Sent) => true,
        (InvoiceStatus::Overdue, InvoiceStatus::PartialPaid) => true,
        (InvoiceStatus::Overdue, InvoiceStatus::Paid) => true,
        (InvoiceStatus::Overdue, InvoiceStatus::Void) => true,
        (InvoiceStatus::Paid, InvoiceStatus::Void) => true,
        _ => false,
    }
}

/// Moves `current` to `to` when the state machine allows it; otherwise an
/// `InvalidTransition` error that names both statuses.
pub fn transition(current: InvoiceStatus, to: InvoiceStatus) -> (r: Result<InvoiceStatus, AppError>)
    ensures
        invoice_transition_allowed(current, to) ==> r == Ok::<InvoiceStatus, AppError>(to),
        !invoice_transition_allowed(current, to) ==> (r matches Err(e) && is_invalid_transition(
            e,
            invoice_status_text(current),
            invoice_status_text(to),
        )),
{
    if !can_transition(current, to) {
        return Err(
            AppError::InvalidTransition { from: owned(current.as_str()), to: owned(to.as_str()) },
        );
    }
    Ok(to)
}

/// No transition leads back to Draft: Draft is only the state a new
/// invoice starts in.
pub proof fn invoice_draft_is_initial_only(from: InvoiceStatus)
    ensures
        !invoice_transition_allowed(from, InvoiceStatus::Draft),
{
}

/// Void is terminal: the state machine allows no move out of it.
pub proof fn invoice_void_is_terminal(to: InvoiceStatus)
    ensures
        !invoice_transition_allowed(InvoiceStatus::Void, to),
{
}

/// Every status but Draft (and Void itself) can be voided by hand.
pub proof fn invoice_void_reachable_except_from_draft(from: InvoiceStatus)
    ensures
        invoice_transition_allowed(from, InvoiceStatus::Void) <==> (from != InvoiceStatus::Draft
            && from != InvoiceStatus::Void),
{
}

/// An overdue invoice can be moved back to Sent or PartialPaid.
pub proof fn invoice_overdue_is_cancellable()
    ensures
        invoice_transition_allowed(InvoiceStatus::Overdue, InvoiceStatus::Sent),
        invoice_transition_allowed(InvoiceStatus::Overdue, InvoiceStatus::PartialPaid),
{
}

/// No status moves to itself.
pub proof fn invoice_no_self_transition(s: InvoiceStatus)
    ensures
        !invoice_transition_allowed(s, s),
{
}

/// A paid invoice can only be voided.
pub proof fn invoice_paid_only_to_void(to: InvoiceStatus)
    ensures
        invoice_transition_allowed(InvoiceStatus::Paid, to) <==> to == InvoiceStatus::Void,
{
}

} // verus!
