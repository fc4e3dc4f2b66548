use vstd::prelude::*;

use crate::error::{is_invalid_transition, AppError};
use crate::text::{owned, str_eq};

verus! {

/// Lifecycle status of a quotation.
#[derive(Debug, Clone, Copy, PartialEq, Eq, Structural)]
pub enum QuotationStatus {
    Draft,
    Sent,
    Accepted,
    Rejected,
    Expired,
}

/// The stored name of a quotation status.
pub open spec fn quotation_status_text(s: QuotationStatus) -> Seq<char> {
    match s {
        QuotationStatus::Draft => "Draft"@,
        QuotationStatus::Sent => "Sent"@,
        QuotationStatus::Accepted => "Accepted"@,
        QuotationStatus::Rejected => "Rejected"@,
        QuotationStatus::Expired => "Expired"@,
    }
}

/// The quotation status whose stored name is `s`, if any.
pub open spec fn quotation_status_parse(s: Seq<char>) -> Option<QuotationStatus> {
    if s == "Draft"@ {
        Some(QuotationStatus::Draft)
    } else if s == "Sent"@ {
        Some(QuotationStatus::Sent)
    } else if s == "Accepted"@ {
        Some(QuotationStatus::Accepted)
    } else if s == "Rejected"@ {
        Some(QuotationStatus::Rejected)
    } else if s == "Expired"@ {
        Some(QuotationStatus::Expired)
    } else {
        None
    }
}

impl QuotationStatus {
    /// The stored name.
    pub fn as_str(self) -> (r: &'static str)
        ensures
            r@ == quotation_status_text(self),
    {
        match self {
            QuotationStatus::Draft => "Draft",
            QuotationStatus::Sent => "Sent",
            QuotationStatus::Accepted => "Accepted",
            QuotationStatus::Rejected => "Rejected",
            QuotationStatus::Expired => "Expired",
        }
    }

    /// Parses a stored name; anything else gives `None`.
    pub fn from_str(s: &str) -> (r: Option<Self>)
        ensures
            r == quotation_status_parse(s@),
    {
        if str_eq(s, "Draft") {
            Some(QuotationStatus::Draft)
        } else if str_eq(s, "Sent") {
            Some(QuotationStatus::Sent)
        } else if str_eq(s, "Accepted") {
            Some(QuotationStatus::Accepted)
        } else if str_eq(s, "Rejected") {
            Some(QuotationStatus::Rejected)
        } else if str_eq(s, "Expired") {
            Some(QuotationStatus::Expired)
        } else {
            None
        }
    }
}

/// Parsing the stored name of a quotation status gives the status back.
pub proof fn quotation_status_round_trip(s: QuotationStatus)
    ensures
        quotation_status_parse(quotation_status_text(s)) == Some(s),
{
    reveal_strlit("Draft");
    reveal_strlit("Sent");
    reveal_strlit("Accepted");
    reveal_strlit("Rejected");
    reveal_strlit("Expired");
    assert("Draft"@[0] == 'D' && "Sent"@[0] == 'S' && "Accepted"@[0] == 'A');
    assert("Rejected"@[0] == 'R' && "Expired"@[0] == 'E');
}

/// The transitions the quotation state machine allows:
/// Draft → Sent → Accepted, Rejected or Expired.
pub open spec fn quotation_transition_allowed(from: QuotationStatus, to: QuotationStatus) -> bool {
    match (from, to) {
        (QuotationStatus::Draft, QuotationStatus::Sent) => true,
        (QuotationStatus::Sent, QuotationStatus::Accepted) => true,
        (QuotationStatus::Sent, QuotationStatus::Rejected) => true,
        (QuotationStatus::Sent, QuotationStatus::Expired) => true,
        _ => false,
    }
}

/// Whether the state machine allows moving a quotation from `from` to `to`.
pub fn can_transition(from: QuotationStatus, to: QuotationStatus) -> (b: bool)
    ensures
        b == quotation_transition_allowed(from, to),
{
    match (from, to) {
        (QuotationStatus::Draft, QuotationStatus::Sent) => true,
        (QuotationStatus::Sent, QuotationStatus::Accepted) => true,
        (QuotationStatus::Sent, QuotationStatus::Rejected) => true,
        (QuotationStatus::Sent, QuotationStatus::Expired) => true,
        _ => false,
    }
}

/// Moves `current` to `to` when the state machine allows it; otherwise an
/// `InvalidTransition` error that names both statuses.
pub fn transition(current: QuotationStatus, to: QuotationStatus) -> (r: Result<
    QuotationStatus,
    AppError,
>)
    ensures
        quotation_transition_allowed(current, to) ==> r == Ok::<QuotationStatus, AppError>(to),
        !quotation_transition_allowed(current, to) ==> (r matches Err(e) && is_invalid_transition(
            e,
            quotation_status_text(current),
            quotation_status_text(to),
        )),
{
    if !can_transition(current, to) {
        return Err(
            AppError::InvalidTransition { from: owned(current.as_str()), to: owned(to.as_str()) },
        );
    }
    Ok(to)
}

/// Accepted, Rejected and Expired are final: nothing leaves them.
pub proof fn quotation_outcomes_are_terminal(from: QuotationStatus, to: QuotationStatus)
    requires
        from == QuotationStatus::Accepted || from == QuotationStatus::Rejected || from
            == QuotationStatus::Expired,
    ensures
        !quotation_transition_allowed(from, to),
{
}

/// Only a sent quotation can be accepted, rejected or expire, and only a
/// draft can be sent.
pub proof fn quotation_transition_sources(from: QuotationStatus, to: QuotationStatus)
    requires
        quotation_transition_allowed(from, to),
    ensures
        to == QuotationStatus::Sent ==> from == QuotationStatus::Draft,
        to != QuotationStatus::Sent ==> from == QuotationStatus::Sent,
        to != QuotationStatus::Draft,
{
}

} // verus!
