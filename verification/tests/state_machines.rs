use invoicing::domain::invoice::state_machine::{self as invoice_sm, InvoiceStatus};
use invoicing::domain::quotation::state_machine::{self as quotation_sm, QuotationStatus};
use invoicing::error::AppError;

#[test]
fn state_machine_matrix_matches_claude_md() {
    let (draft, sent, partial, paid, overdue, void) = (
        InvoiceStatus::Draft,
        InvoiceStatus::Sent,
        InvoiceStatus::PartialPaid,
        InvoiceStatus::Paid,
        InvoiceStatus::Overdue,
        InvoiceStatus::Void,
    );
    let allowed = [
        (draft, sent),
        (sent, partial),
        (sent, paid),
        (sent, overdue),
        (sent, void),
        (partial, paid),
        (partial, overdue),
        (partial, void),
        (overdue, sent),
        (overdue, partial),
        (overdue, paid),
        (overdue, void),
        (paid, void),
    ];
    let all = [draft, sent, partial, paid, overdue, void];
    for &from in &all {
        for &to in &all {
            let expected = allowed.contains(&(from, to));
            assert_eq!(
                invoice_sm::can_transition(from, to),
                expected,
                "can_transition({from:?} -> {to:?}) should be {expected}"
            );
        }
    }
}

#[test]
fn state_machine_allows_only_documented_transitions() {
    assert!(quotation_sm::can_transition(QuotationStatus::Draft, QuotationStatus::Sent));
    assert!(quotation_sm::can_transition(QuotationStatus::Sent, QuotationStatus::Accepted));
    assert!(quotation_sm::can_transition(QuotationStatus::Sent, QuotationStatus::Rejected));
    assert!(quotation_sm::can_transition(QuotationStatus::Sent, QuotationStatus::Expired));

    assert!(!quotation_sm::can_transition(QuotationStatus::Draft, QuotationStatus::Accepted));
    assert!(!quotation_sm::can_transition(QuotationStatus::Draft, QuotationStatus::Rejected));
    assert!(!quotation_sm::can_transition(QuotationStatus::Accepted, QuotationStatus::Sent));
    assert!(!quotation_sm::can_transition(QuotationStatus::Rejected, QuotationStatus::Sent));
    assert!(!quotation_sm::can_transition(QuotationStatus::Expired, QuotationStatus::Sent));
    assert!(!quotation_sm::can_transition(QuotationStatus::Accepted, QuotationStatus::Rejected));
}

#[test]
fn invoice_transition_reports_both_statuses() {
    match invoice_sm::transition(InvoiceStatus::Void, InvoiceStatus::Sent) {
        Err(AppError::InvalidTransition { from, to }) => {
            assert_eq!(from, "Void");
            assert_eq!(to, "Sent");
        }
        other => panic!("expected InvalidTransition, got {other:?}"),
    }
    assert_eq!(
        invoice_sm::transition(InvoiceStatus::Draft, InvoiceStatus::Sent).unwrap(),
        InvoiceStatus::Sent
    );
}

#[test]
fn quotation_transition_reports_both_statuses() {
    match quotation_sm::transition(QuotationStatus::Accepted, QuotationStatus::Sent) {
        Err(AppError::InvalidTransition { from, to }) => {
            assert_eq!(from, "Accepted");
            assert_eq!(to, "Sent");
        }
        other => panic!("expected InvalidTransition, got {other:?}"),
    }
}

#[test]
fn status_names_round_trip() {
    for s in [
        InvoiceStatus::Draft,
        InvoiceStatus::Sent,
        InvoiceStatus::PartialPaid,
        InvoiceStatus::Paid,
        InvoiceStatus::Overdue,
        InvoiceStatus::Void,
    ] {
        assert_eq!(InvoiceStatus::from_str(s.as_str()), Some(s));
    }
    for s in [
        QuotationStatus::Draft,
        QuotationStatus::Sent,
        QuotationStatus::Accepted,
        QuotationStatus::Rejected,
        QuotationStatus::Expired,
    ] {
        assert_eq!(QuotationStatus::from_str(s.as_str()), Some(s));
    }
    assert_eq!(InvoiceStatus::from_str("paid"), None);
    assert_eq!(QuotationStatus::from_str(""), None);
    assert_eq!(InvoiceStatus::PartialPaid.as_str(), "PartialPaid");
}
