use invoicing::binary64::Real64;
use invoicing::domain::document::DocumentTotals;
use invoicing::domain::quotation::service;
use invoicing::domain::quotation::state_machine::QuotationStatus;
use invoicing::domain::quotation::types::{
    CreateQuotationInput, LineItemInput, Quotation, UpdateQuotationInput,
};
use invoicing::error::AppError;
use invoicing::numbering::{document_number, DocKind};

fn r(x: f64) -> Real64 {
    Real64 { bits: x.to_bits() }
}

fn f(x: Real64) -> f64 {
    f64::from_bits(x.bits)
}

fn snapshot(name: &str) -> serde_json::Value {
    let mut m = serde_json::Map::new();
    m.insert("name".to_string(), serde_json::Value::String(name.to_string()));
    serde_json::Value::Object(m)
}

fn sample_create(customer_id: String) -> CreateQuotationInput {
    CreateQuotationInput {
        customer_id,
        business_profile_id: None,
        issue_date: "2026-05-12".into(),
        valid_until: "2026-06-11".into(),
        currency: "MYR".into(),
        tax_enabled: true,
        tax_rate: Some(r(0.06)),
        lines: vec![
            LineItemInput {
                description: "Wedding video editing".into(),
                quantity: r(1.0),
                unit_price: r(3000.0),
            },
            LineItemInput { description: "Drone footage".into(), quantity: r(2.0), unit_price: r(500.0) },
        ],
        notes: Some("first draft".into()),
        terms: None,
    }
}

/// The amounts of the sample lines. The library carries amounts and does no
/// arithmetic on them; these are the sums the application computes.
fn sample_totals() -> (DocumentTotals, Vec<Real64>) {
    (
        DocumentTotals { subtotal: r(4000.0), tax_amount: r(240.0), total: r(4240.0) },
        vec![r(3000.0), r(1000.0)],
    )
}

fn draft() -> Quotation {
    let (totals, line_totals) = sample_totals();
    service::new_quotation(sample_create("cust-1".into()), snapshot("Acme"), totals, line_totals, "QUO-0001".into())
        .quotation
}

fn validate(inp: &CreateQuotationInput) -> Result<(), AppError> {
    service::validate_input(
        inp.issue_date.as_str(),
        inp.valid_until.as_str(),
        inp.currency.as_str(),
        inp.tax_enabled,
        inp.tax_rate,
        &inp.lines,
    )
}

fn update_input(id: String) -> UpdateQuotationInput {
    UpdateQuotationInput {
        id,
        customer_id: "cust-1".into(),
        business_profile_id: None,
        issue_date: "2026-05-15".into(),
        valid_until: "2026-06-15".into(),
        currency: "MYR".into(),
        tax_enabled: false,
        tax_rate: None,
        lines: vec![LineItemInput { description: "Single shot".into(), quantity: r(1.0), unit_price: r(1500.0) }],
        notes: None,
        terms: Some("Net 30".into()),
    }
}

fn message(e: AppError) -> String {
    match e {
        AppError::Validation(m) => m,
        other => panic!("expected Validation, got {other:?}"),
    }
}

#[test]
fn tests_create_assigns_number_and_computes_totals() {
    let inp = sample_create("cust-1".into());
    assert!(validate(&inp).is_ok());
    let (totals, line_totals) = sample_totals();
    let r = service::new_quotation(inp, snapshot("Acme"), totals, line_totals, document_number(DocKind::Quotation, 2026, 1));

    assert!(r.quotation.number.starts_with("QUO-"));
    assert_eq!(r.quotation.number, "QUO-2026-0001");
    assert_eq!(r.quotation.status, QuotationStatus::Draft);
    assert_eq!(r.lines.len(), 2);
    assert_eq!(r.lines[0].position, 1);
    assert_eq!(r.lines[1].position, 2);
    assert!((f(r.quotation.subtotal) - 4000.0).abs() < 1e-6);
    assert!((f(r.quotation.tax_amount) - 240.0).abs() < 1e-6);
    assert!((f(r.quotation.total) - 4240.0).abs() < 1e-6);
    assert_eq!(r.quotation.customer_snapshot["name"], "Acme");
    assert_eq!(r.lines[0].quotation_id, r.quotation.id);
    assert_eq!(r.quotation.created_at, r.quotation.updated_at);
    assert_eq!(r.quotation.notes.as_deref(), Some("first draft"));
}

#[test]
fn create_rejects_no_lines() {
    let mut inp = sample_create("cust-1".into());
    inp.lines.clear();
    let err = validate(&inp).unwrap_err();
    assert!(matches!(err, AppError::Validation(_)));
}

#[test]
fn tests_create_rejects_bad_date() {
    let mut inp = sample_create("cust-1".into());
    inp.issue_date = "12-05-2026".into();
    let err = validate(&inp).unwrap_err();
    assert!(matches!(err, AppError::Validation(_)));
}

#[test]
fn create_rejects_negative_unit_price() {
    let mut inp = sample_create("cust-1".into());
    inp.lines[0].unit_price = r(-1.0);
    let err = validate(&inp).unwrap_err();
    assert!(matches!(err, AppError::Validation(_)));
}

#[test]
fn validation_messages_follow_the_check_order() {
    let mut inp = sample_create("cust-1".into());
    inp.valid_until = "2026-13-01".into();
    assert_eq!(message(validate(&inp).unwrap_err()), "valid_until 必须是 YYYY-MM-DD 格式");

    let mut inp = sample_create("cust-1".into());
    inp.currency = "  ".into();
    assert_eq!(message(validate(&inp).unwrap_err()), "currency 不能为空");

    let mut inp = sample_create("cust-1".into());
    inp.tax_rate = Some(r(1.5));
    assert_eq!(message(validate(&inp).unwrap_err()), "tax_rate 必须在 0.0 ~ 1.0 之间");

    let mut inp = sample_create("cust-1".into());
    inp.tax_enabled = false;
    inp.tax_rate = Some(r(1.5));
    assert!(validate(&inp).is_ok());

    let mut inp = sample_create("cust-1".into());
    inp.lines[1].quantity = r(0.0);
    inp.lines[0].description = " ".into();
    assert_eq!(message(validate(&inp).unwrap_err()), "第 1 行描述不能为空");

    let mut inp = sample_create("cust-1".into());
    inp.lines[1].quantity = r(0.0);
    assert_eq!(message(validate(&inp).unwrap_err()), "第 2 行数量必须大于 0");

    let mut inp = sample_create("cust-1".into());
    inp.lines[1].quantity = r(f64::NAN);
    assert!(validate(&inp).is_ok());

    let mut inp = sample_create("cust-1".into());
    inp.lines[1].unit_price = r(-0.5);
    assert_eq!(message(validate(&inp).unwrap_err()), "第 2 行单价不能为负数");

    let mut inp = sample_create("cust-1".into());
    inp.lines[0].unit_price = r(-0.0);
    assert!(validate(&inp).is_ok());
}

#[test]
fn update_replaces_lines_and_recomputes() {
    let q = draft();
    let number = q.number.clone();
    let id = q.id.clone();
    let totals = DocumentTotals { subtotal: r(1500.0), tax_amount: r(0.0), total: r(1500.0) };
    let updated = service::apply_update(Some(q), update_input(id.clone()), snapshot("Acme"), totals, vec![r(1500.0)], "t1".into())
        .unwrap();

    assert_eq!(updated.lines.len(), 1);
    assert!((f(updated.quotation.subtotal) - 1500.0).abs() < 1e-6);
    assert!((f(updated.quotation.tax_amount) - 0.0).abs() < 1e-6);
    assert!((f(updated.quotation.total) - 1500.0).abs() < 1e-6);
    assert_eq!(updated.quotation.terms.as_deref(), Some("Net 30"));
    assert_eq!(updated.quotation.number, number);
    assert_eq!(updated.quotation.id, id);
    assert_eq!(updated.lines[0].quotation_id, id);
    assert_eq!(updated.quotation.updated_at, "t1");
    assert_eq!(updated.quotation.notes, None);
}

#[test]
fn tests_update_rejects_non_draft() {
    let mut q = draft();
    q.status = QuotationStatus::Sent;
    let id = q.id.clone();
    let totals = DocumentTotals { subtotal: r(1.0), tax_amount: r(0.0), total: r(1.0) };
    let err = service::apply_update(Some(q), update_input(id), snapshot("Acme"), totals, vec![r(1500.0)], "t1".into())
        .unwrap_err();
    assert!(matches!(err, AppError::Validation(_)));
    assert_eq!(message(err), "只有 Draft 状态可以修改，当前状态为 Sent");
}

#[test]
fn update_of_missing_quotation_is_not_found() {
    let totals = DocumentTotals { subtotal: r(1.0), tax_amount: r(0.0), total: r(1.0) };
    let err = service::apply_update(None, update_input("gone".into()), snapshot("Acme"), totals, vec![r(1500.0)], "t1".into())
        .unwrap_err();
    match err {
        AppError::NotFound { entity, id } => {
            assert_eq!(entity, "quotation");
            assert_eq!(id, "gone");
        }
        other => panic!("expected NotFound, got {other:?}"),
    }
}

#[test]
fn mark_transitions_persist_and_reject_illegal() {
    let q = draft();
    let id = q.id.clone();

    let err = service::mark(Some(q.clone()), &id, QuotationStatus::Accepted).unwrap_err();
    assert!(matches!(err, AppError::InvalidTransition { .. }));

    let sent = service::mark(Some(q), &id, QuotationStatus::Sent).unwrap();
    assert_eq!(sent.status, QuotationStatus::Sent);

    let err = service::mark(Some(sent.clone()), &id, QuotationStatus::Sent).unwrap_err();
    assert!(matches!(err, AppError::InvalidTransition { .. }));

    let accepted = service::mark(Some(sent), &id, QuotationStatus::Accepted).unwrap();
    assert_eq!(accepted.status, QuotationStatus::Accepted);
    assert_eq!(accepted.number, "QUO-0001");
}

#[test]
fn mark_with_stamps_the_given_time() {
    let q = draft();
    let id = q.id.clone();
    let sent = service::mark_with(Some(q), &id, QuotationStatus::Sent, "2026-05-20T00:00:00Z".into()).unwrap();
    assert_eq!(sent.updated_at, "2026-05-20T00:00:00Z");
    let err = service::mark_with(None, "nope", QuotationStatus::Sent, "t".into()).unwrap_err();
    assert!(matches!(err, AppError::NotFound { .. }));
}

#[test]
fn find_by_id_returns_lines_in_position_order() {
    let (totals, line_totals) = sample_totals();
    let again = service::new_quotation(sample_create("cust-1".into()), snapshot("Acme"), totals, line_totals, "QUO-1".into());
    assert_eq!(again.lines.len(), 2);
    assert_eq!(again.lines[0].position, 1);
    assert_eq!(again.lines[1].position, 2);
    assert_eq!(again.lines[0].description, "Wedding video editing");
    assert!((f(again.lines[1].line_total) - 1000.0).abs() < 1e-6);
}

#[test]
fn line_descriptions_are_trimmed() {
    let mut inp = sample_create("cust-1".into());
    inp.lines[0].description = "  Editing \n".into();
    let lines = service::build_lines(&inp.lines, "q-9", "USD", &vec![r(3000.0), r(1000.0)]);
    assert_eq!(lines[0].description, "Editing");
    assert_eq!(lines[0].quotation_id, "q-9");
    assert_eq!(lines[1].line_currency, "USD");
    assert_ne!(lines[0].id, lines[1].id);
}

#[test]
fn link_invoice_records_the_invoice() {
    let q = draft();
    let linked = service::link_invoice(q.clone(), "inv-7".into(), "t9".into());
    assert_eq!(linked.converted_invoice_id.as_deref(), Some("inv-7"));
    assert_eq!(linked.updated_at, "t9");
    assert_eq!(linked.number, q.number);
    assert_eq!(linked.status, q.status);
}
