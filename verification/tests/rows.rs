use invoicing::binary64::Real64;
use invoicing::domain::business_profile::row::{decode_profile_row, payment_methods_text, BusinessProfileRow};
use invoicing::domain::business_profile::types::{BankAccount, EntityType};
use invoicing::domain::customer::row::{customer_row, decode_customer_row, CustomerRow};
use invoicing::domain::customer::types::{Customer, CustomerType};
use invoicing::domain::invoice::row::{
    decode_invoice_row, invoice_from_parts, invoice_json_columns, InvoiceJsonParsed, InvoiceRow,
};
use invoicing::domain::invoice::state_machine::InvoiceStatus;
use invoicing::domain::payment_voucher::row::{
    decode_voucher_row, voucher_from_parts, voucher_snapshot_text, PaymentVoucherRow,
};
use invoicing::domain::pdf_template::row::{
    decode_template_row, template_config_text, template_from_parts, PdfTemplateRow,
};
use invoicing::domain::pdf_template::types::{PdfDocType, PdfTemplateType};
use invoicing::domain::quotation::row::{
    decode_quotation_row, quotation_from_parts, quotation_snapshot_text, QuotationRow,
};
use invoicing::domain::quotation::state_machine::QuotationStatus;

fn r(x: f64) -> Real64 {
    Real64 { bits: x.to_bits() }
}

fn invoice_row() -> InvoiceRow {
    InvoiceRow {
        id: "inv-1".into(),
        number: "INV-2026-0001".into(),
        customer_id: "c-1".into(),
        customer_snapshot: r#"{"name":"Acme"}"#.into(),
        business_profile_id: Some("bp-1".into()),
        source_quotation_id: None,
        issue_date: "2026-05-12".into(),
        due_date: "2026-06-11".into(),
        currency: "MYR".into(),
        tax_enabled: 1,
        tax_rate: Some(r(0.06)),
        subtotal: r(4000.0),
        tax_amount: r(240.0),
        total: r(4240.0),
        paid_amount: r(0.0),
        payment_methods_snapshot: "{}".into(),
        selected_bank_account_ids: r#"["ba-1","ba-2"]"#.into(),
        selected_qr_ids: "[]".into(),
        selected_static_methods: r#"["Cash"]"#.into(),
        status: "PartialPaid".into(),
        notes: None,
        terms: Some("Net 30".into()),
        created_at: "t0".into(),
        updated_at: "t1".into(),
    }
}

#[test]
fn invoice_rows_read_back() {
    let inv = decode_invoice_row(invoice_row()).unwrap();
    assert_eq!(inv.status, InvoiceStatus::PartialPaid);
    assert!(inv.tax_enabled);
    assert_eq!(inv.selected_bank_account_ids, vec!["ba-1".to_string(), "ba-2".to_string()]);
    assert!(inv.selected_qr_ids.is_empty());
    assert_eq!(inv.selected_static_methods, vec!["Cash".to_string()]);
    assert_eq!(inv.customer_snapshot["name"], "Acme");
    assert_eq!(inv.terms.as_deref(), Some("Net 30"));
    assert_eq!(f64::from_bits(inv.total.bits), 4240.0);

    let cols = invoice_json_columns(&inv).unwrap();
    assert_eq!(cols.selected_bank_account_ids, r#"["ba-1","ba-2"]"#);
    assert_eq!(cols.selected_qr_ids, "[]");
    let mut again = invoice_row();
    again.customer_snapshot = cols.customer_snapshot;
    again.selected_static_methods = cols.selected_static_methods;
    let back = decode_invoice_row(again).unwrap();
    assert_eq!(back.customer_snapshot, inv.customer_snapshot);
    assert_eq!(back.selected_static_methods, inv.selected_static_methods);
}

#[test]
fn invoice_rows_report_what_is_wrong() {
    let mut row = invoice_row();
    row.status = "Cancelled".into();
    row.customer_snapshot = "{".into();
    assert_eq!(decode_invoice_row(row).unwrap_err(), "unknown status Cancelled");

    let mut row = invoice_row();
    row.tax_enabled = 0;
    assert!(!decode_invoice_row(row).unwrap().tax_enabled);

    let mut row = invoice_row();
    row.selected_qr_ids = r#"[1,2]"#.into();
    let expected = serde_json::from_str::<Vec<String>>("[1,2]").unwrap_err().to_string();
    assert_eq!(decode_invoice_row(row).unwrap_err(), expected);

    let mut row = invoice_row();
    row.payment_methods_snapshot = "not json".into();
    let expected = serde_json::from_str::<serde_json::Value>("not json").unwrap_err().to_string();
    assert_eq!(decode_invoice_row(row).unwrap_err(), expected);
}

fn quotation_row() -> QuotationRow {
    QuotationRow {
        id: "q-1".into(),
        number: "QUO-2026-0001".into(),
        customer_id: "c-1".into(),
        customer_snapshot: r#"{"name":"Acme"}"#.into(),
        business_profile_id: None,
        issue_date: "2026-05-12".into(),
        valid_until: "2026-06-11".into(),
        currency: "MYR".into(),
        tax_enabled: 0,
        tax_rate: None,
        subtotal: r(1500.0),
        tax_amount: r(0.0),
        total: r(1500.0),
        status: "Accepted".into(),
        converted_invoice_id: Some("inv-1".into()),
        notes: None,
        terms: None,
        created_at: "t0".into(),
        updated_at: "t0".into(),
    }
}

#[test]
fn quotation_rows_read_back() {
    let q = decode_quotation_row(quotation_row()).unwrap();
    assert_eq!(q.status, QuotationStatus::Accepted);
    assert!(!q.tax_enabled);
    assert_eq!(q.converted_invoice_id.as_deref(), Some("inv-1"));
    let text = quotation_snapshot_text(&q).unwrap();
    assert_eq!(serde_json::from_str::<serde_json::Value>(&text).unwrap(), q.customer_snapshot);

    let mut row = quotation_row();
    row.status = "accepted".into();
    assert_eq!(decode_quotation_row(row).unwrap_err(), "unknown status accepted");
}

#[test]
fn voucher_and_template_rows_read_back() {
    let row = PaymentVoucherRow {
        id: "pv-1".into(),
        number: "PV-2026-0001".into(),
        invoice_id: None,
        customer_id: "c-1".into(),
        customer_snapshot: r#"{"name":"Acme"}"#.into(),
        business_profile_id: None,
        date: "2026-05-13".into(),
        amount: r(250.0),
        currency: "MYR".into(),
        payment_method: "Cash".into(),
        notes: None,
        created_at: "t0".into(),
    };
    let pv = decode_voucher_row(row.clone()).unwrap();
    assert_eq!(pv.customer_snapshot["name"], "Acme");
    assert_eq!(f64::from_bits(pv.amount.bits), 250.0);
    assert!(voucher_snapshot_text(&pv).unwrap().contains("Acme"));
    let mut bad = row;
    bad.customer_snapshot = "".into();
    assert!(decode_voucher_row(bad).is_err());

    let row = PdfTemplateRow {
        id: "preset-invoice-default".into(),
        doc_type: "Invoice".into(),
        name: "Default".into(),
        type_: "Preset".into(),
        file_path: "preset:invoice_default".into(),
        config_json: "{}".into(),
        created_at: "t0".into(),
        updated_at: "t0".into(),
    };
    let t = decode_template_row(row.clone()).unwrap();
    assert_eq!(t.doc_type, PdfDocType::Invoice);
    assert_eq!(t.type_, PdfTemplateType::Preset);
    assert_eq!(template_config_text(&t).unwrap(), "{}");
    let mut bad = row.clone();
    bad.doc_type = "Receipt".into();
    bad.type_ = "Nope".into();
    assert_eq!(decode_template_row(bad).unwrap_err(), "unknown doc_type Receipt");
    let mut bad = row;
    bad.type_ = "Nope".into();
    assert_eq!(decode_template_row(bad).unwrap_err(), "unknown template type Nope");
}

#[test]
fn stored_customers_read_back_as_themselves() {
    let c = Customer {
        id: "c-1".into(),
        type_: CustomerType::Individual,
        name: "Ali".into(),
        contact_person: None,
        email: Some("ali@example.com".into()),
        phone: None,
        address: None,
        ssm_no: None,
        nric: Some("900101-01-1234".into()),
        tax_no: None,
        notes: None,
        archived: true,
        created_at: "t0".into(),
        updated_at: "t1".into(),
    };
    let row = customer_row(&c);
    assert_eq!(row.type_, "Individual");
    assert_eq!(row.archived, 1);
    let back = decode_customer_row(row).unwrap();
    assert_eq!(back.type_, c.type_);
    assert_eq!(back.nric, c.nric);
    assert!(back.archived);

    let bad = CustomerRow { type_: "Partnership".into(), ..customer_row(&c) };
    assert_eq!(decode_customer_row(bad).unwrap_err(), "unknown customer type Partnership");
    let seven = CustomerRow { archived: 7, ..customer_row(&c) };
    assert!(decode_customer_row(seven).unwrap().archived);
}

fn profile_row() -> BusinessProfileRow {
    BusinessProfileRow {
        id: "bp-1".into(),
        entity_type: "Company".into(),
        name: "Acme".into(),
        address: None,
        email: None,
        phone: None,
        ssm_no: Some("SSM-1".into()),
        nric: None,
        sst_no: None,
        logo_path: None,
        qr_path: None,
        bank_accounts: Ok(vec![BankAccount {
            id: "ba-1".into(),
            bank_name: "Maybank".into(),
            account_number: "123".into(),
            account_holder: "Acme".into(),
        }]),
        enabled_payment_methods: r#"["bank","tng"]"#.into(),
        qrs: Ok(vec![]),
        default_tax_rate: None,
        default_quotation_valid_days: 30,
        default_invoice_due_days: 14,
        data_dir: "/data".into(),
        created_at: "t0".into(),
        updated_at: "t0".into(),
    }
}

#[test]
fn profile_rows_read_back_and_report_in_order() {
    let p = decode_profile_row(profile_row()).unwrap();
    assert_eq!(p.entity_type, EntityType::Company);
    assert_eq!(p.enabled_payment_methods, vec!["bank".to_string(), "tng".to_string()]);
    assert_eq!(p.bank_accounts.len(), 1);
    assert_eq!(payment_methods_text(&p).unwrap(), r#"["bank","tng"]"#);

    let mut row = profile_row();
    row.entity_type = "Partnership".into();
    row.qrs = Err("bad qrs".into());
    assert_eq!(decode_profile_row(row).unwrap_err(), "bad qrs");

    let mut row = profile_row();
    row.entity_type = "Partnership".into();
    assert_eq!(decode_profile_row(row).unwrap_err(), "unknown entity_type 'Partnership'");

    let mut row = profile_row();
    row.bank_accounts = Err("bad accounts".into());
    row.enabled_payment_methods = "oops".into();
    assert_eq!(decode_profile_row(row).unwrap_err(), "bad accounts");
}

#[test]
fn rows_are_assembled_from_parsed_columns() {
    let parsed = || InvoiceJsonParsed {
        customer_snapshot: Ok(serde_json::Value::Null),
        payment_methods_snapshot: Ok(serde_json::Value::Null),
        selected_bank_account_ids: Ok(vec!["a".into()]),
        selected_qr_ids: Err("qr list broken".into()),
        selected_static_methods: Err("later".into()),
    };
    assert_eq!(invoice_from_parts(invoice_row(), parsed()).unwrap_err(), "qr list broken");
    let mut ok = parsed();
    ok.selected_qr_ids = Ok(vec![]);
    ok.selected_static_methods = Ok(vec!["Cash".into()]);
    let inv = invoice_from_parts(invoice_row(), ok).unwrap();
    assert_eq!(inv.selected_bank_account_ids, vec!["a".to_string()]);
    assert_eq!(inv.customer_snapshot, serde_json::Value::Null);

    let q = quotation_from_parts(quotation_row(), Ok(serde_json::Value::Bool(true))).unwrap();
    assert_eq!(q.customer_snapshot, serde_json::Value::Bool(true));
    assert_eq!(quotation_from_parts(quotation_row(), Err("bad".into())).unwrap_err(), "bad");

    let row = PaymentVoucherRow {
        id: "pv-1".into(),
        number: "PV-1".into(),
        invoice_id: Some("inv-1".into()),
        customer_id: "c-1".into(),
        customer_snapshot: "ignored".into(),
        business_profile_id: None,
        date: "2026-05-13".into(),
        amount: r(1.5),
        currency: "MYR".into(),
        payment_method: "FPX".into(),
        notes: None,
        created_at: "t0".into(),
    };
    assert_eq!(voucher_from_parts(row.clone(), Err("no".into())).unwrap_err(), "no");
    assert_eq!(voucher_from_parts(row, Ok(serde_json::Value::Null)).unwrap().invoice_id.as_deref(), Some("inv-1"));

    let trow = PdfTemplateRow {
        id: "t".into(),
        doc_type: "Quotation".into(),
        name: "n".into(),
        type_: "Custom".into(),
        file_path: "/x.html".into(),
        config_json: "ignored".into(),
        created_at: "t0".into(),
        updated_at: "t0".into(),
    };
    assert_eq!(template_from_parts(trow.clone(), Err("cfg".into())).unwrap_err(), "cfg");
    assert_eq!(template_from_parts(trow, Ok(serde_json::Value::Null)).unwrap().type_, PdfTemplateType::Custom);
}

#[test]
fn snapshot_texts_are_what_serde_json_writes() {
    let q = decode_quotation_row(quotation_row()).unwrap();
    assert_eq!(quotation_snapshot_text(&q).unwrap(), serde_json::to_string(&q.customer_snapshot).unwrap());
    assert_eq!(quotation_snapshot_text(&q).unwrap(), r#"{"name":"Acme"}"#);
    let mut t = decode_template_row(PdfTemplateRow {
        id: "t".into(),
        doc_type: "Invoice".into(),
        name: "n".into(),
        type_: "Custom".into(),
        file_path: "/x.html".into(),
        config_json: r#"{"b":[1,2.5,null],"a":"x"}"#.into(),
        created_at: "t0".into(),
        updated_at: "t0".into(),
    })
    .unwrap();
    assert_eq!(template_config_text(&t).unwrap(), r#"{"a":"x","b":[1,2.5,null]}"#);
    t.config_json = serde_json::Value::Null;
    assert_eq!(template_config_text(&t).unwrap(), "null");
}

#[test]
fn written_invoice_columns_read_back() {
    let inv = decode_invoice_row(invoice_row()).unwrap();
    let cols = invoice_json_columns(&inv).unwrap();
    let mut row = invoice_row();
    row.customer_snapshot = cols.customer_snapshot.clone();
    row.payment_methods_snapshot = cols.payment_methods_snapshot.clone();
    row.selected_bank_account_ids = cols.selected_bank_account_ids.clone();
    row.selected_qr_ids = cols.selected_qr_ids.clone();
    row.selected_static_methods = cols.selected_static_methods.clone();
    let back = decode_invoice_row(row).unwrap();
    assert_eq!(back.selected_bank_account_ids, inv.selected_bank_account_ids);
    assert_eq!(back.selected_qr_ids, inv.selected_qr_ids);
    assert_eq!(back.selected_static_methods, inv.selected_static_methods);
    assert_eq!(back.customer_snapshot, inv.customer_snapshot);
    assert_eq!(back.payment_methods_snapshot, inv.payment_methods_snapshot);
    assert_eq!(cols.customer_snapshot, serde_json::to_string(&inv.customer_snapshot).unwrap());

    let mut odd = inv.clone();
    odd.selected_static_methods = vec!["a \"quoted\"\n\\ method".into(), "é\u{1}".into()];
    let cols = invoice_json_columns(&odd).unwrap();
    assert_eq!(serde_json::from_str::<Vec<String>>(&cols.selected_static_methods).unwrap(), odd.selected_static_methods);
}

#[test]
fn decoded_snapshots_are_the_parsed_texts() {
    let mut row = invoice_row();
    row.customer_snapshot = r#"{"name":"Beta","n":3}"#.into();
    row.payment_methods_snapshot = r#"{"bank_accounts":[]}"#.into();
    let inv = decode_invoice_row(row.clone()).unwrap();
    assert_eq!(inv.customer_snapshot, serde_json::from_str::<serde_json::Value>(&row.customer_snapshot).unwrap());
    assert_eq!(inv.payment_methods_snapshot, serde_json::from_str::<serde_json::Value>(&row.payment_methods_snapshot).unwrap());
    assert_ne!(inv.customer_snapshot, inv.payment_methods_snapshot);
    let mut qrow = quotation_row();
    qrow.customer_snapshot = "[1,2]".into();
    assert_eq!(decode_quotation_row(qrow).unwrap().customer_snapshot, serde_json::Value::Array(vec![serde_json::Value::from(1), serde_json::Value::from(2)]));
}
