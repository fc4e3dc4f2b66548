use invoicing::domain::pdf_template::service;
use invoicing::domain::pdf_template::service::TemplateSource;
use invoicing::domain::pdf_template::types::{
    PdfDocType, PdfTemplate, PdfTemplateType, UploadCustomTemplateInput,
};
use invoicing::error::AppError;

fn upload(doc_type: PdfDocType, name: &str, html: &str) -> UploadCustomTemplateInput {
    UploadCustomTemplateInput { doc_type, name: name.into(), html_content: html.into() }
}

fn preset(doc_type: PdfDocType, key: &str) -> PdfTemplate {
    PdfTemplate {
        id: format!("preset-{}-default", doc_type.as_str()),
        doc_type,
        name: "Default".into(),
        type_: PdfTemplateType::Preset,
        file_path: format!("preset:{key}"),
        config_json: serde_json::Value::Null,
        created_at: "t0".into(),
        updated_at: "t0".into(),
    }
}

fn message(e: AppError) -> String {
    match e {
        AppError::Validation(m) => m,
        other => panic!("expected Validation, got {other:?}"),
    }
}

#[test]
fn get_renderable_returns_preset_html() {
    let t = preset(PdfDocType::Invoice, "invoice_default");
    match service::renderable_source(&t.file_path).unwrap() {
        TemplateSource::Preset(d) => assert_eq!(d, PdfDocType::Invoice),
        TemplateSource::File(p) => panic!("expected a preset, got file {p}"),
    }
    match service::renderable_source("preset:pv_default").unwrap() {
        TemplateSource::Preset(d) => assert_eq!(d, PdfDocType::PaymentVoucher),
        TemplateSource::File(p) => panic!("expected a preset, got file {p}"),
    }
}

#[test]
fn unknown_preset_key_is_internal_error() {
    match service::renderable_source("preset:fancy").unwrap_err() {
        AppError::Internal(m) => assert_eq!(m, "unknown preset template key fancy"),
        other => panic!("expected Internal, got {other:?}"),
    }
}

#[test]
fn other_paths_are_files() {
    match service::renderable_source("/data/templates/abc.html").unwrap() {
        TemplateSource::File(p) => assert_eq!(p, "/data/templates/abc.html"),
        TemplateSource::Preset(d) => panic!("expected a file, got preset {d:?}"),
    }
    match service::renderable_source("preset").unwrap() {
        TemplateSource::File(p) => assert_eq!(p, "preset"),
        TemplateSource::Preset(d) => panic!("expected a file, got preset {d:?}"),
    }
}

#[test]
fn upload_custom_writes_file_and_inserts_row() {
    let input = upload(PdfDocType::Invoice, "我的发票模板", "<!doctype html><html><body>hi</body></html>");
    assert!(service::validate_upload(&input).is_ok());
    let t = service::custom_template_with(
        input,
        "tpl-1".into(),
        "/data/templates/tpl-1.html".into(),
        serde_json::Value::Null,
        "2026-05-12T00:00:00Z".into(),
    );
    assert_eq!(t.type_, PdfTemplateType::Custom);
    assert_eq!(t.doc_type, PdfDocType::Invoice);
    assert_eq!(t.name, "我的发票模板");
    assert_eq!(t.file_path, "/data/templates/tpl-1.html");
    assert_eq!(t.created_at, t.updated_at);
    assert!(service::check_deletable(&t).is_ok());
}

#[test]
fn upload_custom_rejects_empty_name() {
    let err = service::validate_upload(&upload(PdfDocType::Invoice, "   ", "<html></html>")).unwrap_err();
    assert!(matches!(err, AppError::Validation(_)));
    assert_eq!(message(err), "模板名称不能为空");
}

#[test]
fn upload_custom_rejects_non_html_content() {
    let err = service::validate_upload(&upload(PdfDocType::Invoice, "Bad", "this is just text, not html"))
        .unwrap_err();
    assert!(matches!(err, AppError::Validation(_)));
}

#[test]
fn upload_custom_rejects_empty_html() {
    let err = service::validate_upload(&upload(PdfDocType::Invoice, "Empty", "   ")).unwrap_err();
    assert!(matches!(err, AppError::Validation(_)));
    assert_eq!(message(err), "HTML 内容不能为空");
}

#[test]
fn leading_white_space_before_html_is_allowed() {
    assert!(service::validate_upload(&upload(PdfDocType::Quotation, " n ", "\n\t  <html></html>")).is_ok());
    let err = service::validate_upload(&upload(PdfDocType::Quotation, "n", "\u{3000}x<html>")).unwrap_err();
    assert_eq!(message(err), "HTML 内容必须以 '<' 开头（看起来不像 HTML 文件）");
}

#[test]
fn uploaded_name_is_trimmed() {
    let t = service::custom_template(
        upload(PdfDocType::Quotation, "  Mine  ", "<html></html>"),
        "tpl-2".into(),
        "/x/tpl-2.html".into(),
        serde_json::Value::Null,
    );
    assert_eq!(t.name, "Mine");
    assert_eq!(t.id, "tpl-2");
}

#[test]
fn delete_custom_rejects_preset() {
    let t = preset(PdfDocType::Invoice, "invoice_default");
    let err = service::check_deletable(&t).unwrap_err();
    assert!(matches!(err, AppError::Validation(_)));
    assert_eq!(t.type_, PdfTemplateType::Preset);
}

#[test]
fn template_kind_names_round_trip() {
    for d in [PdfDocType::Quotation, PdfDocType::Invoice, PdfDocType::PaymentVoucher] {
        assert_eq!(PdfDocType::from_str(d.as_str()), Some(d));
    }
    for t in [PdfTemplateType::Preset, PdfTemplateType::Custom] {
        assert_eq!(PdfTemplateType::from_str(t.as_str()), Some(t));
    }
    assert_eq!(PdfDocType::from_str("receipt"), None);
}
