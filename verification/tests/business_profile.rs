use base64::Engine;
use invoicing::binary64::Real64;
use invoicing::domain::business_profile::service;
use invoicing::domain::business_profile::types::{
    BankAccount, BusinessProfile, CreateBusinessProfileInput, EntityType, Qr, QrKind,
    UpdateBusinessProfileInput,
};
use invoicing::error::AppError;

fn r(x: f64) -> Real64 {
    Real64 { bits: x.to_bits() }
}

fn make_company_input() -> CreateBusinessProfileInput {
    CreateBusinessProfileInput {
        entity_type: EntityType::Company,
        name: "Acme Studios".into(),
        address: Some("Kuala Lumpur".into()),
        email: Some("hello@acme.my".into()),
        phone: None,
        ssm_no: Some("SSM-001".into()),
        nric: None,
        sst_no: None,
        bank_accounts: vec![BankAccount {
            id: String::new(),
            bank_name: "Maybank".into(),
            account_number: "1234567890".into(),
            account_holder: "Acme Studios SDN BHD".into(),
        }],
        enabled_payment_methods: vec!["FPX".into(), "DuitNow".into()],
        default_tax_rate: Some(r(0.06)),
        default_quotation_valid_days: 30,
        default_invoice_due_days: 14,
        data_dir: "C:\\Users\\me\\InvoiceData".into(),
    }
}

fn make_individual_input() -> CreateBusinessProfileInput {
    CreateBusinessProfileInput {
        entity_type: EntityType::Individual,
        name: "Jane Doe".into(),
        ssm_no: None,
        nric: Some("900101-01-1234".into()),
        ..make_company_input()
    }
}

fn update_input(id: &str, entity_type: EntityType) -> UpdateBusinessProfileInput {
    UpdateBusinessProfileInput {
        id: id.into(),
        entity_type,
        name: "Acme V2".into(),
        address: None,
        email: None,
        phone: None,
        ssm_no: Some("SSM-002".into()),
        nric: None,
        sst_no: None,
        bank_accounts: vec![],
        enabled_payment_methods: vec![],
        default_tax_rate: None,
        default_quotation_valid_days: 30,
        default_invoice_due_days: 14,
        data_dir: "".into(),
    }
}

fn message(err: AppError) -> String {
    match err {
        AppError::Validation(m) => m,
        other => panic!("expected Validation, got {other:?}"),
    }
}

fn with_qrs() -> BusinessProfile {
    let mut p = service::create_with(make_company_input(), "p-1".into(), "t0".into()).unwrap();
    p.qrs = vec![
        Qr { id: "a".into(), kind: QrKind::Tng, label: "TNG".into(), file_path: "/x/a.png".into() },
        Qr { id: "b".into(), kind: QrKind::Bank, label: "Bank".into(), file_path: "/x/b.png".into() },
        Qr { id: "a".into(), kind: QrKind::Other, label: "dup".into(), file_path: "/x/c.png".into() },
    ];
    p
}

#[test]
fn create_then_list_round_trips() {
    let p = service::create(make_company_input()).unwrap();
    assert_eq!(p.entity_type, EntityType::Company);
    assert_eq!(p.name, "Acme Studios");
    assert_eq!(p.bank_accounts.len(), 1);
    assert_eq!(p.bank_accounts[0].id.len(), 36);
    assert!(p.logo_path.is_none());
    assert!(p.qrs.is_empty());
    assert_eq!(p.created_at, p.updated_at);
}

#[test]
fn update_changes_fields() {
    let p = service::create(make_company_input()).unwrap();
    let updated = service::update(Some(p.clone()), update_input(&p.id, EntityType::Company)).unwrap();
    assert_eq!(updated.name, "Acme V2");
    assert_eq!(updated.ssm_no.as_deref(), Some("SSM-002"));
    assert_eq!(updated.id, p.id);
    assert_eq!(updated.created_at, p.created_at);
}

#[test]
fn rejects_empty_name() {
    let mut input = make_company_input();
    input.name = "  ".into();
    let err = service::create(input).unwrap_err();
    assert!(message(err).contains("公司名"));
}

#[test]
fn company_requires_ssm() {
    let mut input = make_company_input();
    input.ssm_no = None;
    let err = service::create(input).unwrap_err();
    assert!(message(err).contains("SSM"));
}

#[test]
fn individual_requires_nric() {
    let mut input = make_individual_input();
    input.nric = None;
    let err = service::create(input).unwrap_err();
    assert!(message(err).contains("NRIC"));
}

#[test]
fn switching_to_individual_clears_logo() {
    let mut p = service::create(make_company_input()).unwrap();
    p.logo_path = Some("dummy.png".into());
    let mut input = update_input(&p.id, EntityType::Individual);
    input.name = "Self".into();
    input.ssm_no = None;
    input.nric = Some("123".into());
    let updated = service::update(Some(p), input).unwrap();
    assert!(updated.logo_path.is_none());
}

#[test]
fn company_keeps_logo_on_update() {
    let mut p = service::create_with(make_company_input(), "p-1".into(), "t0".into()).unwrap();
    p.logo_path = Some("logo.png".into());
    let u = service::update_with(Some(p), update_input("p-1", EntityType::Company), "t1".into()).unwrap();
    assert_eq!(u.logo_path.as_deref(), Some("logo.png"));
    assert_eq!(u.updated_at, "t1");
    assert_eq!(u.created_at, "t0");
}

#[test]
fn update_of_missing_profile_is_not_found() {
    let err = service::update_with(None, update_input("nope", EntityType::Company), "t".into())
        .unwrap_err();
    assert!(matches!(err, AppError::NotFound { ref entity, .. } if entity == "business_profile"));
}

#[test]
fn blank_name_message_names_the_field() {
    let mut input = make_individual_input();
    input.name = "".into();
    assert_eq!(message(service::create(input).unwrap_err()), "姓名 不能为空");
}

#[test]
fn rejects_negative_days_and_bad_tax_rate() {
    let mut input = make_company_input();
    input.default_quotation_valid_days = -1;
    assert_eq!(
        message(service::create(input).unwrap_err()),
        "default_quotation_valid_days 不能为负数"
    );
    let mut input = make_company_input();
    input.default_invoice_due_days = -5;
    assert_eq!(message(service::create(input).unwrap_err()), "default_invoice_due_days 不能为负数");
    for bad in [1.5, -0.01, f64::NAN] {
        let mut input = make_company_input();
        input.default_tax_rate = Some(r(bad));
        assert_eq!(
            message(service::create(input).unwrap_err()),
            "default_tax_rate 必须在 0.0 ~ 1.0 之间"
        );
    }
    for ok in [0.0, -0.0, 1.0] {
        let mut input = make_company_input();
        input.default_tax_rate = Some(r(ok));
        assert!(service::create(input).is_ok());
    }
}

#[test]
fn bank_account_ids_are_filled_once() {
    let accounts = vec![
        BankAccount { id: "  ".into(), bank_name: "A".into(), account_number: "1".into(), account_holder: "H".into() },
        BankAccount { id: "keep-me".into(), bank_name: "B".into(), account_number: "2".into(), account_holder: "H".into() },
    ];
    let filled = service::ensure_bank_account_ids(accounts);
    assert_eq!(filled.len(), 2);
    assert_eq!(filled[0].id.len(), 36);
    assert_eq!(&filled[0].id[14..15], "4");
    assert_eq!(filled[1].id, "keep-me");
    assert_eq!(filled[0].bank_name, "A");
    let again = service::ensure_bank_account_ids(filled.clone());
    assert_eq!(again[0].id, filled[0].id);
    assert_eq!(again[1].id, "keep-me");
}

#[test]
fn extension_is_normalised_or_refused() {
    assert_eq!(service::normalize_ext(" .PNG ").unwrap(), "png");
    assert_eq!(service::normalize_ext("..jpeg").unwrap(), "jpeg");
    assert_eq!(message(service::normalize_ext("").unwrap_err()), "扩展名无效：");
    assert_eq!(message(service::normalize_ext("toolongext").unwrap_err()), "扩展名无效：toolongext");
    assert_eq!(message(service::normalize_ext("p-g").unwrap_err()), "扩展名无效：p-g");
}

#[test]
fn asset_content_is_decoded_and_checked() {
    let b64 = base64::engine::general_purpose::STANDARD.encode(b"hello");
    let (ext, bytes) = service::prepare_asset(&b64, "PNG", service::MAX_QR_BYTES).unwrap();
    assert_eq!(ext, "png");
    assert_eq!(bytes, b"hello".to_vec());
    assert_eq!(message(service::decode_asset("", 10).unwrap_err()), "文件内容为空");
    assert!(message(service::decode_asset("@@@", 10).unwrap_err()).starts_with("base64 解码失败："));
    // the extension is checked before the content
    assert_eq!(message(service::prepare_asset("@@@", "?", 10).unwrap_err()), "扩展名无效：?");
}

#[test]
fn oversized_asset_reports_sizes_in_mib() {
    let big = vec![0u8; 1_310_720]; // 1.25 MiB
    let b64 = base64::engine::general_purpose::STANDARD.encode(&big);
    let err = service::decode_asset(&b64, service::MAX_QR_BYTES).unwrap_err();
    assert_eq!(message(err), format!("文件过大：{:.1} MB（上限 {:.1} MB）", 1.25f64, 1.0f64));
    let big = vec![0u8; 2_200_000];
    let b64 = base64::engine::general_purpose::STANDARD.encode(&big);
    let err = service::decode_asset(&b64, service::MAX_LOGO_BYTES).unwrap_err();
    assert_eq!(
        message(err),
        format!(
            "文件过大：{:.1} MB（上限 {:.1} MB）",
            2_200_000f64 / 1_048_576.0,
            2_097_152f64 / 1_048_576.0
        )
    );
}

#[test]
fn qr_entries_are_added_relabelled_and_removed() {
    let p = service::create_with(make_company_input(), "p-1".into(), "t0".into()).unwrap();
    let qr = service::new_qr("q1".into(), QrKind::Boost, "  Boost  ", "/qrs/q1.png".into());
    assert_eq!(qr.label, "Boost");
    let p = service::add_qr_with(Some(p), "p-1", qr, "t1".into()).unwrap();
    assert_eq!(p.qrs.len(), 1);
    assert_eq!(p.updated_at, "t1");
    let p = service::update_qr_label_with(Some(p), "p-1", "q1", " New ", "t2".into()).unwrap();
    assert_eq!(p.qrs[0].label, "New");
    let err = service::update_qr_label_with(Some(p.clone()), "p-1", "zz", "x", "t3".into()).unwrap_err();
    assert!(matches!(err, AppError::NotFound { ref entity, .. } if entity == "qr"));
    let (p, removed) = service::remove_qr_with(Some(p), "p-1", "q1", "t4".into()).unwrap();
    assert!(p.qrs.is_empty());
    assert_eq!(removed.unwrap().file_path, "/qrs/q1.png");
    assert!(matches!(
        service::add_qr_with(None, "p-9", service::new_qr("x".into(), QrKind::Tng, "", "".into()), "t".into()),
        Err(AppError::NotFound { .. })
    ));
}

#[test]
fn removing_a_duplicated_qr_id_removes_all_and_returns_first() {
    let (p, removed) = service::remove_qr_with(Some(with_qrs()), "p-1", "a", "t".into()).unwrap();
    assert_eq!(p.qrs.len(), 1);
    assert_eq!(p.qrs[0].id, "b");
    let removed = removed.unwrap();
    assert_eq!(removed.label, "TNG");
    let (p, removed) = service::remove_qr_with(Some(p), "p-1", "missing", "t".into()).unwrap();
    assert_eq!(p.qrs.len(), 1);
    assert!(removed.is_none());
}

#[test]
fn relabelling_touches_only_the_first_match() {
    let p = service::update_qr_label_with(Some(with_qrs()), "p-1", "a", "X", "t".into()).unwrap();
    assert_eq!(p.qrs[0].label, "X");
    assert_eq!(p.qrs[2].label, "dup");
    assert_eq!(p.qrs[1].label, "Bank");
}

#[test]
fn data_urls_use_extension_mime() {
    let url = service::data_url_from_file("/a/logo.JPG", Some(b"abc".to_vec())).unwrap();
    assert_eq!(url, "data:image/jpeg;base64,YWJj");
    let url = service::data_url_from_file("/a/noext", Some(b"abc".to_vec())).unwrap();
    assert_eq!(url, "data:image/png;base64,YWJj");
    let url = service::data_url_from_file("/a/x.bin", Some(vec![1])).unwrap();
    assert_eq!(url, "data:application/octet-stream;base64,AQ==");
    assert_eq!(service::data_url_from_file("/a/x.png", Some(vec![])), None);
    assert_eq!(service::data_url_from_file("/a/x.png", None), None);
    assert_eq!(service::mime_for_ext("svg"), "image/svg+xml");
    assert_eq!(service::mime_for_ext("webp"), "image/webp");
    assert_eq!(service::mime_for_ext("gif"), "image/gif");
}

#[test]
fn asset_urls_pair_each_qr() {
    let p = with_qrs();
    let out = service::asset_data_urls(
        Some("data:logo".into()),
        &p.qrs,
        vec![Some("u1".into()), None, Some("u3".into())],
    );
    assert_eq!(out.logo_data_url.as_deref(), Some("data:logo"));
    assert_eq!(out.qrs.len(), 3);
    assert_eq!(out.qrs[1].data_url, "");
    assert_eq!(out.qrs[2].label, "dup");
    assert_eq!(out.qrs[0].kind, QrKind::Tng);
}

#[test]
fn deleting_a_profile_removes_logo_legacy_qr_and_every_qr_image() {
    let mut p = with_qrs();
    assert_eq!(
        service::stale_asset_paths(&p),
        vec!["/x/a.png".to_string(), "/x/b.png".to_string(), "/x/c.png".to_string()]
    );
    p.logo_path = Some("l.png".into());
    p.qr_path = Some("q.png".into());
    assert_eq!(
        service::stale_asset_paths(&p),
        vec!["l.png", "q.png", "/x/a.png", "/x/b.png", "/x/c.png"].into_iter().map(String::from).collect::<Vec<_>>()
    );
    p.qrs.clear();
    p.logo_path = None;
    assert_eq!(service::stale_asset_paths(&p), vec!["q.png".to_string()]);
}

#[test]
fn kind_and_entity_names_round_trip() {
    for k in [QrKind::Bank, QrKind::Tng, QrKind::Boost, QrKind::GrabPay, QrKind::Other] {
        assert_eq!(QrKind::from_str(k.as_str()), Some(k));
    }
    for t in [EntityType::Company, EntityType::Individual] {
        assert_eq!(EntityType::from_str(t.as_str()), Some(t));
    }
    assert_eq!(QrKind::from_str("Grabpay"), None);
}

#[test]
fn size_in_mib_rounds_like_float_formatting() {
    for n in [1_048_577usize, 1_101_005, 1_153_434, 1_205_862, 1_258_291, 1_363_149, 1_415_577, 1_520_435, 1_572_864, 1_625_293, 2_044_723] {
        let b64 = base64::engine::general_purpose::STANDARD.encode(vec![7u8; n]);
        let err = service::decode_asset(&b64, service::MAX_QR_BYTES).unwrap_err();
        assert_eq!(
            message(err),
            format!("文件过大：{:.1} MB（上限 {:.1} MB）", n as f64 / 1_048_576.0, 1.0f64),
            "{n} bytes"
        );
    }
}

#[test]
fn a_new_upload_replaces_every_extension_of_the_asset() {
    assert!(service::replaces_asset("logo.png", "logo"));
    assert!(service::replaces_asset("logo.JPEG", "logo"));
    assert!(service::replaces_asset("logo", "logo"));
    assert!(!service::replaces_asset("logo.old.png", "logo"));
    assert!(!service::replaces_asset("qr.png", "logo"));
    assert!(!service::replaces_asset("logos.png", "logo"));
    assert!(service::replaces_asset(".logo", ".logo"));
}

#[test]
fn decoded_content_is_checked_for_size_and_emptiness() {
    match service::check_asset_bytes(Err("Invalid padding".into()), 10).unwrap_err() {
        AppError::Validation(m) => assert_eq!(m, "base64 解码失败：Invalid padding"),
        other => panic!("expected Validation, got {other:?}"),
    }
    assert_eq!(message(service::check_asset_bytes(Ok(vec![]), 10).unwrap_err()), "文件内容为空");
    assert_eq!(service::check_asset_bytes(Ok(vec![1, 2, 3]), 3).unwrap(), vec![1, 2, 3]);
    assert_eq!(
        message(service::check_asset_bytes(Ok(vec![0; 4]), 3).unwrap_err()),
        "文件过大：0.0 MB（上限 0.0 MB）"
    );
}

#[test]
fn extensions_are_checked_after_normalising() {
    assert_eq!(service::check_ext("png".into()).unwrap(), "png");
    assert_eq!(service::check_ext("jpeg2000".into()).unwrap(), "jpeg2000");
    assert_eq!(message(service::check_ext("jpeg20001".into()).unwrap_err()), "扩展名无效：jpeg20001");
    assert_eq!(message(service::check_ext("".into()).unwrap_err()), "扩展名无效：");
    assert_eq!(message(service::check_ext("p-g".into()).unwrap_err()), "扩展名无效：p-g");
    assert_eq!(service::data_url_text("svg", "AAA="), "data:image/svg+xml;base64,AAA=");
    assert_eq!(service::data_url_text("bmp", ""), "data:application/octet-stream;base64,");
}

#[test]
fn only_a_company_profile_takes_a_logo() {
    let company = service::create_with(make_company_input(), "p-1".into(), "t0".into()).unwrap();
    assert!(service::check_logo_allowed(&Some(company), "p-1").is_ok());
    let person = service::create_with(make_individual_input(), "p-2".into(), "t0".into()).unwrap();
    assert_eq!(
        message(service::check_logo_allowed(&Some(person), "p-2").unwrap_err()),
        "Individual 类型不能设置 Logo"
    );
    match service::check_logo_allowed(&None, "p-3") {
        Err(AppError::NotFound { entity, id }) => {
            assert_eq!(entity, "business_profile");
            assert_eq!(id, "p-3");
        }
        other => panic!("expected NotFound, got {other:?}"),
    }
}

#[test]
fn creation_time_is_written_in_utc() {
    let p = service::create(make_company_input()).unwrap();
    assert!(p.created_at.ends_with("+00:00"), "{}", p.created_at);
    assert_eq!(p.created_at, p.updated_at);
}
