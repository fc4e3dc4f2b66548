use invoicing::domain::customer::service;
use invoicing::domain::customer::types::{
    CreateCustomerInput, Customer, CustomerType, UpdateCustomerInput,
};
use invoicing::error::AppError;

fn company(name: &str) -> CreateCustomerInput {
    CreateCustomerInput {
        type_: CustomerType::Company,
        name: name.into(),
        contact_person: Some("Jane".into()),
        email: Some(format!("{name}@example.com")),
        phone: None,
        address: None,
        ssm_no: Some("SSM-001".into()),
        nric: None,
        tax_no: None,
        notes: None,
    }
}

fn individual(name: &str) -> CreateCustomerInput {
    CreateCustomerInput {
        type_: CustomerType::Individual,
        name: name.into(),
        contact_person: None,
        email: None,
        phone: None,
        address: None,
        ssm_no: None,
        nric: Some("999999-99-9999".into()),
        tax_no: None,
        notes: None,
    }
}

fn message(err: AppError) -> String {
    match err {
        AppError::Validation(m) => m,
        other => panic!("expected Validation, got {other:?}"),
    }
}

#[test]
fn create_company_and_find() {
    let c = service::create(company("Acme")).unwrap();
    assert_eq!(c.name, "Acme");
    assert_eq!(c.type_, CustomerType::Company);
    assert!(!c.archived);
    assert!(!c.id.is_empty());
    assert_eq!(c.email.as_deref(), Some("Acme@example.com"));
    assert_eq!(c.created_at, c.updated_at);
}

#[test]
fn create_individual_requires_nric() {
    let mut inp = individual("John");
    inp.nric = Some("   ".into()); // whitespace = empty
    let err = service::create(inp).unwrap_err();
    assert!(matches!(err, AppError::Validation(_)));
}

#[test]
fn create_company_requires_ssm() {
    let mut inp = company("NoSSM");
    inp.ssm_no = None;
    let err = service::create(inp).unwrap_err();
    assert!(matches!(err, AppError::Validation(_)));
}

#[test]
fn create_requires_name() {
    let mut inp = company("Acme");
    inp.name = "   ".into();
    let err = service::create(inp).unwrap_err();
    assert!(matches!(err, AppError::Validation(_)));
}

#[test]
fn update_replaces_fields() {
    let c = service::create(company("Acme")).unwrap();
    let updated = service::update(
        Some(c.clone()),
        UpdateCustomerInput {
            id: c.id.clone(),
            type_: CustomerType::Company,
            name: "Acme Studios".into(),
            contact_person: Some("Bob".into()),
            email: c.email.clone(),
            phone: Some("0123456789".into()),
            address: None,
            ssm_no: Some("SSM-002".into()),
            nric: None,
            tax_no: None,
            notes: None,
        },
    )
    .unwrap();
    assert_eq!(updated.name, "Acme Studios");
    assert_eq!(updated.ssm_no.as_deref(), Some("SSM-002"));
    assert_eq!(updated.phone.as_deref(), Some("0123456789"));
    assert_eq!(updated.contact_person.as_deref(), Some("Bob"));
    assert_eq!(updated.created_at, c.created_at);
    assert_ne!(updated.updated_at, c.updated_at);
}

#[test]
fn archive_then_unarchive() {
    let c = service::create(company("Acme")).unwrap();
    let id = c.id.clone();
    let archived = service::archive(Some(c), &id).unwrap();
    assert!(archived.archived);
    let unarchived = service::unarchive(Some(archived), &id).unwrap();
    assert!(!unarchived.archived);
}

fn stored() -> Customer {
    service::create_with(company("Acme"), "c-1".into(), "2026-01-01T00:00:00Z".into()).unwrap()
}

#[test]
fn create_with_trims_and_drops_blank_fields() {
    let mut inp = company("  Acme  ");
    inp.contact_person = Some("  ".into());
    inp.notes = Some("  VIP ".into());
    let c = service::create_with(inp, "c-1".into(), "t0".into()).unwrap();
    assert_eq!(c.id, "c-1");
    assert_eq!(c.name, "Acme");
    assert_eq!(c.contact_person, None);
    assert_eq!(c.notes.as_deref(), Some("VIP"));
    assert_eq!(c.created_at, "t0");
    assert_eq!(c.updated_at, "t0");
}

#[test]
fn validation_messages_name_the_missing_field() {
    let mut inp = company("Acme");
    inp.name = " ".into();
    assert_eq!(message(service::create(inp).unwrap_err()), "name 不能为空");
    let mut inp = company("Acme");
    inp.ssm_no = Some("\t".into());
    assert_eq!(message(service::create(inp).unwrap_err()), "Company 类型必须填写 SSM 号");
    let mut inp = individual("John");
    inp.nric = None;
    assert_eq!(message(service::create(inp).unwrap_err()), "Individual 类型必须填写 NRIC");
}

#[test]
fn name_is_checked_before_identity() {
    let mut inp = company(" ");
    inp.ssm_no = None;
    assert_eq!(message(service::create(inp).unwrap_err()), "name 不能为空");
}

#[test]
fn update_of_missing_customer_is_not_found() {
    let err = service::update_with(
        None,
        UpdateCustomerInput {
            id: "does-not-exist".into(),
            type_: CustomerType::Individual,
            name: "X".into(),
            contact_person: None,
            email: None,
            phone: None,
            address: None,
            ssm_no: None,
            nric: Some("1".into()),
            tax_no: None,
            notes: None,
        },
        "t1".into(),
    )
    .unwrap_err();
    match err {
        AppError::NotFound { entity, id } => {
            assert_eq!(entity, "customer");
            assert_eq!(id, "does-not-exist");
        }
        other => panic!("expected NotFound, got {other:?}"),
    }
}

#[test]
fn invalid_update_is_rejected_before_lookup() {
    let err = service::update_with(
        None,
        UpdateCustomerInput {
            id: "x".into(),
            type_: CustomerType::Company,
            name: "X".into(),
            contact_person: None,
            email: None,
            phone: None,
            address: None,
            ssm_no: None,
            nric: None,
            tax_no: None,
            notes: None,
        },
        "t1".into(),
    )
    .unwrap_err();
    assert!(matches!(err, AppError::Validation(_)));
}

#[test]
fn update_keeps_id_archived_and_creation_time() {
    let mut c = stored();
    c.archived = true;
    let u = service::update_with(
        Some(c),
        UpdateCustomerInput {
            id: "c-1".into(),
            type_: CustomerType::Individual,
            name: " Jo ".into(),
            contact_person: None,
            email: None,
            phone: None,
            address: None,
            ssm_no: None,
            nric: Some(" 123 ".into()),
            tax_no: None,
            notes: None,
        },
        "t9".into(),
    )
    .unwrap();
    assert_eq!(u.id, "c-1");
    assert!(u.archived);
    assert_eq!(u.created_at, "2026-01-01T00:00:00Z");
    assert_eq!(u.updated_at, "t9");
    assert_eq!(u.name, "Jo");
    assert_eq!(u.nric.as_deref(), Some("123"));
    assert_eq!(u.type_, CustomerType::Individual);
}

#[test]
fn set_archived_stamps_time_and_keeps_fields() {
    let a = service::set_archived_with(Some(stored()), "c-1", true, "t2".into()).unwrap();
    assert!(a.archived);
    assert_eq!(a.updated_at, "t2");
    assert_eq!(a.name, "Acme");
    let b = service::set_archived_with(Some(a), "c-1", false, "t3".into()).unwrap();
    assert!(!b.archived);
    assert_eq!(b.created_at, "2026-01-01T00:00:00Z");
    assert!(matches!(
        service::set_archived_with(None, "zz", true, "t".into()),
        Err(AppError::NotFound { .. })
    ));
}

#[test]
fn search_pattern_trims_and_wraps() {
    assert_eq!(service::search_pattern("acme").as_deref(), Some("%acme%"));
    assert_eq!(service::search_pattern("  AAA \n").as_deref(), Some("%AAA%"));
    assert_eq!(service::search_pattern(""), None);
    assert_eq!(service::search_pattern("   "), None);
}

#[test]
fn customer_type_names_round_trip() {
    for t in [CustomerType::Company, CustomerType::Individual] {
        assert_eq!(CustomerType::from_str(t.as_str()), Some(t));
    }
    assert_eq!(CustomerType::from_str("company"), None);
}

#[test]
fn validate_identity_checks_by_type() {
    assert!(service::validate_identity(CustomerType::Company, &Some("S".into()), &None).is_ok());
    assert!(service::validate_identity(CustomerType::Company, &None, &Some("N".into())).is_err());
    assert!(service::validate_identity(CustomerType::Individual, &None, &Some("N".into())).is_ok());
    assert!(service::validate_identity(CustomerType::Individual, &Some("S".into()), &Some("\u{3000}".into())).is_err());
}
