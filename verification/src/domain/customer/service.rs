use vstd::prelude::*;

use crate::clock::now_timestamp;
use crate::error::{
    is_not_found, is_validation, not_found, validation, AppError, AppResult,
};
use crate::ids::{is_uuid_v4_text, new_uuid};
use crate::text::{
    copy_string, is_blank, is_blank_seq, is_empty_opt, is_empty_opt_spec, opt_view, trim,
    trim_opt, trim_opt_spec, trim_seq, concat3,
};

use super::types::{CreateCustomerInput, Customer, CustomerType, UpdateCustomerInput};

verus! {

/// A company must carry an SSM number and a person an NRIC, neither blank.
pub open spec fn identity_ok(
    type_: CustomerType,
    ssm_no: Option<String>,
    nric: Option<String>,
) -> bool {
    match type_ {
        CustomerType::Company => !is_empty_opt_spec(ssm_no),
        CustomerType::Individual => !is_empty_opt_spec(nric),
    }
}

/// The message when the identity number of `type_` is missing.
pub open spec fn identity_error(type_: CustomerType) -> Seq<char> {
    match type_ {
        CustomerType::Company => "Company 类型必须填写 SSM 号"@,
        CustomerType::Individual => "Individual 类型必须填写 NRIC"@,
    }
}

/// The message when the name is blank.
pub open spec fn name_error() -> Seq<char> {
    "name 不能为空"@
}

/// Checks that the identity number that the customer type needs is there.
pub fn validate_identity(
    type_: CustomerType,
    ssm_no: &Option<String>,
    nric: &Option<String>,
) -> (r: AppResult<()>)
    ensures
        r is Ok <==> identity_ok(type_, *ssm_no, *nric),
        r matches Err(e) ==> is_validation(e, identity_error(type_)),
{
    match type_ {
        CustomerType::Company => {
            if is_empty_opt(ssm_no) {
                return Err(validation("Company 类型必须填写 SSM 号"));
            }
        },
        CustomerType::Individual => {
            if is_empty_opt(nric) {
                return Err(validation("Individual 类型必须填写 NRIC"));
            }
        },
    }
    Ok(())
}

/// The rules a create or edit request must meet, checked in this order:
/// a non-blank name, then the identity number.
pub open spec fn customer_input_ok(
    name: String,
    type_: CustomerType,
    ssm_no: Option<String>,
    nric: Option<String>,
) -> bool {
    !is_blank_seq(name@) && identity_ok(type_, ssm_no, nric)
}

/// The error for a request that breaks the rules.
pub open spec fn customer_input_error(
    e: AppError,
    name: String,
    type_: CustomerType,
) -> bool {
    if is_blank_seq(name@) {
        is_validation(e, name_error())
    } else {
        is_validation(e, identity_error(type_))
    }
}

fn check_input(
    name: &String,
    type_: CustomerType,
    ssm_no: &Option<String>,
    nric: &Option<String>,
) -> (r: AppResult<()>)
    ensures
        r is Ok <==> customer_input_ok(*name, type_, *ssm_no, *nric),
        r matches Err(e) ==> customer_input_error(e, *name, type_),
{
    if is_blank(name.as_str()) {
        return Err(validation("name 不能为空"));
    }
    validate_identity(type_, ssm_no, nric)
}

/// The contact fields of `c` are those of the request, trimmed, with blank
/// ones dropped.
pub open spec fn contact_fields_from(
    c: Customer,
    type_: CustomerType,
    name: String,
    contact_person: Option<String>,
    email: Option<String>,
    phone: Option<String>,
    address: Option<String>,
    ssm_no: Option<String>,
    nric: Option<String>,
    tax_no: Option<String>,
    notes: Option<String>,
) -> bool {
    &&& c.type_ == type_
    &&& c.name@ == trim_seq(name@)
    &&& opt_view(c.contact_person) == trim_opt_spec(contact_person)
    &&& opt_view(c.email) == trim_opt_spec(email)
    &&& opt_view(c.phone) == trim_opt_spec(phone)
    &&& opt_view(c.address) == trim_opt_spec(address)
    &&& opt_view(c.ssm_no) == trim_opt_spec(ssm_no)
    &&& opt_view(c.nric) == trim_opt_spec(nric)
    &&& opt_view(c.tax_no) == trim_opt_spec(tax_no)
    &&& opt_view(c.notes) == trim_opt_spec(notes)
}

/// `c` is the new customer that `input` describes, with the given id and
/// creation time, not archived.
pub open spec fn created_from(
    c: Customer,
    input: CreateCustomerInput,
    id: Seq<char>,
    now: Seq<char>,
) -> bool {
    &&& contact_fields_from(
        c,
        input.type_,
        input.name,
        input.contact_person,
        input.email,
        input.phone,
        input.address,
        input.ssm_no,
        input.nric,
        input.tax_no,
        input.notes,
    )
    &&& c.id@ == id
    &&& !c.archived
    &&& c.created_at@ == now
    &&& c.updated_at@ == now
}

/// Builds a new customer from a request, with the id and time given.
pub fn create_with(input: CreateCustomerInput, id: String, now: String) -> (r: AppResult<Customer>)
    ensures
        r is Ok <==> customer_input_ok(input.name, input.type_, input.ssm_no, input.nric),
        r matches Ok(c) ==> created_from(c, input, id@, now@),
        r matches Err(e) ==> customer_input_error(e, input.name, input.type_),
{
    check_input(&input.name, input.type_, &input.ssm_no, &input.nric)?;
    let created = copy_string(&now);
    Ok(
        Customer {
            id,
            type_: input.type_,
            name: trim(input.name.as_str()),
            contact_person: trim_opt(input.contact_person),
            email: trim_opt(input.email),
            phone: trim_opt(input.phone),
            address: trim_opt(input.address),
            ssm_no: trim_opt(input.ssm_no),
            nric: trim_opt(input.nric),
            tax_no: trim_opt(input.tax_no),
            notes: trim_opt(input.notes),
            archived: false,
            created_at: created,
            updated_at: now,
        },
    )
}

/// Creates a customer with a fresh id, stamped with the current time.
pub fn create(input: CreateCustomerInput) -> (r: AppResult<Customer>)
    ensures
        r is Ok <==> customer_input_ok(input.name, input.type_, input.ssm_no, input.nric),
        r matches Ok(c) ==> created_from(c, input, c.id@, c.created_at@) && is_uuid_v4_text(
            c.id@,
        ),
        r matches Err(e) ==> customer_input_error(e, input.name, input.type_),
{
    let id = new_uuid();
    let now = now_timestamp();
    create_with(input, id, now)
}

/// `c` is `existing` with the fields of `input` and the edit time `now`.
pub open spec fn updated_from(
    c: Customer,
    existing: Customer,
    input: UpdateCustomerInput,
    now: Seq<char>,
) -> bool {
    &&& contact_fields_from(
        c,
        input.type_,
        input.name,
        input.contact_person,
        input.email,
        input.phone,
        input.address,
        input.ssm_no,
        input.nric,
        input.tax_no,
        input.notes,
    )
    &&& c.id@ == existing.id@
    &&& c.archived == existing.archived
    &&& c.created_at@ == existing.created_at@
    &&& c.updated_at@ == now
}

/// Applies an edit to the stored customer (`None` when no customer has
/// `input.id`). The request is checked first, then that the customer exists.
pub fn update_with(
    existing: Option<Customer>,
    input: UpdateCustomerInput,
    now: String,
) -> (r: AppResult<Customer>)
    ensures
        !customer_input_ok(input.name, input.type_, input.ssm_no, input.nric) ==> (r matches Err(
            e,
        ) && customer_input_error(e, input.name, input.type_)),
        customer_input_ok(input.name, input.type_, input.ssm_no, input.nric) ==> match existing {
            None => r matches Err(e) && is_not_found(e, "customer"@, input.id@),
            Some(old_c) => r matches Ok(c) && updated_from(c, old_c, input, now@),
        },
{
    check_input(&input.name, input.type_, &input.ssm_no, &input.nric)?;
    match existing {
        None => Err(not_found("customer", input.id.as_str())),
        Some(old_c) => Ok(
            Customer {
                id: old_c.id,
                type_: input.type_,
                name: trim(input.name.as_str()),
                contact_person: trim_opt(input.contact_person),
                email: trim_opt(input.email),
                phone: trim_opt(input.phone),
                address: trim_opt(input.address),
                ssm_no: trim_opt(input.ssm_no),
                nric: trim_opt(input.nric),
                tax_no: trim_opt(input.tax_no),
                notes: trim_opt(input.notes),
                archived: old_c.archived,
                created_at: old_c.created_at,
                updated_at: now,
            },
        ),
    }
}

/// Edits a customer, stamped with the current time.
pub fn update(existing: Option<Customer>, input: UpdateCustomerInput) -> (r: AppResult<Customer>)
    ensures
        !customer_input_ok(input.name, input.type_, input.ssm_no, input.nric) ==> (r matches Err(
            e,
        ) && customer_input_error(e, input.name, input.type_)),
        customer_input_ok(input.name, input.type_, input.ssm_no, input.nric) ==> match existing {
            None => r matches Err(e) && is_not_found(e, "customer"@, input.id@),
            Some(old_c) => r matches Ok(c) && updated_from(c, old_c, input, c.updated_at@),
        },
{
    let now = now_timestamp();
    update_with(existing, input, now)
}

/// `c` is `existing` with the archived flag set to `archived` at time `now`.
pub open spec fn archived_from(c: Customer, existing: Customer, archived: bool, now: Seq<char>) -> bool {
    &&& c.id@ == existing.id@
    &&& c.type_ == existing.type_
    &&& c.name@ == existing.name@
    &&& opt_view(c.contact_person) == opt_view(existing.contact_person)
    &&& opt_view(c.email) == opt_view(existing.email)
    &&& opt_view(c.phone) == opt_view(existing.phone)
    &&& opt_view(c.address) == opt_view(existing.address)
    &&& opt_view(c.ssm_no) == opt_view(existing.ssm_no)
    &&& opt_view(c.nric) == opt_view(existing.nric)
    &&& opt_view(c.tax_no) == opt_view(existing.tax_no)
    &&& opt_view(c.notes) == opt_view(existing.notes)
    &&& c.created_at@ == existing.created_at@
    &&& c.archived == archived
    &&& c.updated_at@ == now
}

/// Sets or clears the archived flag of the customer with `id` (`existing`
/// is what is stored under it, if anything).
pub fn set_archived_with(
    existing: Option<Customer>,
    id: &str,
    archived: bool,
    now: String,
) -> (r: AppResult<Customer>)
    ensures
        match existing {
            None => r matches Err(e) && is_not_found(e, "customer"@, id@),
            Some(old_c) => r matches Ok(c) && archived_from(c, old_c, archived, now@),
        },
{
    match existing {
        None => Err(not_found("customer", id)),
        Some(old_c) => Ok(
            Customer {
                id: old_c.id,
                type_: old_c.type_,
                name: old_c.name,
                contact_person: old_c.contact_person,
                email: old_c.email,
                phone: old_c.phone,
                address: old_c.address,
                ssm_no: old_c.ssm_no,
                nric: old_c.nric,
                tax_no: old_c.tax_no,
                notes: old_c.notes,
                archived,
                created_at: old_c.created_at,
                updated_at: now,
            },
        ),
    }
}

/// Archives the customer with `id`, stamped with the current time.
pub fn archive(existing: Option<Customer>, id: &str) -> (r: AppResult<Customer>)
    ensures
        match existing {
            None => r matches Err(e) && is_not_found(e, "customer"@, id@),
            Some(old_c) => r matches Ok(c) && archived_from(c, old_c, true, c.updated_at@),
        },
{
    set_archived_with(existing, id, true, now_timestamp())
}

/// Brings an archived customer back, stamped with the current time.
pub fn unarchive(existing: Option<Customer>, id: &str) -> (r: AppResult<Customer>)
    ensures
        match existing {
            None => r matches Err(e) && is_not_found(e, "customer"@, id@),
            Some(old_c) => r matches Ok(c) && archived_from(c, old_c, false, c.updated_at@),
        },
{
    set_archived_with(existing, id, false, now_timestamp())
}

/// The `LIKE` pattern that a search for `query` uses: the trimmed query
/// between `%` wildcards, or `None` when the query is blank, in which case
/// the search lists every customer.
pub fn search_pattern(query: &str) -> (r: Option<String>)
    ensures
        match r {
            None => is_blank_seq(query@),
            Some(p) => !is_blank_seq(query@) && p@ == "%"@ + trim_seq(query@) + "%"@,
        },
{
    let q = trim(query);
    if q.as_str().is_empty() {
        None
    } else {
        Some(concat3("%", q.as_str(), "%"))
    }
}

} // verus!

verus! {

/// Archiving a customer and bringing it back gives the same customer, with
/// only its update time moved on.
pub proof fn archive_then_unarchive_restores(
    c: Customer,
    archived: Customer,
    restored: Customer,
    t1: Seq<char>,
    t2: Seq<char>,
)
    requires
        !c.archived,
        archived_from(archived, c, true, t1),
        archived_from(restored, archived, false, t2),
    ensures
        archived_from(restored, c, false, t2),
        archived.archived,
{
}

/// An edit never changes a customer's id, creation time or archived flag.
pub proof fn update_keeps_identity(c: Customer, existing: Customer, input: UpdateCustomerInput, now: Seq<char>)
    requires
        updated_from(c, existing, input, now),
    ensures
        c.id@ == existing.id@,
        c.created_at@ == existing.created_at@,
        c.archived == existing.archived,
{
}

proof fn lemma_trimmed_identity(type_: CustomerType, name: String, ssm_no: Option<String>, nric: Option<String>, c: Customer)
    requires
        customer_input_ok(name, type_, ssm_no, nric),
        c.type_ == type_,
        c.name@ == trim_seq(name@),
        opt_view(c.ssm_no) == trim_opt_spec(ssm_no),
        opt_view(c.nric) == trim_opt_spec(nric),
    ensures
        customer_input_ok(c.name, c.type_, c.ssm_no, c.nric),
{
    crate::text::trim_is_idempotent(name@);
    if let Some(s) = ssm_no {
        crate::text::trim_is_idempotent(s@);
    }
    if let Some(s) = nric {
        crate::text::trim_is_idempotent(s@);
    }
}

/// A created customer keeps the identity numbers of the request, trimmed:
/// its SSM number from the SSM field and its NRIC from the NRIC field.
/// It meets the rules itself: its name is not blank, a company carries
/// an SSM number and a person an NRIC.
pub proof fn created_customer_keeps_identity(c: Customer, input: CreateCustomerInput, id: Seq<char>, now: Seq<char>)
    requires
        customer_input_ok(input.name, input.type_, input.ssm_no, input.nric),
        created_from(c, input, id, now),
    ensures
        opt_view(c.ssm_no) == trim_opt_spec(input.ssm_no),
        opt_view(c.nric) == trim_opt_spec(input.nric),
        c.type_ == input.type_,
        customer_input_ok(c.name, c.type_, c.ssm_no, c.nric),
        c.type_ == CustomerType::Individual ==> c.nric is Some,
        c.type_ == CustomerType::Company ==> c.ssm_no is Some,
{
    lemma_trimmed_identity(input.type_, input.name, input.ssm_no, input.nric, c);
}

/// An edited customer keeps the identity numbers of the request, trimmed,
/// and meets the rules itself.
pub proof fn updated_customer_keeps_identity(c: Customer, existing: Customer, input: UpdateCustomerInput, now: Seq<char>)
    requires
        customer_input_ok(input.name, input.type_, input.ssm_no, input.nric),
        updated_from(c, existing, input, now),
    ensures
        opt_view(c.ssm_no) == trim_opt_spec(input.ssm_no),
        opt_view(c.nric) == trim_opt_spec(input.nric),
        c.type_ == input.type_,
        customer_input_ok(c.name, c.type_, c.ssm_no, c.nric),
{
    lemma_trimmed_identity(input.type_, input.name, input.ssm_no, input.nric, c);
}

} // verus!
