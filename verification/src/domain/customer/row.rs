//! The stored form of a customer: its columns as plain values.
use vstd::prelude::*;

use crate::text::{concat2, copy_opt, copy_string, opt_view, owned};

use super::types::{customer_type_parse, customer_type_text, Customer, CustomerType};

verus! {

/// The columns of a stored customer.
#[derive(Debug, Clone)]
pub struct CustomerRow {
    pub id: String,
    pub type_: String,
    pub name: String,
    pub contact_person: Option<String>,
    pub email: Option<String>,
    pub phone: Option<String>,
    pub address: Option<String>,
    pub ssm_no: Option<String>,
    pub nric: Option<String>,
    pub tax_no: Option<String>,
    pub notes: Option<String>,
    pub archived: i64,
    pub created_at: String,
    pub updated_at: String,
}

/// `c` and `row` hold the same customer: the type by its stored name and
/// the archived flag as an integer that is not 0 when archived.
pub open spec fn customer_matches_row(c: Customer, row: CustomerRow) -> bool {
    &&& c.id@ == row.id@
    &&& Some(c.type_) == customer_type_parse(row.type_@)
    &&& c.name@ == row.name@
    &&& opt_view(c.contact_person) == opt_view(row.contact_person)
    &&& opt_view(c.email) == opt_view(row.email)
    &&& opt_view(c.phone) == opt_view(row.phone)
    &&& opt_view(c.address) == opt_view(row.address)
    &&& opt_view(c.ssm_no) == opt_view(row.ssm_no)
    &&& opt_view(c.nric) == opt_view(row.nric)
    &&& opt_view(c.tax_no) == opt_view(row.tax_no)
    &&& opt_view(c.notes) == opt_view(row.notes)
    &&& c.archived == (row.archived != 0)
    &&& c.created_at@ == row.created_at@
    &&& c.updated_at@ == row.updated_at@
}

/// Reads a stored customer back; an unknown type is the only reason it
/// cannot be.
pub fn decode_customer_row(row: CustomerRow) -> (r: Result<Customer, String>)
    ensures
        match customer_type_parse(row.type_@) {
            None => r matches Err(e) && e@ == "unknown customer type "@ + row.type_@,
            Some(_) => r matches Ok(c) && customer_matches_row(c, row),
        },
{
    let type_ = match CustomerType::from_str(row.type_.as_str()) {
        Some(t) => t,
        None => return Err(concat2("unknown customer type ", row.type_.as_str())),
    };
    Ok(
        Customer {
            id: row.id,
            type_,
            name: row.name,
            contact_person: row.contact_person,
            email: row.email,
            phone: row.phone,
            address: row.address,
            ssm_no: row.ssm_no,
            nric: row.nric,
            tax_no: row.tax_no,
            notes: row.notes,
            archived: row.archived != 0,
            created_at: row.created_at,
            updated_at: row.updated_at,
        },
    )
}

/// The columns to store for a customer: the type's stored name, and 1 or 0
/// for the archived flag.
pub fn customer_row(c: &Customer) -> (row: CustomerRow)
    ensures
        customer_matches_row(*c, row),
        row.type_@ == customer_type_text(c.type_),
        row.archived == (if c.archived {
            1i64
        } else {
            0i64
        }),
{
    proof {
        super::types::customer_type_round_trip(c.type_);
    }
    CustomerRow {
        id: copy_string(&c.id),
        type_: owned(c.type_.as_str()),
        name: copy_string(&c.name),
        contact_person: copy_opt(&c.contact_person),
        email: copy_opt(&c.email),
        phone: copy_opt(&c.phone),
        address: copy_opt(&c.address),
        ssm_no: copy_opt(&c.ssm_no),
        nric: copy_opt(&c.nric),
        tax_no: copy_opt(&c.tax_no),
        notes: copy_opt(&c.notes),
        archived: if c.archived {
            1
        } else {
            0
        },
        created_at: copy_string(&c.created_at),
        updated_at: copy_string(&c.updated_at),
    }
}

/// A stored customer reads back as itself.
pub proof fn stored_customer_reads_back(c: Customer, row: CustomerRow, back: Customer)
    requires
        row.type_@ == customer_type_text(c.type_),
        customer_matches_row(c, row),
        customer_matches_row(back, row),
    ensures
        customer_type_parse(row.type_@) is Some,
        back.id@ == c.id@,
        back.type_ == c.type_,
        back.name@ == c.name@,
        opt_view(back.contact_person) == opt_view(c.contact_person),
        opt_view(back.email) == opt_view(c.email),
        opt_view(back.phone) == opt_view(c.phone),
        opt_view(back.address) == opt_view(c.address),
        opt_view(back.ssm_no) == opt_view(c.ssm_no),
        opt_view(back.nric) == opt_view(c.nric),
        opt_view(back.tax_no) == opt_view(c.tax_no),
        opt_view(back.notes) == opt_view(c.notes),
        back.archived == c.archived,
        back.created_at@ == c.created_at@,
        back.updated_at@ == c.updated_at@,
{
    super::types::customer_type_round_trip(c.type_);
}

} // verus!
