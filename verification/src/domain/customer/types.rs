use vstd::prelude::*;

use crate::text::str_eq;

verus! {

/// Whether a customer is a company or a private person.
#[derive(Debug, Clone, Copy, PartialEq, Eq, Structural)]
pub enum CustomerType {
    Company,
    Individual,
}

/// The stored name of a customer type.
pub open spec fn customer_type_text(t: CustomerType) -> Seq<char> {
    match t {
        CustomerType::Company => "Company"@,
        CustomerType::Individual => "Individual"@,
    }
}

/// The customer type whose stored name is `s`, if any.
pub open spec fn customer_type_parse(s: Seq<char>) -> Option<CustomerType> {
    if s == "Company"@ {
        Some(CustomerType::Company)
    } else if s == "Individual"@ {
        Some(CustomerType::Individual)
    } else {
        None
    }
}

impl CustomerType {
    /// The stored name.
    pub fn as_str(self) -> (r: &'static str)
        ensures
            r@ == customer_type_text(self),
    {
        match self {
            CustomerType::Company => "Company",
            CustomerType::Individual => "Individual",
        }
    }

    /// Parses a stored name; anything else gives `None`.
    pub fn from_str(s: &str) -> (r: Option<Self>)
        ensures
            r == customer_type_parse(s@),
    {
        if str_eq(s, "Company") {
            Some(CustomerType::Company)
        } else if str_eq(s, "Individual") {
            Some(CustomerType::Individual)
        } else {
            None
        }
    }
}

/// Parsing the stored name of a customer type gives the type back.
pub proof fn customer_type_round_trip(t: CustomerType)
    ensures
        customer_type_parse(customer_type_text(t)) == Some(t),
{
    reveal_strlit("Company");
    reveal_strlit("Individual");
    assert("Individual"@.len() != "Company"@.len());
}

/// A customer record.
#[derive(Debug, Clone)]
pub struct Customer {
    pub id: String,
    pub type_: CustomerType,
    pub name: String,
    pub contact_person: Option<String>,
    pub email: Option<String>,
    pub phone: Option<String>,
    pub address: Option<String>,
    pub ssm_no: Option<String>,
    pub nric: Option<String>,
    pub tax_no: Option<String>,
    pub notes: Option<String>,
    pub archived: bool,
    pub created_at: String,
    pub updated_at: String,
}

/// What the user supplies to create a customer.
#[derive(Debug, Clone)]
pub struct CreateCustomerInput {
    pub type_: CustomerType,
    pub name: String,
    pub contact_person: Option<String>,
    pub email: Option<String>,
    pub phone: Option<String>,
    pub address: Option<String>,
    pub ssm_no: Option<String>,
    pub nric: Option<String>,
    pub tax_no: Option<String>,
    pub notes: Option<String>,
}

/// What the user supplies to edit a customer.
#[derive(Debug, Clone)]
pub struct UpdateCustomerInput {
    pub id: String,
    pub type_: CustomerType,
    pub name: String,
    pub contact_person: Option<String>,
    pub email: Option<String>,
    pub phone: Option<String>,
    pub address: Option<String>,
    pub ssm_no: Option<String>,
    pub nric: Option<String>,
    pub tax_no: Option<String>,
    pub notes: Option<String>,
}

} // verus!
