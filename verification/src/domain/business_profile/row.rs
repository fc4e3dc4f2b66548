//! The stored form of a business profile: its columns as plain values. The
//! bank accounts and QR codes are JSON lists of records, which the caller
//! parses; the list of payment methods is parsed here.
use vstd::prelude::*;

use crate::binary64::Real64;
use crate::error::{serialize_error, AppError, AppResult};
use crate::json::{
    json_string_list, json_string_list_text, parse_string_list, render_string_list, string_views,
};
use crate::text::concat3;

use super::types::{entity_type_parse, BankAccount, BusinessProfile, EntityType, Qr};

verus! {

/// The columns of a stored profile, with its bank accounts and QR codes
/// already parsed (or the reason they did not).
#[derive(Debug)]
pub struct BusinessProfileRow {
    pub id: String,
    pub entity_type: String,
    pub name: String,
    pub address: Option<String>,
    pub email: Option<String>,
    pub phone: Option<String>,
    pub ssm_no: Option<String>,
    pub nric: Option<String>,
    pub sst_no: Option<String>,
    pub logo_path: Option<String>,
    pub qr_path: Option<String>,
    pub bank_accounts: Result<Vec<BankAccount>, String>,
    pub enabled_payment_methods: String,
    pub qrs: Result<Vec<Qr>, String>,
    pub default_tax_rate: Option<Real64>,
    pub default_quotation_valid_days: i32,
    pub default_invoice_due_days: i32,
    pub data_dir: String,
    pub created_at: String,
    pub updated_at: String,
}

/// Why a stored profile cannot be read back, checked in this order: its
/// bank accounts, its payment methods, its QR codes, its entity type.
pub open spec fn profile_row_error(row: BusinessProfileRow) -> Option<Seq<char>> {
    if row.bank_accounts is Err {
        Some(row.bank_accounts->Err_0@)
    } else if json_string_list(row.enabled_payment_methods@) is Err {
        Some(json_string_list(row.enabled_payment_methods@)->Err_0)
    } else if row.qrs is Err {
        Some(row.qrs->Err_0@)
    } else if entity_type_parse(row.entity_type@) is None {
        Some("unknown entity_type '"@ + row.entity_type@ + "'"@)
    } else {
        None
    }
}

/// The columns of `row` other than its payment methods are those of `p`.
pub open spec fn profile_columns_match(p: BusinessProfile, row: BusinessProfileRow) -> bool {
    &&& p.id@ == row.id@
    &&& Some(p.entity_type) == entity_type_parse(row.entity_type@)
    &&& p.name@ == row.name@
    &&& p.address == row.address
    &&& p.email == row.email
    &&& p.phone == row.phone
    &&& p.ssm_no == row.ssm_no
    &&& p.nric == row.nric
    &&& p.sst_no == row.sst_no
    &&& p.logo_path == row.logo_path
    &&& p.qr_path == row.qr_path
    &&& row.bank_accounts == Ok::<Vec<BankAccount>, String>(p.bank_accounts)
    &&& row.qrs == Ok::<Vec<Qr>, String>(p.qrs)
    &&& p.default_tax_rate == row.default_tax_rate
    &&& p.default_quotation_valid_days == row.default_quotation_valid_days
    &&& p.default_invoice_due_days == row.default_invoice_due_days
    &&& p.data_dir@ == row.data_dir@
    &&& p.created_at@ == row.created_at@
    &&& p.updated_at@ == row.updated_at@
}

/// `p` is the profile that `row` stores: its columns, and the payment
/// methods that its list column holds.
pub open spec fn profile_from_row(p: BusinessProfile, row: BusinessProfileRow) -> bool {
    &&& profile_columns_match(p, row)
    &&& Ok::<Seq<Seq<char>>, Seq<char>>(string_views(p.enabled_payment_methods@))
        == json_string_list(row.enabled_payment_methods@)
}

/// Assembles a profile from its stored columns and what parsing its list
/// of payment methods gave, checking in this order: its bank accounts, its
/// payment methods, its QR codes, its entity type.
pub fn profile_from_parts(row: BusinessProfileRow, methods: Result<Vec<String>, String>) -> (r:
    Result<BusinessProfile, String>)
    ensures
        if row.bank_accounts is Err {
            r matches Err(e) && e@ == row.bank_accounts->Err_0@
        } else if methods is Err {
            r matches Err(e) && e@ == methods->Err_0@
        } else if row.qrs is Err {
            r matches Err(e) && e@ == row.qrs->Err_0@
        } else if entity_type_parse(row.entity_type@) is None {
            r matches Err(e) && e@ == "unknown entity_type '"@ + row.entity_type@ + "'"@
        } else {
            r matches Ok(p) && profile_columns_match(p, row) && methods == Ok::<
                Vec<String>,
                String,
            >(p.enabled_payment_methods)
        },
{
    let bank_accounts = row.bank_accounts?;
    let enabled_payment_methods = methods?;
    let qrs = row.qrs?;
    let entity_type = match EntityType::from_str(row.entity_type.as_str()) {
        Some(t) => t,
        None => return Err(concat3("unknown entity_type '", row.entity_type.as_str(), "'")),
    };
    Ok(
        BusinessProfile {
            id: row.id,
            entity_type,
            name: row.name,
            address: row.address,
            email: row.email,
            phone: row.phone,
            ssm_no: row.ssm_no,
            nric: row.nric,
            sst_no: row.sst_no,
            logo_path: row.logo_path,
            qr_path: row.qr_path,
            bank_accounts,
            qrs,
            enabled_payment_methods,
            default_tax_rate: row.default_tax_rate,
            default_quotation_valid_days: row.default_quotation_valid_days,
            default_invoice_due_days: row.default_invoice_due_days,
            data_dir: row.data_dir,
            created_at: row.created_at,
            updated_at: row.updated_at,
        },
    )
}

/// Reads a stored profile back, parsing its list of payment methods; the
/// error is the reason it cannot be.
pub fn decode_profile_row(row: BusinessProfileRow) -> (r: Result<BusinessProfile, String>)
    ensures
        match profile_row_error(row) {
            Some(m) => r matches Err(e) && e@ == m,
            None => r matches Ok(p) && profile_from_row(p, row),
        },
{
    let methods = parse_string_list(row.enabled_payment_methods.as_str());
    profile_from_parts(row, methods)
}

/// The JSON text to store for a profile's payment methods, written as
/// `serde_json` writes a list of strings; it always succeeds, and the text
/// reads back as the same methods.
pub fn payment_methods_text(p: &BusinessProfile) -> (r: AppResult<String>)
    ensures
        r matches Ok(t) && t@ == json_string_list_text(string_views(p.enabled_payment_methods@))
            && json_string_list(t@) == Ok::<Seq<Seq<char>>, Seq<char>>(
            string_views(p.enabled_payment_methods@),
        ),
{
    match render_string_list(&p.enabled_payment_methods) {
        Ok(t) => Ok(t),
        Err(e) => Err(serialize_error("enabled_payment_methods", e)),
    }
}

} // verus!
