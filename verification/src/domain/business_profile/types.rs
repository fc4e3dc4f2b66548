use vstd::prelude::*;

use crate::binary64::Real64;
use crate::text::{copy_string, str_eq};

verus! {

/// Whether the business is a company or a private person.
#[derive(Debug, Clone, Copy, PartialEq, Eq, Structural)]
pub enum EntityType {
    Company,
    Individual,
}

/// The stored name of an entity type.
pub open spec fn entity_type_text(t: EntityType) -> Seq<char> {
    match t {
        EntityType::Company => "Company"@,
        EntityType::Individual => "Individual"@,
    }
}

/// The entity type whose stored name is `s`, if any.
pub open spec fn entity_type_parse(s: Seq<char>) -> Option<EntityType> {
    if s == "Company"@ {
        Some(EntityType::Company)
    } else if s == "Individual"@ {
        Some(EntityType::Individual)
    } else {
        None
    }
}

impl EntityType {
    /// The stored name.
    pub fn as_str(self) -> (r: &'static str)
        ensures
            r@ == entity_type_text(self),
    {
        match self {
            EntityType::Company => "Company",
            EntityType::Individual => "Individual",
        }
    }

    /// Parses a stored name; anything else gives `None`.
    pub fn from_str(s: &str) -> (r: Option<Self>)
        ensures
            r == entity_type_parse(s@),
    {
        if str_eq(s, "Company") {
            Some(EntityType::Company)
        } else if str_eq(s, "Individual") {
            Some(EntityType::Individual)
        } else {
            None
        }
    }
}

/// Parsing the stored name of an entity type gives the type back.
pub proof fn entity_type_round_trip(t: EntityType)
    ensures
        entity_type_parse(entity_type_text(t)) == Some(t),
{
    reveal_strlit("Company");
    reveal_strlit("Individual");
    assert("Individual"@.len() != "Company"@.len());
}

/// A bank account printed on invoices.
#[derive(Debug, Clone)]
pub struct BankAccount {
    /// A UUID; blank for accounts entered before ids existed, which get a
    /// fresh one on the next save.
    pub id: String,
    pub bank_name: String,
    pub account_number: String,
    pub account_holder: String,
}

/// The payment network a QR code belongs to.
#[derive(Debug, Clone, Copy, PartialEq, Eq, Structural)]
pub enum QrKind {
    Bank,
    Tng,
    Boost,
    GrabPay,
    Other,
}

/// The stored name of a QR kind.
pub open spec fn qr_kind_text(k: QrKind) -> Seq<char> {
    match k {
        QrKind::Bank => "Bank"@,
        QrKind::Tng => "Tng"@,
        QrKind::Boost => "Boost"@,
        QrKind::GrabPay => "GrabPay"@,
        QrKind::Other => "Other"@,
    }
}

/// The QR kind whose stored name is `s`, if any.
pub open spec fn qr_kind_parse(s: Seq<char>) -> Option<QrKind> {
    if s == "Bank"@ {
        Some(QrKind::Bank)
    } else if s == "Tng"@ {
        Some(QrKind::Tng)
    } else if s == "Boost"@ {
        Some(QrKind::Boost)
    } else if s == "GrabPay"@ {
        Some(QrKind::GrabPay)
    } else if s == "Other"@ {
        Some(QrKind::Other)
    } else {
        None
    }
}

impl QrKind {
    /// The stored name.
    pub fn as_str(self) -> (r: &'static str)
        ensures
            r@ == qr_kind_text(self),
    {
        match self {
            QrKind::Bank => "Bank",
            QrKind::Tng => "Tng",
            QrKind::Boost => "Boost",
            QrKind::GrabPay => "GrabPay",
            QrKind::Other => "Other",
        }
    }

    /// Parses a stored name; anything else gives `None`.
    pub fn from_str(s: &str) -> (r: Option<Self>)
        ensures
            r == qr_kind_parse(s@),
    {
        if str_eq(s, "Bank") {
            Some(QrKind::Bank)
        } else if str_eq(s, "Tng") {
            Some(QrKind::Tng)
        } else if str_eq(s, "Boost") {
            Some(QrKind::Boost)
        } else if str_eq(s, "GrabPay") {
            Some(QrKind::GrabPay)
        } else if str_eq(s, "Other") {
            Some(QrKind::Other)
        } else {
            None
        }
    }
}

/// Parsing the stored name of a QR kind gives the kind back.
pub proof fn qr_kind_round_trip(k: QrKind)
    ensures
        qr_kind_parse(qr_kind_text(k)) == Some(k),
{
    reveal_strlit("Bank");
    reveal_strlit("Tng");
    reveal_strlit("Boost");
    reveal_strlit("GrabPay");
    reveal_strlit("Other");
    assert("Bank"@[0] == 'B' && "Tng"@[0] == 'T' && "Boost"@[0] == 'B');
    assert("GrabPay"@[0] == 'G' && "Other"@[0] == 'O' && "Bank"@.len() != "Boost"@.len());
}

/// A payment QR image of a business profile.
#[derive(Debug, Clone)]
pub struct Qr {
    pub id: String,
    pub kind: QrKind,
    pub label: String,
    pub file_path: String,
}

/// The abstract content of a QR entry.
pub struct QrView {
    pub id: Seq<char>,
    pub kind: QrKind,
    pub label: Seq<char>,
    pub file_path: Seq<char>,
}

impl View for Qr {
    type V = QrView;

    open spec fn view(&self) -> QrView {
        QrView { id: self.id@, kind: self.kind, label: self.label@, file_path: self.file_path@ }
    }
}

impl DeepView for Qr {
    type V = QrView;

    open spec fn deep_view(&self) -> QrView {
        self@
    }
}

impl Qr {
    /// A copy of this entry.
    pub fn copy(&self) -> (r: Qr)
        ensures
            r@ == self@,
    {
        Qr {
            id: copy_string(&self.id),
            kind: self.kind,
            label: copy_string(&self.label),
            file_path: copy_string(&self.file_path),
        }
    }
}

/// A QR code with its image as a `data:` URL, for display.
#[derive(Debug, Clone)]
pub struct QrDataUrl {
    pub id: String,
    pub kind: QrKind,
    pub label: String,
    pub data_url: String,
}

/// The logo and QR images of a profile as `data:` URLs.
#[derive(Debug, Clone)]
pub struct ProfileAssetDataUrls {
    pub logo_data_url: Option<String>,
    pub qrs: Vec<QrDataUrl>,
}

/// A business the user issues documents as.
#[derive(Debug, Clone)]
pub struct BusinessProfile {
    pub id: String,
    pub entity_type: EntityType,
    /// The company name or the person's name, by `entity_type`.
    pub name: String,
    pub address: Option<String>,
    pub email: Option<String>,
    pub phone: Option<String>,
    /// Required for a company.
    pub ssm_no: Option<String>,
    /// Required for a person.
    pub nric: Option<String>,
    pub sst_no: Option<String>,
    /// Path of the logo image; companies only.
    pub logo_path: Option<String>,
    /// The single QR image of older profiles; `qrs` replaces it.
    pub qr_path: Option<String>,
    pub bank_accounts: Vec<BankAccount>,
    pub qrs: Vec<Qr>,
    pub enabled_payment_methods: Vec<String>,
    pub default_tax_rate: Option<Real64>,
    pub default_quotation_valid_days: i32,
    pub default_invoice_due_days: i32,
    pub data_dir: String,
    pub created_at: String,
    pub updated_at: String,
}

/// What the user supplies to create a business profile.
#[derive(Debug, Clone)]
pub struct CreateBusinessProfileInput {
    pub entity_type: EntityType,
    pub name: String,
    pub address: Option<String>,
    pub email: Option<String>,
    pub phone: Option<String>,
    pub ssm_no: Option<String>,
    pub nric: Option<String>,
    pub sst_no: Option<String>,
    pub bank_accounts: Vec<BankAccount>,
    pub enabled_payment_methods: Vec<String>,
    pub default_tax_rate: Option<Real64>,
    pub default_quotation_valid_days: i32,
    pub default_invoice_due_days: i32,
    pub data_dir: String,
}

/// What the user supplies to edit a business profile.
#[derive(Debug, Clone)]
pub struct UpdateBusinessProfileInput {
    pub id: String,
    pub entity_type: EntityType,
    pub name: String,
    pub address: Option<String>,
    pub email: Option<String>,
    pub phone: Option<String>,
    pub ssm_no: Option<String>,
    pub nric: Option<String>,
    pub sst_no: Option<String>,
    pub bank_accounts: Vec<BankAccount>,
    pub enabled_payment_methods: Vec<String>,
    pub default_tax_rate: Option<Real64>,
    pub default_quotation_valid_days: i32,
    pub default_invoice_due_days: i32,
    pub data_dir: String,
}

} // verus!
