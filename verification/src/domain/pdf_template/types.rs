use vstd::prelude::*;

use crate::text::str_eq;

verus! {

/// The kind of document a template renders.
#[derive(Debug, Clone, Copy, PartialEq, Eq, Structural)]
pub enum PdfDocType {
    Quotation,
    Invoice,
    PaymentVoucher,
}

/// The stored name of a document kind.
pub open spec fn pdf_doc_type_text(t: PdfDocType) -> Seq<char> {
    match t {
        PdfDocType::Quotation => "Quotation"@,
        PdfDocType::Invoice => "Invoice"@,
        PdfDocType::PaymentVoucher => "PaymentVoucher"@,
    }
}

/// The document kind whose stored name is `s`, if any.
pub open spec fn pdf_doc_type_parse(s: Seq<char>) -> Option<PdfDocType> {
    if s == "Quotation"@ {
        Some(PdfDocType::Quotation)
    } else if s == "Invoice"@ {
        Some(PdfDocType::Invoice)
    } else if s == "PaymentVoucher"@ {
        Some(PdfDocType::PaymentVoucher)
    } else {
        None
    }
}

impl PdfDocType {
    /// The stored name.
    pub fn as_str(self) -> (r: &'static str)
        ensures
            r@ == pdf_doc_type_text(self),
    {
        match self {
            PdfDocType::Quotation => "Quotation",
            PdfDocType::Invoice => "Invoice",
            PdfDocType::PaymentVoucher => "PaymentVoucher",
        }
    }

    /// Parses a stored name; anything else gives `None`.
    pub fn from_str(s: &str) -> (r: Option<Self>)
        ensures
            r == pdf_doc_type_parse(s@),
    {
        if str_eq(s, "Quotation") {
            Some(PdfDocType::Quotation)
        } else if str_eq(s, "Invoice") {
            Some(PdfDocType::Invoice)
        } else if str_eq(s, "PaymentVoucher") {
            Some(PdfDocType::PaymentVoucher)
        } else {
            None
        }
    }
}

/// Parsing the stored name of a document kind gives the kind back.
pub proof fn pdf_doc_type_round_trip(t: PdfDocType)
    ensures
        pdf_doc_type_parse(pdf_doc_type_text(t)) == Some(t),
{
    reveal_strlit("Quotation");
    reveal_strlit("Invoice");
    reveal_strlit("PaymentVoucher");
    assert("Quotation"@[0] == 'Q' && "Invoice"@[0] == 'I' && "PaymentVoucher"@[0] == 'P');
}

/// Whether a template is built in or uploaded.
#[derive(Debug, Clone, Copy, PartialEq, Eq, Structural)]
pub enum PdfTemplateType {
    Preset,
    Custom,
}

/// The stored name of a template type.
pub open spec fn pdf_template_type_text(t: PdfTemplateType) -> Seq<char> {
    match t {
        PdfTemplateType::Preset => "Preset"@,
        PdfTemplateType::Custom => "Custom"@,
    }
}

/// The template type whose stored name is `s`, if any.
pub open spec fn pdf_template_type_parse(s: Seq<char>) -> Option<PdfTemplateType> {
    if s == "Preset"@ {
        Some(PdfTemplateType::Preset)
    } else if s == "Custom"@ {
        Some(PdfTemplateType::Custom)
    } else {
        None
    }
}

impl PdfTemplateType {
    /// The stored name.
    pub fn as_str(self) -> (r: &'static str)
        ensures
            r@ == pdf_template_type_text(self),
    {
        match self {
            PdfTemplateType::Preset => "Preset",
            PdfTemplateType::Custom => "Custom",
        }
    }

    /// Parses a stored name; anything else gives `None`.
    pub fn from_str(s: &str) -> (r: Option<Self>)
        ensures
            r == pdf_template_type_parse(s@),
    {
        if str_eq(s, "Preset") {
            Some(PdfTemplateType::Preset)
        } else if str_eq(s, "Custom") {
            Some(PdfTemplateType::Custom)
        } else {
            None
        }
    }
}

/// Parsing the stored name of a template type gives the type back.
pub proof fn pdf_template_type_round_trip(t: PdfTemplateType)
    ensures
        pdf_template_type_parse(pdf_template_type_text(t)) == Some(t),
{
    reveal_strlit("Preset");
    reveal_strlit("Custom");
    assert("Preset"@[0] == 'P' && "Custom"@[0] == 'C');
}

/// A PDF template record.
#[derive(Debug, Clone)]
pub struct PdfTemplate {
    pub id: String,
    pub doc_type: PdfDocType,
    pub name: String,
    pub type_: PdfTemplateType,
    /// `preset:<key>` for built-in templates, else the HTML file's path.
    pub file_path: String,
    pub config_json: serde_json::Value,
    pub created_at: String,
    pub updated_at: String,
}

/// What the user supplies to upload a template.
#[derive(Debug, Clone)]
pub struct UploadCustomTemplateInput {
    pub doc_type: PdfDocType,
    pub name: String,
    /// The HTML, with template placeholders.
    pub html_content: String,
}

} // verus!
