//! The stored form of a PDF template: its columns as plain values, and the
//! JSON text of its settings.
use vstd::prelude::*;

use crate::error::{serialize_error, AppError, AppResult};
use crate::json::{
    json_value_error, json_value_parse, json_value_text, parse_json_value, render_json_value,
};
use crate::text::concat2;

use super::types::{
    pdf_doc_type_parse, pdf_template_type_parse, PdfDocType, PdfTemplate, PdfTemplateType,
};

verus! {

/// The columns of a stored template, as read.
#[derive(Debug, Clone)]
pub struct PdfTemplateRow {
    pub id: String,
    pub doc_type: String,
    pub name: String,
    pub type_: String,
    pub file_path: String,
    pub config_json: String,
    pub created_at: String,
    pub updated_at: String,
}

/// Why a stored template cannot be read back, checked in this order: an
/// unknown document kind, an unknown template type, settings that do not
/// parse.
pub open spec fn template_row_error(row: PdfTemplateRow) -> Option<Seq<char>> {
    if pdf_doc_type_parse(row.doc_type@) is None {
        Some("unknown doc_type "@ + row.doc_type@)
    } else if pdf_template_type_parse(row.type_@) is None {
        Some("unknown template type "@ + row.type_@)
    } else {
        json_value_error(row.config_json@)
    }
}

/// `t` is the template that `row` stores.
pub open spec fn template_from_row(t: PdfTemplate, row: PdfTemplateRow) -> bool {
    &&& t.id@ == row.id@
    &&& Some(t.doc_type) == pdf_doc_type_parse(row.doc_type@)
    &&& t.name@ == row.name@
    &&& Some(t.type_) == pdf_template_type_parse(row.type_@)
    &&& t.file_path@ == row.file_path@
    &&& t.created_at@ == row.created_at@
    &&& t.updated_at@ == row.updated_at@
}

/// Assembles a template from its stored columns and what parsing its
/// settings gave: an unknown document kind is refused first, then an
/// unknown template type, then settings that did not parse.
pub fn template_from_parts(row: PdfTemplateRow, config: Result<serde_json::Value, String>) -> (r:
    Result<PdfTemplate, String>)
    ensures
        if pdf_doc_type_parse(row.doc_type@) is None {
            r matches Err(e) && e@ == "unknown doc_type "@ + row.doc_type@
        } else if pdf_template_type_parse(row.type_@) is None {
            r matches Err(e) && e@ == "unknown template type "@ + row.type_@
        } else {
            match config {
                Err(m) => r matches Err(e) && e@ == m@,
                Ok(v) => r matches Ok(t) && template_from_row(t, row) && t.config_json == v,
            }
        },
{
    let doc_type = match PdfDocType::from_str(row.doc_type.as_str()) {
        Some(d) => d,
        None => return Err(concat2("unknown doc_type ", row.doc_type.as_str())),
    };
    let type_ = match PdfTemplateType::from_str(row.type_.as_str()) {
        Some(t) => t,
        None => return Err(concat2("unknown template type ", row.type_.as_str())),
    };
    let config_json = config?;
    Ok(
        PdfTemplate {
            id: row.id,
            doc_type,
            name: row.name,
            type_,
            file_path: row.file_path,
            config_json,
            created_at: row.created_at,
            updated_at: row.updated_at,
        },
    )
}

/// Reads a stored template back, parsing its settings; the error is the
/// reason it cannot be.
pub fn decode_template_row(row: PdfTemplateRow) -> (r: Result<PdfTemplate, String>)
    ensures
        match template_row_error(row) {
            Some(m) => r matches Err(e) && e@ == m,
            None => r matches Ok(t) && template_from_row(t, row) && t.config_json
                == json_value_parse(row.config_json@),
        },
{
    let config = parse_json_value(row.config_json.as_str());
    template_from_parts(row, config)
}

/// The JSON text to store for a template's settings: what `serde_json`
/// writes for them.
pub fn template_config_text(t: &PdfTemplate) -> (r: AppResult<String>)
    ensures
        r matches Ok(text) && text@ == json_value_text(t.config_json),
{
    match render_json_value(&t.config_json) {
        Ok(s) => Ok(s),
        Err(e) => Err(serialize_error("config_json", e)),
    }
}

} // verus!
