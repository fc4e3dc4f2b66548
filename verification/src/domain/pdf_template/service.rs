use vstd::prelude::*;

use crate::clock::now_timestamp;
use crate::error::{is_validation, validation, AppError, AppResult};
use crate::text::{
    concat2, copy_string, is_blank, is_blank_seq, str_eq, trim, trim_seq, trim_start_seq,
};

use super::types::{PdfDocType, PdfTemplate, PdfTemplateType, UploadCustomTemplateInput};

verus! {

/// The first rule an upload breaks, by its message; `None` when it may be
/// saved. The HTML must start with `<` once leading white space is skipped.
pub open spec fn upload_rule_error(name: Seq<char>, html: Seq<char>) -> Option<Seq<char>> {
    if is_blank_seq(name) {
        Some("模板名称不能为空"@)
    } else if is_blank_seq(html) {
        Some("HTML 内容不能为空"@)
    } else if trim_start_seq(html)[0] != '<' {
        Some("HTML 内容必须以 '<' 开头（看起来不像 HTML 文件）"@)
    } else {
        None
    }
}

proof fn lemma_trim_start_nonempty(s: Seq<char>)
    requires
        !is_blank_seq(s),
    ensures
        trim_start_seq(s).len() > 0,
    decreases s.len(),
{
    if trim_start_seq(s).len() == 0 {
        assert(trim_seq(s) == crate::text::trim_end_seq(trim_start_seq(s)));
        assert(crate::text::trim_end_seq(trim_start_seq(s)) == trim_start_seq(s));
    }
}

fn first_non_ws_is_lt(s: &str) -> (b: bool)
    requires
        !is_blank_seq(s@),
    ensures
        b == (trim_start_seq(s@)[0] == '<'),
{
    proof {
        lemma_trim_start_nonempty(s@);
    }
    let n = s.unicode_len();
    let mut i: usize = 0;
    assert(s@.subrange(0, n as int) =~= s@);
    while i < n && crate::text::is_whitespace(s.get_char(i))
        invariant
            n == s@.len(),
            i <= n,
            trim_start_seq(s@) == trim_start_seq(s@.subrange(i as int, n as int)),
        decreases n - i,
    {
        assert(s@.subrange(i as int, n as int).drop_first() =~= s@.subrange(i + 1, n as int));
        i = i + 1;
    }
    if i == n {
        assert(s@.subrange(i as int, n as int).len() == 0);
        return false;
    }
    let ghost t = s@.subrange(i as int, n as int);
    assert(t[0] == s@[i as int]);
    assert(trim_start_seq(t) == t);
    s.get_char(i) == '<'
}

/// Checks an uploaded template: a name, some HTML, and HTML that starts
/// with `<`.
pub fn validate_upload(input: &UploadCustomTemplateInput) -> (r: AppResult<()>)
    ensures
        match upload_rule_error(input.name@, input.html_content@) {
            None => r is Ok,
            Some(m) => r matches Err(e) && is_validation(e, m),
        },
{
    if is_blank(input.name.as_str()) {
        return Err(validation("模板名称不能为空"));
    }
    if is_blank(input.html_content.as_str()) {
        return Err(validation("HTML 内容不能为空"));
    }
    if !first_non_ws_is_lt(input.html_content.as_str()) {
        return Err(validation("HTML 内容必须以 '<' 开头（看起来不像 HTML 文件）"));
    }
    Ok(())
}

/// The record of an uploaded template, whose HTML was written to
/// `file_path`; it has id `id`, the trimmed name, and the given settings.
pub fn custom_template_with(
    input: UploadCustomTemplateInput,
    id: String,
    file_path: String,
    config_json: serde_json::Value,
    now: String,
) -> (r: PdfTemplate)
    ensures
        r.id@ == id@,
        r.doc_type == input.doc_type,
        r.name@ == trim_seq(input.name@),
        r.type_ == PdfTemplateType::Custom,
        r.file_path@ == file_path@,
        r.config_json == config_json,
        r.created_at@ == now@,
        r.updated_at@ == now@,
{
    PdfTemplate {
        id,
        doc_type: input.doc_type,
        name: trim(input.name.as_str()),
        type_: PdfTemplateType::Custom,
        file_path,
        config_json,
        created_at: copy_string(&now),
        updated_at: now,
    }
}

/// The record of an uploaded template, stamped with the current time.
pub fn custom_template(
    input: UploadCustomTemplateInput,
    id: String,
    file_path: String,
    config_json: serde_json::Value,
) -> (r: PdfTemplate)
    ensures
        r.id@ == id@,
        r.doc_type == input.doc_type,
        r.name@ == trim_seq(input.name@),
        r.type_ == PdfTemplateType::Custom,
        r.file_path@ == file_path@,
        r.config_json == config_json,
        r.created_at@ == r.updated_at@,
{
    custom_template_with(input, id, file_path, config_json, now_timestamp())
}

/// Only uploaded templates can be deleted.
pub fn check_deletable(t: &PdfTemplate) -> (r: AppResult<()>)
    ensures
        t.type_ == PdfTemplateType::Custom ==> r is Ok,
        t.type_ != PdfTemplateType::Custom ==> (r matches Err(e) && is_validation(
            e,
            "不能删除预设 (Preset) 模板"@,
        )),
{
    if t.type_ != PdfTemplateType::Custom {
        return Err(validation("不能删除预设 (Preset) 模板"));
    }
    Ok(())
}

/// Where the HTML of a template comes from.
#[derive(Debug)]
pub enum TemplateSource {
    /// A built-in template, for the document kind given.
    Preset(PdfDocType),
    /// An uploaded template's HTML file.
    File(String),
}

/// The built-in template that a `preset:` key names, if any.
pub open spec fn preset_for_key(key: Seq<char>) -> Option<PdfDocType> {
    if key == "quotation_default"@ {
        Some(PdfDocType::Quotation)
    } else if key == "invoice_default"@ {
        Some(PdfDocType::Invoice)
    } else if key == "pv_default"@ {
        Some(PdfDocType::PaymentVoucher)
    } else {
        None
    }
}

/// `s` starts with `preset:`.
pub open spec fn is_preset_path(s: Seq<char>) -> bool {
    s.len() >= 7 && s.subrange(0, 7) == "preset:"@
}

/// Resolves where a template's HTML comes from: a `preset:` path names a
/// built-in template (an unknown key is an internal error), anything else
/// is a file.
pub fn renderable_source(file_path: &str) -> (r: AppResult<TemplateSource>)
    ensures
        is_preset_path(file_path@) ==> match preset_for_key(file_path@.skip(7)) {
            Some(d) => r matches Ok(TemplateSource::Preset(x)) && x == d,
            None => r matches Err(AppError::Internal(m)) && m@ == "unknown preset template key "@
                + file_path@.skip(7),
        },
        !is_preset_path(file_path@) ==> (r matches Ok(TemplateSource::File(p)) && p@
            == file_path@),
{
    let n = file_path.unicode_len();
    let prefix_ok = n >= 7 && str_eq(file_path.substring_char(0, 7), "preset:");
    if !prefix_ok {
        return Ok(TemplateSource::File(String::from_str(file_path)));
    }
    let key = file_path.substring_char(7, n);
    assert(key@ =~= file_path@.skip(7));
    if str_eq(key, "quotation_default") {
        Ok(TemplateSource::Preset(PdfDocType::Quotation))
    } else if str_eq(key, "invoice_default") {
        Ok(TemplateSource::Preset(PdfDocType::Invoice))
    } else if str_eq(key, "pv_default") {
        Ok(TemplateSource::Preset(PdfDocType::PaymentVoucher))
    } else {
        Err(AppError::Internal(concat2("unknown preset template key ", key)))
    }
}

} // verus!
