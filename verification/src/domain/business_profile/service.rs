use vstd::prelude::*;

use crate::binary64::{in_unit_interval_spec, Real64};
use crate::clock::now_timestamp;
use crate::codec::{base64_standard_decode, base64_standard_encode, decode_base64, encode_base64};
use crate::error::{is_not_found, is_validation, not_found, validation, validation_owned, AppError, AppResult};
use crate::ids::{is_uuid_v4_text, new_uuid};
use crate::text::{
    concat2, copy_string, decimal_seq, is_blank, is_blank_seq, is_empty_opt, is_empty_opt_spec,
    opt_view, path_extension, path_extension_spec, path_file_stem, path_file_stem_spec, push_decimal, str_eq, to_lowercase, trim,
    trim_opt, trim_opt_spec, trim_seq, unicode_lowercase, digit_char,
};

use super::types::{
    BankAccount, BusinessProfile, CreateBusinessProfileInput, EntityType, ProfileAssetDataUrls,
    Qr, QrDataUrl, QrKind, QrView, UpdateBusinessProfileInput,
};

verus! {

/// Largest logo upload, in bytes (2 MiB).
pub const MAX_LOGO_BYTES: usize = 2097152;

/// Largest QR image upload, in bytes (1 MiB).
pub const MAX_QR_BYTES: usize = 1048576;

/// The message for a blank name; it names the field by entity type.
pub open spec fn blank_name_error(t: EntityType) -> Seq<char> {
    match t {
        EntityType::Company => "公司名 不能为空"@,
        EntityType::Individual => "姓名 不能为空"@,
    }
}

/// The first rule that a profile's basic fields break, by its message, in
/// the order they are checked; `None` when all hold.
pub open spec fn profile_rule_error(
    entity_type: EntityType,
    name: Seq<char>,
    ssm_no: Option<String>,
    nric: Option<String>,
    default_tax_rate: Option<Real64>,
    default_quotation_valid_days: i32,
    default_invoice_due_days: i32,
) -> Option<Seq<char>> {
    if is_blank_seq(name) {
        Some(blank_name_error(entity_type))
    } else if entity_type == EntityType::Company && is_empty_opt_spec(ssm_no) {
        Some("Company 类型必须填写 SSM 号"@)
    } else if entity_type == EntityType::Individual && is_empty_opt_spec(nric) {
        Some("Individual 类型必须填写 NRIC"@)
    } else if default_quotation_valid_days < 0 {
        Some("default_quotation_valid_days 不能为负数"@)
    } else if default_invoice_due_days < 0 {
        Some("default_invoice_due_days 不能为负数"@)
    } else if default_tax_rate matches Some(r) && !in_unit_interval_spec(r) {
        Some("default_tax_rate 必须在 0.0 ~ 1.0 之间"@)
    } else {
        None
    }
}

/// Checks the basic fields of a profile: a name, the identity number its
/// entity type needs, non-negative default day counts and a default tax
/// rate between 0 and 1.
pub fn validate_basic(
    entity_type: EntityType,
    name: &str,
    ssm_no: &Option<String>,
    nric: &Option<String>,
    default_tax_rate: Option<Real64>,
    default_quotation_valid_days: i32,
    default_invoice_due_days: i32,
) -> (r: AppResult<()>)
    ensures
        match profile_rule_error(
            entity_type,
            name@,
            *ssm_no,
            *nric,
            default_tax_rate,
            default_quotation_valid_days,
            default_invoice_due_days,
        ) {
            None => r is Ok,
            Some(m) => r matches Err(e) && is_validation(e, m),
        },
{
    if is_blank(name) {
        return match entity_type {
            EntityType::Company => Err(validation("公司名 不能为空")),
            EntityType::Individual => Err(validation("姓名 不能为空")),
        };
    }
    match entity_type {
        EntityType::Company => {
            if is_empty_opt(ssm_no) {
                return Err(validation("Company 类型必须填写 SSM 号"));
            }
        },
        EntityType::Individual => {
            if is_empty_opt(nric) {
                return Err(validation("Individual 类型必须填写 NRIC"));
            }
        },
    }
    if default_quotation_valid_days < 0 {
        return Err(validation("default_quotation_valid_days 不能为负数"));
    }
    if default_invoice_due_days < 0 {
        return Err(validation("default_invoice_due_days 不能为负数"));
    }
    if let Some(rate) = default_tax_rate {
        if !rate.in_unit_interval() {
            return Err(validation("default_tax_rate 必须在 0.0 ~ 1.0 之间"));
        }
    }
    Ok(())
}

/// `out` holds the accounts of `inp` in order, each with a UUID where the
/// given id was blank and its own id otherwise.
pub open spec fn bank_accounts_filled(out: Seq<BankAccount>, inp: Seq<BankAccount>) -> bool {
    &&& out.len() == inp.len()
    &&& forall|i: int|
        0 <= i < inp.len() ==> {
            &&& (#[trigger] out[i]).bank_name@ == inp[i].bank_name@
            &&& out[i].account_number@ == inp[i].account_number@
            &&& out[i].account_holder@ == inp[i].account_holder@
            &&& if is_blank_seq(inp[i].id@) {
                is_uuid_v4_text(out[i].id@)
            } else {
                out[i].id@ == inp[i].id@
            }
        }
}

/// Gives every bank account without an id a fresh UUID, so each has a
/// stable id once saved.
pub fn ensure_bank_account_ids(accounts: Vec<BankAccount>) -> (r: Vec<BankAccount>)
    ensures
        bank_accounts_filled(r@, accounts@),
{
    let mut out: Vec<BankAccount> = Vec::new();
    let n = accounts.len();
    for i in 0..n
        invariant
            n == accounts@.len(),
            out@.len() == i,
            bank_accounts_filled(out@, accounts@.take(i as int)),
    {
        let a = &accounts[i];
        let id = if is_blank(a.id.as_str()) {
            new_uuid()
        } else {
            copy_string(&a.id)
        };
        out.push(
            BankAccount {
                id,
                bank_name: copy_string(&a.bank_name),
                account_number: copy_string(&a.account_number),
                account_holder: copy_string(&a.account_holder),
            },
        );
        assert(accounts@.take(i + 1).drop_last() =~= accounts@.take(i as int));
    }
    assert(accounts@.take(n as int) =~= accounts@);
    out
}

/// The identity and contact fields of `p` are those of the request,
/// trimmed, blank optional ones dropped.
pub open spec fn profile_fields_from(
    p: BusinessProfile,
    entity_type: EntityType,
    name: String,
    address: Option<String>,
    email: Option<String>,
    phone: Option<String>,
    ssm_no: Option<String>,
    nric: Option<String>,
    sst_no: Option<String>,
    bank_accounts: Vec<BankAccount>,
    enabled_payment_methods: Vec<String>,
    default_tax_rate: Option<Real64>,
    default_quotation_valid_days: i32,
    default_invoice_due_days: i32,
    data_dir: String,
) -> bool {
    &&& p.entity_type == entity_type
    &&& p.name@ == trim_seq(name@)
    &&& opt_view(p.address) == trim_opt_spec(address)
    &&& opt_view(p.email) == trim_opt_spec(email)
    &&& opt_view(p.phone) == trim_opt_spec(phone)
    &&& opt_view(p.ssm_no) == trim_opt_spec(ssm_no)
    &&& opt_view(p.nric) == trim_opt_spec(nric)
    &&& opt_view(p.sst_no) == trim_opt_spec(sst_no)
    &&& bank_accounts_filled(p.bank_accounts@, bank_accounts@)
    &&& p.enabled_payment_methods == enabled_payment_methods
    &&& p.default_tax_rate == default_tax_rate
    &&& p.default_quotation_valid_days == default_quotation_valid_days
    &&& p.default_invoice_due_days == default_invoice_due_days
    &&& p.data_dir@ == data_dir@
}

/// The rules of `validate_basic` for a create request.
pub open spec fn create_rule_error(input: CreateBusinessProfileInput) -> Option<Seq<char>> {
    profile_rule_error(
        input.entity_type,
        input.name@,
        input.ssm_no,
        input.nric,
        input.default_tax_rate,
        input.default_quotation_valid_days,
        input.default_invoice_due_days,
    )
}

/// The rules of `validate_basic` for an edit request.
pub open spec fn update_rule_error(input: UpdateBusinessProfileInput) -> Option<Seq<char>> {
    profile_rule_error(
        input.entity_type,
        input.name@,
        input.ssm_no,
        input.nric,
        input.default_tax_rate,
        input.default_quotation_valid_days,
        input.default_invoice_due_days,
    )
}

/// `p` is the new profile that `input` describes: no logo, no QR images,
/// created and updated at `now`, with id `id`.
pub open spec fn profile_created_from(
    p: BusinessProfile,
    input: CreateBusinessProfileInput,
    id: Seq<char>,
    now: Seq<char>,
) -> bool {
    &&& profile_fields_from(
        p,
        input.entity_type,
        input.name,
        input.address,
        input.email,
        input.phone,
        input.ssm_no,
        input.nric,
        input.sst_no,
        input.bank_accounts,
        input.enabled_payment_methods,
        input.default_tax_rate,
        input.default_quotation_valid_days,
        input.default_invoice_due_days,
        input.data_dir,
    )
    &&& p.id@ == id
    &&& p.logo_path is None
    &&& p.qr_path is None
    &&& p.qrs@.len() == 0
    &&& p.created_at@ == now
    &&& p.updated_at@ == now
}

/// Builds a new profile from a request, with the id and time given.
pub fn create_with(input: CreateBusinessProfileInput, id: String, now: String) -> (r: AppResult<
    BusinessProfile,
>)
    ensures
        match create_rule_error(input) {
            None => r matches Ok(p) && profile_created_from(p, input, id@, now@),
            Some(m) => r matches Err(e) && is_validation(e, m),
        },
{
    validate_basic(
        input.entity_type,
        input.name.as_str(),
        &input.ssm_no,
        &input.nric,
        input.default_tax_rate,
        input.default_quotation_valid_days,
        input.default_invoice_due_days,
    )?;
    let created = copy_string(&now);
    Ok(
        BusinessProfile {
            id,
            entity_type: input.entity_type,
            name: trim(input.name.as_str()),
            address: trim_opt(input.address),
            email: trim_opt(input.email),
            phone: trim_opt(input.phone),
            ssm_no: trim_opt(input.ssm_no),
            nric: trim_opt(input.nric),
            sst_no: trim_opt(input.sst_no),
            logo_path: None,
            qr_path: None,
            bank_accounts: ensure_bank_account_ids(input.bank_accounts),
            qrs: Vec::new(),
            enabled_payment_methods: input.enabled_payment_methods,
            default_tax_rate: input.default_tax_rate,
            default_quotation_valid_days: input.default_quotation_valid_days,
            default_invoice_due_days: input.default_invoice_due_days,
            data_dir: input.data_dir,
            created_at: created,
            updated_at: now,
        },
    )
}

/// Creates a profile with a fresh id, stamped with the current time.
pub fn create(input: CreateBusinessProfileInput) -> (r: AppResult<BusinessProfile>)
    ensures
        match create_rule_error(input) {
            None => r matches Ok(p) && profile_created_from(p, input, p.id@, p.created_at@)
                && is_uuid_v4_text(p.id@),
            Some(m) => r matches Err(e) && is_validation(e, m),
        },
{
    let id = new_uuid();
    let now = now_timestamp();
    create_with(input, id, now)
}

/// `p` is `existing` edited by `input` at `now`: the identity, the QR
/// images and the creation time stay; a logo is dropped when the profile
/// becomes an individual's.
pub open spec fn profile_updated_from(
    p: BusinessProfile,
    existing: BusinessProfile,
    input: UpdateBusinessProfileInput,
    now: Seq<char>,
) -> bool {
    &&& profile_fields_from(
        p,
        input.entity_type,
        input.name,
        input.address,
        input.email,
        input.phone,
        input.ssm_no,
        input.nric,
        input.sst_no,
        input.bank_accounts,
        input.enabled_payment_methods,
        input.default_tax_rate,
        input.default_quotation_valid_days,
        input.default_invoice_due_days,
        input.data_dir,
    )
    &&& p.id == existing.id
    &&& p.qrs == existing.qrs
    &&& p.qr_path == existing.qr_path
    &&& p.created_at == existing.created_at
    &&& p.logo_path == (if input.entity_type == EntityType::Individual {
        None
    } else {
        existing.logo_path
    })
    &&& p.updated_at@ == now
}

/// Applies an edit to the stored profile (`None` when no profile has
/// `input.id`). The request is checked first, then that the profile exists.
pub fn update_with(
    existing: Option<BusinessProfile>,
    input: UpdateBusinessProfileInput,
    now: String,
) -> (r: AppResult<BusinessProfile>)
    ensures
        match update_rule_error(input) {
            Some(m) => r matches Err(e) && is_validation(e, m),
            None => match existing {
                None => r matches Err(e) && is_not_found(e, "business_profile"@, input.id@),
                Some(old_p) => r matches Ok(p) && profile_updated_from(p, old_p, input, now@),
            },
        },
{
    validate_basic(
        input.entity_type,
        input.name.as_str(),
        &input.ssm_no,
        &input.nric,
        input.default_tax_rate,
        input.default_quotation_valid_days,
        input.default_invoice_due_days,
    )?;
    match existing {
        None => Err(not_found("business_profile", input.id.as_str())),
        Some(old_p) => {
            let logo_path = if input.entity_type == EntityType::Individual {
                None
            } else {
                old_p.logo_path
            };
            Ok(
                BusinessProfile {
                    id: old_p.id,
                    entity_type: input.entity_type,
                    name: trim(input.name.as_str()),
                    address: trim_opt(input.address),
                    email: trim_opt(input.email),
                    phone: trim_opt(input.phone),
                    ssm_no: trim_opt(input.ssm_no),
                    nric: trim_opt(input.nric),
                    sst_no: trim_opt(input.sst_no),
                    logo_path,
                    qr_path: old_p.qr_path,
                    bank_accounts: ensure_bank_account_ids(input.bank_accounts),
                    qrs: old_p.qrs,
                    enabled_payment_methods: input.enabled_payment_methods,
                    default_tax_rate: input.default_tax_rate,
                    default_quotation_valid_days: input.default_quotation_valid_days,
                    default_invoice_due_days: input.default_invoice_due_days,
                    data_dir: input.data_dir,
                    created_at: old_p.created_at,
                    updated_at: now,
                },
            )
        },
    }
}

/// Edits a profile, stamped with the current time.
pub fn update(existing: Option<BusinessProfile>, input: UpdateBusinessProfileInput) -> (r:
    AppResult<BusinessProfile>)
    ensures
        match update_rule_error(input) {
            Some(m) => r matches Err(e) && is_validation(e, m),
            None => match existing {
                None => r matches Err(e) && is_not_found(e, "business_profile"@, input.id@),
                Some(old_p) => r matches Ok(p) && profile_updated_from(
                    p,
                    old_p,
                    input,
                    p.updated_at@,
                ),
            },
        },
{
    let now = now_timestamp();
    update_with(existing, input, now)
}

/// The message when a logo is uploaded for an individual's profile.
pub open spec fn individual_logo_error() -> Seq<char> {
    "Individual 类型不能设置 Logo"@
}

/// Checks, before an upload is written, that the stored profile with id
/// `profile_id` (`profile`, if any) may have a logo: only a company's may.
pub fn check_logo_allowed(profile: &Option<BusinessProfile>, profile_id: &str) -> (r: AppResult<()>)
    ensures
        match *profile {
            None => r matches Err(e) && is_not_found(e, "business_profile"@, profile_id@),
            Some(p) => if p.entity_type == EntityType::Individual {
                r matches Err(e) && is_validation(e, individual_logo_error())
            } else {
                r is Ok
            },
        },
{
    match profile {
        None => Err(not_found("business_profile", profile_id)),
        Some(p) => {
            if p.entity_type == EntityType::Individual {
                return Err(validation("Individual 类型不能设置 Logo"));
            }
            Ok(())
        },
    }
}

/// The image files that deleting a profile cleans up: its logo, its single
/// legacy QR image, where set, then the image of each QR entry in order.
pub open spec fn stale_assets_spec(p: BusinessProfile) -> Seq<Seq<char>> {
    let logo: Seq<Seq<char>> = match p.logo_path {
        Some(l) => seq![l@],
        None => Seq::empty(),
    };
    let legacy: Seq<Seq<char>> = match p.qr_path {
        Some(q) => logo.push(q@),
        None => logo,
    };
    legacy + p.qrs@.map_values(|q: Qr| q.file_path@)
}

/// The image files to remove along with a profile.
pub fn stale_asset_paths(p: &BusinessProfile) -> (r: Vec<String>)
    ensures
        r@.map_values(|s: String| s@) == stale_assets_spec(*p),
{
    let mut r: Vec<String> = Vec::new();
    if let Some(l) = &p.logo_path {
        r.push(copy_string(l));
    }
    if let Some(q) = &p.qr_path {
        r.push(copy_string(q));
    }
    let ghost head = r@.map_values(|s: String| s@);
    let n = p.qrs.len();
    for i in 0..n
        invariant
            n == p.qrs@.len(),
            r@.map_values(|s: String| s@) == head + p.qrs@.take(i as int).map_values(
                |q: Qr| q.file_path@,
            ),
    {
        let ghost old = r@;
        r.push(copy_string(&p.qrs[i].file_path));
        assert(r@.map_values(|s: String| s@) =~= old.map_values(|s: String| s@).push(
            p.qrs@[i as int].file_path@,
        ));
        assert(p.qrs@.take(i + 1).map_values(|q: Qr| q.file_path@) =~= p.qrs@.take(
            i as int,
        ).map_values(|q: Qr| q.file_path@).push(p.qrs@[i as int].file_path@));
        assert(r@.map_values(|s: String| s@) =~= head + p.qrs@.take(i + 1).map_values(
            |q: Qr| q.file_path@,
        ));
    }
    assert(p.qrs@.take(n as int) =~= p.qrs@);
    assert(r@.map_values(|s: String| s@) =~= stale_assets_spec(*p));
    r
}

} // verus!

verus! {

/// `s` without its leading dots (`str::trim_start_matches('.')`).
pub open spec fn strip_leading_dots(s: Seq<char>) -> Seq<char>
    decreases s.len(),
{
    if s.len() > 0 && s[0] == '.' {
        strip_leading_dots(s.drop_first())
    } else {
        s
    }
}

/// The extension an upload is stored under: trimmed, leading dots
/// dropped, lower-cased.
pub open spec fn normalized_ext(ext: Seq<char>) -> Seq<char> {
    unicode_lowercase(strip_leading_dots(trim_seq(ext)))
}

/// An ASCII letter or digit.
pub open spec fn is_ascii_alnum(c: char) -> bool {
    ('0' <= c && c <= '9') || ('a' <= c && c <= 'z') || ('A' <= c && c <= 'Z')
}

/// An acceptable extension: one to eight ASCII letters or digits.
pub open spec fn ext_ok(e: Seq<char>) -> bool {
    &&& 0 < e.len() <= 8
    &&& forall|i: int| 0 <= i < e.len() ==> is_ascii_alnum(#[trigger] e[i])
}

fn strip_dots(s: &str) -> (r: String)
    ensures
        r@ == strip_leading_dots(s@),
{
    let n = s.unicode_len();
    let mut i: usize = 0;
    assert(s@.subrange(0, n as int) =~= s@);
    while i < n && s.get_char(i) == '.'
        invariant
            n == s@.len(),
            i <= n,
            strip_leading_dots(s@) == strip_leading_dots(s@.subrange(i as int, n as int)),
        decreases n - i,
    {
        assert(s@.subrange(i as int, n as int).drop_first() =~= s@.subrange(i + 1, n as int));
        i = i + 1;
    }
    let ghost t = s@.subrange(i as int, n as int);
    assert(strip_leading_dots(t) == t) by {
        if i < n {
            assert(t[0] == s@[i as int]);
        }
    }
    String::from_str(s.substring_char(i, n))
}

fn is_ascii_alnum_char(c: char) -> (b: bool)
    ensures
        b == is_ascii_alnum(c),
{
    ('0' <= c && c <= '9') || ('a' <= c && c <= 'z') || ('A' <= c && c <= 'Z')
}

/// Accepts an extension that is already trimmed, stripped of leading dots
/// and lower-cased when it is one to eight ASCII letters or digits.
pub fn check_ext(e: String) -> (r: AppResult<String>)
    ensures
        ext_ok(e@) ==> r == Ok::<String, AppError>(e),
        !ext_ok(e@) ==> (r matches Err(err) && is_validation(err, "扩展名无效："@ + e@)),
{
    let n = e.as_str().unicode_len();
    let mut ok = n > 0 && n <= 8;
    let mut i: usize = 0;
    while i < n
        invariant
            n == e@.len(),
            i <= n,
            ok == (0 < n <= 8 && forall|k: int| 0 <= k < i ==> is_ascii_alnum(#[trigger] e@[k])),
        decreases n - i,
    {
        if !is_ascii_alnum_char(e.as_str().get_char(i)) {
            ok = false;
        }
        i = i + 1;
    }
    if !ok {
        return Err(validation_owned(concat2("扩展名无效：", e.as_str())));
    }
    Ok(e)
}

/// Normalises the extension of an upload, refusing anything but one to
/// eight ASCII letters or digits.
pub fn normalize_ext(ext: &str) -> (r: AppResult<String>)
    ensures
        ext_ok(normalized_ext(ext@)) ==> (r matches Ok(e) && e@ == normalized_ext(ext@)),
        !ext_ok(normalized_ext(ext@)) ==> (r matches Err(err) && is_validation(
            err,
            "扩展名无效："@ + normalized_ext(ext@),
        )),
{
    let t = trim(ext);
    let d = strip_dots(t.as_str());
    check_ext(to_lowercase(d.as_str()))
}

/// A byte count in MiB to one decimal, rounded half to even, in tenths.
pub open spec fn mib_tenths(n: nat) -> nat {
    let q = (n * 10) / 1048576;
    let r = (n * 10) % 1048576;
    if 2 * r > 1048576 || (2 * r == 1048576 && q % 2 == 1) {
        q + 1
    } else {
        q
    }
}

/// A byte count in MiB as `{:.1}` renders it.
pub open spec fn mib_text(n: nat) -> Seq<char> {
    decimal_seq(mib_tenths(n) / 10) + seq!['.', digit_char(mib_tenths(n) % 10)]
}

/// The message for an upload of `n` bytes over the limit of `max` bytes.
pub open spec fn too_large_error(n: nat, max: nat) -> Seq<char> {
    "文件过大："@ + mib_text(n) + " MB（上限 "@ + mib_text(max) + " MB）"@
}

fn push_mib(out: &mut String, n: usize)
    ensures
        final(out)@ == old(out)@ + mib_text(n as nat),
{
    let x: u128 = (n as u128) * 10;
    let q = x / 1048576;
    let r = x % 1048576;
    let t = if 2 * r > 1048576 || (2 * r == 1048576 && q % 2 == 1) {
        q + 1
    } else {
        q
    };
    assert(t == mib_tenths(n as nat));
    let whole = (t / 10) as usize;
    let frac = (t % 10) as usize;
    push_decimal(out, whole);
    out.append(".");
    push_decimal(out, frac);
    proof {
        reveal_strlit(".");
        assert(decimal_seq(frac as nat) == seq![digit_char(frac as nat)]);
    }
    assert(final(out)@ =~= old(out)@ + mib_text(n as nat));
}

/// The message for content that is not standard base64.
pub open spec fn base64_error(m: Seq<char>) -> Seq<char> {
    "base64 解码失败："@ + m
}

/// Checks what decoding an upload gave: refused when the decoding failed,
/// when empty, or when over `max_bytes`.
pub fn check_asset_bytes(decoded: Result<Vec<u8>, String>, max_bytes: usize) -> (r: AppResult<
    Vec<u8>,
>)
    ensures
        match decoded {
            Err(m) => r matches Err(e) && is_validation(e, base64_error(m@)),
            Ok(b) => if b@.len() == 0 {
                r matches Err(e) && is_validation(e, "文件内容为空"@)
            } else if b@.len() > max_bytes {
                r matches Err(e) && is_validation(e, too_large_error(b@.len(), max_bytes as nat))
            } else {
                r == Ok::<Vec<u8>, AppError>(b)
            },
        },
{
    let bytes = match decoded {
        Ok(v) => v,
        Err(m) => {
            return Err(validation_owned(concat2("base64 解码失败：", m.as_str())));
        },
    };
    if bytes.len() == 0 {
        return Err(validation("文件内容为空"));
    }
    if bytes.len() > max_bytes {
        let mut msg = String::from_str("文件过大：");
        push_mib(&mut msg, bytes.len());
        msg.append(" MB（上限 ");
        push_mib(&mut msg, max_bytes);
        msg.append(" MB）");
        return Err(validation_owned(msg));
    }
    Ok(bytes)
}

/// The bytes of an upload: decoded from standard base64, refused when the
/// decoding fails, when empty, or when over `max_bytes`.
pub fn decode_asset(bytes_b64: &str, max_bytes: usize) -> (r: AppResult<Vec<u8>>)
    ensures
        match base64_standard_decode(bytes_b64@) {
            Err(m) => r matches Err(e) && is_validation(e, base64_error(m)),
            Ok(b) => if b.len() == 0 {
                r matches Err(e) && is_validation(e, "文件内容为空"@)
            } else if b.len() > max_bytes {
                r matches Err(e) && is_validation(e, too_large_error(b.len(), max_bytes as nat))
            } else {
                r matches Ok(v) && v@ == b
            },
        },
{
    check_asset_bytes(decode_base64(bytes_b64), max_bytes)
}

/// Whether the file named `file_name` in a profile's asset folder is a
/// version of the asset `basename` (the same stem, whatever its
/// extension), which a new upload of that asset replaces.
pub fn replaces_asset(file_name: &str, basename: &str) -> (b: bool)
    ensures
        b == (path_file_stem_spec(file_name@) == Some(basename@)),
{
    match path_file_stem(file_name) {
        Some(stem) => str_eq(stem.as_str(), basename),
        None => false,
    }
}

/// Checks an image upload before it is written: the extension first, then
/// the content. Gives the normalised extension and the decoded bytes.
pub fn prepare_asset(bytes_b64: &str, ext: &str, max_bytes: usize) -> (r: AppResult<
    (String, Vec<u8>),
>)
    ensures
        !ext_ok(normalized_ext(ext@)) ==> (r matches Err(err) && is_validation(
            err,
            "扩展名无效："@ + normalized_ext(ext@),
        )),
        ext_ok(normalized_ext(ext@)) ==> match base64_standard_decode(bytes_b64@) {
            Err(m) => r matches Err(e) && is_validation(e, base64_error(m)),
            Ok(b) => if b.len() == 0 {
                r matches Err(e) && is_validation(e, "文件内容为空"@)
            } else if b.len() > max_bytes {
                r matches Err(e) && is_validation(e, too_large_error(b.len(), max_bytes as nat))
            } else {
                r matches Ok((x, v)) && x@ == normalized_ext(ext@) && v@ == b
            },
        },
{
    let e = normalize_ext(ext)?;
    let bytes = decode_asset(bytes_b64, max_bytes)?;
    Ok((e, bytes))
}

} // verus!

verus! {

/// The views of a list of QR entries.
pub open spec fn qr_views(s: Seq<Qr>) -> Seq<QrView> {
    s.map_values(|q: Qr| q@)
}

/// The entries of `s` whose id is not `id`, in order.
pub open spec fn qrs_without(s: Seq<QrView>, id: Seq<char>) -> Seq<QrView>
    decreases s.len(),
{
    if s.len() == 0 {
        s
    } else if s.last().id == id {
        qrs_without(s.drop_last(), id)
    } else {
        qrs_without(s.drop_last(), id).push(s.last())
    }
}

/// The first entry of `s` with id `id`, if any.
pub open spec fn first_qr_with_id(s: Seq<QrView>, id: Seq<char>) -> Option<QrView>
    decreases s.len(),
{
    if s.len() == 0 {
        None
    } else {
        match first_qr_with_id(s.drop_last(), id) {
            Some(q) => Some(q),
            None => if s.last().id == id {
                Some(s.last())
            } else {
                None
            },
        }
    }
}

/// The view of an optional QR entry.
pub open spec fn opt_qr_view(q: Option<Qr>) -> Option<QrView> {
    match q {
        Some(x) => Some(x@),
        None => None,
    }
}

/// A new QR entry; its label is trimmed.
pub fn new_qr(id: String, kind: QrKind, label: &str, file_path: String) -> (r: Qr)
    ensures
        r@ == (QrView { id: id@, kind, label: trim_seq(label@), file_path: file_path@ }),
{
    Qr { id, kind, label: trim(label), file_path }
}

/// Appends a QR entry to the stored profile with id `profile_id`
/// (`profile` is what is stored under it, if anything).
pub fn add_qr_with(profile: Option<BusinessProfile>, profile_id: &str, qr: Qr, now: String) -> (r:
    AppResult<BusinessProfile>)
    ensures
        match profile {
            None => r matches Err(e) && is_not_found(e, "business_profile"@, profile_id@),
            Some(p) => r matches Ok(q) && q.qrs@ == p.qrs@.push(qr) && q.updated_at@ == now@
                && q == (BusinessProfile { qrs: q.qrs, updated_at: q.updated_at, ..p }),
        },
{
    match profile {
        None => Err(not_found("business_profile", profile_id)),
        Some(p) => {
            let mut p = p;
            p.qrs.push(qr);
            p.updated_at = now;
            Ok(p)
        },
    }
}

/// Removes every QR entry with id `qr_id` from the stored profile with id
/// `profile_id`, and gives back the first one removed, whose image file is
/// then deleted.
pub fn remove_qr_with(
    profile: Option<BusinessProfile>,
    profile_id: &str,
    qr_id: &str,
    now: String,
) -> (r: AppResult<(BusinessProfile, Option<Qr>)>)
    ensures
        match profile {
            None => r matches Err(e) && is_not_found(e, "business_profile"@, profile_id@),
            Some(p) => r matches Ok((q, removed)) && qr_views(q.qrs@) == qrs_without(
                qr_views(p.qrs@),
                qr_id@,
            ) && opt_qr_view(removed) == first_qr_with_id(qr_views(p.qrs@), qr_id@)
                && q.updated_at@ == now@ && q == (BusinessProfile {
                qrs: q.qrs,
                updated_at: q.updated_at,
                ..p
            }),
        },
{
    match profile {
        None => Err(not_found("business_profile", profile_id)),
        Some(p) => {
            let mut kept: Vec<Qr> = Vec::new();
            let mut removed: Option<Qr> = None;
            let n = p.qrs.len();
            for i in 0..n
                invariant
                    n == p.qrs@.len(),
                    qr_views(kept@) == qrs_without(qr_views(p.qrs@.take(i as int)), qr_id@),
                    opt_qr_view(removed) == first_qr_with_id(
                        qr_views(p.qrs@.take(i as int)),
                        qr_id@,
                    ),
            {
                let q = &p.qrs[i];
                let ghost before = qr_views(p.qrs@.take(i as int));
                let ghost after = qr_views(p.qrs@.take(i + 1));
                assert(after.drop_last() =~= before);
                assert(after.last() == q@);
                if str_eq(q.id.as_str(), qr_id) {
                    if removed.is_none() {
                        removed = Some(q.copy());
                    }
                } else {
                    let ghost k0 = kept@;
                    kept.push(q.copy());
                    assert(qr_views(kept@) =~= qr_views(k0).push(q@));
                }
            }
            assert(p.qrs@.take(n as int) =~= p.qrs@);
            let mut p = p;
            p.qrs = kept;
            p.updated_at = now;
            Ok((p, removed))
        },
    }
}

/// No entry of `s` has id `id`.
pub open spec fn no_qr_with_id(s: Seq<QrView>, id: Seq<char>) -> bool {
    forall|j: int| 0 <= j < s.len() ==> (#[trigger] s[j]).id != id
}

/// `k` is the position of the first entry of `s` with id `id`.
pub open spec fn is_first_qr_with_id(s: Seq<QrView>, id: Seq<char>, k: int) -> bool {
    &&& 0 <= k < s.len()
    &&& s[k].id == id
    &&& forall|j: int| 0 <= j < k ==> (#[trigger] s[j]).id != id
}

/// Relabels the first QR entry with id `qr_id` of the stored profile with
/// id `profile_id`; the new label is trimmed.
pub fn update_qr_label_with(
    profile: Option<BusinessProfile>,
    profile_id: &str,
    qr_id: &str,
    label: &str,
    now: String,
) -> (r: AppResult<BusinessProfile>)
    ensures
        match profile {
            None => r matches Err(e) && is_not_found(e, "business_profile"@, profile_id@),
            Some(p) => if no_qr_with_id(qr_views(p.qrs@), qr_id@) {
                r matches Err(e) && is_not_found(e, "qr"@, qr_id@)
            } else {
                r matches Ok(q) && q.updated_at@ == now@ && q == (BusinessProfile {
                    qrs: q.qrs,
                    updated_at: q.updated_at,
                    ..p
                }) && exists|k: int|
                    is_first_qr_with_id(qr_views(p.qrs@), qr_id@, k) && qr_views(q.qrs@)
                        == qr_views(p.qrs@).update(
                        k,
                        QrView { label: trim_seq(label@), ..qr_views(p.qrs@)[k] },
                    )
            },
        },
{
    match profile {
        None => Err(not_found("business_profile", profile_id)),
        Some(p) => {
            let n = p.qrs.len();
            let mut i: usize = 0;
            while i < n && !str_eq(p.qrs[i].id.as_str(), qr_id)
                invariant
                    n == p.qrs@.len(),
                    i <= n,
                    forall|j: int| 0 <= j < i ==> (#[trigger] p.qrs@[j]).id@ != qr_id@,
                decreases n - i,
            {
                i = i + 1;
            }
            if i == n {
                assert(no_qr_with_id(qr_views(p.qrs@), qr_id@)) by {
                    assert forall|j: int| 0 <= j < qr_views(p.qrs@).len() implies (
                    #[trigger] qr_views(p.qrs@)[j]).id != qr_id@ by {
                        assert(qr_views(p.qrs@)[j] == p.qrs@[j]@);
                    }
                }
                return Err(not_found("qr", qr_id));
            }
            let old_q = &p.qrs[i];
            let relabelled = Qr {
                id: copy_string(&old_q.id),
                kind: old_q.kind,
                label: trim(label),
                file_path: copy_string(&old_q.file_path),
            };
            let ghost old_qrs = p.qrs@;
            let ghost old_views = qr_views(p.qrs@);
            let mut p = p;
            p.qrs.set(i, relabelled);
            p.updated_at = now;
            proof {
                let k = i as int;
                assert(is_first_qr_with_id(old_views, qr_id@, k)) by {
                    assert forall|j: int| 0 <= j < k implies (#[trigger] old_views[j]).id
                        != qr_id@ by {
                        assert(old_views[j] == old_qrs[j]@);
                    }
                }
                assert(qr_views(p.qrs@) =~= old_views.update(
                    k,
                    QrView { label: trim_seq(label@), ..old_views[k] },
                ));
            }
            Ok(p)
        },
    }
}

/// The media type of an image by its (lower-case) extension.
pub open spec fn mime_for_ext_spec(ext: Seq<char>) -> Seq<char> {
    if ext == "jpg"@ || ext == "jpeg"@ {
        "image/jpeg"@
    } else if ext == "png"@ {
        "image/png"@
    } else if ext == "gif"@ {
        "image/gif"@
    } else if ext == "webp"@ {
        "image/webp"@
    } else if ext == "svg"@ {
        "image/svg+xml"@
    } else {
        "application/octet-stream"@
    }
}

/// The media type of an image by its (lower-case) extension.
pub fn mime_for_ext(ext: &str) -> (r: &'static str)
    ensures
        r@ == mime_for_ext_spec(ext@),
{
    if str_eq(ext, "jpg") || str_eq(ext, "jpeg") {
        "image/jpeg"
    } else if str_eq(ext, "png") {
        "image/png"
    } else if str_eq(ext, "gif") {
        "image/gif"
    } else if str_eq(ext, "webp") {
        "image/webp"
    } else if str_eq(ext, "svg") {
        "image/svg+xml"
    } else {
        "application/octet-stream"
    }
}

/// The lower-cased extension of an image path, `png` when it has none.
pub open spec fn image_ext(path: Seq<char>) -> Seq<char> {
    match path_extension_spec(path) {
        Some(e) => unicode_lowercase(e),
        None => unicode_lowercase("png"@),
    }
}

/// The `data:` URL of an image file's content; `None` when the file could
/// not be read (`bytes` is `None`) or is empty.
pub open spec fn data_url_spec(path: Seq<char>, bytes: Option<Seq<u8>>) -> Option<Seq<char>> {
    match bytes {
        None => None,
        Some(b) => if b.len() == 0 {
            None
        } else {
            Some(
                "data:"@ + mime_for_ext_spec(image_ext(path)) + ";base64,"@
                    + base64_standard_encode(b),
            )
        },
    }
}

/// The bytes of an optional byte buffer.
pub open spec fn opt_bytes(b: Option<Vec<u8>>) -> Option<Seq<u8>> {
    match b {
        Some(v) => Some(v@),
        None => None,
    }
}

/// The `data:` URL for base64 content `encoded` of an image whose
/// lower-cased extension is `ext`.
pub fn data_url_text(ext: &str, encoded: &str) -> (r: String)
    ensures
        r@ == "data:"@ + mime_for_ext_spec(ext@) + ";base64,"@ + encoded@,
{
    let mut url = String::from_str("data:");
    url.append(mime_for_ext(ext));
    url.append(";base64,");
    url.append(encoded);
    url
}

/// Builds the `data:` URL of an image file from what reading it gave.
pub fn data_url_from_file(path: &str, bytes: Option<Vec<u8>>) -> (r: Option<String>)
    ensures
        opt_view(r) == data_url_spec(path@, opt_bytes(bytes)),
{
    let b = match bytes {
        None => return None,
        Some(b) => b,
    };
    if b.len() == 0 {
        return None;
    }
    let ext = match path_extension(path) {
        Some(e) => to_lowercase(e.as_str()),
        None => to_lowercase("png"),
    };
    let enc = encode_base64(b.as_slice());
    Some(data_url_text(ext.as_str(), enc.as_str()))
}

/// Pairs each QR entry with the `data:` URL of its image (empty when the
/// image could not be read), beside the logo's URL.
pub fn asset_data_urls(
    logo_data_url: Option<String>,
    qrs: &Vec<Qr>,
    qr_data_urls: Vec<Option<String>>,
) -> (r: ProfileAssetDataUrls)
    requires
        qr_data_urls@.len() == qrs@.len(),
    ensures
        r.logo_data_url == logo_data_url,
        r.qrs@.len() == qrs@.len(),
        forall|i: int|
            0 <= i < qrs@.len() ==> {
                &&& (#[trigger] r.qrs@[i]).id@ == qrs@[i].id@
                &&& r.qrs@[i].kind == qrs@[i].kind
                &&& r.qrs@[i].label@ == qrs@[i].label@
                &&& r.qrs@[i].data_url@ == match qr_data_urls@[i] {
                    Some(u) => u@,
                    None => Seq::<char>::empty(),
                }
            },
{
    let mut out: Vec<QrDataUrl> = Vec::new();
    let n = qrs.len();
    for i in 0..n
        invariant
            n == qrs@.len(),
            qr_data_urls@.len() == n,
            out@.len() == i,
            forall|j: int|
                0 <= j < i ==> {
                    &&& (#[trigger] out@[j]).id@ == qrs@[j].id@
                    &&& out@[j].kind == qrs@[j].kind
                    &&& out@[j].label@ == qrs@[j].label@
                    &&& out@[j].data_url@ == match qr_data_urls@[j] {
                        Some(u) => u@,
                        None => Seq::<char>::empty(),
                    }
                },
    {
        let q = &qrs[i];
        let url = match &qr_data_urls[i] {
            Some(u) => copy_string(u),
            None => String::new(),
        };
        out.push(
            QrDataUrl {
                id: copy_string(&q.id),
                kind: q.kind,
                label: copy_string(&q.label),
                data_url: url,
            },
        );
    }
    ProfileAssetDataUrls { logo_data_url, qrs: out }
}

} // verus!

verus! {

proof fn lemma_uuid_not_blank(s: Seq<char>)
    requires
        is_uuid_v4_text(s),
    ensures
        !is_blank_seq(s),
{
    assert(crate::ids::is_lower_hex(s[0]));
    assert(crate::ids::is_lower_hex(s[35]));
    assert(crate::text::trim_start_seq(s) == s);
    assert(s.last() == s[35]);
    assert(crate::text::trim_end_seq(s) == s);
}

/// After a save every bank account has an id: a blank one is replaced by a
/// fresh UUID.
pub proof fn saved_bank_accounts_have_ids(out: Seq<BankAccount>, inp: Seq<BankAccount>)
    requires
        bank_accounts_filled(out, inp),
    ensures
        forall|i: int| 0 <= i < out.len() ==> !is_blank_seq((#[trigger] out[i]).id@),
{
    assert forall|i: int| 0 <= i < out.len() implies !is_blank_seq((#[trigger] out[i]).id@) by {
        if is_blank_seq(inp[i].id@) {
            lemma_uuid_not_blank(out[i].id@);
        }
    }
}

/// Bank account ids are stable: saving accounts that already have ids
/// keeps every id as it was.
pub proof fn bank_account_ids_are_stable(
    out: Seq<BankAccount>,
    mid: Seq<BankAccount>,
    inp: Seq<BankAccount>,
)
    requires
        bank_accounts_filled(mid, inp),
        bank_accounts_filled(out, mid),
    ensures
        forall|i: int| 0 <= i < out.len() ==> (#[trigger] out[i]).id@ == mid[i].id@,
{
    saved_bank_accounts_have_ids(mid, inp);
    assert forall|i: int| 0 <= i < out.len() implies (#[trigger] out[i]).id@ == mid[i].id@ by {
        assert(!is_blank_seq(mid[i].id@));
    }
}

/// Removing a QR entry leaves none with that id, and keeps every other
/// entry.
pub proof fn removed_qr_is_gone(s: Seq<QrView>, id: Seq<char>)
    ensures
        forall|j: int| 0 <= j < qrs_without(s, id).len() ==> (#[trigger] qrs_without(s, id)[j]).id != id,
        forall|j: int| 0 <= j < s.len() && s[j].id != id ==> qrs_without(s, id).contains(#[trigger] s[j]),
    decreases s.len(),
{
    if s.len() > 0 {
        removed_qr_is_gone(s.drop_last(), id);
        let rest = qrs_without(s.drop_last(), id);
        assert forall|j: int| 0 <= j < s.len() && s[j].id != id implies qrs_without(s, id).contains(
            #[trigger] s[j],
        ) by {
            if j < s.len() - 1 {
                assert(s.drop_last()[j] == s[j]);
                let k = choose|k: int| 0 <= k < rest.len() && rest[k] == s[j];
                if s.last().id != id {
                    assert(qrs_without(s, id)[k] == s[j]);
                }
            } else {
                assert(qrs_without(s, id)[rest.len() as int] == s[j]);
            }
        }
    }
}

/// An individual's profile never keeps a logo after an edit.
pub proof fn individuals_have_no_logo(
    p: BusinessProfile,
    existing: BusinessProfile,
    input: UpdateBusinessProfileInput,
    now: Seq<char>,
)
    requires
        profile_updated_from(p, existing, input, now),
        input.entity_type == EntityType::Individual,
    ensures
        p.logo_path is None,
{
}

/// Editing a profile keeps its QR payment entries and its legacy QR image:
/// those change only through the QR operations.
pub proof fn edit_keeps_qr_entries(
    p: BusinessProfile,
    existing: BusinessProfile,
    input: UpdateBusinessProfileInput,
    now: Seq<char>,
)
    requires
        profile_updated_from(p, existing, input, now),
    ensures
        p.qrs@ == existing.qrs@,
        qr_views(p.qrs@) == qr_views(existing.qrs@),
        p.qr_path == existing.qr_path,
        p.id == existing.id,
{
}

/// A QR entry added to a profile is still its last entry after a later
/// edit of the profile.
pub proof fn added_qr_survives_an_edit(
    before: BusinessProfile,
    added: BusinessProfile,
    edited: BusinessProfile,
    qr: Qr,
    input: UpdateBusinessProfileInput,
    now: Seq<char>,
)
    requires
        added.qrs@ == before.qrs@.push(qr),
        profile_updated_from(edited, added, input, now),
    ensures
        edited.qrs@.len() == before.qrs@.len() + 1,
        edited.qrs@.last() == qr,
{
}

} // verus!
