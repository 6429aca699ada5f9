use vstd::prelude::*;
use crate::text::{is_blank, str_eq, int_text, push_int, push_str, uuid_text, uuid_string, concat};
use crate::public_api::uuid_of;

verus! {

/// A request to create an app.
pub struct CreateAppRequest {
    pub app_name: String,
    pub description: Option<String>,
}

/// The page of apps asked for.
pub struct AppQuery {
    pub page: Option<i64>,
    pub page_size: Option<i64>,
}

/// A request to set the status of several apps at once.
pub struct BatchStatusRequest {
    pub ids: Vec<u128>,
    pub status: String,
}

/// A character of bcrypt's base-64 alphabet (`./A-Za-z0-9`).
pub open spec fn bcrypt_char(c: char) -> bool {
    c == '.' || c == '/' || ('A' <= c <= 'Z') || ('a' <= c <= 'z') || ('0' <= c <= '9')
}

/// A bcrypt hash as `bcrypt::hash` writes it at cost 12: `$2b$12$`, then 22
/// characters of salt and 31 of digest, all of bcrypt's base-64 alphabet.
pub open spec fn bcrypt_text(s: Seq<char>) -> bool {
    &&& s.len() == 60
    &&& s.take(7) == "$2b$12$"@
    &&& forall|i: int| 7 <= i < 60 ==> bcrypt_char(#[trigger] s[i])
}

/// Whether `bcrypt::verify(password, hash)` answers `Ok(true)`: the password, hashed
/// again with the cost and salt that `hash` carries, gives the digest that `hash`
/// carries.
pub uninterp spec fn bcrypt_matches(password: Seq<char>, hash: Seq<char>) -> bool;

/// `bcrypt::hash` at the default cost (12), its error as the text it displays. A hash
/// it gives has the shape of `bcrypt_text` and is one that `bcrypt::verify` accepts
/// for `password` (verify reads the cost and salt back out of the hash and hashes
/// the password again). Its salt is drawn at random, so which hash it is, and
/// whether the system's randomness fails, is not stated.
#[verifier::external_body]
pub(crate) fn bcrypt_hash(password: &str) -> (r: Result<String, String>)
    ensures
        r matches Ok(h) ==> bcrypt_text(h@) && bcrypt_matches(password@, h@),
{
    bcrypt::hash(password, bcrypt::DEFAULT_COST).map_err(|e| e.to_string())
}

/// The password that an administrator with no stored password signs in with.
pub open spec fn default_admin_password() -> Seq<char> {
    "AdminAuto@123"@
}

/// The password hash of an administrator's merchant record when the administrator
/// has no stored password: a hash of the built-in password, or empty when hashing
/// fails.
pub fn default_password_hash() -> (r: String)
    ensures
        r@.len() == 0 || (bcrypt_text(r@) && bcrypt_matches(default_admin_password(), r@)),
{
    match bcrypt_hash("AdminAuto@123") {
        Ok(h) => h,
        Err(_) => String::new(),
    }
}

/// The statuses an app can be set to.
#[derive(Clone, Copy, Debug, PartialEq, Eq, Structural)]
pub enum AppStatus {
    Active,
    Disabled,
}

/// The status named by `s`, if it names one.
pub open spec fn status_of(s: Seq<char>) -> Option<AppStatus> {
    if s == "active"@ { Some(AppStatus::Active) } else if s == "disabled"@ { Some(AppStatus::Disabled) } else { None }
}

/// The status named by `s` (see `status_of`).
pub fn parse_status(s: &str) -> (r: Option<AppStatus>)
    ensures
        r == status_of(s@),
{
    if str_eq(s, "active") { Some(AppStatus::Active) } else if str_eq(s, "disabled") { Some(AppStatus::Disabled) } else { None }
}

/// The text of a status.
pub open spec fn status_text(s: AppStatus) -> Seq<char> {
    match s { AppStatus::Active => "active"@, AppStatus::Disabled => "disabled"@ }
}

/// The text of a status (see `status_text`).
pub fn status_name(s: AppStatus) -> (r: &'static str)
    ensures
        r@ == status_text(s),
{
    match s { AppStatus::Active => "active", AppStatus::Disabled => "disabled" }
}

/// The messages of the app pages.
pub enum AppMsg {
    InvalidUserId,
    ApiKeyEncryptFailed,
    EmailEncryptFailed,
    AdminMerchantFailed(String),
    NameEmpty,
    PlanLimit { label: String, max_apps: i32 },
    CreateFailed(String),
    NotFound,
    Deleted,
    NotFoundOrForbidden,
    DeleteFailed(String),
    InvalidStatus,
    StatusUpdated,
    UpdateFailed(String),
    AdminDisabled,
    IdsEmpty,
    TooMany,
    BatchUpdated(u64),
    BatchFailed(String),
}

/// The text of a message.
pub open spec fn app_msg_text(m: AppMsg) -> Seq<char> {
    match m {
        AppMsg::InvalidUserId => "无效用户ID"@,
        AppMsg::ApiKeyEncryptFailed => "API Key加密失败"@,
        AppMsg::EmailEncryptFailed => "邮箱加密失败"@,
        AppMsg::AdminMerchantFailed(e) => "创建管理员商户记录失败: "@ + e@,
        AppMsg::NameEmpty => "应用名称不能为空"@,
        AppMsg::PlanLimit { label, max_apps } => label@ + "最多创建 "@ + int_text(max_apps as int) + " 个应用，请升级套餐"@,
        AppMsg::CreateFailed(e) => "创建失败: "@ + e@,
        AppMsg::NotFound => "应用不存在"@,
        AppMsg::Deleted => "删除成功"@,
        AppMsg::NotFoundOrForbidden => "应用不存在或无权限"@,
        AppMsg::DeleteFailed(e) => "删除失败: "@ + e@,
        AppMsg::InvalidStatus => "无效状态"@,
        AppMsg::StatusUpdated => "状态已更新"@,
        AppMsg::UpdateFailed(e) => "更新失败: "@ + e@,
        AppMsg::AdminDisabled => "该应用已被管理员禁用，无法自行启用"@,
        AppMsg::IdsEmpty => "ids 不能为空"@,
        AppMsg::TooMany => "单次批量操作最多 200 条"@,
        AppMsg::BatchUpdated(n) => "已更新 "@ + int_text(n as int) + " 个应用"@,
        AppMsg::BatchFailed(e) => "批量更新失败: "@ + e@,
    }
}

fn prefixed(p: &str, e: &String) -> (r: String)
    ensures
        r@ == p@ + e@,
{
    concat(p, e.as_str())
}

/// The text of a message (see `app_msg_text`).
pub fn app_message(m: &AppMsg) -> (r: String)
    ensures
        r@ == app_msg_text(*m),
{
    match m {
        AppMsg::InvalidUserId => "无效用户ID".to_owned(),
        AppMsg::ApiKeyEncryptFailed => "API Key加密失败".to_owned(),
        AppMsg::EmailEncryptFailed => "邮箱加密失败".to_owned(),
        AppMsg::AdminMerchantFailed(e) => prefixed("创建管理员商户记录失败: ", e),
        AppMsg::NameEmpty => "应用名称不能为空".to_owned(),
        AppMsg::PlanLimit { label, max_apps } => {
            let mut t = label.clone();
            push_str(&mut t, "最多创建 ");
            push_int(&mut t, *max_apps as i128);
            push_str(&mut t, " 个应用，请升级套餐");
            t
        },
        AppMsg::CreateFailed(e) => prefixed("创建失败: ", e),
        AppMsg::NotFound => "应用不存在".to_owned(),
        AppMsg::Deleted => "删除成功".to_owned(),
        AppMsg::NotFoundOrForbidden => "应用不存在或无权限".to_owned(),
        AppMsg::DeleteFailed(e) => prefixed("删除失败: ", e),
        AppMsg::InvalidStatus => "无效状态".to_owned(),
        AppMsg::StatusUpdated => "状态已更新".to_owned(),
        AppMsg::UpdateFailed(e) => prefixed("更新失败: ", e),
        AppMsg::AdminDisabled => "该应用已被管理员禁用，无法自行启用".to_owned(),
        AppMsg::IdsEmpty => "ids 不能为空".to_owned(),
        AppMsg::TooMany => "单次批量操作最多 200 条".to_owned(),
        AppMsg::BatchUpdated(n) => {
            let mut t = "已更新 ".to_owned();
            push_int(&mut t, *n as i128);
            push_str(&mut t, " 个应用");
            t
        },
        AppMsg::BatchFailed(e) => prefixed("批量更新失败: ", e),
    }
}

/// A page window: the page (at least 1), the page size (the default when absent, at
/// most `max`), and the offset of the page's first row.
pub open spec fn window(page: Option<i64>, size: Option<i64>, default_size: i64, max: i64) -> (i64, i64, int) {
    let p = match page { Some(x) => if x < 1 { 1 } else { x }, None => 1 };
    let s0 = match size { Some(x) => x, None => default_size };
    let s = if s0 > max { max } else { s0 };
    (p, s, (p - 1) * s)
}

/// The offset of the window fits in an `i64`, where the page's rows are counted.
pub open spec fn window_fits(page: Option<i64>, size: Option<i64>, default_size: i64, max: i64) -> bool {
    i64::MIN <= window(page, size, default_size, max).2 <= i64::MAX
}

proof fn lemma_offset_bound(a: int, b: int)
    by (nonlinear_arith)
    requires
        0 <= a < 0x8000_0000_0000_0000,
        -0x8000_0000_0000_0000 <= b < 0x8000_0000_0000_0000,
    ensures
        -0x4000_0000_0000_0000_0000_0000_0000_0000 <= a * b <= 0x4000_0000_0000_0000_0000_0000_0000_0000,
{
}

/// Whether the offset of a window fits (see `window_fits`).
pub fn page_window_fits(page: Option<i64>, size: Option<i64>, default_size: i64, max: i64) -> (b: bool)
    ensures
        b == window_fits(page, size, default_size, max),
{
    let p: i64 = match page { Some(x) => if x < 1 { 1 } else { x }, None => 1 };
    let s0: i64 = match size { Some(x) => x, None => default_size };
    let s: i64 = if s0 > max { max } else { s0 };
    proof {
        lemma_offset_bound(p - 1, s as int);
    }
    let o: i128 = ((p as i128) - 1) * (s as i128);
    (i64::MIN as i128) <= o && o <= (i64::MAX as i128)
}

/// A page window (see `window`).
pub fn page_window(page: Option<i64>, size: Option<i64>, default_size: i64, max: i64) -> (r: (i64, i64, i64))
    requires
        window_fits(page, size, default_size, max),
    ensures
        r.0 == window(page, size, default_size, max).0,
        r.1 == window(page, size, default_size, max).1,
        r.2 == window(page, size, default_size, max).2,
{
    let p: i64 = match page { Some(x) => if x < 1 { 1 } else { x }, None => 1 };
    let s0: i64 = match size { Some(x) => x, None => default_size };
    let s: i64 = if s0 > max { max } else { s0 };
    proof {
        lemma_offset_bound(p - 1, s as int);
    }
    let o: i128 = ((p as i128) - 1) * (s as i128);
    (p, s, o as i64)
}

// ---------------------------------------------------------------------------
// Whose apps a request works on.

/// What is known of the merchant record that backs an administrator's apps.
pub struct OwnerFacts {
    /// Whether a merchant record with the administrator's id exists.
    pub exists: Option<bool>,
    /// The administrator's user name, e-mail and password hash, when recorded.
    pub admin_row: Option<Option<(String, String, String)>>,
    /// The hash of the built-in password (see `default_password_hash`).
    pub default_hash: Option<String>,
    /// A fresh API key for the record.
    pub api_key: Option<String>,
    pub encrypted_key: Option<Option<String>>,
    pub encrypted_email: Option<Option<String>>,
    /// The insertion's outcome: the database's error when it failed.
    pub inserted: Option<Option<String>>,
    pub admin_updated: bool,
    /// The user name used when the administrator has none recorded.
    pub default_username: String,
    /// The e-mail used when the administrator has none recorded.
    pub default_email: String,
}

/// The e-mail of an administrator without a record: its id at `admin.local`.
pub open spec fn admin_email(id: u128) -> Seq<char> {
    uuid_text(id) + "@admin.local"@
}

impl OwnerFacts {
    /// Nothing known yet of the record behind administrator `id`.
    pub fn new(id: u128) -> (r: OwnerFacts)
        ensures
            r.exists is None && r.admin_row is None && r.default_hash is None && r.api_key is None,
            r.encrypted_key is None && r.encrypted_email is None && r.inserted is None && !r.admin_updated,
            r.default_username@ == "admin"@,
            r.default_email@ == admin_email(id),
    {
        let e = uuid_string(id);
        OwnerFacts {
            exists: None,
            admin_row: None,
            default_hash: None,
            api_key: None,
            encrypted_key: None,
            encrypted_email: None,
            inserted: None,
            admin_updated: false,
            default_username: "admin".to_owned(),
            default_email: concat(e.as_str(), "@admin.local"),
        }
    }
}

/// The work of an app request.
pub enum AppAct {
    /// Tell whether a merchant record with this id exists.
    FindMerchant { id: u128 },
    /// Read the administrator's user name, e-mail and password hash.
    FindAdmin { id: u128 },
    /// Hash the built-in password (see `default_password_hash`).
    HashDefaultPassword,
    /// Draw a fresh API key.
    NewApiKey,
    /// Encrypt the API key for merchant `id`.
    EncryptApiKey { id: u128 },
    /// Encrypt the e-mail `email` for merchant `id`.
    EncryptEmail { id: u128, email: String },
    /// Insert the merchant record unless one with the id exists.
    InsertMerchant {
        id: u128,
        username: String,
        email: String,
        password_hash: String,
        api_key: String,
        encrypted_key: String,
        encrypted_email: String,
    },
    /// Keep the API key in the administrator's row.
    SaveAdminApiKey { id: u128, api_key: String },
    /// Read the merchant's plan.
    FindPlan { merchant_id: u128 },
    /// Read the limits of a plan.
    LoadPlanConfig { plan: String },
    CountApps { merchant_id: u128 },
    InsertApp { merchant_id: u128 },
    /// Read whether an administrator disabled the merchant's app.
    FindAdminDisabled { app_id: u128, merchant_id: u128 },
    /// Set an app's status as an administrator, marking it disabled by one or not.
    SetStatusAsAdmin { app_id: u128, status: AppStatus, admin_disabled: bool },
    /// Set the status of the merchant's app.
    SetStatus { app_id: u128, merchant_id: u128, status: AppStatus },
    /// Set the status of the listed apps as an administrator.
    BatchAsAdmin { status: AppStatus, admin_disabled: bool },
    /// Set the status of the merchant's listed apps that no administrator disabled.
    BatchEnable { merchant_id: u128 },
    /// Set the status of the merchant's listed apps.
    BatchSet { merchant_id: u128, status: AppStatus },
    /// Read the app, the merchant's own or any for an administrator.
    FindApp { app_id: u128, merchant_id: u128 },
    /// Delete the app, the merchant's own or any for an administrator.
    DeleteApp { app_id: u128, merchant_id: u128 },
    /// Answer with a page of the merchant's apps.
    ReplyList { merchant_id: u128 },
    /// Answer with success and the app read or created.
    ReplyApp,
    Reply(bool, AppMsg),
}

/// Whose apps: a request works on its user's own apps; an administrator's apps hang
/// on a merchant record with the administrator's id, created on first use (from the
/// administrator's row, or from defaults) with a fresh API key.
pub enum Owner {
    Ask(AppAct),
    Fail(AppMsg),
    Is(u128),
}

/// Whose apps a request works on. With `strict`, a user id that is not a uuid is
/// refused; otherwise it stands for the nil uuid (an administrator's always must be
/// a uuid).
pub open spec fn owner_next(role: Seq<char>, sub: Seq<char>, strict: bool, f: OwnerFacts) -> Owner {
    match uuid_of(sub) {
        None => if role == "admin"@ || strict { Owner::Fail(AppMsg::InvalidUserId) } else { Owner::Is(0) },
        Some(id) => if role != "admin"@ {
            Owner::Is(id)
        } else {
            match f.exists {
                None => Owner::Ask(AppAct::FindMerchant { id }),
                Some(true) => Owner::Is(id),
                Some(false) => match f.admin_row {
                    None => Owner::Ask(AppAct::FindAdmin { id }),
                    Some(row) => if row is None && f.default_hash is None {
                        Owner::Ask(AppAct::HashDefaultPassword)
                    } else {
                        owner_create(id, row, f)
                    },
                },
            }
        },
    }
}

/// Creating an administrator's merchant record once its identity is known.
pub open spec fn owner_create(id: u128, row: Option<(String, String, String)>, f: OwnerFacts) -> Owner {
    let username = match row { Some((u, _, _)) => u, None => f.default_username };
    let email = match row { Some((_, e, _)) => e, None => f.default_email };
    let hash = match row { Some((_, _, h)) => h, None => f.default_hash->0 };
    match f.api_key {
        None => Owner::Ask(AppAct::NewApiKey),
        Some(key) => match f.encrypted_key {
            None => Owner::Ask(AppAct::EncryptApiKey { id }),
            Some(None) => Owner::Fail(AppMsg::ApiKeyEncryptFailed),
            Some(Some(ek)) => match f.encrypted_email {
                None => Owner::Ask(AppAct::EncryptEmail { id, email }),
                Some(None) => Owner::Fail(AppMsg::EmailEncryptFailed),
                Some(Some(ee)) => match f.inserted {
                    None => Owner::Ask(AppAct::InsertMerchant {
                        id,
                        username,
                        email,
                        password_hash: hash,
                        api_key: key,
                        encrypted_key: ek,
                        encrypted_email: ee,
                    }),
                    Some(Some(e)) => Owner::Fail(AppMsg::AdminMerchantFailed(e)),
                    Some(None) => if !f.admin_updated {
                        Owner::Ask(AppAct::SaveAdminApiKey { id, api_key: key })
                    } else {
                        Owner::Is(id)
                    },
                },
            },
        },
    }
}


fn owner_create_exec(id: u128, row: &Option<(String, String, String)>, f: &OwnerFacts) -> (o: Owner)
    requires
        row is None ==> f.default_hash is Some,
    ensures
        o == owner_create(id, *row, *f),
{
    let (username, email, hash) = match row {
        Some((u, e, h)) => (u.clone(), e.clone(), h.clone()),
        None => (f.default_username.clone(), f.default_email.clone(), f.default_hash.as_ref().unwrap().clone()),
    };
    match &f.api_key {
        None => Owner::Ask(AppAct::NewApiKey),
        Some(key) => match &f.encrypted_key {
            None => Owner::Ask(AppAct::EncryptApiKey { id }),
            Some(None) => Owner::Fail(AppMsg::ApiKeyEncryptFailed),
            Some(Some(ek)) => match &f.encrypted_email {
                None => Owner::Ask(AppAct::EncryptEmail { id, email }),
                Some(None) => Owner::Fail(AppMsg::EmailEncryptFailed),
                Some(Some(ee)) => match &f.inserted {
                    None => Owner::Ask(AppAct::InsertMerchant {
                        id,
                        username,
                        email,
                        password_hash: hash,
                        api_key: key.clone(),
                        encrypted_key: ek.clone(),
                        encrypted_email: ee.clone(),
                    }),
                    Some(Some(e)) => Owner::Fail(AppMsg::AdminMerchantFailed(e.clone())),
                    Some(None) => if !f.admin_updated {
                        Owner::Ask(AppAct::SaveAdminApiKey { id, api_key: key.clone() })
                    } else {
                        Owner::Is(id)
                    },
                },
            },
        },
    }
}

/// Whose apps a request works on (see `owner_next`).
pub fn owner(role: &str, sub: &str, strict: bool, f: &OwnerFacts) -> (o: Owner)
    ensures
        o == owner_next(role@, sub@, strict, *f),
{
    let admin = str_eq(role, "admin");
    match crate::public_api::parse_uuid(sub) {
        None => if admin || strict { Owner::Fail(AppMsg::InvalidUserId) } else { Owner::Is(0) },
        Some(id) => if !admin {
            Owner::Is(id)
        } else {
            match f.exists {
                None => Owner::Ask(AppAct::FindMerchant { id }),
                Some(true) => Owner::Is(id),
                Some(false) => match &f.admin_row {
                    None => Owner::Ask(AppAct::FindAdmin { id }),
                    Some(row) => if row.is_none() && f.default_hash.is_none() {
                        Owner::Ask(AppAct::HashDefaultPassword)
                    } else {
                        owner_create_exec(id, row, f)
                    },
                },
            }
        },
    }
}

/// What a step of an app request comes to, as an action.
pub open spec fn owner_act(o: Owner) -> Option<AppAct> {
    match o {
        Owner::Ask(a) => Some(a),
        Owner::Fail(m) => Some(AppAct::Reply(false, m)),
        Owner::Is(_) => None,
    }
}

// ---------------------------------------------------------------------------
// Listing, reading and deleting apps.

/// The next step of listing apps: the user's own apps (an administrator's through
/// its merchant record); a user id that is not a uuid is refused.
pub open spec fn list_next(role: Seq<char>, sub: Seq<char>, f: OwnerFacts) -> AppAct {
    match owner_next(role, sub, true, f) {
        Owner::Is(mid) => AppAct::ReplyList { merchant_id: mid },
        o => owner_act(o)->0,
    }
}

/// The next step of listing apps (see `list_next`).
pub fn decide_list(role: &str, sub: &str, f: &OwnerFacts) -> (a: AppAct)
    ensures
        a == list_next(role@, sub@, *f),
{
    match owner(role, sub, true, f) {
        Owner::Is(mid) => AppAct::ReplyList { merchant_id: mid },
        Owner::Ask(a) => a,
        Owner::Fail(m) => AppAct::Reply(false, m),
    }
}

/// What is known of reading or deleting an app.
pub struct AppFacts {
    pub owner: OwnerFacts,
    /// Whether the app was found.
    pub found: Option<bool>,
    /// The rows the deletion removed, or the database's error.
    pub deleted: Option<Result<u64, String>>,
}

/// The next step of reading an app: found among the user's apps (any app for an
/// administrator) or not.
pub open spec fn get_next(role: Seq<char>, sub: Seq<char>, app_id: u128, f: AppFacts) -> AppAct {
    match owner_next(role, sub, false, f.owner) {
        Owner::Is(mid) => match f.found {
            None => AppAct::FindApp { app_id, merchant_id: mid },
            Some(true) => AppAct::ReplyApp,
            Some(false) => AppAct::Reply(false, AppMsg::NotFound),
        },
        o => owner_act(o)->0,
    }
}

/// The next step of reading an app (see `get_next`).
pub fn decide_get(role: &str, sub: &str, app_id: u128, f: &AppFacts) -> (a: AppAct)
    ensures
        a == get_next(role@, sub@, app_id, *f),
{
    match owner(role, sub, false, &f.owner) {
        Owner::Is(mid) => match f.found {
            None => AppAct::FindApp { app_id, merchant_id: mid },
            Some(true) => AppAct::ReplyApp,
            Some(false) => AppAct::Reply(false, AppMsg::NotFound),
        },
        Owner::Ask(a) => a,
        Owner::Fail(m) => AppAct::Reply(false, m),
    }
}

/// The next step of deleting an app: deleted when a row went, else not found or not
/// the user's.
pub open spec fn delete_next(role: Seq<char>, sub: Seq<char>, app_id: u128, f: AppFacts) -> AppAct {
    match owner_next(role, sub, false, f.owner) {
        Owner::Is(mid) => match f.deleted {
            None => AppAct::DeleteApp { app_id, merchant_id: mid },
            Some(Ok(n)) => if n > 0 { AppAct::Reply(true, AppMsg::Deleted) } else { AppAct::Reply(false, AppMsg::NotFoundOrForbidden) },
            Some(Err(e)) => AppAct::Reply(false, AppMsg::DeleteFailed(e)),
        },
        o => owner_act(o)->0,
    }
}

/// The next step of deleting an app (see `delete_next`).
pub fn decide_delete(role: &str, sub: &str, app_id: u128, f: &AppFacts) -> (a: AppAct)
    ensures
        a == delete_next(role@, sub@, app_id, *f),
{
    match owner(role, sub, false, &f.owner) {
        Owner::Is(mid) => match &f.deleted {
            None => AppAct::DeleteApp { app_id, merchant_id: mid },
            Some(Ok(n)) => if *n > 0 { AppAct::Reply(true, AppMsg::Deleted) } else { AppAct::Reply(false, AppMsg::NotFoundOrForbidden) },
            Some(Err(e)) => AppAct::Reply(false, AppMsg::DeleteFailed(e.clone())),
        },
        Owner::Ask(a) => a,
        Owner::Fail(m) => AppAct::Reply(false, m),
    }
}

// ---------------------------------------------------------------------------
// Creating an app.

/// What is known, so far, of creating an app.
pub struct CreateFacts {
    pub owner: OwnerFacts,
    /// The merchant's plan; none when it cannot be read.
    pub plan: Option<Option<String>>,
    /// The plan's label and its limit of apps (-1 for none).
    pub config: Option<(String, i32)>,
    pub count: Option<i64>,
    /// The insertion's outcome: the database's error when it failed.
    pub created: Option<Option<String>>,
    /// The plan assumed when the merchant's cannot be read.
    pub fallback_plan: String,
}

impl CreateFacts {
    /// Nothing known yet.
    pub fn new(owner: OwnerFacts) -> (r: CreateFacts)
        ensures
            r.owner == owner,
            r.plan is None && r.config is None && r.count is None && r.created is None,
            r.fallback_plan@ == "free"@,
    {
        CreateFacts { owner, plan: None, config: None, count: None, created: None, fallback_plan: "free".to_owned() }
    }
}

/// The step of creating an app once the owner is known and the name is not blank.
pub open spec fn create_insert(mid: u128, f: CreateFacts) -> AppAct {
    match f.created {
        None => AppAct::InsertApp { merchant_id: mid },
        Some(None) => AppAct::ReplyApp,
        Some(Some(e)) => AppAct::Reply(false, AppMsg::CreateFailed(e)),
    }
}

/// The next step of creating an app: the owner as for listing; a blank name is
/// refused; a merchant (not an administrator) whose plan limits apps and who has that
/// many already is refused; otherwise the app is inserted.
pub open spec fn create_next(role: Seq<char>, sub: Seq<char>, name: Seq<char>, f: CreateFacts) -> AppAct {
    match owner_next(role, sub, true, f.owner) {
        Owner::Is(mid) => if crate::text::trim(name).len() == 0 {
            AppAct::Reply(false, AppMsg::NameEmpty)
        } else if role == "admin"@ {
            create_insert(mid, f)
        } else {
            match f.plan {
                None => AppAct::FindPlan { merchant_id: mid },
                Some(p) => match f.config {
                    None => AppAct::LoadPlanConfig { plan: match p { Some(x) => x, None => f.fallback_plan } },
                    Some((label, max_apps)) => match f.count {
                        None => AppAct::CountApps { merchant_id: mid },
                        Some(c) => if max_apps != -1 && c >= max_apps {
                            AppAct::Reply(false, AppMsg::PlanLimit { label, max_apps })
                        } else {
                            create_insert(mid, f)
                        },
                    },
                },
            }
        },
        o => owner_act(o)->0,
    }
}

fn create_insert_exec(mid: u128, f: &CreateFacts) -> (a: AppAct)
    ensures
        a == create_insert(mid, *f),
{
    match &f.created {
        None => AppAct::InsertApp { merchant_id: mid },
        Some(None) => AppAct::ReplyApp,
        Some(Some(e)) => AppAct::Reply(false, AppMsg::CreateFailed(e.clone())),
    }
}

/// The next step of creating an app (see `create_next`).
pub fn decide_create(role: &str, sub: &str, body: &CreateAppRequest, f: &CreateFacts) -> (a: AppAct)
    ensures
        a == create_next(role@, sub@, body.app_name@, *f),
{
    let mid = match owner(role, sub, true, &f.owner) {
        Owner::Is(mid) => mid,
        Owner::Ask(a) => { return a; },
        Owner::Fail(m) => { return AppAct::Reply(false, m); },
    };
    if is_blank(body.app_name.as_str()) {
        return AppAct::Reply(false, AppMsg::NameEmpty);
    }
    if str_eq(role, "admin") {
        return create_insert_exec(mid, f);
    }
    match &f.plan {
        None => AppAct::FindPlan { merchant_id: mid },
        Some(p) => match &f.config {
            None => AppAct::LoadPlanConfig { plan: match p { Some(x) => x.clone(), None => f.fallback_plan.clone() } },
            Some((label, max_apps)) => match f.count {
                None => AppAct::CountApps { merchant_id: mid },
                Some(c) => if *max_apps != -1 && c >= *max_apps as i64 {
                    AppAct::Reply(false, AppMsg::PlanLimit { label: label.clone(), max_apps: *max_apps })
                } else {
                    create_insert_exec(mid, f)
                },
            },
        },
    }
}

// ---------------------------------------------------------------------------
// Setting the status of apps.

/// The status asked for in a request body: its text member `status`, when that names
/// a status.
pub open spec fn body_status(body: crate::json::Json) -> Option<AppStatus> {
    match crate::json::member_str(body, "status"@) {
        Some(t) => status_of(t),
        None => None,
    }
}

/// What is known, so far, of setting an app's status.
pub struct StatusFacts {
    pub owner: OwnerFacts,
    /// Whether an administrator disabled the merchant's app; none when it is not
    /// the merchant's.
    pub admin_disabled: Option<Option<bool>>,
    /// The rows the update changed, or the database's error.
    pub updated: Option<Result<u64, String>>,
}

/// The answer to an update of one app's status.
pub open spec fn status_reply(r: Result<u64, String>, missing: AppMsg) -> AppAct {
    match r {
        Ok(n) => if n > 0 { AppAct::Reply(true, AppMsg::StatusUpdated) } else { AppAct::Reply(false, missing) },
        Err(e) => AppAct::Reply(false, AppMsg::UpdateFailed(e)),
    }
}

/// The next step of setting an app's status: the status must be `active` or
/// `disabled`; an administrator sets it on any app and marks the app disabled by an
/// administrator exactly when disabling it; a merchant cannot enable an app that an
/// administrator disabled, nor touch another merchant's app.
pub open spec fn status_next(role: Seq<char>, sub: Seq<char>, app_id: u128, body: crate::json::Json, f: StatusFacts) -> AppAct {
    match body_status(body) {
        None => AppAct::Reply(false, AppMsg::InvalidStatus),
        Some(st) => match owner_next(role, sub, false, f.owner) {
            Owner::Is(mid) => if role == "admin"@ {
                match f.updated {
                    None => AppAct::SetStatusAsAdmin { app_id, status: st, admin_disabled: st == AppStatus::Disabled },
                    Some(r) => status_reply(r, AppMsg::NotFound),
                }
            } else if st == AppStatus::Active && f.admin_disabled is None {
                AppAct::FindAdminDisabled { app_id, merchant_id: mid }
            } else if st == AppStatus::Active && f.admin_disabled == Some(Some(true)) {
                AppAct::Reply(false, AppMsg::AdminDisabled)
            } else if st == AppStatus::Active && f.admin_disabled == Some(None::<bool>) {
                AppAct::Reply(false, AppMsg::NotFoundOrForbidden)
            } else {
                match f.updated {
                    None => AppAct::SetStatus { app_id, merchant_id: mid, status: st },
                    Some(r) => status_reply(r, AppMsg::NotFoundOrForbidden),
                }
            },
            o => owner_act(o)->0,
        },
    }
}

fn status_reply_exec(r: &Result<u64, String>, missing: AppMsg) -> (a: AppAct)
    ensures
        a == status_reply(*r, missing),
{
    match r {
        Ok(n) => if *n > 0 { AppAct::Reply(true, AppMsg::StatusUpdated) } else { AppAct::Reply(false, missing) },
        Err(e) => AppAct::Reply(false, AppMsg::UpdateFailed(e.clone())),
    }
}

/// The status asked for in a request body (see `body_status`).
pub fn status_in_body(body: &crate::json::Json) -> (r: Option<AppStatus>)
    ensures
        r == body_status(*body),
{
    match crate::json::get_str(body, "status") {
        Some(t) => parse_status(t.as_str()),
        None => None,
    }
}

/// The next step of setting an app's status (see `status_next`).
pub fn decide_status(role: &str, sub: &str, app_id: u128, body: &crate::json::Json, f: &StatusFacts) -> (a: AppAct)
    ensures
        a == status_next(role@, sub@, app_id, *body, *f),
{
    let st = match status_in_body(body) {
        None => { return AppAct::Reply(false, AppMsg::InvalidStatus); },
        Some(st) => st,
    };
    let mid = match owner(role, sub, false, &f.owner) {
        Owner::Is(mid) => mid,
        Owner::Ask(a) => { return a; },
        Owner::Fail(m) => { return AppAct::Reply(false, m); },
    };
    if str_eq(role, "admin") {
        return match &f.updated {
            None => AppAct::SetStatusAsAdmin { app_id, status: st, admin_disabled: st == AppStatus::Disabled },
            Some(r) => status_reply_exec(r, AppMsg::NotFound),
        };
    }
    if st == AppStatus::Active {
        match f.admin_disabled {
            None => { return AppAct::FindAdminDisabled { app_id, merchant_id: mid }; },
            Some(Some(true)) => { return AppAct::Reply(false, AppMsg::AdminDisabled); },
            Some(None) => { return AppAct::Reply(false, AppMsg::NotFoundOrForbidden); },
            Some(Some(false)) => {},
        }
    }
    match &f.updated {
        None => AppAct::SetStatus { app_id, merchant_id: mid, status: st },
        Some(r) => status_reply_exec(r, AppMsg::NotFoundOrForbidden),
    }
}

/// What is known, so far, of setting the status of several apps.
pub struct BatchFacts {
    pub owner: OwnerFacts,
    /// The rows the update changed, or the database's error.
    pub updated: Option<Result<u64, String>>,
}

/// The next step of setting several apps' status: between 1 and 200 ids; the status
/// must be `active` or `disabled`; an administrator sets it on all listed apps and
/// marks them disabled by an administrator exactly when disabling; a merchant sets
/// it on its own listed apps, and enables none that an administrator disabled.
pub open spec fn batch_next(role: Seq<char>, sub: Seq<char>, body: BatchStatusRequest, f: BatchFacts) -> AppAct {
    if body.ids@.len() == 0 {
        AppAct::Reply(false, AppMsg::IdsEmpty)
    } else if body.ids@.len() > 200 {
        AppAct::Reply(false, AppMsg::TooMany)
    } else {
        match status_of(body.status@) {
            None => AppAct::Reply(false, AppMsg::InvalidStatus),
            Some(st) => match owner_next(role, sub, false, f.owner) {
                Owner::Is(mid) => match f.updated {
                    None => if role == "admin"@ {
                        AppAct::BatchAsAdmin { status: st, admin_disabled: st == AppStatus::Disabled }
                    } else if st == AppStatus::Active {
                        AppAct::BatchEnable { merchant_id: mid }
                    } else {
                        AppAct::BatchSet { merchant_id: mid, status: st }
                    },
                    Some(Ok(n)) => AppAct::Reply(true, AppMsg::BatchUpdated(n)),
                    Some(Err(e)) => AppAct::Reply(false, AppMsg::BatchFailed(e)),
                },
                o => owner_act(o)->0,
            },
        }
    }
}

/// The next step of setting several apps' status (see `batch_next`).
pub fn decide_batch(role: &str, sub: &str, body: &BatchStatusRequest, f: &BatchFacts) -> (a: AppAct)
    ensures
        a == batch_next(role@, sub@, *body, *f),
{
    if body.ids.len() == 0 {
        return AppAct::Reply(false, AppMsg::IdsEmpty);
    }
    if body.ids.len() > 200 {
        return AppAct::Reply(false, AppMsg::TooMany);
    }
    let st = match parse_status(body.status.as_str()) {
        None => { return AppAct::Reply(false, AppMsg::InvalidStatus); },
        Some(st) => st,
    };
    let mid = match owner(role, sub, false, &f.owner) {
        Owner::Is(mid) => mid,
        Owner::Ask(a) => { return a; },
        Owner::Fail(m) => { return AppAct::Reply(false, m); },
    };
    match &f.updated {
        None => if str_eq(role, "admin") {
            AppAct::BatchAsAdmin { status: st, admin_disabled: st == AppStatus::Disabled }
        } else if st == AppStatus::Active {
            AppAct::BatchEnable { merchant_id: mid }
        } else {
            AppAct::BatchSet { merchant_id: mid, status: st }
        },
        Some(Ok(n)) => AppAct::Reply(true, AppMsg::BatchUpdated(*n)),
        Some(Err(e)) => AppAct::Reply(false, AppMsg::BatchFailed(e.clone())),
    }
}

// ---------------------------------------------------------------------------
// Laws of the app pages.

/// A merchant never enables an app that an administrator disabled: enabling one app
/// needs it read as the merchant's and not disabled by an administrator, and a batch
/// enabling by a merchant always leaves such apps out.
pub proof fn law_merchant_cannot_enable_admin_disabled(
    role: Seq<char>,
    sub: Seq<char>,
    app_id: u128,
    body: crate::json::Json,
    f: StatusFacts,
    batch: BatchStatusRequest,
    g: BatchFacts,
)
    ensures
        (status_next(role, sub, app_id, body, f) matches AppAct::SetStatus { status, .. } && status == AppStatus::Active) ==> f.admin_disabled == Some(Some(false)),
        !(batch_next(role, sub, batch, g) matches AppAct::BatchSet { status, .. } && status == AppStatus::Active),
{
}

/// An administrator's status change marks the apps disabled by an administrator
/// exactly when it disables them.
pub proof fn law_admin_mark_follows_status(role: Seq<char>, sub: Seq<char>, app_id: u128, body: crate::json::Json, f: StatusFacts, batch: BatchStatusRequest, g: BatchFacts)
    ensures
        status_next(role, sub, app_id, body, f) matches AppAct::SetStatusAsAdmin { status, admin_disabled, .. } ==> admin_disabled == (status == AppStatus::Disabled) && role == "admin"@,
        batch_next(role, sub, batch, g) matches AppAct::BatchAsAdmin { status, admin_disabled } ==> admin_disabled == (status == AppStatus::Disabled) && role == "admin"@,
{
}

/// A batch update names between 1 and 200 apps.
pub proof fn law_batch_size(role: Seq<char>, sub: Seq<char>, batch: BatchStatusRequest, g: BatchFacts)
    ensures
        (batch_next(role, sub, batch, g) is BatchAsAdmin || batch_next(role, sub, batch, g) is BatchEnable
            || batch_next(role, sub, batch, g) is BatchSet) ==> 1 <= batch.ids@.len() <= 200,
{
}

/// A merchant creates an app only within its plan's limit; an app always has a name.
pub proof fn law_create_within_plan(role: Seq<char>, sub: Seq<char>, name: Seq<char>, f: CreateFacts)
    requires
        create_next(role, sub, name, f) is InsertApp,
    ensures
        crate::text::trim(name).len() > 0,
        role != "admin"@ ==> (f.config matches Some((_, max_apps)) && f.count matches Some(c) && (max_apps == -1 || c < max_apps)),
{
}

/// A merchant's apps never outnumber its plan's limit. Take `n`, the count of the
/// merchant's apps that the step read, within a limit that is not -1: the step
/// inserts at most one app, and only while `n` is below the limit, so the count
/// after the step is still within it. A merchant already at the limit who asks for
/// an app with a name is refused with the plan's label and limit.
pub proof fn law_apps_within_plan(role: Seq<char>, sub: Seq<char>, name: Seq<char>, f: CreateFacts, label: String, max_apps: i32, n: i64)
    requires
        role != "admin"@,
        f.config == Some((label, max_apps)),
        max_apps != -1,
        f.count == Some(n),
        n <= max_apps,
    ensures
        n + (if create_next(role, sub, name, f) is InsertApp { 1int } else { 0int }) <= max_apps,
        (n == max_apps && owner_next(role, sub, true, f.owner) is Is && crate::text::trim(name).len() > 0 && f.plan is Some)
            ==> create_next(role, sub, name, f) == AppAct::Reply(false, AppMsg::PlanLimit { label, max_apps }),
{
}

/// An update of an app's status is reported done exactly when it changed a row: any
/// success answer is "状态已更新" and comes after an update that changed at least one
/// row; an update that changed no row, or failed, is never a success.
pub proof fn law_status_success_needs_changed_row(role: Seq<char>, sub: Seq<char>, app_id: u128, body: crate::json::Json, f: StatusFacts)
    ensures
        status_next(role, sub, app_id, body, f) matches AppAct::Reply(true, m) ==> (m == AppMsg::StatusUpdated
            && (f.updated matches Some(Ok(n)) && n > 0)),
        (f.updated == Some(Ok::<u64, String>(0)) || f.updated matches Some(Err(_))) ==> !(status_next(role, sub, app_id, body, f) matches AppAct::Reply(true, _)),
{
}

/// An update of an app's status that went through and changed a row is answered as
/// done: for a valid status, a known user, and (for a merchant turning an app on) an
/// app that is the merchant's and not disabled by an administrator, an update that
/// changed one or more rows gives "状态已更新", for an administrator and a merchant
/// alike.
pub proof fn law_changed_row_reported_done(role: Seq<char>, sub: Seq<char>, app_id: u128, body: crate::json::Json, f: StatusFacts, n: u64)
    requires
        body_status(body) is Some,
        owner_next(role, sub, false, f.owner) is Is,
        (role != "admin"@ && body_status(body) == Some(AppStatus::Active)) ==> f.admin_disabled == Some(Some(false)),
        f.updated == Some(Ok::<u64, String>(n)),
        n > 0,
    ensures
        status_next(role, sub, app_id, body, f) == AppAct::Reply(true, AppMsg::StatusUpdated),
{
}

/// A merchant's status change touches only its own app, with the status asked for;
/// an administrator's touches the app whatever its merchant and marks it disabled by
/// an administrator exactly when disabling it; an unknown status is refused first.
pub proof fn law_status_update_scoped(role: Seq<char>, sub: Seq<char>, app_id: u128, body: crate::json::Json, f: StatusFacts, mid: u128, st: AppStatus)
    ensures
        body_status(body) is None ==> status_next(role, sub, app_id, body, f) == AppAct::Reply(false, AppMsg::InvalidStatus),
        status_next(role, sub, app_id, body, f) matches AppAct::SetStatus { app_id: a, merchant_id, status } ==> (a == app_id && role != "admin"@
            && owner_next(role, sub, false, f.owner) == Owner::Is(merchant_id) && body_status(body) == Some(status)),
        status_next(role, sub, app_id, body, f) matches AppAct::SetStatusAsAdmin { app_id: a, status, admin_disabled } ==> (a == app_id
            && role == "admin"@ && body_status(body) == Some(status) && admin_disabled == (status == AppStatus::Disabled)),
        (body_status(body) == Some(st) && owner_next(role, sub, false, f.owner) == Owner::Is(mid) && role != "admin"@ && st == AppStatus::Disabled
            && f.updated is None) ==> status_next(role, sub, app_id, body, f) == (AppAct::SetStatus { app_id, merchant_id: mid, status: st }),
{
}

/// An app whose insertion succeeded is answered with the app: for a known user, a
/// name that is not blank, and (for a merchant) a plan read with room for one more
/// app, a successful insertion gives the app itself.
pub proof fn law_created_app_is_returned(role: Seq<char>, sub: Seq<char>, name: Seq<char>, f: CreateFacts)
    requires
        owner_next(role, sub, true, f.owner) is Is,
        crate::text::trim(name).len() > 0,
        role != "admin"@ ==> f.plan is Some,
        role != "admin"@ ==> (f.config matches Some((_, max_apps)) && f.count matches Some(c) && (max_apps == -1 || c < max_apps)),
        f.created == Some(None::<String>),
    ensures
        create_next(role, sub, name, f) == AppAct::ReplyApp,
{
}

/// Creating an app for a known user is refused only for a blank name, the plan's
/// limit, or a failed insertion; it answers with the app only after the insertion
/// succeeded.
pub proof fn law_create_refusals(role: Seq<char>, sub: Seq<char>, name: Seq<char>, f: CreateFacts)
    requires
        owner_next(role, sub, true, f.owner) is Is,
    ensures
        create_next(role, sub, name, f) matches AppAct::Reply(ok, m) ==> (!ok && (m is NameEmpty || m is PlanLimit || m is CreateFailed)),
        create_next(role, sub, name, f) is ReplyApp ==> f.created == Some(None::<String>),
        f.created matches Some(Some(e)) ==> (create_next(role, sub, name, f) is Reply ==> (create_next(role, sub, name, f) == AppAct::Reply(false, AppMsg::CreateFailed(e))
            || create_next(role, sub, name, f) == AppAct::Reply(false, AppMsg::NameEmpty) || create_next(role, sub, name, f) matches AppAct::Reply(false, AppMsg::PlanLimit { .. }))),
{
}

/// Requests work on the user's own apps: the merchant a request works for is the one
/// its user id names; only a user id that is not a uuid, of a merchant and where
/// that is allowed, stands for the nil uuid; an administrator's user id is always a
/// uuid, and its merchant record exists (or was just created) before any work.
pub proof fn law_owner_is_the_user(role: Seq<char>, sub: Seq<char>, strict: bool, f: OwnerFacts, mid: u128)
    requires
        owner_next(role, sub, strict, f) == Owner::Is(mid),
    ensures
        uuid_of(sub) == Some(mid) || (uuid_of(sub) is None && role != "admin"@ && !strict && mid == 0),
        role == "admin"@ ==> (uuid_of(sub) == Some(mid) && (f.exists == Some(true) || (f.exists == Some(false) && f.inserted == Some(None::<String>) && f.admin_updated))),
        role != "admin"@ ==> (uuid_of(sub) matches Some(u) ==> mid == u),
{
}

/// Listing, reading and deleting work on the user's own apps, and each answer follows
/// what the database reported: the list is the owner's; an app is given only when it
/// was found, and given whenever it was; a deletion is reported done exactly when it
/// removed a row.
pub proof fn law_read_delete_answers(role: Seq<char>, sub: Seq<char>, app_id: u128, f: AppFacts, g: OwnerFacts, mid: u128)
    ensures
        owner_next(role, sub, true, g) == Owner::Is(mid) ==> list_next(role, sub, g) == (AppAct::ReplyList { merchant_id: mid }),
        get_next(role, sub, app_id, f) is ReplyApp ==> f.found == Some(true),
        (owner_next(role, sub, false, f.owner) is Is && f.found == Some(true)) ==> get_next(role, sub, app_id, f) is ReplyApp,
        (owner_next(role, sub, false, f.owner) == Owner::Is(mid) && f.found is None) ==> get_next(role, sub, app_id, f) == (AppAct::FindApp { app_id, merchant_id: mid }),
        (owner_next(role, sub, false, f.owner) == Owner::Is(mid) && f.deleted is None) ==> delete_next(role, sub, app_id, f) == (AppAct::DeleteApp { app_id, merchant_id: mid }),
        delete_next(role, sub, app_id, f) matches AppAct::Reply(true, m) ==> (m == AppMsg::Deleted && (f.deleted matches Some(Ok(n)) && n > 0)),
        f.deleted matches Some(Ok(n)) ==> ((owner_next(role, sub, false, f.owner) is Is && n > 0) ==> delete_next(role, sub, app_id, f) == AppAct::Reply(true, AppMsg::Deleted)),
{
}

/// A batch of status changes is refused for no ids, more than 200 ids or an unknown
/// status; once the update ran, its success reports how many apps changed, and only a
/// database error is a failure.
pub proof fn law_batch_answers(role: Seq<char>, sub: Seq<char>, body: BatchStatusRequest, f: BatchFacts, n: u64, mid: u128)
    ensures
        batch_next(role, sub, body, f) matches AppAct::Reply(true, m) ==> (f.updated matches Some(Ok(k)) && m == AppMsg::BatchUpdated(k)
            && 1 <= body.ids@.len() <= 200 && status_of(body.status@) is Some),
        (1 <= body.ids@.len() <= 200 && status_of(body.status@) is Some && owner_next(role, sub, false, f.owner) is Is
            && f.updated == Some(Ok::<u64, String>(n))) ==> batch_next(role, sub, body, f) == AppAct::Reply(true, AppMsg::BatchUpdated(n)),
        (1 <= body.ids@.len() <= 200 && status_of(body.status@) is Some && owner_next(role, sub, false, f.owner) == Owner::Is(mid)
            && role != "admin"@ && f.updated is None) ==> ((batch_next(role, sub, body, f) matches AppAct::BatchEnable { merchant_id }
            && merchant_id == mid) || (batch_next(role, sub, body, f) matches AppAct::BatchSet { merchant_id, .. } && merchant_id == mid)),
{
}

/// A page window starts at page 1 or later, never exceeds the largest page size, and
/// its offset skips the earlier pages.
pub proof fn law_window(page: Option<i64>, size: Option<i64>, default_size: i64, max: i64)
    ensures
        window(page, size, default_size, max).0 >= 1,
        window(page, size, default_size, max).1 <= max,
        window(page, size, default_size, max).2 == (window(page, size, default_size, max).0 - 1) * window(page, size, default_size, max).1,
{
}

} // verus!
