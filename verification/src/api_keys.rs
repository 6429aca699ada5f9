use vstd::prelude::*;
use crate::json::Json;
use crate::public_api::{uuid_of, parse_uuid};
use crate::text::str_eq;

verus! {

/// An API key's settings as submitted.
pub struct ApiKeyForm {
    pub name: String,
    pub encrypt_code: Option<String>,
    pub sign_code: Option<String>,
    pub join_template: Option<String>,
    pub request_method: Option<String>,
    pub request_base_url: Option<String>,
    pub request_success_check: Option<String>,
    pub params_template: Option<String>,
    pub response_template: Option<String>,
    pub status: Option<String>,
    pub encrypt_enabled: Option<bool>,
    pub encrypt_algorithm: Option<String>,
    pub encrypt_mode: Option<String>,
    pub encrypt_padding: Option<String>,
    pub encrypt_key: Option<String>,
    pub encrypt_iv_source: Option<String>,
    pub encrypt_param_name: Option<String>,
    pub encrypt_encoding: Option<String>,
    pub encrypt_charset: Option<String>,
    pub decrypt_code: Option<String>,
}

/// An answer of the API-key pages: a code, a message and data, the last two left
/// out when absent.
pub struct ApiResponse {
    pub code: i32,
    pub msg: Option<String>,
    pub data: Option<Json>,
}

/// A success with data.
pub fn ok(data: Json) -> (r: ApiResponse)
    ensures
        r.code == 200 && r.msg is None && r.data == Some(data),
{
    ApiResponse { code: 200, msg: None, data: Some(data) }
}

/// A success without data.
pub fn ok_empty() -> (r: ApiResponse)
    ensures
        r.code == 200 && r.msg is None && r.data is None,
{
    ApiResponse { code: 200, msg: None, data: None }
}

/// A refusal with a message.
pub fn err(msg: &str) -> (r: ApiResponse)
    ensures
        r.code == 400 && r.data is None,
        r.msg matches Some(m) && m@ == msg@,
{
    ApiResponse { code: 400, msg: Some(msg.to_owned()), data: None }
}


/// Whose keys a user sees: an administrator all; anyone else the keys of the
/// merchant its id names (the nil uuid when the id is not a uuid).
pub open spec fn scope_of(role: Seq<char>, sub: Seq<char>) -> Option<u128> {
    if role == "admin"@ {
        None
    } else {
        Some(match uuid_of(sub) { Some(u) => u, None => 0 })
    }
}

/// Whose keys a user sees (see `scope_of`): none means all.
pub fn list_scope(role: &str, sub: &str) -> (r: Option<u128>)
    ensures
        r == scope_of(role@, sub@),
{
    if str_eq(role, "admin") {
        None
    } else {
        Some(match parse_uuid(sub) { Some(u) => u, None => 0 })
    }
}

/// Whether a user may change or remove a key that belongs to `owner` (none for a key
/// of no merchant): an administrator any key; anyone else only the keys of the
/// merchant its id names, as it sees them.
pub open spec fn may_change_of(role: Seq<char>, sub: Seq<char>, owner: Option<u128>) -> bool {
    match scope_of(role, sub) {
        None => true,
        Some(m) => owner == Some(m),
    }
}

/// Whether a user may change or remove a key (see `may_change_of`).
pub fn may_change_key(role: &str, sub: &str, owner: Option<u128>) -> (r: bool)
    ensures
        r == may_change_of(role@, sub@, owner),
{
    match list_scope(role, sub) {
        None => true,
        Some(m) => owner == Some(m),
    }
}

/// Merchants are kept apart: a user who is not an administrator may change or remove
/// only keys that it would see in its own list, never another merchant's nor a key
/// of no merchant.
pub proof fn law_keys_kept_apart(role: Seq<char>, sub: Seq<char>, owner: Option<u128>)
    requires
        role != "admin"@,
        may_change_of(role, sub, owner),
    ensures
        owner == scope_of(role, sub),
        owner is Some,
{
}

/// The merchant a new key belongs to: a merchant's own id (when it is a uuid);
/// none for anyone else.
pub open spec fn new_key_owner_of(role: Seq<char>, sub: Seq<char>) -> Option<u128> {
    if role == "merchant"@ { uuid_of(sub) } else { None }
}

/// The merchant a new key belongs to (see `new_key_owner_of`).
pub fn new_key_owner(role: &str, sub: &str) -> (r: Option<u128>)
    ensures
        r == new_key_owner_of(role@, sub@),
{
    if str_eq(role, "merchant") { parse_uuid(sub) } else { None }
}

/// The status a key is stored with: the submitted one, else `active`.
pub fn form_status(form: &ApiKeyForm) -> (r: String)
    ensures
        r@ == match form.status { Some(s) => s@, None => "active"@ },
{
    match &form.status { Some(s) => s.clone(), None => "active".to_owned() }
}

/// The page of a key's device log: page 1 or later, 10 rows by default and at most
/// 50, and the offset of its first row (see `crate::apps::window`).
pub fn device_log_window(page: Option<i64>, page_size: Option<i64>) -> (r: (i64, i64, i64))
    requires
        crate::apps::window_fits(page, page_size, 10, 50),
    ensures
        r.0 == crate::apps::window(page, page_size, 10, 50).0,
        r.1 == crate::apps::window(page, page_size, 10, 50).1,
        r.2 == crate::apps::window(page, page_size, 10, 50).2,
{
    crate::apps::page_window(page, page_size, 10, 50)
}

/// The card whose use a key's statistics count: the given hash, else all cards
/// (the empty hash).
pub fn stats_card_hash(card_hash: Option<String>) -> (r: String)
    ensures
        r@ == match card_hash { Some(h) => h@, None => Seq::empty() },
{
    match card_hash { Some(h) => h, None => String::new() }
}

} // verus!
