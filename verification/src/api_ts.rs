use vstd::prelude::*;
use sha2::Digest;
use crate::json::{Json, JsonNum, member, as_str, get_member, json_str};
use crate::text::{hex_fixed, str_eq, str_starts_with, chars_of, string_of_range, push_str, push_nat, int_text, concat, has_sub, str_contains};

verus! {

/// How long an authorization key stays valid: five minutes.
pub const AUTH_KEY_SECS: u64 = 300;

/// A request to run a key's encryption or decryption code.
pub struct CryptoRequest {
    pub key_name: String,
    pub text: String,
    /// The parameters handed to the code, by name.
    pub params: Vec<(String, String)>,
    pub device: Option<DeviceInfo>,
    pub source: Option<String>,
}

/// The device a request comes from.
pub struct DeviceInfo {
    pub ip: Option<String>,
    pub device_id: Option<String>,
}

/// A request for a one-time authorization key.
pub struct GenKeyRequest {
    pub card_key: String,
}

/// The filter and page of the call log.
pub struct CallLogQuery {
    pub page: Option<i64>,
    pub page_size: Option<i64>,
    pub key_name: Option<String>,
    pub status: Option<String>,
    pub date_from: Option<String>,
    pub date_to: Option<String>,
}

/// The SHA-256 digest of `data`.
pub uninterp spec fn sha256_of(data: Seq<u8>) -> Seq<u8>;

/// `sha2::Sha256::digest`: the digest of `data`, 32 bytes long.
#[verifier::external_body]
fn sha256_digest(data: &[u8]) -> (r: Vec<u8>)
    ensures
        r@ == sha256_of(data@),
        r@.len() == 32,
{
    sha2::Sha256::digest(data).to_vec()
}

/// Bytes in lower-case hexadecimal, two digits each, as `{:x}` writes a digest.
pub open spec fn hex_bytes(b: Seq<u8>) -> Seq<char>
    decreases b.len(),
{
    if b.len() == 0 {
        Seq::empty()
    } else {
        hex_bytes(b.drop_last()) + hex_fixed(b.last() as nat, 2)
    }
}

/// The SHA-256 digest of a text's UTF-8 bytes, in lower-case hexadecimal.
pub open spec fn sha256_text(s: Seq<char>) -> Seq<char> {
    hex_bytes(sha256_of(vstd::utf8::encode_utf8(s)))
}

fn hex2(b: u8) -> (r: String)
    ensures
        r@ == hex_fixed(b as nat, 2),
{
    let mut v: Vec<char> = Vec::new();
    let hi = hex_digit_u8(b / 16);
    let lo = hex_digit_u8(b % 16);
    v.push(hi);
    v.push(lo);
    proof {
        assert(hex_fixed(b as nat, 2) == hex_fixed((b / 16) as nat, 1).push(crate::text::hex_char((b % 16) as nat)));
        assert(hex_fixed((b / 16) as nat, 1) == hex_fixed(((b / 16) / 16) as nat, 0).push(crate::text::hex_char(((b / 16) % 16) as nat)));
        assert((b / 16) % 16 == b / 16);
        assert(v@ == seq![hi, lo]);
    }
    crate::text::string_of(&v)
}

fn hex_digit_u8(d: u8) -> (c: char)
    requires
        d < 16,
    ensures
        c == crate::text::hex_char(d as nat),
{
    if d < 10 { (48 + d) as char } else { (97 + d - 10) as char }
}

/// The SHA-256 digest of `input`'s UTF-8 bytes, in lower-case hexadecimal.
pub fn sha256(input: &str) -> (r: String)
    ensures
        r@ == sha256_text(input@),
{
    let d = sha256_digest(input.as_bytes());
    let mut r = String::new();
    let mut i: usize = 0;
    while i < d.len()
        invariant
            i <= d@.len(),
            r@ == hex_bytes(d@.subrange(0, i as int)),
        decreases d@.len() - i,
    {
        assert(d@.subrange(0, i + 1).drop_last() == d@.subrange(0, i as int));
        let h = hex2(d[i]);
        push_str(&mut r, h.as_str());
        i = i + 1;
    }
    assert(d@.subrange(0, d@.len() as int) == d@);
    r
}

/// The token of an `Authorization: Bearer <token>` header.
pub open spec fn bearer_of(header: Option<Seq<char>>) -> Option<Seq<char>> {
    match header {
        Some(h) => if "Bearer "@.is_prefix_of(h) { Some(h.skip(7)) } else { None },
        None => None,
    }
}

/// The token of an authorization header given as its text (none when missing or not
/// visible ASCII).
pub fn extract_bearer(header: Option<&str>) -> (r: Option<String>)
    ensures
        r is Some == bearer_of(match header { Some(h) => Some(h@), None => None }) is Some,
        r is Some ==> r->0@ == bearer_of(match header { Some(h) => Some(h@), None => None })->0,
{
    proof {
        reveal_strlit("Bearer ");
    }
    match header {
        None => None,
        Some(h) => if str_starts_with(h, "Bearer ") {
            let v = chars_of(h);
            let t = string_of_range(&v, 7, v.len());
            assert(h@.skip(7) == v@.subrange(7, v@.len() as int));
            Some(t)
        } else {
            None
        },
    }
}

/// The key of the live authorization key with the longest time to live: among
/// `ts:` keys that are not `ts_used:` keys, the first with the largest positive time
/// to live, without its `ts:`; empty when none.
pub open spec fn latest_of(entries: Seq<(String, i64)>) -> Seq<char>
    decreases entries.len(),
{
    latest_from(entries, 0, Seq::empty())
}

/// The scan behind `latest_of`, with the best time to live and key so far.
pub open spec fn latest_from(entries: Seq<(String, i64)>, best: i64, key: Seq<char>) -> Seq<char>
    decreases entries.len(),
{
    if entries.len() == 0 {
        key
    } else {
        let (k, ttl) = entries[0];
        if !has_sub(k@, "ts_used:"@) && ttl > best {
            latest_from(entries.drop_first(), ttl, strip_ts(k@))
        } else {
            latest_from(entries.drop_first(), best, key)
        }
    }
}

/// `k` without a leading `ts:`.
pub open spec fn strip_ts(k: Seq<char>) -> Seq<char> {
    if "ts:"@.is_prefix_of(k) { k.skip(3) } else { k }
}

fn strip_ts_exec(k: &str) -> (r: String)
    ensures
        r@ == strip_ts(k@),
{
    proof {
        reveal_strlit("ts:");
    }
    if str_starts_with(k, "ts:") {
        let v = chars_of(k);
        assert(k@.skip(3) == v@.subrange(3, v@.len() as int));
        string_of_range(&v, 3, v.len())
    } else {
        k.to_owned()
    }
}

/// The latest authorization key (see `latest_of`), from the keys and their times to
/// live.
pub fn latest_key(entries: &Vec<(String, i64)>) -> (r: String)
    ensures
        r@ == latest_of(entries@),
{
    let mut best: i64 = 0;
    let mut key = String::new();
    let mut i: usize = 0;
    assert(entries@.subrange(0, entries@.len() as int) == entries@);
    while i < entries.len()
        invariant
            i <= entries@.len(),
            latest_of(entries@) == latest_from(entries@.subrange(i as int, entries@.len() as int), best, key@),
        decreases entries@.len() - i,
    {
        let ghost rest = entries@.subrange(i as int, entries@.len() as int);
        assert(rest.drop_first() == entries@.subrange(i + 1, entries@.len() as int));
        let (k, ttl) = (&entries[i].0, entries[i].1);
        if !str_contains(k.as_str(), "ts_used:") && ttl > best {
            best = ttl;
            key = strip_ts_exec(k.as_str());
        }
        i = i + 1;
    }
    key
}

// ---------------------------------------------------------------------------
// Answers of the signing service.

/// The three kinds of code a key can run.
#[derive(Clone, Copy, Debug, PartialEq, Eq, Structural)]
pub enum CryptoKind {
    Sign,
    Encrypt,
    Decrypt,
}

/// The messages of the signing service.
pub enum TsMsg {
    MissingAuth,
    AuthFailed,
    NoKeyName,
    NoCode(CryptoKind),
    CardInvalid,
    RunFailed(CryptoKind, String),
    NotFound,
}

/// The text of a message.
pub open spec fn ts_msg_text(m: TsMsg) -> Seq<char> {
    match m {
        TsMsg::MissingAuth => "缺少 Authorization 头"@,
        TsMsg::AuthFailed => "鉴权失败"@,
        TsMsg::NoKeyName => "未指定 key_name"@,
        TsMsg::NoCode(CryptoKind::Sign) => "未配置签名逻辑"@,
        TsMsg::NoCode(CryptoKind::Encrypt) => "未配置加密逻辑"@,
        TsMsg::NoCode(CryptoKind::Decrypt) => "未配置解密逻辑"@,
        TsMsg::CardInvalid => "卡密无效、已过期或无激活记录"@,
        TsMsg::RunFailed(CryptoKind::Sign, e) => "签名执行失败: "@ + e@,
        TsMsg::RunFailed(CryptoKind::Encrypt, e) => "加密执行失败: "@ + e@,
        TsMsg::RunFailed(CryptoKind::Decrypt, e) => "解密执行失败: "@ + e@,
        TsMsg::NotFound => "记录不存在"@,
    }
}

/// The text of a message (see `ts_msg_text`).
pub fn ts_message(m: &TsMsg) -> (r: String)
    ensures
        r@ == ts_msg_text(*m),
{
    match m {
        TsMsg::MissingAuth => "缺少 Authorization 头".to_owned(),
        TsMsg::AuthFailed => "鉴权失败".to_owned(),
        TsMsg::NoKeyName => "未指定 key_name".to_owned(),
        TsMsg::NoCode(CryptoKind::Sign) => "未配置签名逻辑".to_owned(),
        TsMsg::NoCode(CryptoKind::Encrypt) => "未配置加密逻辑".to_owned(),
        TsMsg::NoCode(CryptoKind::Decrypt) => "未配置解密逻辑".to_owned(),
        TsMsg::CardInvalid => "卡密无效、已过期或无激活记录".to_owned(),
        TsMsg::RunFailed(CryptoKind::Sign, e) => concat("签名执行失败: ", e.as_str()),
        TsMsg::RunFailed(CryptoKind::Encrypt, e) => concat("加密执行失败: ", e.as_str()),
        TsMsg::RunFailed(CryptoKind::Decrypt, e) => concat("解密执行失败: ", e.as_str()),
        TsMsg::NotFound => "记录不存在".to_owned(),
    }
}

/// The `data` of an answer.
pub enum TsData {
    Nothing,
    AuthKey(String),
    /// A signature, answered as `key`.
    Signed(String),
    /// An encryption's or decryption's output, answered as `result`.
    Output(String),
}

/// An answer of the signing service: a code (200, 400, 403 or 404), a message and data.
pub struct ApiResponse {
    pub code: i32,
    pub msg: Option<TsMsg>,
    pub data: TsData,
}

/// The card shown in the call log.
pub enum CardShown {
    /// A test from the web console.
    Internal,
    Key(String),
}

/// The text of the card shown in the call log.
pub open spec fn card_shown_text(c: CardShown) -> Seq<char> {
    match c { CardShown::Internal => "内部测试"@, CardShown::Key(k) => k@ }
}

/// The text of the card shown in the call log (see `card_shown_text`).
pub fn card_shown(c: &CardShown) -> (r: String)
    ensures
        r@ == card_shown_text(*c),
{
    match c { CardShown::Internal => "内部测试".to_owned(), CardShown::Key(k) => k.clone() }
}

/// The work of a signing-service request.
pub enum TsAct {
    /// Look up an active, unexpired, activated card by the hash of its key.
    FindActiveCard,
    /// Count one more use of the card in total, and today.
    CountTotal,
    CountDaily,
    /// Draw the authorization key (see `GenKeyFacts::stamp`).
    Stamp,
    /// Keep the authorization key with the card key for `ttl_secs` seconds (see
    /// `AUTH_KEY_SECS`).
    StoreAuthKey { auth_key: String, ttl_secs: u64 },
    /// Tell whether the authorization key was used.
    CheckUsed,
    /// Read the card key stored with the authorization key.
    ReadCardKey,
    /// Mark the authorization key used for a day.
    MarkUsed,
    /// Read the active key of the request's name.
    LoadKey,
    /// Run the key's code on the request's parameters.
    Run { code: String },
    /// Write the call into the call log.
    Log { success: bool, card: CardShown, result: Option<String>, fail_reason: Option<String> },
    /// Answer with a bare HTTP status (404 or 500).
    Status(u16),
    Reply(ApiResponse),
}

/// An answer with a code and a message, and no data.
pub open spec fn ts_fail(code: i32, m: TsMsg) -> ApiResponse {
    ApiResponse { code, msg: Some(m), data: TsData::Nothing }
}

/// What is known, so far, of issuing an authorization key.
pub struct GenKeyFacts {
    /// The hash of the card key, by which the card is found.
    pub card_hash: String,
    pub card_active: Option<bool>,
    pub total_counted: bool,
    pub daily_counted: bool,
    pub auth_key: Option<String>,
    pub stored: bool,
}

impl GenKeyFacts {
    /// Nothing known yet of issuing a key for `card_key`.
    pub fn new(card_key: &str) -> (r: GenKeyFacts)
        ensures
            r.card_hash@ == sha256_text(card_key@),
            r.card_active is None && !r.total_counted && !r.daily_counted && r.auth_key is None && !r.stored,
    {
        GenKeyFacts { card_hash: sha256(card_key), card_active: None, total_counted: false, daily_counted: false, auth_key: None, stored: false }
    }

    /// Draws the authorization key: the digest of the card key, the time in
    /// milliseconds and 16 random letters or digits, joined by underscores.
    pub fn stamp(&mut self, card_key: &str, millis: u128)
        ensures
            final(self).card_hash == old(self).card_hash,
            final(self).card_active == old(self).card_active,
            final(self).total_counted == old(self).total_counted,
            final(self).daily_counted == old(self).daily_counted,
            final(self).stored == old(self).stored,
            final(self).auth_key matches Some(k) && exists|t: Seq<char>| t.len() == 16 && (forall|i: int|
                0 <= i < 16 ==> crate::draw::is_alnum(#[trigger] t[i])) && k@ == sha256_text(
                card_key@ + "_"@ + int_text(millis as int) + "_"@ + t,
            ),
    {
        let token = crate::draw::random_token(16);
        let mut raw = concat(card_key, "_");
        push_nat(&mut raw, millis);
        push_str(&mut raw, "_");
        push_str(&mut raw, token.as_str());
        let k = sha256(raw.as_str());
        self.auth_key = Some(k);
        assert(raw@ == card_key@ + "_"@ + int_text(millis as int) + "_"@ + token@);
    }
}

/// The next step of issuing an authorization key: the card must be active, unexpired
/// and activated; its uses are counted; a fresh key is drawn, kept five minutes with
/// the card key, and given.
pub open spec fn gen_key_next(f: GenKeyFacts) -> TsAct {
    match f.card_active {
        None => TsAct::FindActiveCard,
        Some(false) => TsAct::Reply(ts_fail(403, TsMsg::CardInvalid)),
        Some(true) => if !f.total_counted {
            TsAct::CountTotal
        } else if !f.daily_counted {
            TsAct::CountDaily
        } else {
            match f.auth_key {
                None => TsAct::Stamp,
                Some(k) => if !f.stored {
                    TsAct::StoreAuthKey { auth_key: k, ttl_secs: AUTH_KEY_SECS }
                } else {
                    TsAct::Reply(ApiResponse { code: 200, msg: None, data: TsData::AuthKey(k) })
                },
            }
        },
    }
}

/// The next step of issuing an authorization key (see `gen_key_next`).
pub fn decide_gen_key(f: &GenKeyFacts) -> (a: TsAct)
    ensures
        a == gen_key_next(*f),
{
    match f.card_active {
        None => TsAct::FindActiveCard,
        Some(false) => TsAct::Reply(ApiResponse { code: 403, msg: Some(TsMsg::CardInvalid), data: TsData::Nothing }),
        Some(true) => if !f.total_counted {
            TsAct::CountTotal
        } else if !f.daily_counted {
            TsAct::CountDaily
        } else {
            match &f.auth_key {
                None => TsAct::Stamp,
                Some(k) => if !f.stored {
                    TsAct::StoreAuthKey { auth_key: k.clone(), ttl_secs: AUTH_KEY_SECS }
                } else {
                    TsAct::Reply(ApiResponse { code: 200, msg: None, data: TsData::AuthKey(k.clone()) })
                },
            }
        },
    }
}

/// What is known, so far, of a call to a key's code.
pub struct CryptoFacts {
    /// Whether the authorization key was used before.
    pub used: Option<bool>,
    /// The card key stored with the authorization key, none when there is none.
    pub card_key: Option<Option<String>>,
    pub marked: bool,
    /// The key of the request's name: none when there is no active one; an error
    /// when the database failed.
    pub key: Option<Result<Option<Json>, ()>>,
    /// The code's output, or why it failed.
    pub run: Option<Result<String, String>>,
    pub logged: bool,
}

impl CryptoFacts {
    /// Nothing known yet.
    pub fn new() -> (r: CryptoFacts)
        ensures
            r.used is None && r.card_key is None && !r.marked && r.key is None && r.run is None && !r.logged,
    {
        CryptoFacts { used: None, card_key: None, marked: false, key: None, run: None, logged: false }
    }
}

/// The member of a key that holds the code of a kind.
pub open spec fn code_field(k: CryptoKind) -> Seq<char> {
    match k {
        CryptoKind::Sign => "sign_code"@,
        CryptoKind::Encrypt => "encrypt_code"@,
        CryptoKind::Decrypt => "decrypt_code"@,
    }
}

/// The step of a call once the key is read.
pub open spec fn crypto_run(kind: CryptoKind, card: CardShown, v: Json, f: CryptoFacts) -> TsAct {
    match crate::json::member_string(v, code_field(kind)) {
        Some(code) if code@.len() > 0 => match f.run {
            None => TsAct::Run { code },
            Some(Ok(out)) => if !f.logged {
                TsAct::Log { success: true, card, result: Some(out), fail_reason: None }
            } else {
                TsAct::Reply(ApiResponse {
                    code: 200,
                    msg: None,
                    data: if kind == CryptoKind::Sign { TsData::Signed(out) } else { TsData::Output(out) },
                })
            },
            Some(Err(e)) => if !f.logged {
                TsAct::Log { success: false, card, result: None, fail_reason: Some(e) }
            } else {
                TsAct::Reply(ts_fail(400, TsMsg::RunFailed(kind, e)))
            },
        },
        _ => TsAct::Reply(ts_fail(403, TsMsg::NoCode(kind))),
    }
}

/// The next step of a call to a key's code: an authorization key is needed, unused,
/// and known; it is then used up; a signature needs a key name; the key must exist
/// (404) and the database answer (500); the key must have code of the kind; the code
/// is run, the call logged (the card shown as an internal test for calls from the web
/// console), and its output or failure answered.
pub open spec fn crypto_next(kind: CryptoKind, token: Seq<char>, key_name: Seq<char>, web_test: bool, f: CryptoFacts) -> TsAct {
    if token.len() == 0 {
        TsAct::Reply(ts_fail(403, TsMsg::MissingAuth))
    } else {
        match f.used {
            None => TsAct::CheckUsed,
            Some(true) => TsAct::Reply(ts_fail(403, TsMsg::AuthFailed)),
            Some(false) => match f.card_key {
                None => TsAct::ReadCardKey,
                Some(None) => TsAct::Reply(ts_fail(403, TsMsg::AuthFailed)),
                Some(Some(ck)) => if !f.marked {
                    TsAct::MarkUsed
                } else if kind == CryptoKind::Sign && key_name.len() == 0 {
                    TsAct::Reply(ts_fail(403, TsMsg::NoKeyName))
                } else {
                    match f.key {
                        None => TsAct::LoadKey,
                        Some(Err(_)) => TsAct::Status(500),
                        Some(Ok(None)) => TsAct::Status(404),
                        Some(Ok(Some(v))) => crypto_run(kind, if web_test { CardShown::Internal } else { CardShown::Key(ck) }, v, f),
                    }
                },
            },
        }
    }
}

fn crypto_run_exec(kind: CryptoKind, card: CardShown, v: &Json, f: &CryptoFacts) -> (a: TsAct)
    ensures
        a == crypto_run(kind, card, *v, *f),
{
    match crate::json::get_string(v, code_field_name(kind)) {
        Some(code) => if code.as_str().is_empty() {
            TsAct::Reply(ApiResponse { code: 403, msg: Some(TsMsg::NoCode(kind)), data: TsData::Nothing })
        } else {
            match &f.run {
                None => TsAct::Run { code },
                Some(Ok(out)) => if !f.logged {
                    TsAct::Log { success: true, card, result: Some(out.clone()), fail_reason: None }
                } else {
                    TsAct::Reply(ApiResponse {
                        code: 200,
                        msg: None,
                        data: match kind { CryptoKind::Sign => TsData::Signed(out.clone()), _ => TsData::Output(out.clone()) },
                    })
                },
                Some(Err(e)) => if !f.logged {
                    TsAct::Log { success: false, card, result: None, fail_reason: Some(e.clone()) }
                } else {
                    TsAct::Reply(ApiResponse { code: 400, msg: Some(TsMsg::RunFailed(kind, e.clone())), data: TsData::Nothing })
                },
            }
        },
        None => TsAct::Reply(ApiResponse { code: 403, msg: Some(TsMsg::NoCode(kind)), data: TsData::Nothing }),
    }
}

fn code_field_name(k: CryptoKind) -> (r: &'static str)
    ensures
        r@ == code_field(k),
{
    match k { CryptoKind::Sign => "sign_code", CryptoKind::Encrypt => "encrypt_code", CryptoKind::Decrypt => "decrypt_code" }
}

/// The next step of a call to a key's code (see `crypto_next`). `token` is the
/// bearer token (empty when there is none), `key_name` the key asked for, and
/// `web_test` tells a call from the web console.
pub fn decide_crypto(kind: CryptoKind, token: &str, key_name: &str, web_test: bool, f: &CryptoFacts) -> (a: TsAct)
    ensures
        a == crypto_next(kind, token@, key_name@, web_test, *f),
{
    if token.is_empty() {
        return TsAct::Reply(ApiResponse { code: 403, msg: Some(TsMsg::MissingAuth), data: TsData::Nothing });
    }
    match f.used {
        None => { return TsAct::CheckUsed; },
        Some(true) => { return TsAct::Reply(ApiResponse { code: 403, msg: Some(TsMsg::AuthFailed), data: TsData::Nothing }); },
        Some(false) => {},
    }
    let ck = match &f.card_key {
        None => { return TsAct::ReadCardKey; },
        Some(None) => { return TsAct::Reply(ApiResponse { code: 403, msg: Some(TsMsg::AuthFailed), data: TsData::Nothing }); },
        Some(Some(ck)) => ck,
    };
    if !f.marked {
        return TsAct::MarkUsed;
    }
    if kind == CryptoKind::Sign && key_name.is_empty() {
        return TsAct::Reply(ApiResponse { code: 403, msg: Some(TsMsg::NoKeyName), data: TsData::Nothing });
    }
    match &f.key {
        None => TsAct::LoadKey,
        Some(Err(_)) => TsAct::Status(500),
        Some(Ok(None)) => TsAct::Status(404),
        Some(Ok(Some(v))) => crypto_run_exec(kind, if web_test { CardShown::Internal } else { CardShown::Key(ck.clone()) }, v, f),
    }
}

/// The key name of a signature request: the query's, else the body's text member
/// `key_name`, else empty.
pub fn sign_key_name(query: Option<&str>, body: &Json) -> (r: String)
    ensures
        r@ == match query { Some(q) => q@, None => match crate::json::member_str(*body, "key_name"@) { Some(t) => t, None => Seq::empty() } },
{
    match query {
        Some(q) => q.to_owned(),
        None => match crate::json::get_str(body, "key_name") {
            Some(t) => t,
            None => String::new(),
        },
    }
}

/// Whether a call comes from the web console: its source is `web_test`.
pub fn is_web_test(source: Option<&str>) -> (b: bool)
    ensures
        b == (source is Some && source->0@ == "web_test"@),
{
    match source { Some(s) => str_eq(s, "web_test"), None => false }
}

/// The parameters of a signature: each member of the body object with its text, or
/// empty text when the member is not text; none for a body that is not an object.
pub open spec fn sign_params_of(body: Json) -> Seq<(Seq<char>, Seq<char>)> {
    match body {
        Json::Object(es) => es@.map_values(|e: (String, Json)| (e.0@, match as_str(e.1) { Some(t) => t, None => Seq::empty() })),
        _ => Seq::empty(),
    }
}

/// The texts of a list of parameters.
pub open spec fn param_views(ps: Seq<(String, String)>) -> Seq<(Seq<char>, Seq<char>)> {
    ps.map_values(|p: (String, String)| (p.0@, p.1@))
}

/// The parameters of a signature (see `sign_params_of`).
pub fn sign_params(body: &Json) -> (r: Vec<(String, String)>)
    ensures
        param_views(r@) == sign_params_of(*body),
{
    let mut r: Vec<(String, String)> = Vec::new();
    match body {
        Json::Object(es) => {
            let mut i: usize = 0;
            while i < es.len()
                invariant
                    i <= es@.len(),
                    param_views(r@) == sign_params_of(*body).subrange(0, i as int),
                    *body == Json::Object(*es),
                decreases es@.len() - i,
            {
                let t = match json_str(&es[i].1) { Some(t) => t, None => String::new() };
                let ghost before = param_views(r@);
                let ghost sp = sign_params_of(*body);
                r.push((es[i].0.clone(), t));
                assert(param_views(r@) =~= before.push((es@[i as int].0@, t@)));
                assert(sp.subrange(0, i + 1) =~= sp.subrange(0, i as int).push(sp[i as int]));
                i = i + 1;
            }
            assert(sign_params_of(*body).subrange(0, es@.len() as int) == sign_params_of(*body));
        },
        _ => {},
    }
    r
}

/// Parameters with `text` set to `text`, replacing a `text` already there (where it
/// was), else added at the end.
pub open spec fn with_text(ps: Seq<(Seq<char>, Seq<char>)>, text: Seq<char>) -> Seq<(Seq<char>, Seq<char>)> {
    if exists|i: int| 0 <= i < ps.len() && (#[trigger] ps[i]).0 == "text"@ {
        ps.map_values(|p: (Seq<char>, Seq<char>)| if p.0 == "text"@ { (p.0, text) } else { p })
    } else {
        ps.push(("text"@, text))
    }
}

/// The parameters of an encryption or decryption: the request's, with `text` set to
/// its text (see `with_text`).
pub fn crypto_params(req: &CryptoRequest) -> (r: Vec<(String, String)>)
    ensures
        param_views(r@) == with_text(param_views(req.params@), req.text@),
{
    let ghost ps = param_views(req.params@);
    let mut r: Vec<(String, String)> = Vec::new();
    let mut found = false;
    let mut i: usize = 0;
    while i < req.params.len()
        invariant
            ps == param_views(req.params@),
            i <= req.params@.len(),
            param_views(r@) == ps.subrange(0, i as int).map_values(|p: (Seq<char>, Seq<char>)| if p.0 == "text"@ { (p.0, req.text@) } else { p }),
            found == exists|k: int| 0 <= k < i && (#[trigger] ps[k]).0 == "text"@,
        decreases req.params@.len() - i,
    {
        let is_text = str_eq(req.params[i].0.as_str(), "text");
        let v = if is_text { req.text.clone() } else { req.params[i].1.clone() };
        let ghost before = param_views(r@);
        r.push((req.params[i].0.clone(), v));
        proof {
            let f = |p: (Seq<char>, Seq<char>)| if p.0 == "text"@ { (p.0, req.text@) } else { p };
            assert(ps[i as int].0 == req.params@[i as int].0@);
            assert(ps[i as int].1 == req.params@[i as int].1@);
            assert(ps.subrange(0, i + 1) =~= ps.subrange(0, i as int).push(ps[i as int]));
            assert(param_views(r@) =~= before.push((req.params@[i as int].0@, v@)));
            assert(ps.subrange(0, i + 1).map_values(f) =~= ps.subrange(0, i as int).map_values(f).push(f(ps[i as int])));
            if is_text {
                assert(ps[i as int].0 == "text"@);
            }
        }
        found = found || is_text;
        i = i + 1;
    }
    assert(ps.subrange(0, ps.len() as int) == ps);
    if !found {
        let ghost before = param_views(r@);
        r.push(("text".to_owned(), req.text.clone()));
        assert(param_views(r@) == before.push(("text"@, req.text@)));
        assert(before == ps);
    }
    r
}

// ---------------------------------------------------------------------------
// Laws of the signing service.

/// An authorization key is good for one call: a key's code runs only under an
/// authorization key that was unused, had a card key, and has been marked used.
pub proof fn law_auth_key_single_use(kind: CryptoKind, token: Seq<char>, key_name: Seq<char>, web_test: bool, f: CryptoFacts)
    requires
        crypto_next(kind, token, key_name, web_test, f) is Run,
    ensures
        token.len() > 0,
        f.used == Some(false),
        f.card_key matches Some(Some(_)),
        f.marked,
        kind == CryptoKind::Sign ==> key_name.len() > 0,
{
}

/// A call that was already used is refused, whatever else is known.
pub proof fn law_used_key_refused(kind: CryptoKind, token: Seq<char>, key_name: Seq<char>, web_test: bool, f: CryptoFacts)
    requires
        token.len() > 0,
        f.used == Some(true),
    ensures
        crypto_next(kind, token, key_name, web_test, f) == TsAct::Reply(ts_fail(403, TsMsg::AuthFailed)),
{
}

/// An authorization key authorizes one call. A call whose code runs under the key
/// has first marked the key used; a later call with the same key, whose check reads
/// that mark, is refused as an authorization failure, whatever it asks for.
pub proof fn law_auth_key_one_call(
    token: Seq<char>,
    kind: CryptoKind,
    key_name: Seq<char>,
    web_test: bool,
    first: CryptoFacts,
    later_kind: CryptoKind,
    later_key_name: Seq<char>,
    later_web_test: bool,
    later: CryptoFacts,
)
    requires
        crypto_next(kind, token, key_name, web_test, first) is Run,
        later.used == Some(true),
    ensures
        first.used == Some(false) && first.marked,
        crypto_next(later_kind, token, later_key_name, later_web_test, later) == TsAct::Reply(ts_fail(403, TsMsg::AuthFailed)),
{
}

/// A call to a key's code answers what the code gave: a success (200) only after the
/// code of the asked kind ran, succeeded and the call was logged, with the code's
/// output (as the signature for a signing call); a failure of the code is answered
/// 400 with its reason, after it was logged; the code run is the key's code for the
/// kind; the call log shows the card key, or an internal test for calls from the web
/// console.
pub proof fn law_crypto_answers(kind: CryptoKind, token: Seq<char>, key_name: Seq<char>, web_test: bool, f: CryptoFacts)
    ensures
        crypto_next(kind, token, key_name, web_test, f) matches TsAct::Reply(r) ==> (r.code == 200 ==> ({
            &&& f.marked && f.logged
            &&& f.run matches Some(Ok(out)) && r.data == (if kind == CryptoKind::Sign { TsData::Signed(out) } else { TsData::Output(out) })
        })),
        crypto_next(kind, token, key_name, web_test, f) matches TsAct::Reply(r) ==> (r.code == 400 ==> (f.logged
            && (f.run matches Some(Err(e)) && r.msg == Some(TsMsg::RunFailed(kind, e))))),
        crypto_next(kind, token, key_name, web_test, f) matches TsAct::Run { code } ==> (f.key matches Some(Ok(Some(v)))
            && crate::json::member_string(v, code_field(kind)) == Some(code) && code@.len() > 0 && f.run is None),
        crypto_next(kind, token, key_name, web_test, f) matches TsAct::Log { card, .. } ==> (f.card_key matches Some(Some(ck))
            && card == (if web_test { CardShown::Internal } else { CardShown::Key(ck) })),
{
}

/// An authorization key is issued only after the card was found active and its uses
/// counted (in total and for the day), and the key is given as it was stored; an
/// inactive card is refused with 403.
pub proof fn law_gen_key_answers(f: GenKeyFacts)
    ensures
        gen_key_next(f) matches TsAct::Reply(r) ==> (r.code == 200 ==> (f.card_active == Some(true) && f.total_counted && f.daily_counted
            && f.stored && (f.auth_key matches Some(k) && r.data == TsData::AuthKey(k)))),
        f.card_active == Some(false) ==> gen_key_next(f) == TsAct::Reply(ts_fail(403, TsMsg::CardInvalid)),
        gen_key_next(f) matches TsAct::StoreAuthKey { auth_key, .. } ==> f.auth_key == Some(auth_key),
{
}

/// An authorization key is kept, and so stays valid, for five minutes.
pub proof fn law_auth_key_lives_five_minutes(f: GenKeyFacts)
    requires
        gen_key_next(f) is StoreAuthKey,
    ensures
        gen_key_next(f) matches TsAct::StoreAuthKey { ttl_secs, .. } && ttl_secs == 300,
{
}

/// An authorization key is given only for an active card, after its uses were
/// counted and the key stored.
pub proof fn law_key_only_for_active_card(f: GenKeyFacts)
    requires
        gen_key_next(f) matches TsAct::Reply(r) && r.data is AuthKey,
    ensures
        f.card_active == Some(true) && f.total_counted && f.daily_counted && f.stored,
        f.auth_key matches Some(k) && gen_key_next(f) == TsAct::Reply(ApiResponse { code: 200, msg: None, data: TsData::AuthKey(k) }),
{
}

} // verus!
