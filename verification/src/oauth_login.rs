use vstd::prelude::*;
use crate::oauth::{email_for, oauth_email_or_fallback, OAuthCallbackQuery};
use crate::public_api::uuid_of;
use crate::draw::{random_api_key, is_lower_alnum};
use crate::json::Json;
use crate::text::{trim, concat, push_str, str_trim, is_blank, str_ends_with, uuid_text, uuid_string, chars_of, string_of_range};

verus! {

/// A merchant already linked to an OAuth account.
pub struct LinkedMerchant {
    pub id: String,
    pub username: String,
    pub avatar_url: Option<String>,
    pub plan: String,
}

/// Why an OAuth login failed.
pub enum LoginError {
    /// The database failed to look the account up.
    Query(String),
    /// The linked merchant's id is not a uuid.
    BadId,
    /// The session token could not be made.
    Token(String),
    /// The random password could not be hashed.
    Hash(String),
    ApiKeyEncrypt,
    EmailEncrypt,
    /// The new merchant could not be stored.
    Insert(String),
}

/// The text of a login failure.
pub open spec fn login_error_text(e: LoginError) -> Seq<char> {
    match e {
        LoginError::Query(t) => t@,
        LoginError::BadId => "用户ID无效"@,
        LoginError::Token(t) => t@,
        LoginError::Hash(t) => t@,
        LoginError::ApiKeyEncrypt => "API Key加密失败"@,
        LoginError::EmailEncrypt => "邮箱加密失败"@,
        LoginError::Insert(t) => "创建用户失败: "@ + t@,
    }
}

/// The text of a login failure (see `login_error_text`).
pub fn login_error_message(e: &LoginError) -> (r: String)
    ensures
        r@ == login_error_text(*e),
{
    match e {
        LoginError::Query(t) => t.clone(),
        LoginError::BadId => "用户ID无效".to_owned(),
        LoginError::Token(t) => t.clone(),
        LoginError::Hash(t) => t.clone(),
        LoginError::ApiKeyEncrypt => "API Key加密失败".to_owned(),
        LoginError::EmailEncrypt => "邮箱加密失败".to_owned(),
        LoginError::Insert(t) => concat("创建用户失败: ", t.as_str()),
    }
}


/// `uuid::Uuid::new_v4`, as a number: a fresh random uuid.
#[verifier::external_body]
fn fresh_uuid() -> (r: u128) {
    uuid::Uuid::new_v4().as_u128()
}

/// The password hash of a merchant created by OAuth: the hash of a fresh random
/// uuid's text, which nobody knows.
pub fn hash_random_password() -> (r: Result<String, String>)
    ensures
        r matches Ok(h) ==> crate::apps::bcrypt_text(h@) && exists|id: u128| #[trigger] crate::apps::bcrypt_matches(uuid_text(id), h@),
{
    let id = fresh_uuid();
    let u = uuid_string(id);
    let r = crate::apps::bcrypt_hash(u.as_str());
    proof {
        if r is Ok {
            assert(crate::apps::bcrypt_matches(uuid_text(id), r->Ok_0@));
        }
    }
    r
}

/// What is known, so far, of an OAuth login.
pub struct LoginFacts {
    /// The provider and the account's id, joined by a colon.
    pub provider_key: String,
    /// The e-mail of the account (see `crate::oauth::email_for`).
    pub email: String,
    /// The merchant linked to the account, if any; the database's error if the
    /// look-up failed.
    pub linked: Option<Result<Option<LinkedMerchant>, String>>,
    /// The encrypted e-mail; none when encryption failed.
    pub encrypted_email: Option<Option<String>>,
    pub profile_updated: bool,
    /// The session token, or why it could not be made.
    pub token: Option<Result<String, String>>,
    pub refresh: Option<u128>,
    /// The new merchant's id, and its display name.
    pub new_id: Option<(u128, String)>,
    pub api_key: Option<String>,
    pub password_hash: Option<Result<String, String>>,
    pub encrypted_key: Option<Option<String>>,
    /// The insertion's outcome: the database's error when it failed.
    pub inserted: Option<Option<String>>,
}

/// A merchant API key: `km_` and 30 digits or lower-case letters.
pub open spec fn api_key_text(k: Seq<char>) -> bool {
    &&& k.len() == 33
    &&& k.subrange(0, 3) == "km_"@
    &&& forall|i: int| 3 <= i < 33 ==> is_lower_alnum(#[trigger] k[i])
}

/// The key an OAuth account is linked by.
pub open spec fn provider_key_of(provider: Seq<char>, open_id: Seq<char>) -> Seq<char> {
    provider + ":"@ + open_id
}

/// The display name of a merchant created by OAuth: the account's name trimmed, or,
/// when blank, the provider and the first eight digits of the new id.
pub open spec fn display_name(provider: Seq<char>, username: Seq<char>, id: u128) -> Seq<char> {
    if trim(username).len() == 0 {
        provider + "_"@ + uuid_text(id).subrange(0, 8)
    } else {
        trim(username)
    }
}

impl LoginFacts {
    /// Nothing known yet of a login to account `open_id` of `provider`.
    pub fn new(provider: &str, open_id: &str, oauth_email: Option<&str>) -> (r: LoginFacts)
        ensures
            r.provider_key@ == provider_key_of(provider@, open_id@),
            r.email@ == email_for(provider@, open_id@, match oauth_email { Some(e) => Some(e@), None => None }),
            r.linked is None && r.encrypted_email is None && !r.profile_updated && r.token is None,
            r.refresh is None && r.new_id is None && r.api_key is None && r.password_hash is None,
            r.encrypted_key is None && r.inserted is None,
    {
        let mut k = concat(provider, ":");
        push_str(&mut k, open_id);
        LoginFacts {
            provider_key: k,
            email: oauth_email_or_fallback(provider, open_id, oauth_email),
            linked: None,
            encrypted_email: None,
            profile_updated: false,
            token: None,
            refresh: None,
            new_id: None,
            api_key: None,
            password_hash: None,
            encrypted_key: None,
            inserted: None,
        }
    }

    /// Draws the new merchant's API key (see `crate::draw::random_api_key`) and
    /// records it.
    pub fn draw_api_key(&mut self)
        ensures
            final(self).api_key matches Some(k) && api_key_text(k@),
            final(self).provider_key == old(self).provider_key,
            final(self).email == old(self).email,
            final(self).linked == old(self).linked,
            final(self).encrypted_email == old(self).encrypted_email,
            final(self).profile_updated == old(self).profile_updated,
            final(self).token == old(self).token,
            final(self).refresh == old(self).refresh,
            final(self).new_id == old(self).new_id,
            final(self).password_hash == old(self).password_hash,
            final(self).encrypted_key == old(self).encrypted_key,
            final(self).inserted == old(self).inserted,
    {
        self.api_key = Some(random_api_key());
    }

    /// Records the new merchant's id and its display name.
    pub fn record_new_id(&mut self, id: u128, provider: &str, username: &str)
        ensures
            final(self).new_id matches Some((i, n)) && i == id && n@ == display_name(provider@, username@, id),
            final(self).provider_key == old(self).provider_key,
            final(self).email == old(self).email,
            final(self).linked == old(self).linked,
            final(self).encrypted_email == old(self).encrypted_email,
            final(self).profile_updated == old(self).profile_updated,
            final(self).token == old(self).token,
            final(self).refresh == old(self).refresh,
            final(self).api_key == old(self).api_key,
            final(self).password_hash == old(self).password_hash,
            final(self).encrypted_key == old(self).encrypted_key,
            final(self).inserted == old(self).inserted,
    {
        let name = if is_blank(username) {
            let u = chars_of(uuid_string(id).as_str());
            proof {
                crate::text::lemma_uuid_len(id);
            }
            let mut n = concat(provider, "_");
            push_str(&mut n, string_of_range(&u, 0, 8).as_str());
            n
        } else {
            str_trim(username)
        };
        self.new_id = Some((id, name));
    }
}

/// The work of an OAuth login.
pub enum LoginAct {
    /// Look up the merchant linked by the provider key.
    FindLinked,
    /// Encrypt the account's e-mail for merchant `id`.
    EncryptEmail { id: u128 },
    /// Store the avatar (when not blank) and the encrypted e-mail on merchant `id`.
    UpdateProfile { id: u128, encrypted_email: String },
    /// Make a session token for merchant `id` as a merchant with the account's e-mail.
    IssueToken { id: u128 },
    /// Draw a refresh token.
    NewRefreshToken,
    /// Draw the new merchant's id (then see `LoginFacts::record_new_id`).
    NewMerchantId,
    /// Draw the new merchant's API key (see `LoginFacts::draw_api_key`).
    NewApiKey,
    /// Hash a random password (see `hash_random_password`).
    HashPassword,
    /// Encrypt the API key for merchant `id`.
    EncryptApiKey { id: u128 },
    /// Insert the new merchant, active, on the free plan, e-mail verified, with the
    /// hash of `api_key` as its API key's hash.
    InsertMerchant { id: u128, username: String, api_key: String, encrypted_email: String, encrypted_key: String, password_hash: String },
    /// The login of the linked merchant succeeded.
    LoggedIn,
    /// A merchant was created and logged in.
    Created,
    Failed(LoginError),
}

/// The step of a login once a linked merchant with a valid id is found: its profile
/// is refreshed when the account brings an avatar or a real e-mail; then the tokens.
pub open spec fn login_linked(id: u128, avatar_url: Seq<char>, f: LoginFacts) -> LoginAct {
    let refresh_profile = trim(avatar_url).len() > 0 || !"@oauth.local"@.is_suffix_of(f.email@);
    if refresh_profile && f.encrypted_email is None {
        LoginAct::EncryptEmail { id }
    } else if refresh_profile && f.encrypted_email->0 is Some && !f.profile_updated {
        LoginAct::UpdateProfile { id, encrypted_email: f.encrypted_email->0->0 }
    } else {
        match f.token {
            None => LoginAct::IssueToken { id },
            Some(Err(e)) => LoginAct::Failed(LoginError::Token(e)),
            Some(Ok(_)) => if f.refresh is None { LoginAct::NewRefreshToken } else { LoginAct::LoggedIn },
        }
    }
}

/// The step of a login that creates a merchant.
pub open spec fn login_create(f: LoginFacts) -> LoginAct {
    match f.new_id {
        None => LoginAct::NewMerchantId,
        Some((id, name)) => match f.api_key {
            None => LoginAct::NewApiKey,
            Some(key) => match f.password_hash {
                None => LoginAct::HashPassword,
                Some(Err(e)) => LoginAct::Failed(LoginError::Hash(e)),
                Some(Ok(ph)) => match f.encrypted_key {
                    None => LoginAct::EncryptApiKey { id },
                    Some(None) => LoginAct::Failed(LoginError::ApiKeyEncrypt),
                    Some(Some(ek)) => match f.encrypted_email {
                        None => LoginAct::EncryptEmail { id },
                        Some(None) => LoginAct::Failed(LoginError::EmailEncrypt),
                        Some(Some(ee)) => match f.inserted {
                            None => LoginAct::InsertMerchant { id, username: name, api_key: key, encrypted_email: ee, encrypted_key: ek, password_hash: ph },
                            Some(Some(e)) => LoginAct::Failed(LoginError::Insert(e)),
                            Some(None) => match f.token {
                                None => LoginAct::IssueToken { id },
                                Some(Err(e)) => LoginAct::Failed(LoginError::Token(e)),
                                Some(Ok(_)) => if f.refresh is None { LoginAct::NewRefreshToken } else { LoginAct::Created },
                            },
                        },
                    },
                },
            },
        },
    }
}

/// The next step of an OAuth login: the account's linked merchant, if any, is logged
/// in (its id must be a uuid); otherwise a merchant is created for the account, with
/// a fresh id, API key and random password, and logged in.
pub open spec fn login_next(avatar_url: Seq<char>, f: LoginFacts) -> LoginAct {
    match f.linked {
        None => LoginAct::FindLinked,
        Some(Err(e)) => LoginAct::Failed(LoginError::Query(e)),
        Some(Ok(Some(m))) => match uuid_of(m.id@) {
            None => LoginAct::Failed(LoginError::BadId),
            Some(id) => login_linked(id, avatar_url, f),
        },
        Some(Ok(None)) => login_create(f),
    }
}


fn login_linked_exec(id: u128, avatar_url: &str, f: &LoginFacts) -> (a: LoginAct)
    ensures
        a == login_linked(id, avatar_url@, *f),
{
    let refresh_profile = !is_blank(avatar_url) || !str_ends_with(f.email.as_str(), "@oauth.local");
    if refresh_profile && f.encrypted_email.is_none() {
        return LoginAct::EncryptEmail { id };
    }
    if refresh_profile && !f.profile_updated {
        if let Some(Some(e)) = &f.encrypted_email {
            return LoginAct::UpdateProfile { id, encrypted_email: e.clone() };
        }
    }
    match &f.token {
        None => LoginAct::IssueToken { id },
        Some(Err(e)) => LoginAct::Failed(LoginError::Token(e.clone())),
        Some(Ok(_)) => if f.refresh.is_none() { LoginAct::NewRefreshToken } else { LoginAct::LoggedIn },
    }
}

fn login_create_exec(f: &LoginFacts) -> (a: LoginAct)
    ensures
        a == login_create(*f),
{
    let (id, name) = match &f.new_id {
        None => { return LoginAct::NewMerchantId; },
        Some((id, name)) => (*id, name),
    };
    let key = match &f.api_key {
        None => { return LoginAct::NewApiKey; },
        Some(k) => k,
    };
    let ph = match &f.password_hash {
        None => { return LoginAct::HashPassword; },
        Some(Err(e)) => { return LoginAct::Failed(LoginError::Hash(e.clone())); },
        Some(Ok(ph)) => ph,
    };
    let ek = match &f.encrypted_key {
        None => { return LoginAct::EncryptApiKey { id }; },
        Some(None) => { return LoginAct::Failed(LoginError::ApiKeyEncrypt); },
        Some(Some(ek)) => ek,
    };
    let ee = match &f.encrypted_email {
        None => { return LoginAct::EncryptEmail { id }; },
        Some(None) => { return LoginAct::Failed(LoginError::EmailEncrypt); },
        Some(Some(ee)) => ee,
    };
    match &f.inserted {
        None => LoginAct::InsertMerchant { id, username: name.clone(), api_key: key.clone(), encrypted_email: ee.clone(), encrypted_key: ek.clone(), password_hash: ph.clone() },
        Some(Some(e)) => LoginAct::Failed(LoginError::Insert(e.clone())),
        Some(None) => match &f.token {
            None => LoginAct::IssueToken { id },
            Some(Err(e)) => LoginAct::Failed(LoginError::Token(e.clone())),
            Some(Ok(_)) => if f.refresh.is_none() { LoginAct::NewRefreshToken } else { LoginAct::Created },
        },
    }
}

/// The next step of an OAuth login (see `login_next`); `avatar_url` is the account's
/// avatar (empty when none).
pub fn decide_login(avatar_url: &str, f: &LoginFacts) -> (a: LoginAct)
    ensures
        a == login_next(avatar_url@, *f),
{
    match &f.linked {
        None => LoginAct::FindLinked,
        Some(Err(e)) => LoginAct::Failed(LoginError::Query(e.clone())),
        Some(Ok(Some(m))) => match crate::public_api::parse_uuid(m.id.as_str()) {
            None => LoginAct::Failed(LoginError::BadId),
            Some(id) => login_linked_exec(id, avatar_url, f),
        },
        Some(Ok(None)) => login_create_exec(f),
    }
}

/// What a login gives back about its merchant.
pub struct LoginUser {
    pub id: String,
    pub username: String,
    pub email: Option<String>,
    pub avatar: String,
    pub plan: String,
    /// The API key of a merchant just created, shown this once.
    pub api_key: Option<String>,
    /// The kind of user: always `merchant`.
    pub user_type: String,
}

/// The result of a successful login.
pub struct LoginPayload {
    /// The role of the session: always `merchant`.
    pub role: String,
    pub created: bool,
    pub token: String,
    pub refresh_token: String,
    pub user: LoginUser,
}

/// The result of a login: for a linked merchant its id, name, plan, the account's
/// e-mail, and the account's avatar (its stored one when the account brings none);
/// for a created one its new id, display name, the account's avatar, the free plan
/// and its API key; with the session and refresh tokens.
pub fn login_payload(avatar_url: &str, f: &LoginFacts) -> (r: LoginPayload)
    requires
        login_next(avatar_url@, *f) is LoggedIn || login_next(avatar_url@, *f) is Created,
    ensures
        r.created == login_next(avatar_url@, *f) is Created,
        r.role@ == "merchant"@ && r.user.user_type@ == "merchant"@,
        f.token matches Some(Ok(t)) && r.token == t,
        r.refresh_token@ == uuid_text(f.refresh->0),
        login_next(avatar_url@, *f) is LoggedIn ==> (f.linked matches Some(Ok(Some(m))) && r.user.id == m.id && r.user.username == m.username
            && r.user.plan == m.plan && r.user.email == Some(f.email) && r.user.api_key is None
            && r.user.avatar@ == if trim(avatar_url@).len() == 0 { match m.avatar_url { Some(a) => a@, None => Seq::empty() } } else { avatar_url@ }),
        login_next(avatar_url@, *f) is Created ==> (f.new_id matches Some((id, name)) && r.user.id@ == uuid_text(id) && r.user.username == name
            && r.user.plan@ == "free"@ && r.user.email is None && r.user.api_key == f.api_key && r.user.avatar@ == avatar_url@),
{
    let token = match &f.token { Some(Ok(t)) => t.clone(), _ => String::new() };
    let refresh = match f.refresh { Some(u) => uuid_string(u), None => String::new() };
    match &f.linked {
        Some(Ok(Some(m))) => {
            let avatar = if is_blank(avatar_url) {
                match &m.avatar_url { Some(a) => a.clone(), None => String::new() }
            } else {
                avatar_url.to_owned()
            };
            LoginPayload {
                role: "merchant".to_owned(),
                created: false,
                token,
                refresh_token: refresh,
                user: LoginUser {
                    id: m.id.clone(),
                    username: m.username.clone(),
                    email: Some(f.email.clone()),
                    avatar,
                    plan: m.plan.clone(),
                    api_key: None,
                    user_type: "merchant".to_owned(),
                },
            }
        },
        _ => {
            let (id, name) = match &f.new_id { Some((i, n)) => (*i, n.clone()), None => (0, String::new()) };
            LoginPayload {
                role: "merchant".to_owned(),
                created: true,
                token,
                refresh_token: refresh,
                user: LoginUser {
                    id: uuid_string(id),
                    username: name,
                    email: None,
                    avatar: avatar_url.to_owned(),
                    plan: "free".to_owned(),
                    api_key: match &f.api_key { Some(k) => Some(k.clone()), None => None },
                    user_type: "merchant".to_owned(),
                },
            }
        },
    }
}

/// The login type and code of a provider's callback: the type defaults to `qq`; a
/// missing or blank code is refused.
pub fn callback_params(q: &OAuthCallbackQuery) -> (r: Option<(String, String)>)
    ensures
        r is Some <==> (q.code is Some && trim(q.code->0@).len() > 0),
        r matches Some((t, c)) ==> c == q.code->0 && t@ == match q.oauth_type { Some(x) => x@, None => "qq"@ },
{
    let code = match &q.code {
        Some(c) => if is_blank(c.as_str()) { return None; } else { c.clone() },
        None => { return None; },
    };
    let t = match &q.oauth_type { Some(x) => x.clone(), None => "qq".to_owned() };
    Some((t, code))
}

/// Where the provider's callback sends the browser once the result is stored under
/// `ticket`.
pub fn ticket_redirect(ticket: u128) -> (r: String)
    ensures
        r@ == "/oauth/callback?ticket="@ + uuid_text(ticket),
{
    let t = uuid_string(ticket);
    concat("/oauth/callback?ticket=", t.as_str())
}

/// The key under which a login's result is kept.
pub fn result_key(ticket: &str) -> (r: String)
    ensures
        r@ == "oauth:result:"@ + ticket@,
{
    concat("oauth:result:", ticket)
}

/// How long a login's result is kept under its ticket: a day.
pub const TICKET_SECS: u64 = 86400;

/// The answer to a request for the result of a login under a ticket.
pub enum TicketAnswer {
    /// The stored result, given as it was stored.
    Stored(Json),
    /// A refusal: the status and the message.
    Refused { status: u16, message: String },
}

/// The right answer for what the result key held: `stored` is none when the key holds
/// nothing (the ticket was never issued or its result has lapsed), and holds none
/// when the text kept there is not JSON. The stored result is given as it is; a
/// lapsed one is refused with 400 and "OAuth登录会话已过期", an unreadable one with
/// 400 and "OAuth结果无效".
pub open spec fn ticket_answer_ok(stored: Option<Option<Json>>, r: TicketAnswer) -> bool {
    match stored {
        Some(Some(v)) => r == TicketAnswer::Stored(v),
        None => r matches TicketAnswer::Refused { status, message } && status == 400 && message@ == "OAuth登录会话已过期"@,
        Some(None) => r matches TicketAnswer::Refused { status, message } && status == 400 && message@ == "OAuth结果无效"@,
    }
}

/// The answer for what a result key held (see `ticket_answer_ok`).
pub fn ticket_answer(stored: Option<Option<Json>>) -> (r: TicketAnswer)
    ensures
        ticket_answer_ok(stored, r),
{
    match stored {
        Some(Some(v)) => TicketAnswer::Stored(v),
        Some(None) => TicketAnswer::Refused { status: 400, message: "OAuth结果无效".to_owned() },
        None => TicketAnswer::Refused { status: 400, message: "OAuth登录会话已过期".to_owned() },
    }
}

/// An OAuth account leads to one merchant: a merchant is created only when none is
/// linked to the account, and a linked merchant is logged in only with a valid id,
/// a session token and a refresh token.
pub proof fn law_account_links_one_merchant(avatar_url: Seq<char>, f: LoginFacts)
    ensures
        login_next(avatar_url, f) is InsertMerchant ==> f.linked == Some(Ok::<Option<LinkedMerchant>, String>(None)),
        login_next(avatar_url, f) is Created ==> (f.linked == Some(Ok::<Option<LinkedMerchant>, String>(None)) && f.inserted == Some(None::<String>)
            && f.token is Some && f.token->0 is Ok && f.refresh is Some),
        login_next(avatar_url, f) is LoggedIn ==> (f.linked matches Some(Ok(Some(m))) && uuid_of(m.id@) is Some),
        login_next(avatar_url, f) is LoggedIn ==> f.token is Some && f.token->0 is Ok && f.refresh is Some,
{
}

/// A second login finds the same merchant. A first login to an account of a
/// provider inserts its merchant only when none is linked, under the account's
/// provider key; a second login to the same account looks up that same key, and once
/// it finds the linked merchant it never draws a new id, API key or password, never
/// inserts a merchant and never reports one created: it logs that merchant in (a
/// merchant with a valid id), or fails.
pub proof fn law_second_login_finds_merchant(
    provider: Seq<char>,
    open_id: Seq<char>,
    first_avatar: Seq<char>,
    first: LoginFacts,
    avatar_url: Seq<char>,
    second: LoginFacts,
    m: LinkedMerchant,
)
    requires
        first.provider_key@ == provider_key_of(provider, open_id),
        second.provider_key@ == provider_key_of(provider, open_id),
        login_next(first_avatar, first) is InsertMerchant,
        second.linked == Some(Ok::<Option<LinkedMerchant>, String>(Some(m))),
    ensures
        first.linked == Some(Ok::<Option<LinkedMerchant>, String>(None)),
        second.provider_key@ == first.provider_key@,
        !(login_next(avatar_url, second) is NewMerchantId),
        !(login_next(avatar_url, second) is NewApiKey),
        !(login_next(avatar_url, second) is HashPassword),
        !(login_next(avatar_url, second) is EncryptApiKey),
        !(login_next(avatar_url, second) is InsertMerchant),
        !(login_next(avatar_url, second) is Created),
        login_next(avatar_url, second) is LoggedIn ==> uuid_of(m.id@) is Some,
{
}

/// An OAuth ticket leads back to the stored result: the redirect for `ticket`
/// carries, after `?ticket=`, exactly the ticket's text, so the key that the result
/// page reads for the ticket it is handed is the key the result was stored under;
/// what it finds there (within `TICKET_SECS` of the storing) is answered as it was
/// stored, and a key that holds nothing is answered that the session has expired.
pub proof fn law_ticket_reads_stored_result(ticket: u128, payload: Json)
    ensures
        ({
            let url = "/oauth/callback?ticket="@ + uuid_text(ticket);
            &&& "/oauth/callback?ticket="@.is_prefix_of(url)
            &&& url.subrange(23, url.len() as int) == uuid_text(ticket)
            &&& "oauth:result:"@ + url.subrange(23, url.len() as int) == "oauth:result:"@ + uuid_text(ticket)
        }),
        forall|r: TicketAnswer| #[trigger] ticket_answer_ok(Some(Some(payload)), r) ==> r == TicketAnswer::Stored(payload),
        forall|r: TicketAnswer| #[trigger] ticket_answer_ok(None, r) ==> (r matches TicketAnswer::Refused { status, message } && status == 400 && message@ == "OAuth登录会话已过期"@),
{
    reveal_strlit("/oauth/callback?ticket=");
    let p = "/oauth/callback?ticket="@;
    let url = p + uuid_text(ticket);
    assert(p.len() == 23);
    assert(url.subrange(0, 23) == p);
    assert(url.subrange(23, url.len() as int) == uuid_text(ticket));
}

/// A linked merchant's profile is refreshed only when the account brings an avatar
/// or a real (not local) e-mail.
pub proof fn law_profile_refresh_needs_news(avatar_url: Seq<char>, f: LoginFacts)
    requires
        login_next(avatar_url, f) is UpdateProfile,
    ensures
        trim(avatar_url).len() > 0 || !"@oauth.local"@.is_suffix_of(f.email@),
{
}

} // verus!
