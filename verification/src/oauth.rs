use vstd::prelude::*;
use crate::json::{Json, at_path, as_str, member, leaf_text, get_member, json_str, leaf};
use crate::text::{trim, trim_end_char, is_blank, str_trim, str_eq, chars_of, string_of_range, concat, push_str};

verus! {

/// A direct OAuth login from a client that already knows the user.
pub struct OAuthLoginRequest {
    pub provider: String,
    pub open_id: String,
    pub username: Option<String>,
    pub avatar_url: Option<String>,
}

/// A request to finish a profile after an OAuth login.
pub struct CompleteProfileRequest {
    pub token: String,
    pub username: String,
    pub password: String,
}

/// A request for the provider's login address; blank fields fall back to the settings.
pub struct OAuthProxyRequest {
    pub appid: String,
    pub appkey: String,
    pub redirect_uri: String,
    pub oauth_type: String,
}

/// The query of the provider's callback.
pub struct OAuthCallbackQuery {
    pub oauth_type: Option<String>,
    pub code: Option<String>,
}

/// The query that fetches a login's result by its ticket.
pub struct OAuthResultQuery {
    pub ticket: String,
}

/// The OAuth settings.
pub struct OAuthSettings {
    pub enabled: bool,
    pub appid: String,
    pub appkey: String,
    pub base_url: String,
    pub login_path: String,
    pub user_path: String,
    pub redirect_uri: String,
    pub enabled_types: Vec<String>,
}

/// OAuth settings as an administrator submits them.
pub struct SaveOAuthSettings {
    pub enabled: bool,
    pub appid: String,
    pub appkey: String,
    pub base_url: String,
    pub login_path: String,
    pub user_path: String,
    pub redirect_uri: String,
    pub enabled_types: Vec<String>,
}

/// A base URL without surrounding white space and without trailing slashes.
pub open spec fn normal_base(url: Seq<char>) -> Seq<char> {
    trim_end_char(trim(url), '/')
}

/// A path without surrounding white space, with a leading slash; `default` when blank.
pub open spec fn normal_path(path: Seq<char>, default: Seq<char>) -> Seq<char> {
    let p = trim(path);
    if p.len() == 0 {
        default
    } else if p[0] == '/' {
        p
    } else {
        seq!['/'] + p
    }
}

/// A base URL joined with a path.
pub open spec fn joined(base: Seq<char>, path: Seq<char>) -> Seq<char> {
    normal_base(base) + normal_path(path, Seq::empty())
}

/// The callback address: the configured one, or the default route when it is blank.
pub open spec fn redirect_of(uri: Seq<char>) -> Seq<char> {
    if trim(uri).len() == 0 { "/auth/oauth/callback"@ } else { uri }
}

/// What `str::to_lowercase` gives for `s`.
pub uninterp spec fn lowercase(s: Seq<char>) -> Seq<char>;

/// `str::to_lowercase`: its result is named `lowercase(s)`; what the Unicode
/// lower-case mapping gives is not stated.
#[verifier::external_body]
fn to_lowercase(s: &str) -> (r: String)
    ensures
        r@ == lowercase(s@),
{
    s.to_lowercase()
}

/// Every character of `s` is an ASCII digit (true of the empty text).
pub open spec fn all_digits(s: Seq<char>) -> bool {
    forall|i: int| 0 <= i < s.len() ==> '0' <= #[trigger] s[i] <= '9'
}

/// The e-mail of an OAuth user: the provider's one, in lower case, when it has an
/// `@`; a QQ address for a QQ user whose id is all digits; else a local address.
pub open spec fn email_for(provider: Seq<char>, open_id: Seq<char>, email: Option<Seq<char>>) -> Seq<char> {
    if email is Some && email->0.contains('@') {
        lowercase(email->0)
    } else if provider == "qq"@ && all_digits(open_id) {
        open_id + "@qq.com"@
    } else {
        open_id + "@oauth.local"@
    }
}

/// `url` without surrounding white space and trailing slashes.
pub fn normalize_base_url(url: &str) -> (r: String)
    ensures
        r@ == normal_base(url@),
{
    let v = chars_of(url);
    let (lo, hi0) = crate::text::trim_bounds(&v);
    let mut hi = hi0;
    proof {
        assert(v@.subrange(lo as int, hi as int) == trim(v@));
    }
    while hi > lo && v[hi - 1] == '/'
        invariant
            lo <= hi <= v@.len(),
            trim_end_char(trim(url@), '/') == trim_end_char(v@.subrange(lo as int, hi as int), '/'),
            v@ == url@,
        decreases hi - lo,
    {
        assert(v@.subrange(lo as int, hi as int).drop_last() == v@.subrange(lo as int, hi - 1));
        hi = hi - 1;
    }
    string_of_range(&v, lo, hi)
}

/// `path` trimmed and with a leading slash, or `default_path` when it is blank.
pub fn normalize_path(path: &str, default_path: &str) -> (r: String)
    ensures
        r@ == normal_path(path@, default_path@),
{
    let p = str_trim(path);
    if p.as_str().is_empty() {
        default_path.to_owned()
    } else if crate::text::str_starts_with(p.as_str(), "/") {
        proof {
            reveal_strlit("/");
            assert(p@[0] == "/"@[0]);
        }
        p
    } else {
        proof {
            reveal_strlit("/");
        }
        let r = concat("/", p.as_str());
        assert(r@ == seq!['/'] + p@);
        r
    }
}

/// The base URL joined with the path.
pub fn join_url(base: &str, path: &str) -> (r: String)
    ensures
        r@ == joined(base@, path@),
{
    let b = normalize_base_url(base);
    let p = normalize_path(path, "");
    proof {
        reveal_strlit("");
    }
    assert(""@ == Seq::<char>::empty());
    concat(b.as_str(), p.as_str())
}

/// The callback address of the settings.
pub fn configured_redirect_uri(settings: &OAuthSettings) -> (r: String)
    ensures
        r@ == redirect_of(settings.redirect_uri@),
{
    if is_blank(settings.redirect_uri.as_str()) {
        "/auth/oauth/callback".to_owned()
    } else {
        settings.redirect_uri.clone()
    }
}

fn digits_only(s: &str) -> (b: bool)
    ensures
        b == all_digits(s@),
{
    let v = chars_of(s);
    let mut i: usize = 0;
    while i < v.len()
        invariant
            v@ == s@,
            i <= v@.len(),
            forall|k: int| 0 <= k < i ==> '0' <= #[trigger] v@[k] <= '9',
        decreases v@.len() - i,
    {
        if !('0' <= v[i] && v[i] <= '9') {
            return false;
        }
        i = i + 1;
    }
    true
}

fn has_at(s: &str) -> (b: bool)
    ensures
        b == s@.contains('@'),
{
    let v = chars_of(s);
    let mut i: usize = 0;
    while i < v.len()
        invariant
            v@ == s@,
            i <= v@.len(),
            forall|k: int| 0 <= k < i ==> v@[k] != '@',
        decreases v@.len() - i,
    {
        if v[i] == '@' {
            return true;
        }
        i = i + 1;
    }
    false
}

/// The e-mail of an OAuth user (see `email_for`).
pub fn oauth_email_or_fallback(provider: &str, open_id: &str, oauth_email: Option<&str>) -> (r: String)
    ensures
        r@ == email_for(provider@, open_id@, match oauth_email { Some(e) => Some(e@), None => None }),
{
    if let Some(e) = oauth_email {
        if has_at(e) {
            return to_lowercase(e);
        }
    }
    if str_eq(provider, "qq") && digits_only(open_id) {
        return concat(open_id, "@qq.com");
    }
    concat(open_id, "@oauth.local")
}

/// The settings in force when none are stored.
pub fn default_settings() -> (r: OAuthSettings)
    ensures
        !r.enabled,
        r.appid@.len() == 0 && r.appkey@.len() == 0 && r.redirect_uri@.len() == 0,
        r.base_url@ == "https://u.suyanw.cn"@,
        r.login_path@ == "/connect.php"@,
        r.user_path@ == "/api.php"@,
        r.enabled_types@.len() == 0,
{
    OAuthSettings {
        enabled: false,
        appid: String::new(),
        appkey: String::new(),
        base_url: "https://u.suyanw.cn".to_owned(),
        login_path: "/connect.php".to_owned(),
        user_path: "/api.php".to_owned(),
        redirect_uri: String::new(),
        enabled_types: Vec::new(),
    }
}

/// The settings as anyone may read them: no application id or key, and the callback
/// address in force.
pub struct PublicOAuthSettings {
    pub enabled: bool,
    pub base_url: String,
    pub login_path: String,
    pub user_path: String,
    pub redirect_uri: String,
    pub enabled_types: Vec<String>,
}

/// The public part of the settings.
pub fn public_settings(settings: &OAuthSettings) -> (r: PublicOAuthSettings)
    ensures
        r.enabled == settings.enabled,
        r.base_url == settings.base_url,
        r.login_path == settings.login_path,
        r.user_path == settings.user_path,
        r.redirect_uri@ == redirect_of(settings.redirect_uri@),
        r.enabled_types@ == settings.enabled_types@,
{
    PublicOAuthSettings {
        enabled: settings.enabled,
        base_url: settings.base_url.clone(),
        login_path: settings.login_path.clone(),
        user_path: settings.user_path.clone(),
        redirect_uri: configured_redirect_uri(settings),
        enabled_types: clone_strings(&settings.enabled_types),
    }
}

/// A copy of a list of strings.
pub fn clone_strings(v: &Vec<String>) -> (r: Vec<String>)
    ensures
        r@ == v@,
{
    let mut r: Vec<String> = Vec::new();
    let mut i: usize = 0;
    while i < v.len()
        invariant
            i <= v@.len(),
            r@ == v@.subrange(0, i as int),
        decreases v@.len() - i,
    {
        r.push(v[i].clone());
        assert(v@.subrange(0, i + 1) == v@.subrange(0, i as int).push(v@[i as int]));
        i = i + 1;
    }
    assert(v@.subrange(0, v@.len() as int) == v@);
    r
}

/// Why submitted settings are refused.
#[derive(Clone, Copy, Debug, PartialEq, Eq)]
pub enum ConfigRefusal {
    /// Only an administrator may change them.
    Forbidden,
    /// Enabled settings need an application id, a key and a base URL.
    Incomplete,
}

/// The text of a refusal of settings.
pub open spec fn config_refusal_text(r: ConfigRefusal) -> Seq<char> {
    match r {
        ConfigRefusal::Forbidden => "需要管理员权限"@,
        ConfigRefusal::Incomplete => "OAuth配置不完整"@,
    }
}

/// The text of a refusal of settings (see `config_refusal_text`).
pub fn config_refusal_message(r: ConfigRefusal) -> (t: String)
    ensures
        t@ == config_refusal_text(r),
{
    match r {
        ConfigRefusal::Forbidden => "需要管理员权限".to_owned(),
        ConfigRefusal::Incomplete => "OAuth配置不完整".to_owned(),
    }
}

/// The settings to store for a submission by a user of role `role`: refused unless
/// the role is `admin`; refused when enabled without an application id, a key or a
/// base URL; otherwise the fields trimmed, the base URL and the paths normalized
/// (the paths defaulting to `/connect.php` and `/api.php`).
pub fn settings_to_save(role: &str, body: &SaveOAuthSettings) -> (r: Result<OAuthSettings, ConfigRefusal>)
    ensures
        role@ != "admin"@ ==> r == Err::<OAuthSettings, ConfigRefusal>(ConfigRefusal::Forbidden),
        role@ == "admin"@ ==> (r == Err::<OAuthSettings, ConfigRefusal>(ConfigRefusal::Incomplete) <==> (
            body.enabled && (trim(body.appid@).len() == 0 || trim(body.appkey@).len() == 0
                || normal_base(body.base_url@).len() == 0))),
        r is Ok <==> (role@ == "admin"@ && !(body.enabled && (trim(body.appid@).len() == 0 || trim(body.appkey@).len() == 0
            || normal_base(body.base_url@).len() == 0))),
        r matches Ok(s) ==> {
            &&& s.enabled == body.enabled
            &&& s.appid@ == trim(body.appid@)
            &&& s.appkey@ == trim(body.appkey@)
            &&& s.base_url@ == normal_base(body.base_url@)
            &&& s.login_path@ == normal_path(body.login_path@, "/connect.php"@)
            &&& s.user_path@ == normal_path(body.user_path@, "/api.php"@)
            &&& s.redirect_uri@ == trim(body.redirect_uri@)
            &&& s.enabled_types@ == body.enabled_types@
        },
{
    if !str_eq(role, "admin") {
        return Err(ConfigRefusal::Forbidden);
    }
    let base_url = normalize_base_url(body.base_url.as_str());
    let login_path = normalize_path(body.login_path.as_str(), "/connect.php");
    let user_path = normalize_path(body.user_path.as_str(), "/api.php");
    if body.enabled && (is_blank(body.appid.as_str()) || is_blank(body.appkey.as_str()) || base_url.as_str().is_empty()) {
        return Err(ConfigRefusal::Incomplete);
    }
    Ok(OAuthSettings {
        enabled: body.enabled,
        appid: str_trim(body.appid.as_str()),
        appkey: str_trim(body.appkey.as_str()),
        base_url,
        login_path,
        user_path,
        redirect_uri: str_trim(body.redirect_uri.as_str()),
        enabled_types: clone_strings(&body.enabled_types),
    })
}

/// `t` is one of `types`.
pub open spec fn type_enabled(types: Seq<String>, t: Seq<char>) -> bool {
    exists|i: int| 0 <= i < types.len() && (#[trigger] types[i])@ == t
}

fn contains_type(types: &Vec<String>, t: &str) -> (b: bool)
    ensures
        b == type_enabled(types@, t@),
{
    let mut i: usize = 0;
    while i < types.len()
        invariant
            i <= types@.len(),
            forall|k: int| 0 <= k < i ==> (#[trigger] types@[k])@ != t@,
        decreases types@.len() - i,
    {
        if str_eq(types[i].as_str(), t) {
            return true;
        }
        i = i + 1;
    }
    false
}

/// The request for the provider's login address.
pub struct ProxyCall {
    pub url: String,
    pub appid: String,
    pub appkey: String,
    pub redirect_uri: String,
    pub oauth_type: String,
}

/// Why a login address is not asked for.
#[derive(Clone, Copy, Debug, PartialEq, Eq)]
pub enum ProxyRefusal {
    Disabled,
    TypeDisabled,
    Incomplete,
}

/// The text of a refusal of a login address.
pub open spec fn proxy_refusal_text(r: ProxyRefusal) -> Seq<char> {
    match r {
        ProxyRefusal::Disabled => "第三方登录未启用"@,
        ProxyRefusal::TypeDisabled => "该登录类型未启用"@,
        ProxyRefusal::Incomplete => "OAuth配置不完整"@,
    }
}

/// The text of a refusal of a login address (see `proxy_refusal_text`).
pub fn proxy_refusal_message(r: ProxyRefusal) -> (t: String)
    ensures
        t@ == proxy_refusal_text(r),
{
    match r {
        ProxyRefusal::Disabled => "第三方登录未启用".to_owned(),
        ProxyRefusal::TypeDisabled => "该登录类型未启用".to_owned(),
        ProxyRefusal::Incomplete => "OAuth配置不完整".to_owned(),
    }
}

/// A field of the request, or the settings' value when the request's is blank.
pub open spec fn or_setting(given: Seq<char>, setting: Seq<char>) -> Seq<char> {
    if trim(given).len() == 0 { setting } else { given }
}

/// The request for the provider's login address: refused when OAuth is disabled or
/// the login type is not enabled; blank fields of the request take the settings'
/// values (the callback address its default); refused when the application id, the
/// key or the callback address is still blank; sent to the login path of the base URL.
pub fn proxy_call(settings: &OAuthSettings, body: &OAuthProxyRequest) -> (r: Result<ProxyCall, ProxyRefusal>)
    ensures
        !settings.enabled ==> r == Err::<ProxyCall, ProxyRefusal>(ProxyRefusal::Disabled),
        settings.enabled && !type_enabled(settings.enabled_types@, body.oauth_type@) ==> r == Err::<
            ProxyCall,
            ProxyRefusal,
        >(ProxyRefusal::TypeDisabled),
        settings.enabled && type_enabled(settings.enabled_types@, body.oauth_type@) ==> (r == Err::<
            ProxyCall,
            ProxyRefusal,
        >(ProxyRefusal::Incomplete) <==> (trim(or_setting(body.appid@, settings.appid@)).len() == 0
            || trim(or_setting(body.appkey@, settings.appkey@)).len() == 0 || trim(
            or_setting(body.redirect_uri@, redirect_of(settings.redirect_uri@)),
        ).len() == 0)),
        r is Ok <==> (settings.enabled && type_enabled(settings.enabled_types@, body.oauth_type@) && !(trim(
            or_setting(body.appid@, settings.appid@),
        ).len() == 0 || trim(or_setting(body.appkey@, settings.appkey@)).len() == 0 || trim(
            or_setting(body.redirect_uri@, redirect_of(settings.redirect_uri@)),
        ).len() == 0)),
        r matches Ok(c) ==> {
            &&& c.url@ == joined(settings.base_url@, settings.login_path@)
            &&& c.appid@ == or_setting(body.appid@, settings.appid@)
            &&& c.appkey@ == or_setting(body.appkey@, settings.appkey@)
            &&& c.redirect_uri@ == or_setting(body.redirect_uri@, redirect_of(settings.redirect_uri@))
            &&& c.oauth_type@ == body.oauth_type@
        },
{
    if !settings.enabled {
        return Err(ProxyRefusal::Disabled);
    }
    if !contains_type(&settings.enabled_types, body.oauth_type.as_str()) {
        return Err(ProxyRefusal::TypeDisabled);
    }
    let appid = if is_blank(body.appid.as_str()) { settings.appid.clone() } else { body.appid.clone() };
    let appkey = if is_blank(body.appkey.as_str()) { settings.appkey.clone() } else { body.appkey.clone() };
    let redirect_uri = if is_blank(body.redirect_uri.as_str()) { configured_redirect_uri(settings) } else { body.redirect_uri.clone() };
    if is_blank(appid.as_str()) || is_blank(appkey.as_str()) || is_blank(redirect_uri.as_str()) {
        return Err(ProxyRefusal::Incomplete);
    }
    Ok(ProxyCall {
        url: join_url(settings.base_url.as_str(), settings.login_path.as_str()),
        appid,
        appkey,
        redirect_uri,
        oauth_type: body.oauth_type.clone(),
    })
}

/// What the provider's answer to a login-address request comes to.
pub enum ProxyReply {
    /// The login address.
    Url(String),
    /// The provider's JSON carries no address; the message to show.
    Refused(String),
    /// The answer is not JSON.
    Unreadable,
}

/// The message of an answer without an address: its `msg` member when present (else
/// its `message` member), when that is text; else a fixed message.
pub open spec fn refusal_message(v: Json) -> Seq<char> {
    let m = if member(v, "msg"@) is Some { member(v, "msg"@) } else { member(v, "message"@) };
    match m {
        Some(x) => match as_str(x) {
            Some(t) => t,
            None => "获取登录地址失败"@,
        },
        None => "获取登录地址失败"@,
    }
}

/// The login address in an answer: the text member `url`, else the text at `/data/url`.
pub open spec fn login_url_in(v: Json) -> Option<Seq<char>> {
    match member(v, "url"@) {
        Some(x) if as_str(x) is Some => as_str(x),
        _ => match at_path(v, seq!["data"@, "url"@]) {
            Some(y) => as_str(y),
            None => None,
        },
    }
}

/// What the provider's answer comes to, given the answer parsed as JSON (none when it
/// is not JSON).
pub fn proxy_reply(body: Option<&Json>) -> (r: ProxyReply)
    ensures
        body is None ==> r is Unreadable,
        body matches Some(v) ==> match login_url_in(*v) {
            Some(u) => r matches ProxyReply::Url(x) && x@ == u,
            None => r matches ProxyReply::Refused(m) && m@ == refusal_message(*v),
        },
{
    proof {
        reveal_with_fuel(at_path, 3);
    }
    let v = match body {
        None => { return ProxyReply::Unreadable; },
        Some(v) => v,
    };
    if let Some(x) = get_member(v, "url") {
        if let Some(u) = json_str(x) {
            return ProxyReply::Url(u);
        }
    }
    if let Some(d) = get_member(v, "data") {
        assert(seq!["data"@, "url"@].drop_first() == seq!["url"@]);
        assert(seq!["url"@].drop_first() == Seq::<Seq<char>>::empty());
        if let Some(x) = get_member(d, "url") {
            if let Some(u) = json_str(x) {
                return ProxyReply::Url(u);
            }
        }
    }
    let m = match get_member(v, "msg") {
        Some(x) => Some(x),
        None => get_member(v, "message"),
    };
    let t = match m {
        Some(x) => match json_str(x) {
            Some(t) => t,
            None => "获取登录地址失败".to_owned(),
        },
        None => "获取登录地址失败".to_owned(),
    };
    ProxyReply::Refused(t)
}

/// The places a user field is looked for: the top level, `data`, `userinfo` and
/// `data.userinfo`.
pub open spec fn key_paths(k: Seq<char>) -> Seq<Seq<Seq<char>>> {
    seq![seq![k], seq!["data"@, k], seq!["userinfo"@, k], seq!["data"@, "userinfo"@, k]]
}

/// The text of the leaf at `path`, if it is a non-empty string or an integer.
pub open spec fn text_at(v: Json, path: Seq<Seq<char>>) -> Option<Seq<char>> {
    match at_path(v, path) {
        Some(x) => leaf_text(x),
        None => None,
    }
}

/// The first text found for key `k`, in the order of `key_paths`.
pub open spec fn find_key(v: Json, k: Seq<char>) -> Option<Seq<char>> {
    let p = key_paths(k);
    if text_at(v, p[0]) is Some { text_at(v, p[0]) }
    else if text_at(v, p[1]) is Some { text_at(v, p[1]) }
    else if text_at(v, p[2]) is Some { text_at(v, p[2]) }
    else { text_at(v, p[3]) }
}

/// The first text found for any of `keys`, trying them in order.
pub open spec fn find_text(v: Json, keys: Seq<Seq<char>>) -> Option<Seq<char>>
    decreases keys.len(),
{
    if keys.len() == 0 {
        None
    } else {
        match find_key(v, keys[0]) {
            Some(t) => Some(t),
            None => find_text(v, keys.drop_first()),
        }
    }
}

fn leaf_of(x: Option<&Json>) -> (r: Option<String>)
    ensures
        x is None ==> r is None,
        x matches Some(y) ==> (r is Some <==> leaf_text(*y) is Some) && (r is Some ==> r->0@ == leaf_text(*y)->0),
{
    match x {
        Some(y) => leaf(y),
        None => None,
    }
}

/// The first text found for key `k` (see `find_key`).
fn find_key_text(v: &Json, k: &str) -> (r: Option<String>)
    ensures
        r is Some <==> find_key(*v, k@) is Some,
        r is Some ==> r->0@ == find_key(*v, k@)->0,
{
    proof {
        reveal_with_fuel(at_path, 4);
        let p = key_paths(k@);
        assert(p[0].drop_first() == Seq::<Seq<char>>::empty());
        assert(p[1].drop_first() == seq![k@]);
        assert(p[2].drop_first() == seq![k@]);
        assert(p[3].drop_first() == seq!["userinfo"@, k@]);
        assert(seq!["userinfo"@, k@].drop_first() == seq![k@]);
        assert(seq![k@].drop_first() == Seq::<Seq<char>>::empty());
    }
    let a = leaf_of(get_member(v, k));
    if a.is_some() {
        return a;
    }
    let data = get_member(v, "data");
    let b = match data {
        Some(d) => leaf_of(get_member(d, k)),
        None => None,
    };
    if b.is_some() {
        return b;
    }
    let c = match get_member(v, "userinfo") {
        Some(u) => leaf_of(get_member(u, k)),
        None => None,
    };
    if c.is_some() {
        return c;
    }
    match data {
        Some(d) => match get_member(d, "userinfo") {
            Some(u) => leaf_of(get_member(u, k)),
            None => None,
        },
        None => None,
    }
}

/// The first text found for any of `keys` (see `find_text`).
pub fn find_str(v: &Json, keys: &[&str]) -> (r: Option<String>)
    ensures
        r is Some <==> find_text(*v, keys@.map_values(|k: &str| k@)) is Some,
        r is Some ==> r->0@ == find_text(*v, keys@.map_values(|k: &str| k@))->0,
{
    let ghost ks = keys@.map_values(|k: &str| k@);
    let mut i: usize = 0;
    assert(ks.subrange(0, ks.len() as int) == ks);
    while i < keys.len()
        invariant
            ks == keys@.map_values(|k: &str| k@),
            i <= keys@.len(),
            find_text(*v, ks) == find_text(*v, ks.subrange(i as int, ks.len() as int)),
        decreases keys@.len() - i,
    {
        let ghost rest = ks.subrange(i as int, ks.len() as int);
        assert(rest[0] == keys@[i as int]@);
        assert(rest.drop_first() == ks.subrange(i + 1, ks.len() as int));
        let t = find_key_text(v, keys[i]);
        if t.is_some() {
            return t;
        }
        i = i + 1;
    }
    None
}

/// A user as the OAuth provider describes it.
pub struct OAuthUser {
    pub open_id: String,
    pub username: String,
    pub avatar: String,
    pub email: Option<String>,
}

/// The keys an id is looked for under, in order.
pub open spec fn id_keys() -> Seq<Seq<char>> {
    seq!["openid"@, "open_id"@, "social_uid"@, "uid"@, "id"@, "unionid"@]
}

/// The keys a user name is looked for under, in order.
pub open spec fn name_keys() -> Seq<Seq<char>> {
    seq!["nickname"@, "nick"@, "name"@, "username"@]
}

/// The keys an avatar is looked for under, in order.
pub open spec fn avatar_keys() -> Seq<Seq<char>> {
    seq!["avatar"@, "avatar_url"@, "faceimg"@, "figureurl_qq_2"@, "headimgurl"@]
}

/// The keys an e-mail is looked for under, in order.
pub open spec fn email_keys() -> Seq<Seq<char>> {
    seq!["email"@, "mail"@, "qq_email"@]
}

/// The user in a provider's answer `v` (whose text is `v_text`): it must carry an
/// id; the name defaults to the login type, the avatar to nothing.
pub fn extract_user(v: &Json, v_text: &str, oauth_type: &str) -> (r: Result<OAuthUser, String>)
    ensures
        find_text(*v, id_keys()) is None ==> (r matches Err(e) && e@ == "OAuth返回缺少openid: "@ + v_text@),
        find_text(*v, id_keys()) matches Some(id) ==> (r matches Ok(u) && {
            &&& u.open_id@ == id
            &&& u.username@ == match find_text(*v, name_keys()) { Some(n) => n, None => oauth_type@ }
            &&& u.avatar@ == match find_text(*v, avatar_keys()) { Some(a) => a, None => Seq::empty() }
            &&& match find_text(*v, email_keys()) {
                Some(e) => u.email matches Some(x) && x@ == e,
                None => u.email is None,
            }
        }),
{
    let ids: [&str; 6] = ["openid", "open_id", "social_uid", "uid", "id", "unionid"];
    assert(ids@.map_values(|k: &str| k@) == id_keys());
    let names: [&str; 4] = ["nickname", "nick", "name", "username"];
    assert(names@.map_values(|k: &str| k@) == name_keys());
    let avatars: [&str; 5] = ["avatar", "avatar_url", "faceimg", "figureurl_qq_2", "headimgurl"];
    assert(avatars@.map_values(|k: &str| k@) == avatar_keys());
    let emails: [&str; 3] = ["email", "mail", "qq_email"];
    assert(emails@.map_values(|k: &str| k@) == email_keys());
    let open_id = match find_str(v, &ids) {
        Some(t) => t,
        None => { return Err(concat("OAuth返回缺少openid: ", v_text)); },
    };
    let username = match find_str(v, &names) {
        Some(t) => t,
        None => oauth_type.to_owned(),
    };
    let avatar = match find_str(v, &avatars) {
        Some(t) => t,
        None => String::new(),
    };
    let email = find_str(v, &emails);
    Ok(OAuthUser { open_id, username, avatar, email })
}

/// One answer to a user-information request.
pub enum FetchAnswer {
    /// The request failed; the error's text.
    Failed(String),
    /// The provider answered: whether with a success status, the body, and the body
    /// parsed as JSON with its text as JSON writes it (none when it is not JSON).
    Replied { success: bool, text: String, body: Option<(Json, String)> },
}

/// The next move in fetching the user behind a login code.
#[derive(Clone, Copy, Debug, PartialEq, Eq)]
pub enum FetchStep {
    /// OAuth is disabled.
    Disabled,
    /// Ask candidate address `candidate` (see `fetch_url`) with action `act` (see
    /// `fetch_act`).
    Request { candidate: usize, act: usize },
    /// Answer `index` is the user's description.
    Found(usize),
    /// Every request was made and none gave a description.
    Exhausted,
}

/// Answer `a` is a description: JSON with a success status.
pub open spec fn is_description(a: FetchAnswer) -> bool {
    a matches FetchAnswer::Replied { success, body, .. } && success && body is Some
}

/// The first description among the answers.
pub open spec fn first_description(answers: Seq<FetchAnswer>) -> Option<int>
    decreases answers.len(),
{
    if answers.len() == 0 {
        None
    } else if is_description(answers[0]) {
        Some(0)
    } else {
        match first_description(answers.drop_first()) {
            Some(i) => Some(i + 1),
            None => None,
        }
    }
}

/// Fetching a user: three addresses (the user path, the login path and
/// `/connect.php`) are tried in turn, each with the actions `callback`,
/// `get_user_info` and `userinfo`, until one answer is a description.
pub open spec fn fetch_next(enabled: bool, answers: Seq<FetchAnswer>) -> FetchStep {
    if !enabled {
        FetchStep::Disabled
    } else {
        match first_description(answers) {
            Some(i) => FetchStep::Found(i as usize),
            None => if answers.len() < 9 {
                FetchStep::Request { candidate: (answers.len() / 3) as usize, act: (answers.len() % 3) as usize }
            } else {
                FetchStep::Exhausted
            },
        }
    }
}

/// The next move in fetching a user (see `fetch_next`).
pub fn fetch_step(settings: &OAuthSettings, answers: &Vec<FetchAnswer>) -> (r: FetchStep)
    ensures
        r == fetch_next(settings.enabled, answers@),
{
    if !settings.enabled {
        return FetchStep::Disabled;
    }
    let mut i: usize = 0;
    assert(answers@.subrange(0, answers@.len() as int) == answers@);
    while i < answers.len()
        invariant
            settings.enabled,
            i <= answers@.len(),
            forall|k: int| 0 <= k < i ==> !is_description(#[trigger] answers@[k]),
            first_description(answers@) == match first_description(answers@.subrange(i as int, answers@.len() as int)) {
                Some(j) => Some(j + i),
                None => None::<int>,
            },
        decreases answers@.len() - i,
    {
        let ghost rest = answers@.subrange(i as int, answers@.len() as int);
        assert(rest.drop_first() == answers@.subrange(i + 1, answers@.len() as int));
        let found = match &answers[i] {
            FetchAnswer::Replied { success, body, .. } => *success && body.is_some(),
            _ => false,
        };
        if found {
            assert(rest[0] == answers@[i as int]);
            assert(is_description(rest[0]));
            assert(first_description(rest) == Some(0int));
            return FetchStep::Found(i);
        }
        i = i + 1;
    }
    if answers.len() < 9 {
        FetchStep::Request { candidate: answers.len() / 3, act: answers.len() % 3 }
    } else {
        FetchStep::Exhausted
    }
}

/// The address of candidate `c`.
pub open spec fn fetch_url_of(s: OAuthSettings, c: int) -> Seq<char> {
    if c == 0 {
        joined(s.base_url@, s.user_path@)
    } else if c == 1 {
        joined(s.base_url@, s.login_path@)
    } else {
        joined(s.base_url@, "/connect.php"@)
    }
}

/// The address of candidate `candidate` (see `fetch_url_of`).
pub fn fetch_url(settings: &OAuthSettings, candidate: usize) -> (r: String)
    ensures
        r@ == fetch_url_of(*settings, candidate as int),
{
    if candidate == 0 {
        join_url(settings.base_url.as_str(), settings.user_path.as_str())
    } else if candidate == 1 {
        join_url(settings.base_url.as_str(), settings.login_path.as_str())
    } else {
        join_url(settings.base_url.as_str(), "/connect.php")
    }
}

/// The name of action `a`.
pub open spec fn fetch_act_of(a: int) -> Seq<char> {
    if a == 0 { "callback"@ } else if a == 1 { "get_user_info"@ } else { "userinfo"@ }
}

/// The name of action `act` (see `fetch_act_of`).
pub fn fetch_act(act: usize) -> (r: &'static str)
    ensures
        r@ == fetch_act_of(act as int),
{
    if act == 0 { "callback" } else if act == 1 { "get_user_info" } else { "userinfo" }
}

/// The text last heard from the provider: the last answer's body, or its failure.
pub open spec fn last_text(answers: Seq<FetchAnswer>) -> Seq<char> {
    if answers.len() == 0 {
        Seq::empty()
    } else {
        match answers.last() {
            FetchAnswer::Failed(e) => "请求用户信息失败: "@ + e@,
            FetchAnswer::Replied { text, .. } => text@,
        }
    }
}

/// The failure of a fetch while OAuth is disabled.
pub open spec fn fetch_disabled_text() -> Seq<char> {
    "第三方登录未启用"@
}

/// The failure of a fetch: disabled OAuth, or no description among the answers.
pub fn fetch_failure(step: FetchStep, answers: &Vec<FetchAnswer>) -> (r: String)
    requires
        step is Disabled || step is Exhausted,
    ensures
        step is Disabled ==> r@ == fetch_disabled_text(),
        step is Exhausted ==> r@ == "OAuth返回格式无效: "@ + last_text(answers@),
{
    if let FetchStep::Disabled = step {
        return "第三方登录未启用".to_owned();
    }
    let mut t = "OAuth返回格式无效: ".to_owned();
    if answers.len() > 0 {
        match &answers[answers.len() - 1] {
            FetchAnswer::Failed(e) => {
                push_str(&mut t, "请求用户信息失败: ");
                push_str(&mut t, e.as_str());
                assert(t@ == "OAuth返回格式无效: "@ + ("请求用户信息失败: "@ + e@));
            },
            FetchAnswer::Replied { text, .. } => {
                push_str(&mut t, text.as_str());
            },
        }
    } else {
        assert("OAuth返回格式无效: "@ + Seq::<char>::empty() == "OAuth返回格式无效: "@);
    }
    t
}

/// The user in the description at `index` (see `extract_user`).
pub fn fetched_user(answers: &Vec<FetchAnswer>, index: usize, oauth_type: &str) -> (r: Result<OAuthUser, String>)
    requires
        index < answers@.len(),
        is_description(answers@[index as int]),
    ensures
        answers@[index as int] matches FetchAnswer::Replied { body: Some((v, vt)), .. } && (
            find_text(v, id_keys()) is None ==> (r matches Err(e) && e@ == "OAuth返回缺少openid: "@ + vt@))
            && (find_text(v, id_keys()) matches Some(id) ==> (r matches Ok(u) && u.open_id@ == id && u.username@ == match find_text(v, name_keys()) { Some(n) => n, None => oauth_type@ } && u.avatar@ == match find_text(v, avatar_keys()) { Some(a) => a, None => Seq::empty() }
            && match find_text(v, email_keys()) { Some(e) => u.email matches Some(x) && x@ == e, None => u.email is None })),
{
    match &answers[index] {
        FetchAnswer::Replied { body: Some((v, vt)), .. } => extract_user(v, vt.as_str(), oauth_type),
        _ => Err(String::new()),
    }
}

// ---------------------------------------------------------------------------
// Laws of the OAuth settings and logins.

/// Normalizing a path twice gives what normalizing it once gives, when the default
/// is itself a normal path (empty, or trimmed and starting with a slash).
pub proof fn law_normal_path_idempotent(path: Seq<char>, default: Seq<char>)
    requires
        default.len() == 0 || (trim(default) == default && default[0] == '/'),
    ensures
        normal_path(normal_path(path, default), default) == normal_path(path, default),
{
    let p = trim(path);
    crate::text::lemma_trim(path);
    if p.len() == 0 {
        if default.len() > 0 {
            assert(trim(default) == default);
        }
    } else if p[0] == '/' {
    } else {
        let r = seq!['/'] + p;
        assert(r[0] == '/');
        assert(r.last() == p.last());
        assert(!crate::text::is_ws('/'));
        crate::text::lemma_trim_fixed(r);
    }
}

/// Normalizing a base URL twice gives what normalizing it once gives, unless the
/// normalized URL ends in white space (it can, when trailing slashes hid it).
pub proof fn law_normal_base_idempotent(url: Seq<char>)
    requires
        normal_base(url).len() == 0 || !crate::text::is_ws(normal_base(url).last()),
    ensures
        normal_base(normal_base(url)) == normal_base(url),
{
    let t = trim(url);
    let b = normal_base(url);
    crate::text::lemma_trim(url);
    crate::text::lemma_trim_end_char(t, '/');
    if b.len() > 0 {
        assert(b[0] == t[0]);
    }
    crate::text::lemma_trim_fixed(b);
    crate::text::lemma_trim_end_char(b, '/');
}

/// Saved OAuth settings, loaded back and saved again, stay as they are: trimming the
/// application id, key and callback address again changes nothing, nor does
/// normalizing the two paths (with their defaults `/connect.php` and `/api.php`)
/// again, nor the base URL again when it does not end in white space.
pub proof fn law_resaved_settings_unchanged(
    appid: Seq<char>,
    appkey: Seq<char>,
    base_url: Seq<char>,
    login_path: Seq<char>,
    user_path: Seq<char>,
    redirect_uri: Seq<char>,
)
    requires
        normal_base(base_url).len() == 0 || !crate::text::is_ws(normal_base(base_url).last()),
    ensures
        trim(trim(appid)) == trim(appid),
        trim(trim(appkey)) == trim(appkey),
        trim(trim(redirect_uri)) == trim(redirect_uri),
        normal_base(normal_base(base_url)) == normal_base(base_url),
        normal_path(normal_path(login_path, "/connect.php"@), "/connect.php"@) == normal_path(login_path, "/connect.php"@),
        normal_path(normal_path(user_path, "/api.php"@), "/api.php"@) == normal_path(user_path, "/api.php"@),
{
    crate::text::lemma_trim(appid);
    crate::text::lemma_trim(appkey);
    crate::text::lemma_trim(redirect_uri);
    law_normal_base_idempotent(base_url);
    reveal_strlit("/connect.php");
    reveal_strlit("/api.php");
    crate::text::lemma_trim_fixed("/connect.php"@);
    crate::text::lemma_trim_fixed("/api.php"@);
    law_normal_path_idempotent(login_path, "/connect.php"@);
    law_normal_path_idempotent(user_path, "/api.php"@);
}

/// A normalized path is empty only when it fell back to an empty default, and
/// otherwise starts with a slash (given a default that does).
pub proof fn law_normal_path_slash(path: Seq<char>, default: Seq<char>)
    requires
        default.len() > 0 && default[0] == '/',
    ensures
        normal_path(path, default).len() > 0 && normal_path(path, default)[0] == '/',
{
}

/// The fallback e-mail of an account without a real one is at `qq.com` (a QQ
/// account with a numeric id) or at `oauth.local`, and starts with the account's id.
pub proof fn law_fallback_email(provider: Seq<char>, open_id: Seq<char>, email: Option<Seq<char>>)
    requires
        !(email is Some && email->0.contains('@')),
    ensures
        open_id.is_prefix_of(email_for(provider, open_id, email)),
        "@qq.com"@.is_suffix_of(email_for(provider, open_id, email)) || "@oauth.local"@.is_suffix_of(
            email_for(provider, open_id, email),
        ),
{
    let e = email_for(provider, open_id, email);
    if provider == "qq"@ && all_digits(open_id) {
        assert(e == open_id + "@qq.com"@);
        assert(e.subrange(0, open_id.len() as int) =~= open_id);
        assert(e.subrange(e.len() - "@qq.com"@.len(), e.len() as int) =~= "@qq.com"@);
    } else {
        assert(e == open_id + "@oauth.local"@);
        assert(e.subrange(0, open_id.len() as int) =~= open_id);
        assert(e.subrange(e.len() - "@oauth.local"@.len(), e.len() as int) =~= "@oauth.local"@);
    }
}

proof fn lemma_first_description(answers: Seq<FetchAnswer>)
    ensures
        first_description(answers) matches Some(i) ==> (0 <= i < answers.len() && is_description(answers[i])
            && forall|j: int| 0 <= j < i ==> !is_description(#[trigger] answers[j])),
        first_description(answers) is None ==> forall|j: int| 0 <= j < answers.len() ==> !is_description(#[trigger] answers[j]),
    decreases answers.len(),
{
    if answers.len() > 0 && !is_description(answers[0]) {
        lemma_first_description(answers.drop_first());
        assert forall|j: int| 0 < j < answers.len() implies answers[j] == answers.drop_first()[j - 1] by {}
    }
}

/// Fetching a user stops at the first answer that is a description, and at no other:
/// the answer it takes is one, none before it is; it asks again only while none is and
/// fewer than nine were asked; it gives up after nine answers none of which is one;
/// with OAuth off it asks nothing.
pub proof fn law_fetch_takes_first_description(enabled: bool, answers: Seq<FetchAnswer>)
    requires
        answers.len() <= usize::MAX,
    ensures
        fetch_next(enabled, answers) matches FetchStep::Found(i) ==> (enabled && i < answers.len() && is_description(answers[i as int])
            && forall|j: int| 0 <= j < i ==> !is_description(#[trigger] answers[j])),
        fetch_next(enabled, answers) is Request ==> (enabled && answers.len() < 9
            && forall|j: int| 0 <= j < answers.len() ==> !is_description(#[trigger] answers[j])),
        fetch_next(enabled, answers) is Exhausted ==> (enabled && answers.len() >= 9
            && forall|j: int| 0 <= j < answers.len() ==> !is_description(#[trigger] answers[j])),
        fetch_next(enabled, answers) is Disabled <==> !enabled,
{
    lemma_first_description(answers);
}

/// Fetching a user asks at most nine times, each address once per action, in order.
pub proof fn law_fetch_bounded(enabled: bool, answers: Seq<FetchAnswer>)
    ensures
        fetch_next(enabled, answers) matches FetchStep::Request { candidate, act } ==> answers.len() < 9
            && candidate as int == answers.len() / 3 && act as int == answers.len() % 3 && candidate < 3 && act < 3,
{
}

} // verus!
