use kamism::json::{Json, JsonNum};
use kamism::oauth::{
    config_refusal_message, configured_redirect_uri, default_settings, extract_user, fetch_act, fetch_failure, fetch_step,
    fetch_url, fetched_user, find_str, join_url, normalize_base_url, normalize_path, oauth_email_or_fallback, proxy_call,
    proxy_refusal_message, proxy_reply, public_settings, settings_to_save, ConfigRefusal, FetchAnswer, FetchStep,
    OAuthProxyRequest, OAuthSettings, ProxyRefusal, ProxyReply, SaveOAuthSettings,
};

fn o(pairs: Vec<(&str, Json)>) -> Json {
    Json::Object(pairs.into_iter().map(|(k, v)| (k.to_string(), v)).collect())
}

fn s(t: &str) -> Json {
    Json::Str(t.to_string())
}

fn settings(enabled: bool, types: &[&str]) -> OAuthSettings {
    OAuthSettings {
        enabled,
        appid: "app".to_string(),
        appkey: "key".to_string(),
        base_url: "https://u.example.com/".to_string(),
        login_path: "connect.php".to_string(),
        user_path: "/api.php".to_string(),
        redirect_uri: "".to_string(),
        enabled_types: types.iter().map(|t| t.to_string()).collect(),
    }
}

#[test]
fn urls_are_normalized() {
    assert_eq!(normalize_base_url("  https://a.b//  "), "https://a.b");
    assert_eq!(normalize_base_url("///"), "");
    assert_eq!(normalize_path(" api.php ", "/x"), "/api.php");
    assert_eq!(normalize_path("/api.php", "/x"), "/api.php");
    assert_eq!(normalize_path("   ", "/x"), "/x");
    assert_eq!(normalize_path(&normalize_path("a", ""), ""), "/a");
    assert_eq!(join_url("https://a.b/", "c"), "https://a.b/c");
    assert_eq!(join_url("https://a.b", ""), "https://a.b");
}

#[test]
fn redirect_defaults_to_the_callback_route() {
    let mut st = settings(true, &[]);
    assert_eq!(configured_redirect_uri(&st), "/auth/oauth/callback");
    st.redirect_uri = "https://me/cb".to_string();
    assert_eq!(configured_redirect_uri(&st), "https://me/cb");
}

#[test]
fn oauth_emails() {
    assert_eq!(oauth_email_or_fallback("github", "7", Some("Me@Example.COM")), "me@example.com");
    assert_eq!(oauth_email_or_fallback("qq", "12345", Some("nope")), "12345@qq.com");
    assert_eq!(oauth_email_or_fallback("qq", "12a45", None), "12a45@oauth.local");
    assert_eq!(oauth_email_or_fallback("wx", "12345", None), "12345@oauth.local");
    assert_eq!(oauth_email_or_fallback("qq", "", None), "@qq.com");
}

#[test]
fn default_and_public_settings() {
    let d = default_settings();
    assert!(!d.enabled);
    assert_eq!(d.base_url, "https://u.suyanw.cn");
    assert_eq!(d.login_path, "/connect.php");
    assert_eq!(d.user_path, "/api.php");
    let p = public_settings(&settings(true, &["qq"]));
    assert_eq!(p.redirect_uri, "/auth/oauth/callback");
    assert_eq!(p.enabled_types, vec!["qq".to_string()]);
    assert_eq!(p.base_url, "https://u.example.com/");
}

fn save_body(enabled: bool, appid: &str) -> SaveOAuthSettings {
    SaveOAuthSettings {
        enabled,
        appid: appid.to_string(),
        appkey: " k ".to_string(),
        base_url: " https://x.y/ ".to_string(),
        login_path: "".to_string(),
        user_path: "u.php".to_string(),
        redirect_uri: " https://cb ".to_string(),
        enabled_types: vec!["qq".to_string(), "wx".to_string()],
    }
}

#[test]
fn saving_settings() {
    assert_eq!(settings_to_save("merchant", &save_body(true, "a")).err(), Some(ConfigRefusal::Forbidden));
    assert_eq!(settings_to_save("admin", &save_body(true, "  ")).err(), Some(ConfigRefusal::Incomplete));
    let saved = settings_to_save("admin", &save_body(false, "  ")).ok().unwrap();
    assert_eq!(saved.appid, "");
    let saved = settings_to_save("admin", &save_body(true, " a ")).ok().unwrap();
    assert_eq!(saved.appid, "a");
    assert_eq!(saved.appkey, "k");
    assert_eq!(saved.base_url, "https://x.y");
    assert_eq!(saved.login_path, "/connect.php");
    assert_eq!(saved.user_path, "/u.php");
    assert_eq!(saved.redirect_uri, "https://cb");
    assert_eq!(saved.enabled_types.len(), 2);
    assert_eq!(config_refusal_message(ConfigRefusal::Incomplete), "OAuth配置不完整");
}

fn proxy_body(t: &str) -> OAuthProxyRequest {
    OAuthProxyRequest { appid: " ".to_string(), appkey: "".to_string(), redirect_uri: "".to_string(), oauth_type: t.to_string() }
}

#[test]
fn login_address_requests() {
    assert_eq!(proxy_call(&settings(false, &["qq"]), &proxy_body("qq")).err(), Some(ProxyRefusal::Disabled));
    assert_eq!(proxy_call(&settings(true, &["wx"]), &proxy_body("qq")).err(), Some(ProxyRefusal::TypeDisabled));
    let c = proxy_call(&settings(true, &["qq"]), &proxy_body("qq")).ok().unwrap();
    assert_eq!(c.url, "https://u.example.com/connect.php");
    assert_eq!(c.appid, "app");
    assert_eq!(c.appkey, "key");
    assert_eq!(c.redirect_uri, "/auth/oauth/callback");
    assert_eq!(c.oauth_type, "qq");
    let mut st = settings(true, &["qq"]);
    st.appkey = "  ".to_string();
    assert_eq!(proxy_call(&st, &proxy_body("qq")).err(), Some(ProxyRefusal::Incomplete));
    assert_eq!(proxy_refusal_message(ProxyRefusal::TypeDisabled), "该登录类型未启用");
}

#[test]
fn provider_login_address_answers() {
    assert!(matches!(proxy_reply(None), ProxyReply::Unreadable));
    assert!(matches!(proxy_reply(Some(&o(vec![("url", s("https://go"))]))), ProxyReply::Url(ref u) if u == "https://go"));
    let nested = o(vec![("url", Json::Null), ("data", o(vec![("url", s("https://in"))]))]);
    assert!(matches!(proxy_reply(Some(&nested)), ProxyReply::Url(ref u) if u == "https://in"));
    assert!(matches!(proxy_reply(Some(&o(vec![("msg", s("bad key"))]))), ProxyReply::Refused(ref m) if m == "bad key"));
    assert!(matches!(proxy_reply(Some(&o(vec![("message", s("later"))]))), ProxyReply::Refused(ref m) if m == "later"));
    assert!(matches!(proxy_reply(Some(&o(vec![("msg", Json::Bool(true)), ("message", s("x"))]))), ProxyReply::Refused(ref m) if m == "获取登录地址失败"));
}

#[test]
fn user_fields_are_found_in_order() {
    let v = o(vec![
        ("data", o(vec![("openid", s("d-id")), ("nickname", s(""))])),
        ("uid", Json::Num(JsonNum::PosInt(99))),
        ("userinfo", o(vec![("nickname", s("Nick"))])),
    ]);
    assert_eq!(find_str(&v, &["openid", "uid"]), Some("d-id".to_string()));
    assert_eq!(find_str(&v, &["uid", "openid"]), Some("99".to_string()));
    assert_eq!(find_str(&v, &["nickname"]), Some("Nick".to_string()));
    assert_eq!(find_str(&v, &["avatar"]), None);
    let u = extract_user(&v, "{}", "qq").ok().unwrap();
    assert_eq!(u.open_id, "d-id");
    assert_eq!(u.username, "Nick");
    assert_eq!(u.avatar, "");
    assert!(u.email.is_none());
    assert_eq!(extract_user(&o(vec![]), "{}", "qq").err(), Some("OAuth返回缺少openid: {}".to_string()));
    let w = o(vec![("id", s("7")), ("mail", s("a@b"))]);
    let u = extract_user(&w, "", "github").ok().unwrap();
    assert_eq!(u.username, "github");
    assert_eq!(u.email.as_deref(), Some("a@b"));
}

fn replied(ok: bool, text: &str, json: bool) -> FetchAnswer {
    FetchAnswer::Replied {
        success: ok,
        text: text.to_string(),
        body: if json { Some((o(vec![("openid", s("x"))]), text.to_string())) } else { None },
    }
}

#[test]
fn fetching_the_user_tries_nine_requests() {
    let st = settings(true, &["qq"]);
    assert_eq!(fetch_step(&settings(false, &[]), &vec![]), FetchStep::Disabled);
    let mut answers = vec![];
    assert_eq!(fetch_step(&st, &answers), FetchStep::Request { candidate: 0, act: 0 });
    answers.push(FetchAnswer::Failed("timeout".to_string()));
    answers.push(replied(false, "500", true));
    answers.push(replied(true, "not json", false));
    assert_eq!(fetch_step(&st, &answers), FetchStep::Request { candidate: 1, act: 0 });
    for _ in 0..6 {
        answers.push(replied(true, "html", false));
    }
    assert_eq!(fetch_step(&st, &answers), FetchStep::Exhausted);
    assert_eq!(fetch_failure(FetchStep::Exhausted, &answers), "OAuth返回格式无效: html");
    assert_eq!(fetch_failure(FetchStep::Disabled, &answers), "第三方登录未启用");
    let failed = vec![FetchAnswer::Failed("dns".to_string())];
    assert_eq!(fetch_failure(FetchStep::Exhausted, &failed), "OAuth返回格式无效: 请求用户信息失败: dns");
    let found = vec![replied(false, "x", true), replied(true, "{\"openid\":\"x\"}", true)];
    assert_eq!(fetch_step(&st, &found), FetchStep::Found(1));
    let u = fetched_user(&found, 1, "qq").ok().unwrap();
    assert_eq!(u.open_id, "x");
}

#[test]
fn fetch_addresses_and_actions() {
    let st = settings(true, &[]);
    assert_eq!(fetch_url(&st, 0), "https://u.example.com/api.php");
    assert_eq!(fetch_url(&st, 1), "https://u.example.com/connect.php");
    assert_eq!(fetch_url(&st, 2), "https://u.example.com/connect.php");
    assert_eq!(fetch_act(0), "callback");
    assert_eq!(fetch_act(1), "get_user_info");
    assert_eq!(fetch_act(2), "userinfo");
}

#[test]
fn resaved_settings_stay_the_same() {
    let first = settings_to_save("admin", &save_body(true, " a ")).ok().unwrap();
    let again = SaveOAuthSettings {
        enabled: first.enabled,
        appid: first.appid.clone(),
        appkey: first.appkey.clone(),
        base_url: first.base_url.clone(),
        login_path: first.login_path.clone(),
        user_path: first.user_path.clone(),
        redirect_uri: first.redirect_uri.clone(),
        enabled_types: first.enabled_types.clone(),
    };
    let second = settings_to_save("admin", &again).ok().unwrap();
    assert_eq!(second.appid, first.appid);
    assert_eq!(second.appkey, first.appkey);
    assert_eq!(second.base_url, first.base_url);
    assert_eq!(second.login_path, first.login_path);
    assert_eq!(second.user_path, first.user_path);
    assert_eq!(second.redirect_uri, first.redirect_uri);
    assert_eq!(second.enabled_types, first.enabled_types);
    assert_eq!(normalize_base_url("a /"), "a ");
    assert_eq!(normalize_base_url("a "), "a");
}
