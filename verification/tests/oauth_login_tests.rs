use kamism::json::Json;
use kamism::oauth::OAuthCallbackQuery;
use kamism::oauth_login::{
    callback_params, decide_login, hash_random_password, login_error_message, login_payload, result_key, ticket_answer, ticket_redirect,
    TicketAnswer, TICKET_SECS,
    LinkedMerchant, LoginAct, LoginError, LoginFacts,
};

const MID: &str = "67e55044-10b1-426f-9247-bb680e5fe0c8";
const MID_N: u128 = 0x67e5504410b1426f9247bb680e5fe0c8;

fn linked(id: &str) -> LinkedMerchant {
    LinkedMerchant { id: id.to_string(), username: "alice".to_string(), avatar_url: Some("old.png".to_string()), plan: "pro".to_string() }
}

#[test]
fn login_facts_start_empty() {
    let f = LoginFacts::new("qq", "12345", None);
    assert_eq!(f.provider_key, "qq:12345");
    assert_eq!(f.email, "12345@qq.com");
    assert!(matches!(decide_login("", &f), LoginAct::FindLinked));
}

#[test]
fn linked_merchant_logs_in() {
    let mut f = LoginFacts::new("github", "u1", None);
    f.linked = Some(Ok(Some(linked(MID))));
    assert!(matches!(decide_login("", &f), LoginAct::IssueToken { id } if id == MID_N));
    f.token = Some(Ok("jwt".to_string()));
    assert!(matches!(decide_login("", &f), LoginAct::NewRefreshToken));
    f.refresh = Some(1);
    assert!(matches!(decide_login("", &f), LoginAct::LoggedIn));
    let p = login_payload("", &f);
    assert!(!p.created);
    assert_eq!(p.token, "jwt");
    assert_eq!(p.refresh_token, "00000000-0000-0000-0000-000000000001");
    assert_eq!(p.user.id, MID);
    assert_eq!(p.user.username, "alice");
    assert_eq!(p.user.plan, "pro");
    assert_eq!(p.user.email.as_deref(), Some("u1@oauth.local"));
    assert_eq!(p.user.avatar, "old.png");
    assert!(p.user.api_key.is_none());
}

#[test]
fn profile_refreshed_only_with_news() {
    let mut f = LoginFacts::new("github", "u1", Some("A@B.C"));
    f.linked = Some(Ok(Some(linked(MID))));
    assert!(matches!(decide_login("", &f), LoginAct::EncryptEmail { id } if id == MID_N));
    f.encrypted_email = Some(Some("enc".to_string()));
    assert!(matches!(decide_login("", &f), LoginAct::UpdateProfile { ref encrypted_email, .. } if encrypted_email == "enc"));
    let mut g = LoginFacts::new("github", "u1", None);
    g.linked = Some(Ok(Some(linked(MID))));
    assert!(matches!(decide_login("new.png", &g), LoginAct::EncryptEmail { .. }));
    assert!(matches!(decide_login("  ", &g), LoginAct::IssueToken { .. }));
}

#[test]
fn login_failures() {
    let mut f = LoginFacts::new("github", "u1", None);
    f.linked = Some(Err("db down".to_string()));
    assert!(matches!(decide_login("", &f), LoginAct::Failed(LoginError::Query(ref e)) if e == "db down"));
    f.linked = Some(Ok(Some(linked("not-a-uuid"))));
    assert!(matches!(decide_login("", &f), LoginAct::Failed(LoginError::BadId)));
    f.linked = Some(Ok(Some(linked(MID))));
    f.token = Some(Err("no secret".to_string()));
    assert!(matches!(decide_login("", &f), LoginAct::Failed(LoginError::Token(_))));
    assert_eq!(login_error_message(&LoginError::Insert("dup".to_string())), "创建用户失败: dup");
    assert_eq!(login_error_message(&LoginError::BadId), "用户ID无效");
}

#[test]
fn new_account_creates_a_merchant() {
    let mut f = LoginFacts::new("qq", "12345", None);
    f.linked = Some(Ok(None));
    assert!(matches!(decide_login("a.png", &f), LoginAct::NewMerchantId));
    f.record_new_id(MID_N, "qq", "   ");
    assert_eq!(f.new_id.as_ref().unwrap().1, "qq_67e55044");
    f.record_new_id(MID_N, "qq", " Bob ");
    assert_eq!(f.new_id.as_ref().unwrap().1, "Bob");
    assert!(matches!(decide_login("a.png", &f), LoginAct::NewApiKey));
    f.api_key = Some("km_k".to_string());
    assert!(matches!(decide_login("a.png", &f), LoginAct::HashPassword));
    f.password_hash = Some(Ok("$2b$".to_string()));
    assert!(matches!(decide_login("a.png", &f), LoginAct::EncryptApiKey { .. }));
    f.encrypted_key = Some(Some("ek".to_string()));
    assert!(matches!(decide_login("a.png", &f), LoginAct::EncryptEmail { .. }));
    f.encrypted_email = Some(Some("ee".to_string()));
    assert!(matches!(decide_login("a.png", &f), LoginAct::InsertMerchant { ref username, ref api_key, .. } if username == "Bob" && api_key == "km_k"));
    f.inserted = Some(None);
    f.token = Some(Ok("jwt".to_string()));
    f.refresh = Some(2);
    assert!(matches!(decide_login("a.png", &f), LoginAct::Created));
    let p = login_payload("a.png", &f);
    assert!(p.created);
    assert_eq!(p.user.id, MID);
    assert_eq!(p.user.plan, "free");
    assert_eq!(p.user.avatar, "a.png");
    assert_eq!(p.user.api_key.as_deref(), Some("km_k"));
    assert!(p.user.email.is_none());
    assert_eq!(p.role, "merchant");
    assert_eq!(p.user.user_type, "merchant");
}

#[test]
fn drawn_api_key_is_inserted_and_shown() {
    let mut f = LoginFacts::new("qq", "12345", None);
    f.linked = Some(Ok(None));
    f.record_new_id(MID_N, "qq", "Bob");
    f.draw_api_key();
    let k = f.api_key.clone().unwrap();
    assert_eq!(k.len(), 33);
    assert!(k.starts_with("km_"));
    assert!(k[3..].chars().all(|c| c.is_ascii_digit() || c.is_ascii_lowercase()));
    f.password_hash = Some(Ok("$2b$".to_string()));
    f.encrypted_key = Some(Some("ek".to_string()));
    f.encrypted_email = Some(Some("ee".to_string()));
    assert!(matches!(decide_login("", &f), LoginAct::InsertMerchant { ref api_key, .. } if *api_key == k));
    f.inserted = Some(None);
    f.token = Some(Ok("jwt".to_string()));
    f.refresh = Some(2);
    assert_eq!(login_payload("", &f).user.api_key, Some(k));
}

#[test]
fn random_password_hash() {
    let h = hash_random_password().unwrap();
    assert_eq!(h.len(), 60);
    assert!(h.starts_with("$2b$12$"));
    assert!(h[7..].chars().all(|c| c == '.' || c == '/' || c.is_ascii_alphanumeric()));
    assert_ne!(hash_random_password().unwrap(), h);
    assert!(!bcrypt::verify("AdminAuto@123", &h).unwrap());
}

#[test]
fn callback_and_tickets() {
    let q = OAuthCallbackQuery { oauth_type: None, code: Some("c1".to_string()) };
    assert_eq!(callback_params(&q), Some(("qq".to_string(), "c1".to_string())));
    let q = OAuthCallbackQuery { oauth_type: Some("wx".to_string()), code: Some("  ".to_string()) };
    assert_eq!(callback_params(&q), None);
    let q = OAuthCallbackQuery { oauth_type: Some("wx".to_string()), code: None };
    assert_eq!(callback_params(&q), None);
    assert_eq!(ticket_redirect(MID_N), format!("/oauth/callback?ticket={}", MID));
    assert_eq!(result_key("t1"), "oauth:result:t1");
}

#[test]
fn second_login_finds_the_same_merchant() {
    let first = LoginFacts::new("github", "u1", None);
    let mut second = LoginFacts::new("github", "u1", None);
    assert_eq!(first.provider_key, second.provider_key);
    second.linked = Some(Ok(Some(linked(MID))));
    let mut steps = 0;
    loop {
        let a = decide_login("", &second);
        assert!(!matches!(a, LoginAct::NewMerchantId | LoginAct::NewApiKey | LoginAct::HashPassword | LoginAct::InsertMerchant { .. } | LoginAct::Created));
        match a {
            LoginAct::IssueToken { .. } => second.token = Some(Ok("jwt".to_string())),
            LoginAct::NewRefreshToken => second.refresh = Some(2),
            LoginAct::LoggedIn => break,
            _ => panic!("unexpected step"),
        }
        steps += 1;
        assert!(steps < 5);
    }
    let p = login_payload("", &second);
    assert!(!p.created);
    assert_eq!(p.user.id, MID);
}

#[test]
fn ticket_leads_back_to_its_result() {
    let url = ticket_redirect(MID_N);
    let carried = url.strip_prefix("/oauth/callback?ticket=").unwrap();
    assert_eq!(carried, MID);
    assert_eq!(result_key(carried), format!("oauth:result:{}", MID));
}

#[test]
fn ticket_results_and_lapses() {
    let payload = Json::Object(vec![("success".to_string(), Json::Bool(false)), ("message".to_string(), Json::Str("e".to_string()))]);
    match ticket_answer(Some(Some(payload))) {
        TicketAnswer::Stored(Json::Object(es)) => {
            assert_eq!(es.len(), 2);
            assert_eq!(es[0].0, "success");
            assert!(matches!(es[1].1, Json::Str(ref m) if m == "e"));
        }
        _ => panic!("expected the stored result"),
    }
    assert!(matches!(ticket_answer(None), TicketAnswer::Refused { status: 400, ref message } if message == "OAuth登录会话已过期"));
    assert!(matches!(ticket_answer(Some(None)), TicketAnswer::Refused { status: 400, ref message } if message == "OAuth结果无效"));
    assert_eq!(TICKET_SECS, 86400);
}
