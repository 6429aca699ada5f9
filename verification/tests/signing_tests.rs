use kamism::api_ts::{
    card_shown, crypto_params, decide_crypto, decide_gen_key, extract_bearer, is_web_test, latest_key, sha256,
    sign_key_name, sign_params, ts_message, CardShown, CryptoFacts, CryptoKind, CryptoRequest, GenKeyFacts, TsAct,
    TsData, TsMsg,
};
use kamism::json::{Json, JsonNum};

fn obj(pairs: Vec<(&str, Json)>) -> Json {
    Json::Object(pairs.into_iter().map(|(k, v)| (k.to_string(), v)).collect())
}

#[test]
fn sha256_in_hex() {
    assert_eq!(sha256("abc"), "ba7816bf8f01cfea414140de5dae2223b00361a396177a9cb410ff61f20015ad");
    assert_eq!(sha256(""), "e3b0c44298fc1c149afbf4c8996fb92427ae41e4649b934ca495991b7852b855");
}

#[test]
fn bearer_tokens() {
    assert_eq!(extract_bearer(Some("Bearer abc")), Some("abc".to_string()));
    assert_eq!(extract_bearer(Some("Bearer ")), Some("".to_string()));
    assert_eq!(extract_bearer(Some("bearer abc")), None);
    assert_eq!(extract_bearer(None), None);
}

#[test]
fn latest_authorization_key() {
    let e = vec![
        ("ts:a".to_string(), 100),
        ("ts_used:b".to_string(), 900),
        ("ts:c".to_string(), 300),
        ("ts:d".to_string(), 300),
        ("x".to_string(), -5),
    ];
    assert_eq!(latest_key(&e), "c");
    assert_eq!(latest_key(&vec![("ts:z".to_string(), 0)]), "");
    assert_eq!(latest_key(&vec![]), "");
}

#[test]
fn signing_messages() {
    assert_eq!(ts_message(&TsMsg::NoCode(CryptoKind::Encrypt)), "未配置加密逻辑");
    assert_eq!(ts_message(&TsMsg::RunFailed(CryptoKind::Sign, "boom".to_string())), "签名执行失败: boom");
    assert_eq!(card_shown(&CardShown::Internal), "内部测试");
    assert_eq!(card_shown(&CardShown::Key("K".to_string())), "K");
}

#[test]
fn authorization_key_for_an_active_card() {
    let mut f = GenKeyFacts::new("CARD-1");
    assert_eq!(f.card_hash, sha256("CARD-1"));
    assert!(matches!(decide_gen_key(&f), TsAct::FindActiveCard));
    f.card_active = Some(false);
    assert!(matches!(decide_gen_key(&f), TsAct::Reply(ref r) if r.code == 403 && matches!(r.msg, Some(TsMsg::CardInvalid))));
    f.card_active = Some(true);
    assert!(matches!(decide_gen_key(&f), TsAct::CountTotal));
    f.total_counted = true;
    assert!(matches!(decide_gen_key(&f), TsAct::CountDaily));
    f.daily_counted = true;
    assert!(matches!(decide_gen_key(&f), TsAct::Stamp));
    f.stamp("CARD-1", 1_700_000_000_000);
    let k = f.auth_key.clone().unwrap();
    assert_eq!(k.len(), 64);
    assert_ne!(k, sha256("CARD-1"));
    assert!(matches!(decide_gen_key(&f), TsAct::StoreAuthKey { ref auth_key, ttl_secs: 300 } if *auth_key == k));
    f.stored = true;
    assert!(matches!(decide_gen_key(&f), TsAct::Reply(ref r) if r.code == 200 && matches!(r.data, TsData::AuthKey(ref x) if *x == k)));
}

fn key_with(field: &str, code: &str) -> Json {
    obj(vec![(field, Json::Str(code.to_string()))])
}

#[test]
fn authorization_key_is_single_use() {
    let mut f = CryptoFacts::new();
    assert!(matches!(decide_crypto(CryptoKind::Sign, "", "k", false, &f), TsAct::Reply(ref r) if r.code == 403 && matches!(r.msg, Some(TsMsg::MissingAuth))));
    assert!(matches!(decide_crypto(CryptoKind::Sign, "t", "k", false, &f), TsAct::CheckUsed));
    f.used = Some(true);
    assert!(matches!(decide_crypto(CryptoKind::Sign, "t", "k", false, &f), TsAct::Reply(ref r) if matches!(r.msg, Some(TsMsg::AuthFailed))));
    f.used = Some(false);
    assert!(matches!(decide_crypto(CryptoKind::Sign, "t", "k", false, &f), TsAct::ReadCardKey));
    f.card_key = Some(None);
    assert!(matches!(decide_crypto(CryptoKind::Sign, "t", "k", false, &f), TsAct::Reply(ref r) if matches!(r.msg, Some(TsMsg::AuthFailed))));
    f.card_key = Some(Some("CARD".to_string()));
    assert!(matches!(decide_crypto(CryptoKind::Sign, "t", "k", false, &f), TsAct::MarkUsed));
}

#[test]
fn running_a_keys_code() {
    let mut f = CryptoFacts::new();
    f.used = Some(false);
    f.card_key = Some(Some("CARD".to_string()));
    f.marked = true;
    assert!(matches!(decide_crypto(CryptoKind::Sign, "t", "", false, &f), TsAct::Reply(ref r) if matches!(r.msg, Some(TsMsg::NoKeyName))));
    assert!(matches!(decide_crypto(CryptoKind::Encrypt, "t", "", false, &f), TsAct::LoadKey));
    f.key = Some(Err(()));
    assert!(matches!(decide_crypto(CryptoKind::Sign, "t", "k", false, &f), TsAct::Status(500)));
    f.key = Some(Ok(None));
    assert!(matches!(decide_crypto(CryptoKind::Sign, "t", "k", false, &f), TsAct::Status(404)));
    f.key = Some(Ok(Some(key_with("sign_code", ""))));
    assert!(matches!(decide_crypto(CryptoKind::Sign, "t", "k", false, &f), TsAct::Reply(ref r) if matches!(r.msg, Some(TsMsg::NoCode(CryptoKind::Sign)))));
    f.key = Some(Ok(Some(key_with("sign_code", "return 1"))));
    assert!(matches!(decide_crypto(CryptoKind::Sign, "t", "k", false, &f), TsAct::Run { ref code } if code == "return 1"));
    f.run = Some(Ok("sig".to_string()));
    assert!(matches!(decide_crypto(CryptoKind::Sign, "t", "k", true, &f),
        TsAct::Log { success: true, card: CardShown::Internal, result: Some(ref x), fail_reason: None } if x == "sig"));
    assert!(matches!(decide_crypto(CryptoKind::Sign, "t", "k", false, &f), TsAct::Log { card: CardShown::Key(ref c), .. } if c == "CARD"));
    f.logged = true;
    assert!(matches!(decide_crypto(CryptoKind::Sign, "t", "k", false, &f), TsAct::Reply(ref r) if r.code == 200 && matches!(r.data, TsData::Signed(ref x) if x == "sig")));
    f.key = Some(Ok(Some(key_with("decrypt_code", "d"))));
    assert!(matches!(decide_crypto(CryptoKind::Decrypt, "t", "", false, &f), TsAct::Reply(ref r) if matches!(r.data, TsData::Output(ref x) if x == "sig")));
    f.run = Some(Err("bad".to_string()));
    assert!(matches!(decide_crypto(CryptoKind::Decrypt, "t", "", false, &f),
        TsAct::Reply(ref r) if r.code == 400 && matches!(r.msg, Some(TsMsg::RunFailed(CryptoKind::Decrypt, ref e)) if e == "bad")));
}

#[test]
fn signature_inputs() {
    let body = obj(vec![("key_name", Json::Str("kb".to_string())), ("n", Json::Num(JsonNum::PosInt(3)))]);
    assert_eq!(sign_key_name(Some("kq"), &body), "kq");
    assert_eq!(sign_key_name(None, &body), "kb");
    assert_eq!(sign_key_name(None, &Json::Null), "");
    assert_eq!(sign_params(&body), vec![("key_name".to_string(), "kb".to_string()), ("n".to_string(), "".to_string())]);
    assert!(sign_params(&Json::Array(vec![])).is_empty());
    assert!(is_web_test(Some("web_test")));
    assert!(!is_web_test(Some("web")));
    assert!(!is_web_test(None));
}

#[test]
fn crypto_parameters_set_the_text() {
    let req = CryptoRequest {
        key_name: "k".to_string(),
        text: "hello".to_string(),
        params: vec![("a".to_string(), "1".to_string()), ("text".to_string(), "old".to_string())],
        device: None,
        source: None,
    };
    assert_eq!(crypto_params(&req), vec![("a".to_string(), "1".to_string()), ("text".to_string(), "hello".to_string())]);
    let req = CryptoRequest { params: vec![("a".to_string(), "1".to_string())], ..req };
    assert_eq!(crypto_params(&req), vec![("a".to_string(), "1".to_string()), ("text".to_string(), "hello".to_string())]);
}

#[test]
fn authorization_key_serves_one_call() {
    let mut first = CryptoFacts::new();
    first.used = Some(false);
    first.card_key = Some(Some("CARD".to_string()));
    assert!(matches!(decide_crypto(CryptoKind::Sign, "t", "k", false, &first), TsAct::MarkUsed));
    first.marked = true;
    first.key = Some(Ok(Some(key_with("sign_code", "return 1"))));
    assert!(matches!(decide_crypto(CryptoKind::Sign, "t", "k", false, &first), TsAct::Run { .. }));
    let mut later = CryptoFacts::new();
    later.used = Some(true);
    later.card_key = Some(Some("CARD".to_string()));
    later.marked = true;
    later.key = Some(Ok(Some(key_with("encrypt_code", "return 2"))));
    assert!(matches!(decide_crypto(CryptoKind::Encrypt, "t", "", true, &later), TsAct::Reply(ref r) if r.code == 403 && matches!(r.msg, Some(TsMsg::AuthFailed))));
}
