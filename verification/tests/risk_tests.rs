use kamism::json::{get_i64, get_member, get_str, get_string, json_i64, json_str, leaf, Json, JsonNum};
use kamism::risk::{
    alert_row, block_reason, device_hint, reason_number, recorded_violations_of, limits_of, minutes_for, remaining_days, seconds_left, AlertKind, BlockKind,
    DAY_US, SECOND_US,
};

fn jobj(pairs: Vec<(&str, Json)>) -> Json {
    Json::Object(pairs.into_iter().map(|(k, v)| (k.to_string(), v)).collect())
}

fn jstr(s: &str) -> Json {
    Json::Str(s.to_string())
}

#[test]
fn json_member_lookup() {
    let v = jobj(vec![("a", Json::Num(JsonNum::PosInt(7))), ("b", jstr("x")), ("a", Json::Null)]);
    assert!(matches!(get_member(&v, "a"), Some(Json::Num(JsonNum::PosInt(7)))));
    assert!(get_member(&v, "c").is_none());
    assert!(get_member(&jstr("a"), "a").is_none());
    assert_eq!(get_i64(&v, "a"), Some(7));
    assert_eq!(get_i64(&v, "b"), None);
    assert_eq!(get_str(&v, "b"), Some("x".to_string()));
    assert_eq!(get_str(&v, "a"), None);
}

#[test]
fn json_numbers() {
    assert_eq!(json_i64(&Json::Num(JsonNum::NegInt(-4))), Some(-4));
    assert_eq!(json_i64(&Json::Num(JsonNum::PosInt(u64::MAX))), None);
    assert_eq!(json_i64(&Json::Num(JsonNum::Float)), None);
    assert_eq!(json_str(&jstr("q")), Some("q".to_string()));
    assert_eq!(json_str(&Json::Bool(true)), None);
}

#[test]
fn json_leaf_text() {
    assert_eq!(leaf(&jstr("abc")), Some("abc".to_string()));
    assert_eq!(leaf(&jstr("")), None);
    assert_eq!(leaf(&Json::Num(JsonNum::PosInt(12345))), Some("12345".to_string()));
    assert_eq!(leaf(&Json::Num(JsonNum::NegInt(-90))), Some("-90".to_string()));
    assert_eq!(leaf(&Json::Bool(false)), None);
    let v = jobj(vec![("id", Json::Num(JsonNum::PosInt(42))), ("name", jstr(""))]);
    assert_eq!(get_string(&v, "id"), None);
    assert_eq!(get_string(&v, "name"), Some("".to_string()));
    assert_eq!(get_string(&v, "other"), None);
}

#[test]
fn block_seconds_left() {
    assert_eq!(seconds_left(None, 5), 0);
    assert_eq!(seconds_left(Some(10 * SECOND_US), 0), 10);
    assert_eq!(seconds_left(Some(10 * SECOND_US + 999_999), 0), 10);
    assert_eq!(seconds_left(Some(0), 10), 0);
    assert_eq!(seconds_left(Some(i64::MAX), i64::MIN), ((i64::MAX as i128 - i64::MIN as i128) / 1_000_000) as i64);
}

#[test]
fn days_until_expiry() {
    assert_eq!(remaining_days(None, 0), None);
    assert_eq!(remaining_days(Some(3 * DAY_US + 5), 0), Some(3));
    assert_eq!(remaining_days(Some(DAY_US - 1), 0), Some(0));
    assert_eq!(remaining_days(Some(0), DAY_US), Some(0));
}

#[test]
fn block_ladder_doubles_to_a_day() {
    let expect = [10, 20, 40, 60, 120, 240, 480, 1440, 1440];
    for (prior, m) in expect.iter().enumerate() {
        assert_eq!(minutes_for(prior as i64), *m);
    }
    assert_eq!(minutes_for(100), 1440);
}

#[test]
fn rate_limit_settings() {
    assert_eq!(limits_of(&None), (3, 5));
    let v = jobj(vec![("card_warn", Json::Num(JsonNum::PosInt(7)))]);
    assert_eq!(limits_of(&Some(v)), (7, 5));
    let v = jobj(vec![("card_warn", jstr("9")), ("card_block", Json::Num(JsonNum::PosInt(11)))]);
    assert_eq!(limits_of(&Some(v)), (3, 11));
}

#[test]
fn device_hints() {
    assert_eq!(device_hint("abcdefgh"), "abcd****");
    assert_eq!(device_hint("abc"), "****");
    assert_eq!(device_hint("abcd"), "abcd****");
    // a two-byte letter keeps the cut on a character boundary
    assert_eq!(device_hint("éabc"), "éab****");
}

#[test]
fn alert_rows() {
    let r = alert_row(AlertKind::RateWarn { count: 4, limit: 5 }, "CARD", "dev", "1.2.3.4");
    assert_eq!(r.alert_type, "rate_warn");
    assert_eq!(r.device_hint.as_deref(), Some("CARD"));
    assert_eq!(r.ip_address, "system");
    assert_eq!(r.detail, "卡密1分钟4次，接近限制5");
    let r = alert_row(AlertKind::RateBlock { count: 6, limit: 5 }, "CARD", "dev", "1.2.3.4");
    assert_eq!(r.alert_type, "card_rate_block");
    assert_eq!(r.detail, "卡密1分钟6次，超限5次，已封禁");
    let r = alert_row(AlertKind::DeviceMultiCard { prior: 2 }, "CARD", "device-123", "1.2.3.4");
    assert_eq!(r.alert_type, "device_multi_card");
    assert_eq!(r.device_hint.as_deref(), Some("devi****"));
    assert_eq!(r.ip_address, "1.2.3.4");
    assert_eq!(r.detail, "设备 devi**** 已激活 3 张卡密");
    let r = alert_row(AlertKind::IpAbuse { count: 12 }, "CARD", "dev", "9.9.9.9");
    assert_eq!(r.alert_type, "ip_abuse");
    assert!(r.device_hint.is_none());
    assert_eq!(r.detail, "IP 9.9.9.9 本分钟已激活 12 次");
}

#[test]
fn block_reasons() {
    assert_eq!(block_reason(BlockKind::Ip, 30, 0), "触发频率限制 30次/分，第1次违规");
    assert_eq!(block_reason(BlockKind::Card, 5, 2), "卡密超限 5次/分，第3次违规");
}

#[test]
fn reasons_record_violation_numbers() {
    assert_eq!(reason_number("触发频率限制 30次/分，第12次违规"), 12);
    assert_eq!(reason_number(&block_reason(BlockKind::Card, 7, 4)), 5);
    assert_eq!(reason_number("手动封禁"), 0);
    assert_eq!(reason_number("第次违规"), 0);
    assert_eq!(reason_number("12次违规"), 0);
    assert_eq!(reason_number("x12次违规"), 0);
    assert_eq!(reason_number("第99999999999999999999999次违规"), 1_000_000);
    let rs = vec!["第3次违规".to_string(), "第7次违规".to_string(), "其他".to_string()];
    assert_eq!(recorded_violations_of(&rs), 7);
    assert_eq!(recorded_violations_of(&vec![]), 0);
}
