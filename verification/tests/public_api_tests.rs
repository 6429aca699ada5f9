use kamism::json::Json;
use kamism::public_api::{
    activate_can_decide, block, cached_card, decide_activate, decide_heartbeat, decide_unbind, decide_verify,
    extract_client_ip, message_text, rate, screen, Act, ActivateFacts, ActivateRequest, ApiReply, BlockFacts, CardRow,
    HeartbeatFacts, HookEvent, Msg, RateFacts, ReplyData, ScreenFacts, Step, UnbindFacts, VerifyFacts, VerifyRequest,
};
use kamism::risk::{block_reason, AlertKind, BlockKind, BlockRecord, RiskKey, DAY_US, MINUTE_US, SECOND_US};

const NOW: i64 = 1_700_000_000_000_000;
const MID: u128 = 77;

fn card(status: &str, expires: Option<i64>, activated: Option<i64>) -> CardRow {
    CardRow { id: 5, app_id: 9, status: status.to_string(), expires_at_us: expires, activated_at_us: activated, max_devices: 2, duration_days: 30 }
}

fn activate_req(device: &str) -> ActivateRequest {
    ActivateRequest { api_key: "km_x".to_string(), app_id: 9, card_code: "CODE".to_string(), device_id: device.to_string(), device_name: None }
}

fn passed_rate() -> RateFacts {
    let mut r = RateFacts::new();
    r.setting = Some(None);
    r.count = Some(2);
    r
}

fn ready_activation() -> ActivateFacts {
    let mut f = ActivateFacts::new();
    f.merchant = Some(Some(MID));
    f.screen.whitelist = Some((true, true));
    f.rate = passed_rate();
    f.app_active = Some(true);
    f.device_cards = Some(0);
    f.ip_activations = Some(0);
    f
}

fn reply_of(a: Act) -> ApiReply {
    match a {
        Act::Reply(r) => r,
        _ => panic!("expected an answer"),
    }
}

#[test]
fn client_ip_prefers_forwarded_then_real_ip() {
    assert_eq!(extract_client_ip(Some(" 1.1.1.1 , 2.2.2.2"), Some("3.3.3.3"), "4.4.4.4"), "1.1.1.1");
    assert_eq!(extract_client_ip(Some("  , 2.2.2.2"), Some(" 3.3.3.3 "), "4.4.4.4"), "3.3.3.3");
    assert_eq!(extract_client_ip(None, Some(" "), "4.4.4.4"), "4.4.4.4");
    assert_eq!(extract_client_ip(None, None, "4.4.4.4"), "4.4.4.4");
}

#[test]
fn public_messages() {
    assert_eq!(message_text(&Msg::DeviceLimit(3)), "该卡密最多支持 3 台设备，已达上限");
    assert_eq!(message_text(&Msg::OperationFailed("db".to_string())), "操作失败: db");
    assert_eq!(message_text(&Msg::InvalidApiKey), "无效的 API Key");
}

#[test]
fn screening_stops_blocked_ip_unless_white_listed() {
    let mut f = ScreenFacts::new();
    assert!(matches!(screen(&f, NOW), Step::Ask(Act::FindWhitelist)));
    f.whitelist = Some((false, false));
    assert!(matches!(screen(&f, NOW), Step::Ask(Act::FindIpBlock)));
    f.ip_block = Some(Some(BlockRecord { reason: "r".to_string(), until_us: Some(NOW + 90 * SECOND_US) }));
    match screen(&f, NOW) {
        Step::Stop(r) => {
            assert!(!r.success);
            assert!(matches!(r.message, Msg::IpBlocked));
            assert!(matches!(r.data, ReplyData::Block { remaining_seconds: 90, reason: Some(ref x) } if x == "r"));
        }
        _ => panic!("expected a stop"),
    }
    f.whitelist = Some((true, false));
    assert!(matches!(screen(&f, NOW), Step::Ask(Act::FindDeviceBlock)));
    f.device_block = Some(None);
    assert!(matches!(screen(&f, NOW), Step::Pass));
    f.whitelist = Some((true, true));
    f.device_block = Some(Some(BlockRecord { reason: "d".to_string(), until_us: None }));
    assert!(matches!(screen(&f, NOW), Step::Pass));
}

#[test]
fn block_length_doubles_with_violations() {
    let mut f = BlockFacts::new();
    assert!(matches!(block(BlockKind::Card, MID, 5, &f, NOW), Step::Ask(Act::CountActiveBlocks(BlockKind::Card))));
    f.active = Some(1);
    assert!(matches!(block(BlockKind::Card, MID, 5, &f, NOW), Step::Pass));
    f.active = Some(0);
    assert!(matches!(block(BlockKind::Ip, MID, 5, &f, NOW), Step::Ask(Act::ReadBlockReasons(BlockKind::Ip))));
    f.reasons = Some(vec![]);
    assert!(matches!(block(BlockKind::Ip, MID, 5, &f, NOW),
        Step::Ask(Act::UpsertBlock { prior: 0, until_us, .. }) if until_us == NOW + 10 * MINUTE_US));
    f.reasons = Some(vec!["触发频率限制 5次/分，第2次违规".to_string(), "手动封禁".to_string()]);
    assert!(matches!(block(BlockKind::Ip, MID, 5, &f, NOW),
        Step::Ask(Act::UpsertBlock { prior: 2, until_us, .. }) if until_us == NOW + 40 * MINUTE_US));
    f.reasons = Some(vec!["卡密超限 5次/分，第9次违规".to_string()]);
    assert!(matches!(block(BlockKind::Ip, MID, 5, &f, NOW),
        Step::Ask(Act::UpsertBlock { until_us, .. }) if until_us == NOW + 1440 * MINUTE_US));
    f.written = true;
    assert!(matches!(block(BlockKind::Ip, MID, 5, &f, NOW), Step::Pass));
}

#[test]
fn card_rate_warns_then_blocks() {
    let mut f = RateFacts::new();
    assert!(matches!(rate(MID, &f, NOW), Step::Ask(Act::LoadRiskSetting(RiskKey::RateVerify))));
    f.setting = Some(None);
    assert!(matches!(rate(MID, &f, NOW), Step::Ask(Act::CountCardRequests)));
    f.count = Some(1);
    assert!(matches!(rate(MID, &f, NOW), Step::Ask(Act::ExpireCardRequests)));
    f.expired = true;
    assert!(matches!(rate(MID, &f, NOW), Step::Pass));
    f.count = Some(3);
    assert!(matches!(rate(MID, &f, NOW), Step::Ask(Act::WriteAlert { alert: AlertKind::RateWarn { count: 3, limit: 3 }, .. })));
    f.alerted = true;
    assert!(matches!(rate(MID, &f, NOW), Step::Pass));
    f.alerted = false;
    f.count = Some(5);
    assert!(matches!(rate(MID, &f, NOW), Step::Ask(Act::WriteAlert { alert: AlertKind::RateBlock { count: 5, limit: 5 }, .. })));
    f.alerted = true;
    assert!(matches!(rate(MID, &f, NOW), Step::Ask(Act::CountActiveBlocks(BlockKind::Card))));
    f.card_block.active = Some(1);
    assert!(matches!(rate(MID, &f, NOW), Step::Ask(Act::CountActiveBlocks(BlockKind::Ip))));
    f.ip_block.active = Some(1);
    match rate(MID, &f, NOW) {
        Step::Stop(r) => assert!(matches!(r.data, ReplyData::RateLimited { count: 5, limit: 5, remaining_seconds: 600 })),
        _ => panic!("expected a stop"),
    }
}

#[test]
fn activation_refuses_empty_device_and_unknown_key() {
    let f = ActivateFacts::new();
    assert!(matches!(reply_of(decide_activate(&activate_req("  "), NOW, &f)).message, Msg::DeviceIdEmpty));
    assert!(matches!(decide_activate(&activate_req("dev"), NOW, &f), Act::FindMerchant));
    let mut f = ActivateFacts::new();
    f.merchant = Some(None);
    assert!(matches!(reply_of(decide_activate(&activate_req("dev"), NOW, &f)).message, Msg::InvalidApiKey));
}

#[test]
fn activation_alerts_on_busy_device_and_ip() {
    let mut f = ready_activation();
    f.device_cards = Some(3);
    assert!(matches!(decide_activate(&activate_req("dev"), NOW, &f), Act::WriteAlert { alert: AlertKind::DeviceMultiCard { prior: 3 }, .. }));
    f.device_alerted = true;
    f.ip_activations = Some(15);
    assert!(matches!(decide_activate(&activate_req("dev"), NOW, &f), Act::WriteAlert { alert: AlertKind::IpAbuse { count: 15 }, .. }));
    f.ip_alerted = true;
    assert!(matches!(decide_activate(&activate_req("dev"), NOW, &f), Act::FindCard { merchant_id: MID }));
}

#[test]
fn activation_checks_the_card() {
    let mut f = ready_activation();
    f.card = Some(None);
    assert!(matches!(reply_of(decide_activate(&activate_req("dev"), NOW, &f)).message, Msg::CardNotFound));
    f.card = Some(Some(card("disabled", None, None)));
    assert!(matches!(reply_of(decide_activate(&activate_req("dev"), NOW, &f)).message, Msg::CardDisabled));
    f.card = Some(Some(card("active", Some(NOW - 1), Some(NOW - DAY_US))));
    assert!(matches!(decide_activate(&activate_req("dev"), NOW, &f), Act::MarkCardExpired { card_id: 5 }));
    f.expiry_marked = true;
    assert!(matches!(reply_of(decide_activate(&activate_req("dev"), NOW, &f)).message, Msg::CardExpired));
}

#[test]
fn activation_binds_and_starts_the_term() {
    let mut f = ready_activation();
    f.card = Some(Some(card("unused", None, None)));
    assert!(matches!(decide_activate(&activate_req("dev"), NOW, &f), Act::FindActivation { card_id: 5 }));
    f.activation = Some(None);
    assert!(matches!(decide_activate(&activate_req("dev"), NOW, &f), Act::CountActivations { card_id: 5 }));
    f.activation_count = Some(2);
    assert!(matches!(reply_of(decide_activate(&activate_req("dev"), NOW, &f)).message, Msg::DeviceLimit(2)));
    f.activation_count = Some(1);
    assert!(matches!(decide_activate(&activate_req("dev"), NOW, &f), Act::NewActivationId));
    f.new_id = Some(100);
    assert!(matches!(decide_activate(&activate_req("dev"), NOW, &f), Act::EncryptDevice { activation_id: 100 }));
    f.encrypted = Some(Err("no key".to_string()));
    assert!(matches!(reply_of(decide_activate(&activate_req("dev"), NOW, &f)).message, Msg::ActivateFailed));
    f.encrypted = Some(Ok("enc".to_string()));
    assert!(matches!(decide_activate(&activate_req("dev"), NOW, &f),
        Act::InsertActivation { activation_id: 100, card_id: 5, app_id: 9, ref encrypted_device } if encrypted_device == "enc"));
    f.inserted = true;
    let expiry = NOW + 30 * DAY_US;
    assert!(matches!(decide_activate(&activate_req("dev"), NOW, &f), Act::ActivateCard { card_id: 5, expires_at_us: Some(e) } if e == expiry));
    f.card_updated = true;
    assert!(matches!(decide_activate(&activate_req("dev"), NOW, &f),
        Act::FireWebhook { event: HookEvent::Activate, remaining_days: Some(30), .. }));
    f.webhook_fired = true;
    assert!(matches!(decide_activate(&activate_req("dev"), NOW, &f), Act::RecordCommission { merchant_id: MID, card_id: 5, activation_id: 100 }));
    f.commission_recorded = true;
    let r = reply_of(decide_activate(&activate_req("dev"), NOW, &f));
    assert!(r.success);
    assert!(matches!(r.message, Msg::Activated));
    assert!(matches!(r.data, ReplyData::Bound { expires_at_us: Some(e), remaining_days: Some(30), max_devices: 2, current_devices: Some(2) } if e == expiry));
}

#[test]
fn second_activation_keeps_the_expiry() {
    let mut f = ready_activation();
    let exp = NOW + 10 * DAY_US;
    f.card = Some(Some(card("active", Some(exp), Some(NOW - DAY_US))));
    f.activation = Some(None);
    f.activation_count = Some(0);
    f.new_id = Some(1);
    f.encrypted = Some(Ok("e".to_string()));
    f.inserted = true;
    assert!(matches!(decide_activate(&activate_req("dev"), NOW, &f), Act::ActivateCard { expires_at_us: Some(e), .. } if e == exp));
}

#[test]
fn already_bound_device_is_confirmed() {
    let mut f = ready_activation();
    f.card = Some(Some(card("active", Some(NOW + DAY_US), Some(NOW - DAY_US))));
    f.activation = Some(Some(42));
    assert!(matches!(decide_activate(&activate_req("dev"), NOW, &f), Act::TouchActivation { activation_id: 42 }));
    f.touched = true;
    let r = reply_of(decide_activate(&activate_req("dev"), NOW, &f));
    assert!(r.success);
    assert!(matches!(r.message, Msg::AlreadyBound));
    assert!(matches!(r.data, ReplyData::Bound { current_devices: None, remaining_days: Some(1), .. }));
}

#[test]
fn activation_precondition_check() {
    let mut f = ready_activation();
    assert!(activate_can_decide(NOW, &f));
    f.card = Some(Some(CardRow { duration_days: i32::MAX, ..card("unused", None, None) }));
    assert!(!activate_can_decide(NOW, &f));
    assert!(!activate_can_decide(i64::MAX, &ActivateFacts::new()));
}

fn cached_answer(card_id: &str) -> Json {
    Json::Object(vec![
        ("card_id".to_string(), Json::Str(card_id.to_string())),
        ("answer".to_string(), Json::Object(vec![("success".to_string(), Json::Bool(true))])),
    ])
}

#[test]
fn cached_answers_name_their_card() {
    assert_eq!(cached_card(&cached_answer("00000000-0000-0000-0000-00000000002a")), Some(42));
    assert_eq!(cached_card(&cached_answer("nope")), None);
    assert_eq!(cached_card(&Json::Null), None);
}

#[test]
fn a_record_without_its_card_is_not_answered_from() {
    let mut f = verify_ready();
    f.cache = Some(Some(Json::Object(vec![("answer".to_string(), Json::Null)])));
    assert!(matches!(decide_verify(&verify_req(), NOW, &f), Act::FindApp { .. }));
    f.cache = Some(Some(Json::Object(vec![("card_id".to_string(), Json::Str("00000000-0000-0000-0000-000000000005".to_string()))])));
    assert!(matches!(decide_verify(&verify_req(), NOW, &f), Act::FindApp { .. }));
}

fn verify_req() -> VerifyRequest {
    VerifyRequest { api_key: "km_x".to_string(), app_id: 9, card_code: "CODE-7".to_string(), device_id: "dev".to_string() }
}

fn verify_ready() -> VerifyFacts {
    let mut f = VerifyFacts::new();
    f.merchant = Some(Some(MID));
    f.rate = passed_rate();
    f
}

#[test]
fn cached_answer_is_rechecked() {
    let mut f = verify_ready();
    assert!(matches!(decide_verify(&verify_req(), NOW, &f), Act::ReadCache));
    f.cache = Some(Some(cached_answer("00000000-0000-0000-0000-000000000005")));
    assert!(matches!(decide_verify(&verify_req(), NOW, &f), Act::FindCachedCard { card_id: 5 }));
    f.live = Some(Some(("disabled".to_string(), None)));
    assert!(matches!(decide_verify(&verify_req(), NOW, &f), Act::DropCache));
    f.cache_dropped = true;
    let r = reply_of(decide_verify(&verify_req(), NOW, &f));
    assert_eq!(r.valid, Some(false));
    assert!(matches!(r.message, Msg::CardDisabled));
    f.cache_dropped = false;
    f.live = Some(Some(("active".to_string(), Some(NOW + 1))));
    assert!(matches!(decide_verify(&verify_req(), NOW, &f), Act::FindActivation { card_id: 5 }));
    f.activation = Some(Some(8));
    assert!(matches!(decide_verify(&verify_req(), NOW, &f), Act::RefreshCache));
    f.cache_refreshed = true;
    assert!(matches!(decide_verify(&verify_req(), NOW, &f), Act::ReplyCached));
    f.live = Some(None);
    f.cache_dropped = true;
    assert!(matches!(reply_of(decide_verify(&verify_req(), NOW, &f)).message, Msg::CardNotFound));
}

#[test]
fn valid_only_for_a_live_bound_card() {
    let mut f = verify_ready();
    f.cache = Some(None);
    f.app_active = Some(true);
    f.card = Some(Some(card("unused", None, None)));
    assert!(matches!(reply_of(decide_verify(&verify_req(), NOW, &f)).message, Msg::CardUnused));
    f.card = Some(Some(card("active", Some(NOW + 2 * DAY_US + 5), Some(NOW))));
    assert!(matches!(decide_verify(&verify_req(), NOW, &f), Act::FindActivation { card_id: 5 }));
    f.activation = Some(None);
    assert!(matches!(reply_of(decide_verify(&verify_req(), NOW, &f)).message, Msg::DeviceNotBound));
    f.activation = Some(Some(8));
    assert!(matches!(decide_verify(&verify_req(), NOW, &f), Act::TouchActivation { activation_id: 8 }));
    f.touched = true;
    assert!(matches!(decide_verify(&verify_req(), NOW, &f), Act::CountActivations { card_id: 5 }));
    f.activation_count = Some(1);
    assert!(matches!(decide_verify(&verify_req(), NOW, &f), Act::StoreCache { card_id: 5, .. }));
    f.stored = true;
    assert!(matches!(decide_verify(&verify_req(), NOW, &f), Act::FireWebhook { event: HookEvent::Verify, remaining_days: Some(2), .. }));
    f.webhook_fired = true;
    let r = reply_of(decide_verify(&verify_req(), NOW, &f));
    assert!(r.success);
    assert_eq!(r.valid, Some(true));
    assert!(matches!(r.data, ReplyData::Verified { current_devices: 1, remaining_days: Some(2), max_devices: 2, .. }));
    match &r.data {
        ReplyData::Verified { card_code, .. } => assert_eq!(card_code, "CODE-7"),
        _ => panic!("not a verified answer"),
    }
    f.card = Some(Some(card("active", Some(NOW - 1), Some(NOW - DAY_US))));
    assert!(matches!(decide_verify(&verify_req(), NOW, &f), Act::MarkCardExpired { card_id: 5 }));
}

#[test]
fn unbinding_resets_the_last_card() {
    let mut f = UnbindFacts::new();
    assert!(matches!(decide_unbind(NOW, &f), Act::FindDeviceBlock));
    f.device_block = Some(Some(BlockRecord { reason: "x".to_string(), until_us: Some(NOW + 5 * SECOND_US) }));
    let r = reply_of(decide_unbind(NOW, &f));
    assert!(matches!(r.message, Msg::UnbindBlocked));
    assert!(matches!(r.data, ReplyData::Block { remaining_seconds: 5, .. }));
    f.device_block = Some(None);
    f.merchant = Some(Some(MID));
    f.app_active = Some(true);
    f.card = Some(Some(card("active", None, Some(NOW))));
    f.activation = Some(None);
    assert!(matches!(reply_of(decide_unbind(NOW, &f)).message, Msg::NotBound));
    f.activation = Some(Some(3));
    assert!(matches!(decide_unbind(NOW, &f), Act::DeleteActivation { activation_id: 3 }));
    f.deleted = Some(Err("gone".to_string()));
    assert!(matches!(reply_of(decide_unbind(NOW, &f)).message, Msg::OperationFailed(ref e) if e == "gone"));
    f.deleted = Some(Ok(1));
    assert!(matches!(decide_unbind(NOW, &f), Act::CountActivations { card_id: 5 }));
    f.remaining = Some(0);
    assert!(matches!(decide_unbind(NOW, &f), Act::ResetCard { card_id: 5 }));
    f.reset = true;
    assert!(matches!(reply_of(decide_unbind(NOW, &f)).message, Msg::Unbound));
    f.reset = false;
    f.remaining = Some(1);
    assert!(matches!(reply_of(decide_unbind(NOW, &f)).message, Msg::Unbound));
}

#[test]
fn heartbeat_refused_while_blocked() {
    let mut f = HeartbeatFacts::new();
    assert!(matches!(decide_heartbeat(NOW, &f), Act::LoadRiskSetting(RiskKey::Heartbeat)));
    f.setting_read = true;
    assert!(matches!(decide_heartbeat(NOW, &f), Act::FindHeartbeat));
    f.record = Some(None);
    assert!(matches!(decide_heartbeat(NOW, &f), Act::InsertHeartbeat));
    f.inserted = true;
    assert!(matches!(reply_of(decide_heartbeat(NOW, &f)).message, Msg::HeartbeatRecorded));
    f.record = Some(Some("blocked".to_string()));
    assert!(matches!(decide_heartbeat(NOW, &f), Act::FindBlockedUntil));
    f.blocked_until = Some(Some(NOW + 30 * SECOND_US));
    let r = reply_of(decide_heartbeat(NOW, &f));
    assert!(!r.success);
    assert!(matches!(r.data, ReplyData::Block { remaining_seconds: 30, reason: None }));
    f.blocked_until = Some(Some(NOW - 1));
    assert!(matches!(decide_heartbeat(NOW, &f), Act::ReviveHeartbeat));
    f.revived = true;
    assert!(matches!(decide_heartbeat(NOW, &f), Act::DeleteDeviceBlock));
    f.unblocked = true;
    assert!(matches!(decide_heartbeat(NOW, &f), Act::UpdateHeartbeat));
    f.record = Some(Some("online".to_string()));
    f.updated = true;
    assert!(matches!(reply_of(decide_heartbeat(NOW, &f)).data, ReplyData::Online));
}

#[test]
fn disabled_card_is_never_valid() {
    let mut f = verify_ready();
    f.cache = Some(None);
    f.app_active = Some(true);
    f.card = Some(Some(card("disabled", Some(NOW + DAY_US), Some(NOW - DAY_US))));
    let r = reply_of(decide_verify(&verify_req(), NOW, &f));
    assert!(!r.success);
    assert_eq!(r.valid, Some(false));
    assert!(matches!(r.message, Msg::CardDisabled));
    f.card = Some(Some(card("expired", None, Some(NOW - DAY_US))));
    assert!(matches!(reply_of(decide_verify(&verify_req(), NOW, &f)).message, Msg::CardExpired));
    f.card = Some(None);
    let r = reply_of(decide_verify(&verify_req(), NOW, &f));
    assert!(matches!(r.message, Msg::CardNotFound));
    assert_eq!(r.valid, None);
}

#[test]
fn unbinding_undoes_an_activation() {
    let mut f = ready_activation();
    f.card = Some(Some(card("unused", None, None)));
    f.activation = Some(None);
    f.activation_count = Some(0);
    f.new_id = Some(100);
    f.encrypted = Some(Ok("enc".to_string()));
    f.inserted = true;
    assert!(matches!(decide_activate(&activate_req("dev"), NOW, &f),
        Act::ActivateCard { card_id: 5, expires_at_us: Some(e) } if e == NOW + 30 * DAY_US));
    let mut g = UnbindFacts::new();
    g.device_block = Some(None);
    g.merchant = Some(Some(MID));
    g.app_active = Some(true);
    g.card = Some(Some(card("active", Some(NOW + 30 * DAY_US), Some(NOW))));
    g.activation = Some(Some(100));
    assert!(matches!(decide_unbind(NOW, &g), Act::DeleteActivation { activation_id: 100 }));
    g.deleted = Some(Ok(1));
    g.remaining = Some(0);
    assert!(matches!(decide_unbind(NOW, &g), Act::ResetCard { card_id: 5 }));
    g.reset = true;
    let r = reply_of(decide_unbind(NOW, &g));
    assert!(r.success);
    assert!(matches!(r.message, Msg::Unbound));
}

#[test]
fn unbound_device_is_not_answered_from_the_cache() {
    let mut f = verify_ready();
    f.cache = Some(Some(cached_answer("00000000-0000-0000-0000-000000000005")));
    f.live = Some(Some(("active".to_string(), Some(NOW + DAY_US))));
    f.activation = Some(None);
    assert!(matches!(decide_verify(&verify_req(), NOW, &f), Act::DropCache));
    f.cache_dropped = true;
    let r = reply_of(decide_verify(&verify_req(), NOW, &f));
    assert_eq!(r.valid, Some(false));
    assert!(matches!(r.message, Msg::DeviceNotBound));
    f.live = Some(Some(("unused".to_string(), None)));
    assert!(matches!(reply_of(decide_verify(&verify_req(), NOW, &f)).message, Msg::CardUnused));
}

#[test]
fn repeated_blocks_escalate() {
    let mut prior = 0i64;
    let mut reasons: Vec<String> = vec![];
    let mut lengths = vec![];
    for _ in 0..9 {
        let mut f = BlockFacts::new();
        f.active = Some(0);
        f.reasons = Some(reasons.clone());
        match block(BlockKind::Card, MID, 5, &f, NOW) {
            Step::Ask(Act::UpsertBlock { prior: p, until_us, .. }) => {
                assert_eq!(p, prior);
                lengths.push((until_us - NOW) / MINUTE_US);
                reasons = vec![block_reason(BlockKind::Card, 5, p)];
                prior = p + 1;
            }
            _ => panic!("expected a block"),
        }
    }
    assert_eq!(lengths, vec![10, 20, 40, 60, 120, 240, 480, 1440, 1440]);
}
