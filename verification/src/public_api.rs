use vstd::prelude::*;
use crate::json::Json;
use crate::risk::{recorded_violations, recorded_violations_of, BlockRecord, BlockKind, RiskKey, AlertKind, in_time_range, secs_left, days_left, block_minutes, rate_limits, seconds_left, remaining_days, minutes_for, limits_of, MINUTE_US, DAY_US, MIN_TIME_US, MAX_TIME_US};
use crate::text::{trim, is_blank, int_text, push_int, push_str, str_eq};

verus! {

/// A request to bind a device to a card.
pub struct ActivateRequest {
    pub api_key: String,
    pub app_id: u128,
    pub card_code: String,
    pub device_id: String,
    pub device_name: Option<String>,
}

/// A request to check that a device holds a card.
pub struct VerifyRequest {
    pub api_key: String,
    pub app_id: u128,
    pub card_code: String,
    pub device_id: String,
}

/// A request to release a device from a card.
pub struct UnbindRequest {
    pub api_key: String,
    pub app_id: u128,
    pub card_code: String,
    pub device_id: String,
}

/// A device's sign of life.
pub struct HeartbeatRequest {
    pub api_key: String,
    pub device_id: String,
    pub device_name: Option<String>,
}

/// The client's IP: the first entry of `X-Forwarded-For` when it is not blank, else
/// `X-Real-IP` when it is not blank, else the peer's address. Each header is given as
/// its text, none when it is missing or not visible ASCII.
pub open spec fn client_ip(forwarded: Option<Seq<char>>, real_ip: Option<Seq<char>>, peer: Seq<char>) -> Seq<char> {
    let first = match forwarded { Some(f) => trim(crate::text::before_comma(f)), None => Seq::empty() };
    let second = match real_ip { Some(r) => trim(r), None => Seq::empty() };
    if forwarded is Some && first.len() > 0 {
        first
    } else if real_ip is Some && second.len() > 0 {
        second
    } else {
        peer
    }
}

/// The client's IP (see `client_ip`).
pub fn extract_client_ip(forwarded: Option<&str>, real_ip: Option<&str>, peer: &str) -> (r: String)
    ensures
        r@ == client_ip(
            match forwarded { Some(f) => Some(f@), None => None },
            match real_ip { Some(x) => Some(x@), None => None },
            peer@,
        ),
{
    if let Some(f) = forwarded {
        let first = crate::text::first_field(f);
        let t = crate::text::str_trim(first.as_str());
        if !t.as_str().is_empty() {
            return t;
        }
    }
    if let Some(x) = real_ip {
        let t = crate::text::str_trim(x);
        if !t.as_str().is_empty() {
            return t;
        }
    }
    peer.to_owned()
}

/// A card as the public API reads it.
pub struct CardRow {
    pub id: u128,
    pub app_id: u128,
    pub status: String,
    pub expires_at_us: Option<i64>,
    pub activated_at_us: Option<i64>,
    pub max_devices: i32,
    pub duration_days: i32,
}

/// The messages that the public API answers with.
pub enum Msg {
    DeviceIdEmpty,
    InvalidApiKey,
    IpBlocked,
    DeviceBlocked,
    RateBlocked,
    AppUnavailable,
    CardNotFound,
    CardDisabled,
    CardExpired,
    AlreadyBound,
    DeviceLimit(i32),
    ActivateFailed,
    Activated,
    CardUnused,
    DeviceNotBound,
    CardValid,
    UnbindBlocked,
    NotBound,
    Unbound,
    OperationFailed(String),
    HeartbeatRecorded,
}

/// The text of a message.
pub open spec fn msg_text(m: Msg) -> Seq<char> {
    match m {
        Msg::DeviceIdEmpty => "设备ID不能为空"@,
        Msg::InvalidApiKey => "无效的 API Key"@,
        Msg::IpBlocked => "IP已被封禁"@,
        Msg::DeviceBlocked => "设备已被封禁"@,
        Msg::RateBlocked => "请求超限已被封禁"@,
        Msg::AppUnavailable => "应用不存在或已禁用"@,
        Msg::CardNotFound => "卡密不存在"@,
        Msg::CardDisabled => "卡密已被禁用"@,
        Msg::CardExpired => "卡密已过期"@,
        Msg::AlreadyBound => "卡密已激活（设备已绑定）"@,
        Msg::DeviceLimit(n) => "该卡密最多支持 "@ + int_text(n as int) + " 台设备，已达上限"@,
        Msg::ActivateFailed => "激活失败"@,
        Msg::Activated => "激活成功"@,
        Msg::CardUnused => "卡密尚未激活"@,
        Msg::DeviceNotBound => "此设备未绑定该卡密"@,
        Msg::CardValid => "卡密有效"@,
        Msg::UnbindBlocked => "设备已被封禁，无法解绑"@,
        Msg::NotBound => "设备未绑定该卡密"@,
        Msg::Unbound => "设备已解绑"@,
        Msg::OperationFailed(e) => "操作失败: "@ + e@,
        Msg::HeartbeatRecorded => "心跳已记录"@,
    }
}

/// The text of a message (see `msg_text`).
pub fn message_text(m: &Msg) -> (r: String)
    ensures
        r@ == msg_text(*m),
{
    match m {
        Msg::DeviceIdEmpty => "设备ID不能为空".to_owned(),
        Msg::InvalidApiKey => "无效的 API Key".to_owned(),
        Msg::IpBlocked => "IP已被封禁".to_owned(),
        Msg::DeviceBlocked => "设备已被封禁".to_owned(),
        Msg::RateBlocked => "请求超限已被封禁".to_owned(),
        Msg::AppUnavailable => "应用不存在或已禁用".to_owned(),
        Msg::CardNotFound => "卡密不存在".to_owned(),
        Msg::CardDisabled => "卡密已被禁用".to_owned(),
        Msg::CardExpired => "卡密已过期".to_owned(),
        Msg::AlreadyBound => "卡密已激活（设备已绑定）".to_owned(),
        Msg::DeviceLimit(n) => {
            let mut t = "该卡密最多支持 ".to_owned();
            push_int(&mut t, *n as i128);
            push_str(&mut t, " 台设备，已达上限");
            t
        },
        Msg::ActivateFailed => "激活失败".to_owned(),
        Msg::Activated => "激活成功".to_owned(),
        Msg::CardUnused => "卡密尚未激活".to_owned(),
        Msg::DeviceNotBound => "此设备未绑定该卡密".to_owned(),
        Msg::CardValid => "卡密有效".to_owned(),
        Msg::UnbindBlocked => "设备已被封禁，无法解绑".to_owned(),
        Msg::NotBound => "设备未绑定该卡密".to_owned(),
        Msg::Unbound => "设备已解绑".to_owned(),
        Msg::OperationFailed(e) => {
            let mut t = "操作失败: ".to_owned();
            push_str(&mut t, e.as_str());
            t
        },
        Msg::HeartbeatRecorded => "心跳已记录".to_owned(),
    }
}

/// The `data` part of an answer.
#[allow(inconsistent_fields)]
pub enum ReplyData {
    Nothing,
    /// A block in force: seconds left and, where the list gives one, its reason.
    Block { remaining_seconds: i64, reason: Option<String> },
    /// Too many uses of a card in a minute.
    RateLimited { count: i64, limit: i64, remaining_seconds: i64 },
    /// A card bound to the device.
    Bound { expires_at_us: Option<i64>, remaining_days: Option<i64>, max_devices: i32, current_devices: Option<i64> },
    /// A card that the device holds: the request's card code, and the card's term and
    /// devices.
    Verified {
        card_code: String,
        expires_at_us: Option<i64>,
        remaining_days: Option<i64>,
        max_devices: i32,
        current_devices: i64,
    },
    /// A device marked online.
    Online,
}

/// An answer of the public API.
pub struct ApiReply {
    pub success: bool,
    pub valid: Option<bool>,
    pub message: Msg,
    pub data: ReplyData,
}

/// The webhook events that the public API fires.
#[derive(Clone, Copy, Debug, PartialEq, Eq)]
pub enum HookEvent {
    Activate,
    Verify,
}

/// The next thing a public API request needs done, or its answer.
pub enum Act {
    /// Look up the active merchant that owns the request's API key.
    FindMerchant,
    /// Tell whether the request's IP and device are on the white list.
    FindWhitelist,
    /// Look up a block in force on the request's IP.
    FindIpBlock,
    /// Look up a block in force on the request's device.
    FindDeviceBlock,
    LoadRiskSetting(RiskKey),
    /// Count this use of the request's card within the current minute.
    CountCardRequests,
    /// Make the card's use counter lapse after a minute.
    ExpireCardRequests,
    WriteAlert { merchant_id: u128, alert: AlertKind },
    /// Count the blocks in force on a key of a black list.
    CountActiveBlocks(BlockKind),
    /// Read the reasons of the black-list rows that name a key, in force or not.
    ReadBlockReasons(BlockKind),
    /// Write the merchant's block of a key until `until_us`, its reason
    /// `block_reason(kind, limit, prior)` recording that it is violation `prior + 1`.
    UpsertBlock { kind: BlockKind, merchant_id: u128, limit: i64, prior: i64, until_us: i64 },
    /// Tell whether the request's app is active and belongs to the merchant.
    FindApp { merchant_id: u128 },
    /// Count the merchant's cards that the request's device has activated.
    CountDeviceCards { merchant_id: u128 },
    /// Read how many activations the request's IP made in the current minute.
    ReadIpActivations,
    /// Look up the request's card among the merchant's cards of the app.
    FindCard { merchant_id: u128 },
    MarkCardExpired { card_id: u128 },
    /// Look up the binding of the card to the request's device.
    FindActivation { card_id: u128 },
    TouchActivation { activation_id: u128 },
    CountActivations { card_id: u128 },
    /// Draw a fresh id for a binding.
    NewActivationId,
    /// Encrypt the request's device id for the binding `activation_id`.
    EncryptDevice { activation_id: u128 },
    InsertActivation { activation_id: u128, card_id: u128, app_id: u128, encrypted_device: String },
    /// Mark the card active with the expiry given; a card activated before keeps its
    /// first activation time, a card never activated takes the current time.
    ActivateCard { card_id: u128, expires_at_us: Option<i64> },
    FireWebhook { app_id: u128, event: HookEvent, expires_at_us: Option<i64>, remaining_days: Option<i64> },
    RecordCommission { merchant_id: u128, card_id: u128, activation_id: u128 },
    /// Read the cached record of the same verification: an object whose member
    /// `card_id` names the card and whose member `answer` is the answer given.
    ReadCache,
    /// Read the status and expiry of the card that a cached record names.
    FindCachedCard { card_id: u128 },
    DropCache,
    /// Keep the cached answer for another minute.
    RefreshCache,
    /// Cache, for a minute, a record of this answer and of the card it is about.
    StoreCache { card_id: u128, reply: ApiReply },
    DeleteActivation { activation_id: u128 },
    /// Return the card to the unused state, with no activation time and no expiry.
    ResetCard { card_id: u128 },
    /// Read the heartbeat record of the request's device.
    FindHeartbeat,
    InsertHeartbeat,
    FindBlockedUntil,
    ReviveHeartbeat,
    DeleteDeviceBlock,
    UpdateHeartbeat,
    /// Answer with the `answer` member of the cached record as it was read.
    ReplyCached,
    Reply(ApiReply),
}

/// What a part of a request decides next: something to do, an answer, or to go on.
pub enum Step {
    Ask(Act),
    Stop(ApiReply),
    Pass,
}

/// A failure answer with a message and nothing else.
pub open spec fn fail(m: Msg) -> ApiReply {
    ApiReply { success: false, valid: None, message: m, data: ReplyData::Nothing }
}

/// A failure answer that also says the card is not valid.
pub open spec fn invalid(m: Msg) -> ApiReply {
    ApiReply { success: false, valid: Some(false), message: m, data: ReplyData::Nothing }
}

fn fail_exec(m: Msg) -> (r: ApiReply)
    ensures
        r == fail(m),
{
    ApiReply { success: false, valid: None, message: m, data: ReplyData::Nothing }
}

fn invalid_exec(m: Msg) -> (r: ApiReply)
    ensures
        r == invalid(m),
{
    ApiReply { success: false, valid: Some(false), message: m, data: ReplyData::Nothing }
}

// ---------------------------------------------------------------------------
// The black- and white-list screening of a request.

/// What is known of the screening of a request's IP and device.
pub struct ScreenFacts {
    /// Whether the IP, and the device, are on the white list.
    pub whitelist: Option<(bool, bool)>,
    pub ip_block: Option<Option<BlockRecord>>,
    pub device_block: Option<Option<BlockRecord>>,
}

impl ScreenFacts {
    pub fn new() -> (r: ScreenFacts)
        ensures
            r.whitelist is None && r.ip_block is None && r.device_block is None,
    {
        ScreenFacts { whitelist: None, ip_block: None, device_block: None }
    }
}

/// The answer for a block in force.
pub open spec fn blocked_reply(m: Msg, r: BlockRecord, now: int) -> ApiReply {
    ApiReply {
        success: false,
        valid: None,
        message: m,
        data: ReplyData::Block { remaining_seconds: secs_left(r.until_us, now), reason: Some(r.reason) },
    }
}

/// Screening: a request from a white-listed IP and device passes; otherwise a block in
/// force on the IP (unless white-listed), then on the device (unless white-listed),
/// stops it.
pub open spec fn screen_step(f: ScreenFacts, now: int) -> Step {
    match f.whitelist {
        None => Step::Ask(Act::FindWhitelist),
        Some((wip, wdev)) => {
            if wip && wdev {
                Step::Pass
            } else if !wip && f.ip_block is None {
                Step::Ask(Act::FindIpBlock)
            } else if !wip && f.ip_block->0 is Some {
                Step::Stop(blocked_reply(Msg::IpBlocked, f.ip_block->0->0, now))
            } else if !wdev && f.device_block is None {
                Step::Ask(Act::FindDeviceBlock)
            } else if !wdev && f.device_block->0 is Some {
                Step::Stop(blocked_reply(Msg::DeviceBlocked, f.device_block->0->0, now))
            } else {
                Step::Pass
            }
        },
    }
}

fn blocked_reply_exec(m: Msg, r: &BlockRecord, now: i64) -> (a: ApiReply)
    ensures
        a == blocked_reply(m, *r, now as int),
{
    ApiReply {
        success: false,
        valid: None,
        message: m,
        data: ReplyData::Block { remaining_seconds: seconds_left(r.until_us, now), reason: Some(r.reason.clone()) },
    }
}

/// Screening (see `screen_step`).
pub fn screen(f: &ScreenFacts, now: i64) -> (s: Step)
    ensures
        s == screen_step(*f, now as int),
{
    match f.whitelist {
        None => Step::Ask(Act::FindWhitelist),
        Some((wip, wdev)) => {
            if wip && wdev {
                return Step::Pass;
            }
            if !wip {
                match &f.ip_block {
                    None => { return Step::Ask(Act::FindIpBlock); },
                    Some(Some(r)) => { return Step::Stop(blocked_reply_exec(Msg::IpBlocked, r, now)); },
                    Some(None) => {},
                }
            }
            if !wdev {
                match &f.device_block {
                    None => { return Step::Ask(Act::FindDeviceBlock); },
                    Some(Some(r)) => { return Step::Stop(blocked_reply_exec(Msg::DeviceBlocked, r, now)); },
                    Some(None) => {},
                }
            }
            Step::Pass
        },
    }
}

// ---------------------------------------------------------------------------
// Writing a block into a black list.

/// What is known of writing one block.
pub struct BlockFacts {
    /// How many blocks are in force on the key.
    pub active: Option<i64>,
    /// The reasons of the black-list rows that name the key, in force or not; each
    /// records the violation number of the last block it holds.
    pub reasons: Option<Vec<String>>,
    pub written: bool,
}

impl BlockFacts {
    pub fn new() -> (r: BlockFacts)
        ensures
            r.active is None && r.reasons is None && !r.written,
    {
        BlockFacts { active: None, reasons: None, written: false }
    }
}

/// The end of a block that starts at `now` after `prior` earlier violations.
pub open spec fn block_until(now: int, prior: int) -> i64 {
    (now + block_minutes(prior) * 60_000_000) as i64
}

/// Writing a block: nothing while a block is in force on the key; otherwise one
/// block whose length grows with the number of earlier violations on the key, the
/// largest violation number that the key's black-list reasons record.
pub open spec fn block_step(kind: BlockKind, merchant_id: u128, limit: i64, f: BlockFacts, now: int) -> Step {
    match f.active {
        None => Step::Ask(Act::CountActiveBlocks(kind)),
        Some(c) => if c > 0 {
            Step::Pass
        } else {
            match f.reasons {
                None => Step::Ask(Act::ReadBlockReasons(kind)),
                Some(rs) => if !f.written {
                    let v = recorded_violations(rs@);
                    Step::Ask(Act::UpsertBlock { kind, merchant_id, limit, prior: v as i64, until_us: block_until(now, v) })
                } else {
                    Step::Pass
                },
            }
        },
    }
}

/// Writing a block (see `block_step`).
pub fn block(kind: BlockKind, merchant_id: u128, limit: i64, f: &BlockFacts, now: i64) -> (s: Step)
    requires
        in_time_range(now as int),
    ensures
        s == block_step(kind, merchant_id, limit, *f, now as int),
{
    match f.active {
        None => Step::Ask(Act::CountActiveBlocks(kind)),
        Some(c) => if c > 0 {
            Step::Pass
        } else {
            match &f.reasons {
                None => Step::Ask(Act::ReadBlockReasons(kind)),
                Some(rs) => if !f.written {
                    let v = recorded_violations_of(rs);
                    let m = minutes_for(v);
                    Step::Ask(Act::UpsertBlock { kind, merchant_id, limit, prior: v, until_us: now + m * MINUTE_US })
                } else {
                    Step::Pass
                },
            }
        },
    }
}

// ---------------------------------------------------------------------------
// The per-minute limit on the use of one card.

/// What is known of the rate check of a card.
pub struct RateFacts {
    /// The stored rate setting, none when there is none stored.
    pub setting: Option<Option<Json>>,
    /// This use's number within the current minute.
    pub count: Option<i64>,
    pub expired: bool,
    pub alerted: bool,
    pub card_block: BlockFacts,
    pub ip_block: BlockFacts,
}

impl RateFacts {
    pub fn new() -> (r: RateFacts)
        ensures
            r.setting is None && r.count is None && !r.expired && !r.alerted,
            r.card_block == (BlockFacts { active: None, reasons: None, written: false }),
            r.ip_block == (BlockFacts { active: None, reasons: None, written: false }),
    {
        RateFacts { setting: None, count: None, expired: false, alerted: false, card_block: BlockFacts::new(), ip_block: BlockFacts::new() }
    }
}

/// The answer once a card is blocked for overuse.
pub open spec fn rate_reply(count: i64, limit: i64) -> ApiReply {
    ApiReply {
        success: false,
        valid: None,
        message: Msg::RateBlocked,
        data: ReplyData::RateLimited { count, limit, remaining_seconds: 600 },
    }
}

/// The rate check: the first use in a minute starts the minute; a use at the warning
/// limit or above (but under the blocking limit) raises a warning; a use at the
/// blocking limit or above raises an alert, blocks the card and the IP, and stops the
/// request.
pub open spec fn rate_step(merchant_id: u128, f: RateFacts, now: int) -> Step {
    match f.setting {
        None => Step::Ask(Act::LoadRiskSetting(RiskKey::RateVerify)),
        Some(sv) => {
            let (warn, lim) = rate_limits(sv);
            match f.count {
                None => Step::Ask(Act::CountCardRequests),
                Some(count) => {
                    if count == 1 && !f.expired {
                        Step::Ask(Act::ExpireCardRequests)
                    } else if warn <= count < lim && !f.alerted {
                        Step::Ask(Act::WriteAlert { merchant_id, alert: AlertKind::RateWarn { count, limit: warn } })
                    } else if count >= lim {
                        if !f.alerted {
                            Step::Ask(Act::WriteAlert { merchant_id, alert: AlertKind::RateBlock { count, limit: lim } })
                        } else {
                            match block_step(BlockKind::Card, merchant_id, lim, f.card_block, now) {
                                Step::Pass => match block_step(BlockKind::Ip, merchant_id, lim, f.ip_block, now) {
                                    Step::Pass => Step::Stop(rate_reply(count, lim)),
                                    other => other,
                                },
                                other => other,
                            }
                        }
                    } else {
                        Step::Pass
                    }
                },
            }
        },
    }
}

/// The rate check (see `rate_step`).
pub fn rate(merchant_id: u128, f: &RateFacts, now: i64) -> (s: Step)
    requires
        in_time_range(now as int),
    ensures
        s == rate_step(merchant_id, *f, now as int),
{
    match &f.setting {
        None => Step::Ask(Act::LoadRiskSetting(RiskKey::RateVerify)),
        Some(sv) => {
            let (warn, lim) = limits_of(sv);
            match f.count {
                None => Step::Ask(Act::CountCardRequests),
                Some(count) => {
                    if count == 1 && !f.expired {
                        Step::Ask(Act::ExpireCardRequests)
                    } else if warn <= count && count < lim && !f.alerted {
                        Step::Ask(Act::WriteAlert { merchant_id, alert: AlertKind::RateWarn { count, limit: warn } })
                    } else if count >= lim {
                        if !f.alerted {
                            Step::Ask(Act::WriteAlert { merchant_id, alert: AlertKind::RateBlock { count, limit: lim } })
                        } else {
                            match block(BlockKind::Card, merchant_id, lim, &f.card_block, now) {
                                Step::Pass => match block(BlockKind::Ip, merchant_id, lim, &f.ip_block, now) {
                                    Step::Pass => Step::Stop(ApiReply {
                                        success: false,
                                        valid: None,
                                        message: Msg::RateBlocked,
                                        data: ReplyData::RateLimited { count, limit: lim, remaining_seconds: 600 },
                                    }),
                                    other => other,
                                },
                                other => other,
                            }
                        }
                    } else {
                        Step::Pass
                    }
                },
            }
        },
    }
}

// ---------------------------------------------------------------------------
// Activation: binding a device to a card.

/// What is known, so far, in answering an activation.
pub struct ActivateFacts {
    /// The active merchant that owns the API key, none when no merchant does.
    pub merchant: Option<Option<u128>>,
    pub screen: ScreenFacts,
    pub rate: RateFacts,
    pub app_active: Option<bool>,
    /// The merchant's cards that the device activated before.
    pub device_cards: Option<i64>,
    pub device_alerted: bool,
    /// The activations from the IP in the current minute.
    pub ip_activations: Option<i64>,
    pub ip_alerted: bool,
    pub card: Option<Option<CardRow>>,
    pub expiry_marked: bool,
    /// The binding of the card to the device, if there is one.
    pub activation: Option<Option<u128>>,
    pub touched: bool,
    /// The devices bound to the card.
    pub activation_count: Option<i64>,
    pub new_id: Option<u128>,
    /// The encrypted device id, or why encryption failed.
    pub encrypted: Option<Result<String, String>>,
    pub inserted: bool,
    pub card_updated: bool,
    pub webhook_fired: bool,
    pub commission_recorded: bool,
}

impl ActivateFacts {
    /// Nothing known yet.
    pub fn new() -> (r: ActivateFacts)
        ensures
            r.merchant is None && r.app_active is None && r.card is None,
            r.screen == (ScreenFacts { whitelist: None, ip_block: None, device_block: None }),
            r.rate.setting is None && r.rate.count is None && !r.rate.expired && !r.rate.alerted,
            r.rate.card_block == (BlockFacts { active: None, reasons: None, written: false }),
            r.rate.ip_block == (BlockFacts { active: None, reasons: None, written: false }),
            r.device_cards is None && !r.device_alerted && r.ip_activations is None && !r.ip_alerted,
            !r.expiry_marked && r.activation is None && !r.touched && r.activation_count is None,
            r.new_id is None && r.encrypted is None,
            !r.inserted && !r.card_updated && !r.webhook_fired && !r.commission_recorded,
    {
        ActivateFacts {
            merchant: None,
            screen: ScreenFacts::new(),
            rate: RateFacts::new(),
            app_active: None,
            device_cards: None,
            device_alerted: false,
            ip_activations: None,
            ip_alerted: false,
            card: None,
            expiry_marked: false,
            activation: None,
            touched: false,
            activation_count: None,
            new_id: None,
            encrypted: None,
            inserted: false,
            card_updated: false,
            webhook_fired: false,
            commission_recorded: false,
        }
    }
}

/// A card that is neither disabled nor marked expired.
pub open spec fn status_usable(c: CardRow) -> bool {
    c.status@ != "disabled"@ && c.status@ != "expired"@
}

/// A card whose expiry is past at `now`.
pub open spec fn expired_at(c: CardRow, now: int) -> bool {
    match c.expires_at_us {
        Some(e) => now > e,
        None => false,
    }
}

/// The expiry a card has once activated: a first activation starts its term now;
/// later ones keep the expiry it has.
pub open spec fn new_expiry(c: CardRow, now: int) -> Option<i64> {
    if c.activated_at_us is None {
        Some((now + c.duration_days * 86_400_000_000) as i64)
    } else {
        c.expires_at_us
    }
}

/// The calendar can hold the expiry that an activation would give the card.
pub open spec fn expiry_fits(f: ActivateFacts, now: int) -> bool {
    match f.card {
        Some(Some(c)) => c.activated_at_us is None ==> in_time_range(now + c.duration_days * 86_400_000_000),
        _ => true,
    }
}

/// The answer for a card that is already bound to the device.
pub open spec fn bound_reply(m: Msg, expires: Option<i64>, max_devices: i32, current: Option<i64>, now: int) -> ApiReply {
    ApiReply {
        success: true,
        valid: None,
        message: m,
        data: ReplyData::Bound {
            expires_at_us: expires,
            remaining_days: days_left(expires, now),
            max_devices,
            current_devices: current,
        },
    }
}

/// The step of an activation once the card's binding is known to be new and the
/// card to have room for it.
pub open spec fn activate_bind(mid: u128, c: CardRow, count: i64, f: ActivateFacts, now: int) -> Act {
    let expires = new_expiry(c, now);
    match f.new_id {
        None => Act::NewActivationId,
        Some(aid) => match f.encrypted {
            None => Act::EncryptDevice { activation_id: aid },
            Some(Err(_)) => Act::Reply(fail(Msg::ActivateFailed)),
            Some(Ok(enc)) => {
                if !f.inserted {
                    Act::InsertActivation { activation_id: aid, card_id: c.id, app_id: c.app_id, encrypted_device: enc }
                } else if !f.card_updated {
                    Act::ActivateCard { card_id: c.id, expires_at_us: expires }
                } else if !f.webhook_fired {
                    Act::FireWebhook { app_id: c.app_id, event: HookEvent::Activate, expires_at_us: expires, remaining_days: days_left(expires, now) }
                } else if !f.commission_recorded {
                    Act::RecordCommission { merchant_id: mid, card_id: c.id, activation_id: aid }
                } else {
                    Act::Reply(bound_reply(Msg::Activated, expires, c.max_devices, Some((count + 1) as i64), now))
                }
            },
        },
    }
}

/// The step of an activation once the request's card is found.
pub open spec fn activate_card(mid: u128, c: CardRow, f: ActivateFacts, now: int) -> Act {
    if c.status@ == "disabled"@ {
        Act::Reply(fail(Msg::CardDisabled))
    } else if c.status@ == "expired"@ {
        Act::Reply(fail(Msg::CardExpired))
    } else if expired_at(c, now) {
        if !f.expiry_marked { Act::MarkCardExpired { card_id: c.id } } else { Act::Reply(fail(Msg::CardExpired)) }
    } else {
        match f.activation {
            None => Act::FindActivation { card_id: c.id },
            Some(Some(aid)) => if !f.touched {
                Act::TouchActivation { activation_id: aid }
            } else {
                Act::Reply(bound_reply(Msg::AlreadyBound, c.expires_at_us, c.max_devices, None, now))
            },
            Some(None) => match f.activation_count {
                None => Act::CountActivations { card_id: c.id },
                Some(count) => if count >= c.max_devices {
                    Act::Reply(fail(Msg::DeviceLimit(c.max_devices)))
                } else {
                    activate_bind(mid, c, count, f, now)
                },
            },
        }
    }
}

/// The step of an activation once the merchant is known.
pub open spec fn activate_merchant(mid: u128, f: ActivateFacts, now: int) -> Act {
    match screen_step(f.screen, now) {
        Step::Ask(a) => a,
        Step::Stop(r) => Act::Reply(r),
        Step::Pass => match rate_step(mid, f.rate, now) {
            Step::Ask(a) => a,
            Step::Stop(r) => Act::Reply(r),
            Step::Pass => match f.app_active {
                None => Act::FindApp { merchant_id: mid },
                Some(false) => Act::Reply(fail(Msg::AppUnavailable)),
                Some(true) => match f.device_cards {
                    None => Act::CountDeviceCards { merchant_id: mid },
                    Some(n) => if n >= 3 && !f.device_alerted {
                        Act::WriteAlert { merchant_id: mid, alert: AlertKind::DeviceMultiCard { prior: n } }
                    } else {
                        match f.ip_activations {
                            None => Act::ReadIpActivations,
                            Some(k) => if k >= 15 && !f.ip_alerted {
                                Act::WriteAlert { merchant_id: mid, alert: AlertKind::IpAbuse { count: k } }
                            } else {
                                match f.card {
                                    None => Act::FindCard { merchant_id: mid },
                                    Some(None) => Act::Reply(fail(Msg::CardNotFound)),
                                    Some(Some(c)) => activate_card(mid, c, f, now),
                                }
                            },
                        }
                    },
                },
            },
        },
    }
}

/// The next step of an activation: an empty device id is refused; the API key must
/// name an active merchant; the request must pass screening and the card's rate
/// limit; the app must be active; a device with three or more of the merchant's cards,
/// and an IP with fifteen or more activations this minute, raise alerts; the card must
/// exist, be neither disabled nor expired; a device already bound is confirmed; a
/// card with all its device slots taken is refused; otherwise the device is bound,
/// the card activated (its term starting at the first activation), the webhook fired
/// and the commission recorded.
pub open spec fn activate_next(req: ActivateRequest, now: int, f: ActivateFacts) -> Act {
    if trim(req.device_id@).len() == 0 {
        Act::Reply(fail(Msg::DeviceIdEmpty))
    } else {
        match f.merchant {
            None => Act::FindMerchant,
            Some(None) => Act::Reply(fail(Msg::InvalidApiKey)),
            Some(Some(mid)) => activate_merchant(mid, f, now),
        }
    }
}

fn bound_reply_exec(m: Msg, expires: Option<i64>, max_devices: i32, current: Option<i64>, now: i64) -> (r: ApiReply)
    ensures
        r == bound_reply(m, expires, max_devices, current, now as int),
{
    ApiReply {
        success: true,
        valid: None,
        message: m,
        data: ReplyData::Bound {
            expires_at_us: expires,
            remaining_days: remaining_days(expires, now),
            max_devices,
            current_devices: current,
        },
    }
}

fn activate_bind_exec(mid: u128, c: &CardRow, count: i64, f: &ActivateFacts, now: i64) -> (a: Act)
    requires
        in_time_range(now as int),
        c.activated_at_us is None ==> in_time_range(now + c.duration_days * 86_400_000_000),
        count < c.max_devices,
    ensures
        a == activate_bind(mid, *c, count, *f, now as int),
{
    let expires: Option<i64> = if c.activated_at_us.is_none() {
        Some(((now as i128) + (c.duration_days as i128) * (DAY_US as i128)) as i64)
    } else {
        c.expires_at_us
    };
    match f.new_id {
        None => Act::NewActivationId,
        Some(aid) => match &f.encrypted {
            None => Act::EncryptDevice { activation_id: aid },
            Some(Err(_)) => Act::Reply(fail_exec(Msg::ActivateFailed)),
            Some(Ok(enc)) => {
                if !f.inserted {
                    Act::InsertActivation { activation_id: aid, card_id: c.id, app_id: c.app_id, encrypted_device: enc.clone() }
                } else if !f.card_updated {
                    Act::ActivateCard { card_id: c.id, expires_at_us: expires }
                } else if !f.webhook_fired {
                    Act::FireWebhook { app_id: c.app_id, event: HookEvent::Activate, expires_at_us: expires, remaining_days: remaining_days(expires, now) }
                } else if !f.commission_recorded {
                    Act::RecordCommission { merchant_id: mid, card_id: c.id, activation_id: aid }
                } else {
                    Act::Reply(bound_reply_exec(Msg::Activated, expires, c.max_devices, Some(count + 1), now))
                }
            },
        },
    }
}

fn activate_card_exec(mid: u128, c: &CardRow, f: &ActivateFacts, now: i64) -> (a: Act)
    requires
        in_time_range(now as int),
        c.activated_at_us is None ==> in_time_range(now + c.duration_days * 86_400_000_000),
    ensures
        a == activate_card(mid, *c, *f, now as int),
{
    if str_eq(c.status.as_str(), "disabled") {
        return Act::Reply(fail_exec(Msg::CardDisabled));
    }
    if str_eq(c.status.as_str(), "expired") {
        return Act::Reply(fail_exec(Msg::CardExpired));
    }
    let past = match c.expires_at_us { Some(e) => now > e, None => false };
    if past {
        return if !f.expiry_marked { Act::MarkCardExpired { card_id: c.id } } else { Act::Reply(fail_exec(Msg::CardExpired)) };
    }
    match f.activation {
        None => Act::FindActivation { card_id: c.id },
        Some(Some(aid)) => if !f.touched {
            Act::TouchActivation { activation_id: aid }
        } else {
            Act::Reply(bound_reply_exec(Msg::AlreadyBound, c.expires_at_us, c.max_devices, None, now))
        },
        Some(None) => match f.activation_count {
            None => Act::CountActivations { card_id: c.id },
            Some(count) => if count >= c.max_devices as i64 {
                Act::Reply(fail_exec(Msg::DeviceLimit(c.max_devices)))
            } else {
                activate_bind_exec(mid, c, count, f, now)
            },
        },
    }
}

/// The precondition of `decide_activate`: the clock reads a time the calendar holds,
/// and so would the card's expiry.
pub open spec fn activate_ready(now: int, f: ActivateFacts) -> bool {
    in_time_range(now) && expiry_fits(f, now)
}

/// Whether `decide_activate` may be called (see `activate_ready`).
pub fn activate_can_decide(now: i64, f: &ActivateFacts) -> (b: bool)
    ensures
        b == activate_ready(now as int, *f),
{
    if now < MIN_TIME_US || now > MAX_TIME_US {
        return false;
    }
    match &f.card {
        Some(Some(c)) => {
            if c.activated_at_us.is_none() {
                let e: i128 = (now as i128) + (c.duration_days as i128) * (DAY_US as i128);
                (MIN_TIME_US as i128) <= e && e <= (MAX_TIME_US as i128)
            } else {
                true
            }
        },
        _ => true,
    }
}

/// The next step of an activation (see `activate_next`).
pub fn decide_activate(req: &ActivateRequest, now: i64, f: &ActivateFacts) -> (a: Act)
    requires
        activate_ready(now as int, *f),
    ensures
        a == activate_next(*req, now as int, *f),
{
    if is_blank(req.device_id.as_str()) {
        return Act::Reply(fail_exec(Msg::DeviceIdEmpty));
    }
    let mid = match f.merchant {
        None => { return Act::FindMerchant; },
        Some(None) => { return Act::Reply(fail_exec(Msg::InvalidApiKey)); },
        Some(Some(mid)) => mid,
    };
    match screen(&f.screen, now) {
        Step::Ask(a) => { return a; },
        Step::Stop(r) => { return Act::Reply(r); },
        Step::Pass => {},
    }
    match rate(mid, &f.rate, now) {
        Step::Ask(a) => { return a; },
        Step::Stop(r) => { return Act::Reply(r); },
        Step::Pass => {},
    }
    match f.app_active {
        None => { return Act::FindApp { merchant_id: mid }; },
        Some(false) => { return Act::Reply(fail_exec(Msg::AppUnavailable)); },
        Some(true) => {},
    }
    match f.device_cards {
        None => { return Act::CountDeviceCards { merchant_id: mid }; },
        Some(n) => if n >= 3 && !f.device_alerted {
            return Act::WriteAlert { merchant_id: mid, alert: AlertKind::DeviceMultiCard { prior: n } };
        },
    }
    match f.ip_activations {
        None => { return Act::ReadIpActivations; },
        Some(k) => if k >= 15 && !f.ip_alerted {
            return Act::WriteAlert { merchant_id: mid, alert: AlertKind::IpAbuse { count: k } };
        },
    }
    match &f.card {
        None => Act::FindCard { merchant_id: mid },
        Some(None) => Act::Reply(fail_exec(Msg::CardNotFound)),
        Some(Some(c)) => activate_card_exec(mid, c, f, now),
    }
}

// ---------------------------------------------------------------------------
// Verification: checking that a device holds a card.

/// The uuid that `uuid::Uuid::parse_str` reads in `s`, if it reads one.
pub uninterp spec fn uuid_of(s: Seq<char>) -> Option<u128>;

/// `uuid::Uuid::parse_str`, the uuid as a number: its result is named `uuid_of(s)`;
/// which texts it reads, and as what, is not stated.
#[verifier::external_body]
pub(crate) fn parse_uuid(s: &str) -> (r: Option<u128>)
    ensures
        r == uuid_of(s@),
{
    uuid::Uuid::parse_str(s).ok().map(|u| u.as_u128())
}

/// The card that a cached record names: the text of its member `card_id`, read as a
/// uuid.
pub open spec fn cached_card_id(v: Json) -> Option<u128> {
    match crate::json::at_path(v, seq!["card_id"@]) {
        Some(x) => match crate::json::as_str(x) {
            Some(t) => uuid_of(t),
            None => None,
        },
        None => None,
    }
}

/// The card that a cached record names (see `cached_card_id`).
pub fn cached_card(v: &Json) -> (r: Option<u128>)
    ensures
        r == cached_card_id(*v),
{
    let ghost path = seq!["card_id"@];
    proof {
        reveal_with_fuel(crate::json::at_path, 2);
        assert(path.drop_first() == Seq::<Seq<char>>::empty());
    }
    match crate::json::get_member(v, "card_id") {
        None => None,
        Some(x) => match crate::json::json_str(x) {
            None => None,
            Some(t) => parse_uuid(t.as_str()),
        },
    }
}

/// The card of a cached record that can be answered from: one that names its card
/// and holds an answer; none for no record, or a record without either.
pub open spec fn usable_cache(c: Option<Json>) -> Option<u128> {
    match c {
        Some(v) => if crate::json::member(v, "answer"@) is Some { cached_card_id(v) } else { None },
        None => None,
    }
}

fn usable_cache_exec(c: &Option<Json>) -> (r: Option<u128>)
    ensures
        r == usable_cache(*c),
{
    match c {
        Some(v) => if crate::json::get_member(v, "answer").is_some() { cached_card(v) } else { None },
        None => None,
    }
}

/// What is known, so far, in answering a verification.
pub struct VerifyFacts {
    pub merchant: Option<Option<u128>>,
    pub rate: RateFacts,
    /// The cached record, none when there is none or it does not parse.
    pub cache: Option<Option<Json>>,
    /// The status and expiry of the card that the cached record names.
    pub live: Option<Option<(String, Option<i64>)>>,
    pub cache_dropped: bool,
    pub cache_refreshed: bool,
    pub app_active: Option<bool>,
    pub card: Option<Option<CardRow>>,
    pub expiry_marked: bool,
    pub activation: Option<Option<u128>>,
    pub touched: bool,
    pub activation_count: Option<i64>,
    pub stored: bool,
    pub webhook_fired: bool,
}

impl VerifyFacts {
    /// Nothing known yet.
    pub fn new() -> (r: VerifyFacts)
        ensures
            r.merchant is None && r.cache is None && r.live is None && !r.cache_dropped,
            r.rate.setting is None && r.rate.count is None && !r.rate.expired && !r.rate.alerted,
            r.rate.card_block == (BlockFacts { active: None, reasons: None, written: false }),
            r.rate.ip_block == (BlockFacts { active: None, reasons: None, written: false }),
            !r.cache_refreshed && r.app_active is None && r.card is None && !r.expiry_marked,
            r.activation is None && !r.touched && r.activation_count is None,
            !r.stored && !r.webhook_fired,
    {
        VerifyFacts {
            merchant: None,
            rate: RateFacts::new(),
            cache: None,
            live: None,
            cache_dropped: false,
            cache_refreshed: false,
            app_active: None,
            card: None,
            expiry_marked: false,
            activation: None,
            touched: false,
            activation_count: None,
            stored: false,
            webhook_fired: false,
        }
    }
}

/// The answer that a device holds a valid card; it repeats the card code asked about.
pub open spec fn valid_reply(code: String, c: CardRow, count: i64, now: int) -> ApiReply {
    ApiReply {
        success: true,
        valid: Some(true),
        message: Msg::CardValid,
        data: ReplyData::Verified {
            card_code: code,
            expires_at_us: c.expires_at_us,
            remaining_days: days_left(c.expires_at_us, now),
            max_devices: c.max_devices,
            current_devices: count,
        },
    }
}

/// A refusal of a verification answered from the cache: the cached record is
/// dropped first.
pub open spec fn drop_then(m: Msg, f: VerifyFacts) -> Act {
    if !f.cache_dropped { Act::DropCache } else { Act::Reply(invalid(m)) }
}

/// The step of a verification that found a usable cached record for card `cid`:
/// the card must still exist, not be disabled, not be past its expiry, be neither
/// expired nor unused, and the device must still be bound to it, or the record is
/// dropped and the request refused as the live check would refuse it; otherwise the
/// record is kept a minute longer and its answer given.
pub open spec fn verify_cached(cid: u128, f: VerifyFacts, now: int) -> Act {
    match f.live {
        None => Act::FindCachedCard { card_id: cid },
        Some(None) => drop_then(Msg::CardNotFound, f),
        Some(Some((status, exp))) => if status@ == "disabled"@ {
            drop_then(Msg::CardDisabled, f)
        } else if exp is Some && now > exp->0 {
            drop_then(Msg::CardExpired, f)
        } else if status@ == "expired"@ {
            drop_then(Msg::CardExpired, f)
        } else if status@ == "unused"@ {
            drop_then(Msg::CardUnused, f)
        } else {
            match f.activation {
                None => Act::FindActivation { card_id: cid },
                Some(None) => drop_then(Msg::DeviceNotBound, f),
                Some(Some(_)) => if !f.cache_refreshed { Act::RefreshCache } else { Act::ReplyCached },
            }
        },
    }
}

/// The step of a verification once the card is found.
pub open spec fn verify_card(req: VerifyRequest, c: CardRow, f: VerifyFacts, now: int) -> Act {
    if expired_at(c, now) {
        if !f.expiry_marked { Act::MarkCardExpired { card_id: c.id } } else { Act::Reply(invalid(Msg::CardExpired)) }
    } else if c.status@ == "disabled"@ {
        Act::Reply(invalid(Msg::CardDisabled))
    } else if c.status@ == "expired"@ {
        Act::Reply(invalid(Msg::CardExpired))
    } else if c.status@ == "unused"@ {
        Act::Reply(invalid(Msg::CardUnused))
    } else {
        match f.activation {
            None => Act::FindActivation { card_id: c.id },
            Some(None) => Act::Reply(invalid(Msg::DeviceNotBound)),
            Some(Some(aid)) => if !f.touched {
                Act::TouchActivation { activation_id: aid }
            } else {
                match f.activation_count {
                    None => Act::CountActivations { card_id: c.id },
                    Some(count) => if !f.stored {
                        Act::StoreCache { card_id: c.id, reply: valid_reply(req.card_code, c, count, now) }
                    } else if !f.webhook_fired {
                        Act::FireWebhook { app_id: c.app_id, event: HookEvent::Verify, expires_at_us: c.expires_at_us, remaining_days: days_left(c.expires_at_us, now) }
                    } else {
                        Act::Reply(valid_reply(req.card_code, c, count, now))
                    },
                }
            },
        }
    }
}

/// The next step of a verification: the API key must name an active merchant; the
/// card's rate limit applies; a usable cached answer is given after a check of the
/// card it names and of the device's binding; otherwise the app must be active, the card must exist, not be past its
/// expiry, disabled, expired or unused, and be bound to the device; the answer is
/// cached for a minute and the webhook fired.
pub open spec fn verify_next(req: VerifyRequest, now: int, f: VerifyFacts) -> Act {
    match f.merchant {
        None => Act::FindMerchant,
        Some(None) => Act::Reply(invalid(Msg::InvalidApiKey)),
        Some(Some(mid)) => match rate_step(mid, f.rate, now) {
            Step::Ask(a) => a,
            Step::Stop(r) => Act::Reply(r),
            Step::Pass => match f.cache {
                None => Act::ReadCache,
                Some(c) => match usable_cache(c) {
                    Some(cid) => verify_cached(cid, f, now),
                    None => match f.app_active {
                        None => Act::FindApp { merchant_id: mid },
                        Some(false) => Act::Reply(fail(Msg::AppUnavailable)),
                        Some(true) => match f.card {
                            None => Act::FindCard { merchant_id: mid },
                            Some(None) => Act::Reply(fail(Msg::CardNotFound)),
                            Some(Some(c)) => verify_card(req, c, f, now),
                        },
                    },
                },
            },
        },
    }
}

fn valid_reply_exec(code: &String, c: &CardRow, count: i64, now: i64) -> (r: ApiReply)
    ensures
        r == valid_reply(*code, *c, count, now as int),
{
    ApiReply {
        success: true,
        valid: Some(true),
        message: Msg::CardValid,
        data: ReplyData::Verified {
            card_code: code.clone(),
            expires_at_us: c.expires_at_us,
            remaining_days: remaining_days(c.expires_at_us, now),
            max_devices: c.max_devices,
            current_devices: count,
        },
    }
}

fn drop_then_exec(m: Msg, f: &VerifyFacts) -> (a: Act)
    ensures
        a == drop_then(m, *f),
{
    if !f.cache_dropped { Act::DropCache } else { Act::Reply(invalid_exec(m)) }
}

fn verify_cached_exec(cid: u128, f: &VerifyFacts, now: i64) -> (a: Act)
    ensures
        a == verify_cached(cid, *f, now as int),
{
    match &f.live {
        None => Act::FindCachedCard { card_id: cid },
        Some(None) => drop_then_exec(Msg::CardNotFound, f),
        Some(Some((status, exp))) => if str_eq(status.as_str(), "disabled") {
            drop_then_exec(Msg::CardDisabled, f)
        } else if exp.is_some() && now > exp.unwrap() {
            drop_then_exec(Msg::CardExpired, f)
        } else if str_eq(status.as_str(), "expired") {
            drop_then_exec(Msg::CardExpired, f)
        } else if str_eq(status.as_str(), "unused") {
            drop_then_exec(Msg::CardUnused, f)
        } else {
            match f.activation {
                None => Act::FindActivation { card_id: cid },
                Some(None) => drop_then_exec(Msg::DeviceNotBound, f),
                Some(Some(_)) => if !f.cache_refreshed { Act::RefreshCache } else { Act::ReplyCached },
            }
        },
    }
}

fn verify_card_exec(req: &VerifyRequest, c: &CardRow, f: &VerifyFacts, now: i64) -> (a: Act)
    ensures
        a == verify_card(*req, *c, *f, now as int),
{
    let past = match c.expires_at_us { Some(e) => now > e, None => false };
    if past {
        return if !f.expiry_marked { Act::MarkCardExpired { card_id: c.id } } else { Act::Reply(invalid_exec(Msg::CardExpired)) };
    }
    if str_eq(c.status.as_str(), "disabled") {
        return Act::Reply(invalid_exec(Msg::CardDisabled));
    }
    if str_eq(c.status.as_str(), "expired") {
        return Act::Reply(invalid_exec(Msg::CardExpired));
    }
    if str_eq(c.status.as_str(), "unused") {
        return Act::Reply(invalid_exec(Msg::CardUnused));
    }
    match f.activation {
        None => Act::FindActivation { card_id: c.id },
        Some(None) => Act::Reply(invalid_exec(Msg::DeviceNotBound)),
        Some(Some(aid)) => if !f.touched {
            Act::TouchActivation { activation_id: aid }
        } else {
            match f.activation_count {
                None => Act::CountActivations { card_id: c.id },
                Some(count) => if !f.stored {
                    Act::StoreCache { card_id: c.id, reply: valid_reply_exec(&req.card_code, c, count, now) }
                } else if !f.webhook_fired {
                    Act::FireWebhook { app_id: c.app_id, event: HookEvent::Verify, expires_at_us: c.expires_at_us, remaining_days: remaining_days(c.expires_at_us, now) }
                } else {
                    Act::Reply(valid_reply_exec(&req.card_code, c, count, now))
                },
            }
        },
    }
}

/// The next step of a verification (see `verify_next`).
pub fn decide_verify(req: &VerifyRequest, now: i64, f: &VerifyFacts) -> (a: Act)
    requires
        in_time_range(now as int),
    ensures
        a == verify_next(*req, now as int, *f),
{
    let mid = match f.merchant {
        None => { return Act::FindMerchant; },
        Some(None) => { return Act::Reply(invalid_exec(Msg::InvalidApiKey)); },
        Some(Some(mid)) => mid,
    };
    match rate(mid, &f.rate, now) {
        Step::Ask(a) => { return a; },
        Step::Stop(r) => { return Act::Reply(r); },
        Step::Pass => {},
    }
    let cid = match &f.cache {
        None => { return Act::ReadCache; },
        Some(c) => usable_cache_exec(c),
    };
    match cid {
        Some(cid) => verify_cached_exec(cid, f, now),
        None => match f.app_active {
            None => Act::FindApp { merchant_id: mid },
            Some(false) => Act::Reply(fail_exec(Msg::AppUnavailable)),
            Some(true) => match &f.card {
                None => Act::FindCard { merchant_id: mid },
                Some(None) => Act::Reply(fail_exec(Msg::CardNotFound)),
                Some(Some(c)) => verify_card_exec(req, c, f, now),
            },
        },
    }
}

// ---------------------------------------------------------------------------
// Unbinding a device from a card.

/// What is known, so far, in answering an unbinding.
pub struct UnbindFacts {
    pub device_block: Option<Option<BlockRecord>>,
    pub merchant: Option<Option<u128>>,
    pub app_active: Option<bool>,
    pub card: Option<Option<CardRow>>,
    pub activation: Option<Option<u128>>,
    /// The rows the deletion removed, or the database's error.
    pub deleted: Option<Result<u64, String>>,
    /// The devices still bound to the card afterwards.
    pub remaining: Option<i64>,
    pub reset: bool,
}

impl UnbindFacts {
    /// Nothing known yet.
    pub fn new() -> (r: UnbindFacts)
        ensures
            r.device_block is None && r.merchant is None && r.app_active is None && r.card is None,
            r.activation is None && r.deleted is None && r.remaining is None && !r.reset,
    {
        UnbindFacts { device_block: None, merchant: None, app_active: None, card: None, activation: None, deleted: None, remaining: None, reset: false }
    }
}

/// The step of an unbinding once the binding is found.
pub open spec fn unbind_found(c: CardRow, aid: u128, f: UnbindFacts) -> Act {
    match f.deleted {
        None => Act::DeleteActivation { activation_id: aid },
        Some(Err(e)) => Act::Reply(fail(Msg::OperationFailed(e))),
        Some(Ok(n)) => if n == 0 {
            Act::Reply(fail(Msg::NotBound))
        } else {
            match f.remaining {
                None => Act::CountActivations { card_id: c.id },
                Some(k) => if k == 0 && !f.reset {
                    Act::ResetCard { card_id: c.id }
                } else {
                    Act::Reply(ApiReply { success: true, valid: None, message: Msg::Unbound, data: ReplyData::Nothing })
                },
            }
        },
    }
}

/// The next step of an unbinding: a device under a block in force cannot unbind; the
/// API key must name an active merchant, the app must be active, the card must exist
/// and be bound to the device; the binding is deleted, and a card left with no
/// device returns to the unused state.
pub open spec fn unbind_next(now: int, f: UnbindFacts) -> Act {
    match f.device_block {
        None => Act::FindDeviceBlock,
        Some(Some(r)) => Act::Reply(blocked_reply(Msg::UnbindBlocked, r, now)),
        Some(None) => match f.merchant {
            None => Act::FindMerchant,
            Some(None) => Act::Reply(fail(Msg::InvalidApiKey)),
            Some(Some(mid)) => match f.app_active {
                None => Act::FindApp { merchant_id: mid },
                Some(false) => Act::Reply(fail(Msg::AppUnavailable)),
                Some(true) => match f.card {
                    None => Act::FindCard { merchant_id: mid },
                    Some(None) => Act::Reply(fail(Msg::CardNotFound)),
                    Some(Some(c)) => match f.activation {
                        None => Act::FindActivation { card_id: c.id },
                        Some(None) => Act::Reply(fail(Msg::NotBound)),
                        Some(Some(aid)) => unbind_found(c, aid, f),
                    },
                },
            },
        },
    }
}

/// The next step of an unbinding (see `unbind_next`).
pub fn decide_unbind(now: i64, f: &UnbindFacts) -> (a: Act)
    ensures
        a == unbind_next(now as int, *f),
{
    match &f.device_block {
        None => { return Act::FindDeviceBlock; },
        Some(Some(r)) => { return Act::Reply(blocked_reply_exec(Msg::UnbindBlocked, r, now)); },
        Some(None) => {},
    }
    let mid = match f.merchant {
        None => { return Act::FindMerchant; },
        Some(None) => { return Act::Reply(fail_exec(Msg::InvalidApiKey)); },
        Some(Some(mid)) => mid,
    };
    match f.app_active {
        None => { return Act::FindApp { merchant_id: mid }; },
        Some(false) => { return Act::Reply(fail_exec(Msg::AppUnavailable)); },
        Some(true) => {},
    }
    let c = match &f.card {
        None => { return Act::FindCard { merchant_id: mid }; },
        Some(None) => { return Act::Reply(fail_exec(Msg::CardNotFound)); },
        Some(Some(c)) => c,
    };
    let aid = match f.activation {
        None => { return Act::FindActivation { card_id: c.id }; },
        Some(None) => { return Act::Reply(fail_exec(Msg::NotBound)); },
        Some(Some(aid)) => aid,
    };
    match &f.deleted {
        None => Act::DeleteActivation { activation_id: aid },
        Some(Err(e)) => Act::Reply(fail_exec(Msg::OperationFailed(e.clone()))),
        Some(Ok(n)) => if *n == 0 {
            Act::Reply(fail_exec(Msg::NotBound))
        } else {
            match f.remaining {
                None => Act::CountActivations { card_id: c.id },
                Some(k) => if k == 0 && !f.reset {
                    Act::ResetCard { card_id: c.id }
                } else {
                    Act::Reply(ApiReply { success: true, valid: None, message: Msg::Unbound, data: ReplyData::Nothing })
                },
            }
        },
    }
}

// ---------------------------------------------------------------------------
// Heartbeats.

/// What is known, so far, in answering a heartbeat.
pub struct HeartbeatFacts {
    /// Whether the heartbeat setting was read.
    pub setting_read: bool,
    /// The status of the device's heartbeat record, none when it has none.
    pub record: Option<Option<String>>,
    pub inserted: bool,
    /// The end of the device's block, as its heartbeat record keeps it.
    pub blocked_until: Option<Option<i64>>,
    pub revived: bool,
    pub unblocked: bool,
    pub updated: bool,
}

impl HeartbeatFacts {
    /// Nothing known yet.
    pub fn new() -> (r: HeartbeatFacts)
        ensures
            !r.setting_read && r.record is None && !r.inserted && r.blocked_until is None,
            !r.revived && !r.unblocked && !r.updated,
    {
        HeartbeatFacts { setting_read: false, record: None, inserted: false, blocked_until: None, revived: false, unblocked: false, updated: false }
    }
}

/// The answer to a recorded heartbeat.
pub open spec fn online_reply() -> ApiReply {
    ApiReply { success: true, valid: None, message: Msg::HeartbeatRecorded, data: ReplyData::Online }
}

/// The next step of a heartbeat: a device without a record gets one, online; a
/// blocked device whose block has ended is revived and taken off the device black
/// list; a blocked device whose block is still on is refused with the seconds left;
/// every other device's record is marked online.
pub open spec fn heartbeat_next(now: int, f: HeartbeatFacts) -> Act {
    let update = if !f.updated { Act::UpdateHeartbeat } else { Act::Reply(online_reply()) };
    if !f.setting_read {
        Act::LoadRiskSetting(RiskKey::Heartbeat)
    } else {
        match f.record {
            None => Act::FindHeartbeat,
            Some(None) => if !f.inserted { Act::InsertHeartbeat } else { Act::Reply(online_reply()) },
            Some(Some(status)) => if status@ == "blocked"@ {
                match f.blocked_until {
                    None => Act::FindBlockedUntil,
                    Some(Some(until)) => if now > until {
                        if !f.revived { Act::ReviveHeartbeat } else if !f.unblocked { Act::DeleteDeviceBlock } else { update }
                    } else {
                        Act::Reply(ApiReply {
                            success: false,
                            valid: None,
                            message: Msg::DeviceBlocked,
                            data: ReplyData::Block { remaining_seconds: secs_left(Some(until), now), reason: None },
                        })
                    },
                    Some(None) => update,
                }
            } else {
                update
            },
        }
    }
}

/// The next step of a heartbeat (see `heartbeat_next`).
pub fn decide_heartbeat(now: i64, f: &HeartbeatFacts) -> (a: Act)
    ensures
        a == heartbeat_next(now as int, *f),
{
    if !f.setting_read {
        return Act::LoadRiskSetting(RiskKey::Heartbeat);
    }
    let update = if !f.updated { Act::UpdateHeartbeat } else { Act::Reply(ApiReply { success: true, valid: None, message: Msg::HeartbeatRecorded, data: ReplyData::Online }) };
    match &f.record {
        None => Act::FindHeartbeat,
        Some(None) => if !f.inserted {
            Act::InsertHeartbeat
        } else {
            Act::Reply(ApiReply { success: true, valid: None, message: Msg::HeartbeatRecorded, data: ReplyData::Online })
        },
        Some(Some(status)) => if str_eq(status.as_str(), "blocked") {
            match f.blocked_until {
                None => Act::FindBlockedUntil,
                Some(Some(until)) => if now > until {
                    if !f.revived { Act::ReviveHeartbeat } else if !f.unblocked { Act::DeleteDeviceBlock } else { update }
                } else {
                    Act::Reply(ApiReply {
                        success: false,
                        valid: None,
                        message: Msg::DeviceBlocked,
                        data: ReplyData::Block { remaining_seconds: seconds_left(Some(until), now), reason: None },
                    })
                },
                Some(None) => update,
            }
        } else {
            update
        },
    }
}

// ---------------------------------------------------------------------------
// Laws of the public API.

/// Screening lets a request through only when every list that is not white-listed
/// for it was read and holds no block in force.
pub proof fn law_screen_passes_only_unblocked(f: ScreenFacts, now: int)
    requires
        screen_step(f, now) is Pass,
    ensures
        f.whitelist matches Some((wip, wdev)) && (!wip ==> f.ip_block == Some(None::<BlockRecord>))
            && (!wdev ==> f.device_block == Some(None::<BlockRecord>)),
{
}

/// A request whose use of a card reaches the blocking limit never gets past the
/// rate check.
pub proof fn law_rate_passes_only_under_limit(mid: u128, f: RateFacts, now: int)
    requires
        rate_step(mid, f, now) is Pass,
    ensures
        f.setting is Some && f.count is Some && f.count->0 < rate_limits(f.setting->0).1,
{
}

/// Screening lets a request through only when neither its IP nor its device is under
/// a block in force, unless white-listed; an IP under a block (not white-listed) is
/// refused with that block's time left and reason, and so is a device; a refusal is
/// never a success.
pub proof fn law_screening(f: ScreenFacts, now: int, r: BlockRecord)
    ensures
        screen_step(f, now) is Pass ==> (f.whitelist matches Some((wip, wdev)) && (!wip ==> f.ip_block == Some(None::<BlockRecord>))
            && (!wdev ==> f.device_block == Some(None::<BlockRecord>))),
        (f.whitelist matches Some((wip, _)) && !wip && f.ip_block == Some(Some(r))) ==> screen_step(f, now) == Step::Stop(ApiReply {
            success: false,
            valid: None,
            message: Msg::IpBlocked,
            data: ReplyData::Block { remaining_seconds: secs_left(r.until_us, now), reason: Some(r.reason) },
        }),
        (f.whitelist matches Some((wip, wdev)) && (wip || f.ip_block == Some(None::<BlockRecord>)) && !wdev && f.device_block == Some(Some(r)))
            ==> screen_step(f, now) == Step::Stop(ApiReply {
            success: false,
            valid: None,
            message: Msg::DeviceBlocked,
            data: ReplyData::Block { remaining_seconds: secs_left(r.until_us, now), reason: Some(r.reason) },
        }),
        screen_step(f, now) matches Step::Stop(rep) ==> !rep.success,
        f.whitelist == Some((true, true)) ==> screen_step(f, now) is Pass,
{
}

/// The rate check stops a request exactly at or over the blocking limit, once the
/// alert is written and the blocks are in place, with a failure that reports the use
/// count and the limit; a use under both limits passes.
pub proof fn law_rate_answers(mid: u128, f: RateFacts, now: int)
    ensures
        rate_step(mid, f, now) matches Step::Stop(r) ==> (f.setting is Some && f.count is Some && f.alerted && f.count->0 >= rate_limits(f.setting->0).1
            && r == ApiReply {
            success: false,
            valid: None,
            message: Msg::RateBlocked,
            data: ReplyData::RateLimited { count: f.count->0, limit: rate_limits(f.setting->0).1, remaining_seconds: 600 },
        }),
        (f.setting is Some && f.count is Some && (f.count->0 != 1 || f.expired) && f.count->0 < rate_limits(f.setting->0).0
            && f.count->0 < rate_limits(f.setting->0).1) ==> rate_step(mid, f, now) is Pass,
        (f.setting is Some && f.count is Some && (f.count->0 != 1 || f.expired) && f.count->0 >= rate_limits(f.setting->0).1 && !f.alerted)
            ==> rate_step(mid, f, now) == Step::Ask(Act::WriteAlert { merchant_id: mid, alert: AlertKind::RateBlock { count: f.count->0, limit: rate_limits(f.setting->0).1 } }),
{
}

/// An unbinding's answers: a device under a block in force is refused; a device that
/// is not bound is told so; success is "设备已解绑" and comes only after the binding
/// was deleted (and, when no device was left, the card reset).
pub proof fn law_unbind_answers(now: int, f: UnbindFacts, r: BlockRecord)
    ensures
        f.device_block == Some(Some(r)) ==> unbind_next(now, f) == Act::Reply(blocked_reply(Msg::UnbindBlocked, r, now)),
        unbind_next(now, f) matches Act::Reply(rep) ==> (rep.success ==> (rep.message is Unbound && f.device_block == Some(None::<BlockRecord>)
            && f.app_active == Some(true) && (f.activation is Some && f.activation->0 is Some) && (f.deleted matches Some(Ok(n)) && n > 0))),
        (f.device_block == Some(None::<BlockRecord>) && (f.merchant is Some && f.merchant->0 is Some) && f.app_active == Some(true)
            && (f.card is Some && f.card->0 is Some) && f.activation == Some(None::<u128>)) ==> unbind_next(now, f) == Act::Reply(fail(Msg::NotBound)),
{
}

/// An activation that binds the device answers with the card's new term: the expiry
/// starts at this activation for a card never activated (its term in days from now)
/// and stays as it was otherwise; the devices bound count this one; the limit is the
/// card's.
pub proof fn law_activation_answer(req: ActivateRequest, now: int, f: ActivateFacts)
    requires
        activate_next(req, now, f) matches Act::Reply(r) && r.message is Activated,
    ensures
        f.card is Some && f.card->0 is Some && f.activation_count is Some,
        activate_next(req, now, f) matches Act::Reply(r) ==> (r.success && (r.data matches ReplyData::Bound { expires_at_us, max_devices, current_devices, .. } && {
            let c = f.card->0->0;
            let k = f.activation_count->0;
            &&& max_devices == c.max_devices
            &&& current_devices == Some((k + 1) as i64)
            &&& (c.activated_at_us is None ==> expires_at_us == Some((now + c.duration_days * 86_400_000_000) as i64))
            &&& (c.activated_at_us is Some ==> expires_at_us == c.expires_at_us)
        })),
{
}

/// An activation is answered as a success only by binding the device ("激活成功") or
/// by confirming a binding it already has ("卡密已激活（设备已绑定）"), never for an
/// empty device id or an unknown API key.
pub proof fn law_activation_success_kinds(req: ActivateRequest, now: int, f: ActivateFacts)
    ensures
        activate_next(req, now, f) matches Act::Reply(r) ==> (r.success ==> ((r.message is Activated || r.message is AlreadyBound)
            && trim(req.device_id@).len() > 0 && f.merchant matches Some(Some(_)))),
        trim(req.device_id@).len() == 0 ==> activate_next(req, now, f) == Act::Reply(fail(Msg::DeviceIdEmpty)),
        (trim(req.device_id@).len() > 0 && f.merchant == Some(None::<u128>)) ==> activate_next(req, now, f) == Act::Reply(fail(Msg::InvalidApiKey)),
{
}

/// Block lengths start at ten minutes, never shrink with more violations, and stop
/// at a day.
pub proof fn law_block_ladder(p: int, q: int)
    requires
        0 <= p <= q,
    ensures
        10 <= block_minutes(p) <= 1440,
        block_minutes(0) == 10,
        block_minutes(p) <= block_minutes(q),
{
}

/// Blocks of a key escalate from one violation to the next. A block written after
/// `prior` earlier violations records violation `prior + 1` in its reason; a later
/// block of the same key, while that reason is still among the key's rows, counts at
/// least `prior + 1` earlier violations, so it lasts at least the next length of the
/// ladder, never less than the earlier block.
pub proof fn law_blocks_escalate(
    kind: BlockKind,
    merchant_id: u128,
    limit: i64,
    now: int,
    f: BlockFacts,
    prior: i64,
    later: int,
    g: BlockFacts,
    i: int,
)
    requires
        f.active == Some(0i64),
        !f.written,
        f.reasons matches Some(rs) && recorded_violations(rs@) == prior,
        0 <= prior < crate::risk::VIOLATION_CAP,
        g.active == Some(0i64),
        !g.written,
        g.reasons matches Some(rs) && 0 <= i < rs@.len() && rs@[i]@ == crate::risk::block_reason_text(kind, limit, prior),
    ensures
        block_step(kind, merchant_id, limit, f, now) == Step::Ask(Act::UpsertBlock { kind, merchant_id, limit, prior, until_us: block_until(now, prior as int) }),
        block_step(kind, merchant_id, limit, g, later) matches Step::Ask(Act::UpsertBlock { prior: next, until_us, .. }) && {
            &&& next >= prior + 1
            &&& until_us == block_until(later, next as int)
            &&& block_minutes(next as int) >= block_minutes(prior + 1)
            &&& block_minutes(prior + 1) >= block_minutes(prior as int)
        },
{
    let rs = g.reasons->0@;
    crate::risk::lemma_reason_records(kind, limit, prior);
    crate::risk::lemma_recorded_at_least(rs, i);
    crate::risk::lemma_recorded_bounds(rs);
    law_block_ladder(prior as int, prior + 1);
    law_block_ladder(prior + 1, recorded_violations(rs));
}

/// A device is bound to a card only for a known merchant's request that passed
/// screening and the rate check, for an active app, and for a card that is neither
/// disabled nor expired, is not yet bound to the device and has a free device slot.
pub proof fn law_activation_needs_free_slot(req: ActivateRequest, now: int, f: ActivateFacts)
    requires
        activate_next(req, now, f) is InsertActivation,
    ensures
        ({
            &&& f.merchant matches Some(Some(mid))
            &&& screen_step(f.screen, now) is Pass
            &&& rate_step(mid, f.rate, now) is Pass
            &&& f.app_active == Some(true)
            &&& f.card matches Some(Some(c))
            &&& status_usable(c)
            &&& !expired_at(c, now)
            &&& f.activation == Some(None::<u128>)
            &&& f.activation_count matches Some(k)
            &&& k < c.max_devices
        }),
{
}

/// An activation is reported successful only once the binding is written and the
/// card activated, and the device count it reports stays within the card's limit.
pub proof fn law_activation_success_after_binding(req: ActivateRequest, now: int, f: ActivateFacts)
    requires
        activate_next(req, now, f) matches Act::Reply(r) && r.message is Activated,
    ensures
        f.inserted && f.card_updated && f.webhook_fired && f.commission_recorded,
        activate_next(req, now, f) matches Act::Reply(r) && r.success && (r.data matches ReplyData::Bound { current_devices: Some(n), max_devices, .. } && n <= max_devices),
{
}

/// A card's bindings never outnumber its device limit. Take `n`, the count of the
/// card's bindings that the activation read, within the limit: the step inserts at
/// most one binding, and only while `n` is below the limit, so the count after the
/// step, `n` plus the bindings inserted, is still within the limit. A card whose
/// slots are all taken, reached by a device it does not hold, is answered with the
/// limit message and nothing is inserted.
pub proof fn law_bindings_within_limit(req: ActivateRequest, now: int, f: ActivateFacts, mid: u128, c: CardRow, n: i64)
    requires
        f.card == Some(Some(c)),
        f.activation_count == Some(n),
        n <= c.max_devices,
    ensures
        n + (if activate_next(req, now, f) is InsertActivation { 1int } else { 0int }) <= c.max_devices,
        (n == c.max_devices && f.activation == Some(None::<u128>) && status_usable(c) && !expired_at(c, now))
            ==> activate_card(mid, c, f, now) == Act::Reply(fail(Msg::DeviceLimit(c.max_devices))),
{
}

/// Activating a device that the card already holds binds nothing again: the step
/// never draws an id, encrypts the device, inserts a binding, re-activates the card or
/// records a commission; when it succeeds, it answers that the card is already bound,
/// with the card's expiry and device limit, after the binding was touched.
pub proof fn law_rebind_inserts_nothing(req: ActivateRequest, now: int, f: ActivateFacts, c: CardRow, aid: u128)
    requires
        f.card == Some(Some(c)),
        f.activation == Some(Some(aid)),
    ensures
        !(activate_next(req, now, f) is NewActivationId),
        !(activate_next(req, now, f) is EncryptDevice),
        !(activate_next(req, now, f) is InsertActivation),
        !(activate_next(req, now, f) is ActivateCard),
        !(activate_next(req, now, f) is RecordCommission),
        activate_next(req, now, f) matches Act::Reply(r) ==> (r.success ==> (f.touched
            && r == bound_reply(Msg::AlreadyBound, c.expires_at_us, c.max_devices, None, now))),
{
}

/// A card's first activation starts its term at the activation; later activations
/// keep the expiry the card has.
pub proof fn law_activation_term(req: ActivateRequest, now: int, f: ActivateFacts)
    requires
        activate_next(req, now, f) is ActivateCard,
    ensures
        f.card matches Some(Some(c)) && (activate_next(req, now, f) matches Act::ActivateCard { card_id, expires_at_us } && card_id == c.id && (c.activated_at_us is None ==> expires_at_us == Some((now + c.duration_days * 86_400_000_000) as i64)) && (c.activated_at_us is Some ==> expires_at_us == c.expires_at_us)),
{
}

/// A verification is answered valid, and such an answer cached, only for an active
/// app's card that is not past its expiry, neither disabled, expired nor unused, and
/// bound to the device, with no usable cached record; the answer repeats the card
/// code asked about, and the record cached names the card.
pub proof fn law_valid_only_for_live_bound_card(req: VerifyRequest, now: int, f: VerifyFacts)
    requires
        (verify_next(req, now, f) matches Act::Reply(r) && r.valid == Some(true)) || verify_next(req, now, f) is StoreCache,
    ensures
        verify_next(req, now, f) matches Act::Reply(r) ==> (r.valid == Some(true) ==> (r.data matches ReplyData::Verified { card_code, .. } && card_code == req.card_code)),
        ({
            &&& f.merchant matches Some(Some(mid))
            &&& rate_step(mid, f.rate, now) is Pass
            &&& f.cache matches Some(c) && usable_cache(c) is None
            &&& f.app_active == Some(true)
            &&& f.card matches Some(Some(c))
            &&& !expired_at(c, now)
            &&& c.status@ != "disabled"@ && c.status@ != "expired"@ && c.status@ != "unused"@
            &&& f.activation matches Some(Some(_))
            &&& (verify_next(req, now, f) matches Act::StoreCache { card_id, .. } ==> card_id == c.id)
        }),
{
}

/// A cached verification is given again only when its record names a card that
/// still exists, is not disabled, not past its expiry, neither expired nor unused,
/// and is still bound to the device.
pub proof fn law_cached_answer_rechecked(req: VerifyRequest, now: int, f: VerifyFacts)
    requires
        verify_next(req, now, f) is ReplyCached,
    ensures
        f.cache matches Some(c) && usable_cache(c) is Some,
        f.live matches Some(Some((st, exp))) && st@ != "disabled"@ && st@ != "expired"@ && st@ != "unused"@ && !(exp is Some && now > exp->0),
        f.activation matches Some(Some(_)),
        f.cache_refreshed,
{
}

/// A device that is not bound to the card (after an unbinding, say) is never told
/// that the card is valid, neither from the cache nor from the database, and no valid
/// answer is cached for it.
pub proof fn law_unbound_device_never_valid(req: VerifyRequest, now: int, f: VerifyFacts)
    requires
        f.activation == Some(None::<u128>),
    ensures
        !(verify_next(req, now, f) is ReplyCached),
        !(verify_next(req, now, f) is StoreCache),
        !(verify_next(req, now, f) matches Act::Reply(r) && r.valid == Some(true)),
{
}

/// A request answered from a usable cached record that fails the recheck is refused
/// only after the record was dropped, so the stale answer is not given again; a valid
/// answer is never refused by the recheck of a card that is live and bound.
pub proof fn law_stale_cache_dropped(req: VerifyRequest, now: int, f: VerifyFacts)
    requires
        f.merchant matches Some(Some(mid)),
        rate_step(f.merchant->0->0, f.rate, now) is Pass,
        f.cache matches Some(c) && usable_cache(c) is Some,
    ensures
        verify_next(req, now, f) matches Act::Reply(r) ==> (!r.success && r.valid == Some(false) && f.cache_dropped),
        !(verify_next(req, now, f) is StoreCache),
{
}

/// A disabled card is never answered valid, whether the answer comes from the cache
/// or from the database.
pub proof fn law_disabled_card_never_valid(req: VerifyRequest, now: int, f: VerifyFacts)
    requires
        f.card matches Some(Some(c)) && c.status@ == "disabled"@,
        f.live matches Some(Some((st, _))) && st@ == "disabled"@,
    ensures
        !(verify_next(req, now, f) is ReplyCached),
        !(verify_next(req, now, f) matches Act::Reply(r) && r.valid == Some(true)),
{
}

/// A card returns to the unused state only after its binding was deleted and no
/// device is left on it; an unbinding is reported done only after a deletion that
/// removed the binding.
pub proof fn law_unbind_resets_last(now: int, f: UnbindFacts)
    ensures
        unbind_next(now, f) is ResetCard ==> (f.deleted matches Some(Ok(n)) && n > 0 && f.remaining == Some(0i64) && (f.card matches Some(Some(c)) && unbind_next(now, f) == (Act::ResetCard { card_id: c.id }))),
        (unbind_next(now, f) matches Act::Reply(r) && r.success) ==> (f.deleted matches Some(Ok(n)) && n > 0 && f.remaining is Some && (f.remaining == Some(0i64) ==> f.reset)),
{
}

/// A card's status, first activation time and expiry.
pub open spec fn card_term(c: CardRow) -> (Seq<char>, Option<i64>, Option<i64>) {
    (c.status@, c.activated_at_us, c.expires_at_us)
}

/// What a step does to the status, first activation time and expiry of its card, as
/// each write is documented on `Act`: activating sets the status `active`, keeps a
/// first activation time or takes the step's time, and sets the expiry; resetting
/// returns the card to `unused` with neither; marking expired sets the status only.
pub open spec fn term_after(t: (Seq<char>, Option<i64>, Option<i64>), a: Act, now: int) -> (Seq<char>, Option<i64>, Option<i64>) {
    match a {
        Act::ActivateCard { expires_at_us, .. } => ("active"@, if t.1 is None { Some(now as i64) } else { t.1 }, expires_at_us),
        Act::ResetCard { .. } => ("unused"@, None, None),
        Act::MarkCardExpired { .. } => ("expired"@, t.1, t.2),
        _ => t,
    }
}

/// Unbinding undoes an activation. An unused card, never activated, that an
/// activation makes active (its term starting then) returns, when that device is
/// unbound and no other is left on it, to `unused` with no activation time and no
/// expiry; once reset, the unbinding is reported done.
pub proof fn law_unbind_undoes_activation(req: ActivateRequest, now: int, f: ActivateFacts, c: CardRow, later: int, g: UnbindFacts, c1: CardRow)
    requires
        f.card == Some(Some(c)),
        card_term(c) == ("unused"@, None::<i64>, None::<i64>),
        activate_next(req, now, f) is ActivateCard,
        c1.id == c.id,
        card_term(c1) == term_after(card_term(c), activate_next(req, now, f), now),
        g.device_block == Some(None::<BlockRecord>),
        g.merchant matches Some(Some(_)),
        g.app_active == Some(true),
        g.card == Some(Some(c1)),
        g.activation matches Some(Some(_)),
        g.deleted matches Some(Ok(k)) && k > 0,
        g.remaining == Some(0i64),
        !g.reset,
    ensures
        card_term(c1) == ("active"@, Some(now as i64), new_expiry(c, now)),
        unbind_next(later, g) == (Act::ResetCard { card_id: c.id }),
        term_after(card_term(c1), unbind_next(later, g), later) == card_term(c),
        unbind_next(later, (UnbindFacts { reset: true, ..g })) == Act::Reply(ApiReply { success: true, valid: None, message: Msg::Unbound, data: ReplyData::Nothing }),
{
}

/// A heartbeat is answered as recorded only once the device's record was written:
/// a device with a record only after that record was updated (and, for a blocked
/// device whose block ended, after it was revived and taken off the black list); a
/// device without one only after a record was inserted. The answer is then "心跳已记录"
/// with the device online.
pub proof fn law_heartbeat_recorded_after_write(now: int, f: HeartbeatFacts)
    ensures
        heartbeat_next(now, f) matches Act::Reply(r) ==> (r.success ==> ({
            &&& f.setting_read
            &&& r.message is HeartbeatRecorded && r.data is Online
            &&& (f.record is Some && f.record->0 is Some) ==> (f.updated && ((f.record->0->0@ == "blocked"@ && f.blocked_until is Some
                && f.blocked_until->0 is Some) ==> f.revived && f.unblocked))
            &&& f.record == Some(None::<String>) ==> f.inserted
        })),
{
}

/// A device whose record is not blocked, or whose block has ended and which was
/// revived and unblocked, has its record updated before anything is answered.
pub proof fn law_heartbeat_updates_record(now: int, f: HeartbeatFacts)
    requires
        f.setting_read,
        f.record matches Some(Some(_)),
        !f.updated,
        f.record matches Some(Some(st)) && (st@ == "blocked"@ ==> (f.blocked_until matches Some(u) && (u matches Some(t) ==> now > t && f.revived && f.unblocked))),
    ensures
        heartbeat_next(now, f) == Act::UpdateHeartbeat,
{
}

/// A valid verification answer describes the card found: it repeats the card code
/// asked about, carries the card's own expiry and device limit, the number of
/// devices bound, and the whole days left until the expiry (none without one, 0 once
/// it is past); the answer cached is the same kind of answer.
pub proof fn law_valid_answer_describes_card(req: VerifyRequest, now: int, f: VerifyFacts, r: ApiReply)
    requires
        verify_next(req, now, f) == Act::Reply(r) || (verify_next(req, now, f) matches Act::StoreCache { reply, .. } && reply == r),
        r.valid == Some(true),
        in_time_range(now),
    ensures
        r.success,
        f.card matches Some(Some(c)) && f.activation_count matches Some(n) && (r.data matches ReplyData::Verified {
            card_code,
            expires_at_us,
            remaining_days,
            max_devices,
            current_devices,
        } && {
            &&& card_code == req.card_code
            &&& expires_at_us == c.expires_at_us
            &&& max_devices == c.max_devices
            &&& current_devices == n
            &&& (c.expires_at_us is None ==> remaining_days is None)
            &&& (c.expires_at_us matches Some(e) ==> (remaining_days matches Some(d) && d >= 0
                && (e <= now ==> d == 0)
                && (e > now ==> d * 86_400_000_000 <= e - now < (d + 1) * 86_400_000_000)))
        }),
{
    law_valid_only_for_live_bound_card(req, now, f);
    if let Some(Some(c)) = f.card {
        if let Some(e) = c.expires_at_us {
            if e > now {
                let q = (e - now) / 86_400_000_000;
                assert(0 <= q < 1_000_000_000) by (nonlinear_arith)
                    requires
                        q == (e - now) / 86_400_000_000,
                        e - now > 0,
                        e - now < 0x2_0000_0000_0000_0000int;
                assert(q * 86_400_000_000 <= e - now < (q + 1) * 86_400_000_000) by (nonlinear_arith)
                    requires
                        q == (e - now) / 86_400_000_000,
                        e - now > 0;
            }
        }
    }
}

/// A device whose block is still in force is refused its heartbeat.
pub proof fn law_heartbeat_refused_while_blocked(now: int, f: HeartbeatFacts)
    requires
        f.setting_read,
        f.record matches Some(Some(st)) && st@ == "blocked"@,
        f.blocked_until matches Some(Some(u)) && now <= u,
    ensures
        heartbeat_next(now, f) matches Act::Reply(r) && !r.success && r.message is DeviceBlocked,
{
}

} // verus!
