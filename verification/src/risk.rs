use vstd::prelude::*;
use crate::json::{Json, member_i64, get_i64};
use crate::text::{int_text, digits, digit_char, push_int, push_str, byte_len, char_width, width_of, chars_of, string_of_range, str_ends_with};

verus! {

/// The earliest instant that a timestamp can name, in microseconds since the epoch.
pub const MIN_TIME_US: i64 = -8_334_601_228_800_000_000;

/// The latest instant that a timestamp can name, in microseconds since the epoch.
pub const MAX_TIME_US: i64 = 8_210_266_876_799_999_999;

/// Microseconds in a second, a minute and a day.
pub const SECOND_US: i64 = 1_000_000;
pub const MINUTE_US: i64 = 60_000_000;
pub const DAY_US: i64 = 86_400_000_000;

/// A timestamp that the calendar can hold.
pub open spec fn in_time_range(t: int) -> bool {
    MIN_TIME_US <= t <= MAX_TIME_US
}

/// An entry of the IP or device black list that is still in force.
pub struct BlockRecord {
    pub reason: String,
    pub until_us: Option<i64>,
}

/// The two black lists.
#[derive(Clone, Copy, Debug, PartialEq, Eq)]
pub enum BlockKind {
    /// The IP black list, keyed by the client's IP.
    Ip,
    /// The device black list, keyed by the hash of the card code.
    Card,
}

/// The risk settings that requests read.
#[derive(Clone, Copy, Debug, PartialEq, Eq)]
pub enum RiskKey {
    RateVerify,
    Heartbeat,
}

/// Why an alert is raised, with the numbers its description quotes.
#[derive(Clone, Copy, Debug, PartialEq, Eq)]
pub enum AlertKind {
    /// A card was used `count` times in a minute, at or over the warning limit.
    RateWarn { count: i64, limit: i64 },
    /// A card was used `count` times in a minute, at or over the blocking limit.
    RateBlock { count: i64, limit: i64 },
    /// A device that already holds `prior` cards of the merchant activates another.
    DeviceMultiCard { prior: i64 },
    /// An IP activated `count` times within the current minute.
    IpAbuse { count: i64 },
}

/// The seconds from `now` until `until`, never negative; none when there is no end.
pub open spec fn secs_left(until: Option<i64>, now: int) -> i64 {
    match until {
        Some(b) => if b - now <= 0 { 0 } else { ((b - now) / 1_000_000) as i64 },
        None => 0,
    }
}

/// Whole days from `now` until `until`, never negative.
pub open spec fn days_left(until: Option<i64>, now: int) -> Option<i64> {
    match until {
        Some(e) => Some(if e - now <= 0 { 0 } else { ((e - now) / 86_400_000_000) as i64 }),
        None => None,
    }
}

/// The length of a block, in minutes, for the `n`-th violation (counting from 1):
/// it doubles from 10 minutes and stops at a day.
pub open spec fn block_minutes(prior: int) -> i64 {
    let n = prior + 1;
    if n == 1 { 10 }
    else if n == 2 { 20 }
    else if n == 3 { 40 }
    else if n == 4 { 60 }
    else if n == 5 { 120 }
    else if n == 6 { 240 }
    else if n == 7 { 480 }
    else { 1440 }
}

/// The warning and blocking limits of card use per minute, from the stored setting.
pub open spec fn rate_limits(setting: Option<Json>) -> (i64, i64) {
    match setting {
        None => (3, 5),
        Some(v) => (
            match member_i64(v, "card_warn"@) { Some(x) => x, None => 3 },
            match member_i64(v, "card_block"@) { Some(x) => x, None => 5 },
        ),
    }
}

/// The seconds left of a block (see `secs_left`).
pub fn seconds_left(until: Option<i64>, now: i64) -> (r: i64)
    ensures
        r == secs_left(until, now as int),
{
    match until {
        Some(b) => {
            let d: i128 = (b as i128) - (now as i128);
            if d <= 0 { 0 } else { (d / 1_000_000) as i64 }
        },
        None => 0,
    }
}

/// The days left until an expiry (see `days_left`).
pub fn remaining_days(until: Option<i64>, now: i64) -> (r: Option<i64>)
    ensures
        r == days_left(until, now as int),
{
    match until {
        Some(e) => {
            let d: i128 = (e as i128) - (now as i128);
            Some(if d <= 0 { 0 } else { (d / 86_400_000_000) as i64 })
        },
        None => None,
    }
}

/// The block length for a violation after `prior` earlier ones (see `block_minutes`).
pub fn minutes_for(prior: i64) -> (m: i64)
    ensures
        m == block_minutes(prior as int),
{
    if prior == 0 { 10 }
    else if prior == 1 { 20 }
    else if prior == 2 { 40 }
    else if prior == 3 { 60 }
    else if prior == 4 { 120 }
    else if prior == 5 { 240 }
    else if prior == 6 { 480 }
    else { 1440 }
}

/// The warning and blocking limits (see `rate_limits`).
pub fn limits_of(setting: &Option<Json>) -> (r: (i64, i64))
    ensures
        r == rate_limits(*setting),
{
    match setting {
        None => (3, 5),
        Some(v) => {
            let w = match get_i64(v, "card_warn") { Some(x) => x, None => 3 };
            let b = match get_i64(v, "card_block") { Some(x) => x, None => 5 };
            (w, b)
        },
    }
}

/// A device id whose masked form can be taken: it is cut after its fourth byte, which
/// must end a character.
pub open spec fn hint_defined(d: Seq<char>) -> bool {
    byte_len(d) < 4 || exists|k: int| 0 <= k <= d.len() && byte_len(#[trigger] d.take(k)) == 4
}

/// The masked form of a device id: its first four bytes and four stars, or only the
/// stars when it is shorter.
pub open spec fn hint_of(d: Seq<char>) -> Seq<char> {
    if byte_len(d) < 4 {
        "****"@
    } else {
        d.take(choose|k: int| 0 <= k <= d.len() && byte_len(#[trigger] d.take(k)) == 4) + "****"@
    }
}

proof fn lemma_byte_len_take_mono(d: Seq<char>, i: int, j: int)
    requires
        0 <= i <= j <= d.len(),
    ensures
        byte_len(d.take(i)) <= byte_len(d.take(j)),
    decreases j - i,
{
    if i < j {
        lemma_byte_len_take_mono(d, i, j - 1);
        assert(d.take(j).drop_last() == d.take(j - 1));
    }
}

proof fn lemma_byte_len_take_strict(d: Seq<char>, i: int, j: int)
    requires
        0 <= i < j <= d.len(),
    ensures
        byte_len(d.take(i)) < byte_len(d.take(j)),
{
    lemma_byte_len_take_mono(d, i, j - 1);
    assert(d.take(j).drop_last() == d.take(j - 1));
}

/// The masked device id (see `hint_of`).
pub fn device_hint(device_id: &str) -> (r: String)
    requires
        hint_defined(device_id@),
    ensures
        r@ == hint_of(device_id@),
{
    let v = chars_of(device_id);
    let ghost d = v@;
    let mut i: usize = 0;
    let mut w: usize = 0;
    assert(d.take(0) == Seq::<char>::empty());
    assert(d.take(d.len() as int) == d);
    while i < v.len() && w < 4
        invariant
            d == v@,
            i <= d.len(),
            w == byte_len(d.take(i as int)),
            w <= 7,
            i > 0 ==> byte_len(d.take(i - 1)) < 4,
        decreases d.len() - i,
    {
        assert(d.take(i + 1).drop_last() == d.take(i as int));
        w = w + width_of(v[i]);
        i = i + 1;
    }
    if w < 4 {
        proof {
            assert(i == d.len());
        }
        return "****".to_owned();
    }
    proof {
        lemma_byte_len_take_mono(d, i as int, d.len() as int);
        assert(exists|k: int| 0 <= k <= d.len() && byte_len(#[trigger] d.take(k)) == 4);
        let k = choose|k: int| 0 <= k <= d.len() && byte_len(#[trigger] d.take(k)) == 4;
        if k < i {
            lemma_byte_len_take_mono(d, k, i - 1);
            assert(false);
        } else if k > i {
            lemma_byte_len_take_strict(d, i as int, k);
            assert(false);
        }
        assert(k == i);
    }
    let mut r = string_of_range(&v, 0, i);
    push_str(&mut r, "****");
    assert(d.subrange(0, i as int) == d.take(i as int));
    r
}

/// The text of an alert's kind, as stored in the alerts table.
pub open spec fn alert_type_text(a: AlertKind) -> Seq<char> {
    match a {
        AlertKind::RateWarn { .. } => "rate_warn"@,
        AlertKind::RateBlock { .. } => "card_rate_block"@,
        AlertKind::DeviceMultiCard { .. } => "device_multi_card"@,
        AlertKind::IpAbuse { .. } => "ip_abuse"@,
    }
}

/// The description of an alert.
pub open spec fn alert_detail_text(a: AlertKind, hint: Seq<char>, ip: Seq<char>) -> Seq<char> {
    match a {
        AlertKind::RateWarn { count, limit } => "卡密1分钟"@ + int_text(count as int) + "次，接近限制"@
            + int_text(limit as int),
        AlertKind::RateBlock { count, limit } => "卡密1分钟"@ + int_text(count as int) + "次，超限"@
            + int_text(limit as int) + "次，已封禁"@,
        AlertKind::DeviceMultiCard { prior } => "设备 "@ + hint + " 已激活 "@ + int_text(prior + 1)
            + " 张卡密"@,
        AlertKind::IpAbuse { count } => "IP "@ + ip + " 本分钟已激活 "@ + int_text(count as int)
            + " 次"@,
    }
}

/// One row of the alerts table.
pub struct AlertRow {
    pub alert_type: String,
    pub device_hint: Option<String>,
    pub ip_address: String,
    pub detail: String,
}

/// Whether rendering the alert needs the masked device id.
pub open spec fn alert_needs_hint(a: AlertKind) -> bool {
    a is DeviceMultiCard
}

fn owned(s: &str) -> (r: String)
    ensures
        r@ == s@,
{
    s.to_owned()
}

/// The row written for an alert about a request for `card_code` from `device_id` at `ip`.
pub fn alert_row(a: AlertKind, card_code: &str, device_id: &str, ip: &str) -> (r: AlertRow)
    requires
        alert_needs_hint(a) ==> hint_defined(device_id@),
    ensures
        r.alert_type@ == alert_type_text(a),
        r.device_hint is Some <==> !(a is IpAbuse),
        (a is RateWarn || a is RateBlock) ==> r.device_hint->0@ == card_code@ && r.ip_address@
            == "system"@,
        a is DeviceMultiCard ==> r.device_hint->0@ == hint_of(device_id@) && r.ip_address@ == ip@,
        a is IpAbuse ==> r.ip_address@ == ip@,
        r.detail@ == alert_detail_text(
            a,
            if a is DeviceMultiCard { hint_of(device_id@) } else { Seq::empty() },
            ip@,
        ),
{
    match a {
        AlertKind::RateWarn { count, limit } => {
            let mut d = owned("卡密1分钟");
            push_int(&mut d, count as i128);
            push_str(&mut d, "次，接近限制");
            push_int(&mut d, limit as i128);
            AlertRow { alert_type: owned("rate_warn"), device_hint: Some(owned(card_code)), ip_address: owned("system"), detail: d }
        },
        AlertKind::RateBlock { count, limit } => {
            let mut d = owned("卡密1分钟");
            push_int(&mut d, count as i128);
            push_str(&mut d, "次，超限");
            push_int(&mut d, limit as i128);
            push_str(&mut d, "次，已封禁");
            AlertRow { alert_type: owned("card_rate_block"), device_hint: Some(owned(card_code)), ip_address: owned("system"), detail: d }
        },
        AlertKind::DeviceMultiCard { prior } => {
            let h = device_hint(device_id);
            let mut d = owned("设备 ");
            push_str(&mut d, h.as_str());
            push_str(&mut d, " 已激活 ");
            push_int(&mut d, prior as i128 + 1);
            push_str(&mut d, " 张卡密");
            AlertRow { alert_type: owned("device_multi_card"), device_hint: Some(h), ip_address: owned(ip), detail: d }
        },
        AlertKind::IpAbuse { count } => {
            let mut d = owned("IP ");
            push_str(&mut d, ip);
            push_str(&mut d, " 本分钟已激活 ");
            push_int(&mut d, count as i128);
            push_str(&mut d, " 次");
            AlertRow { alert_type: owned("ip_abuse"), device_hint: None, ip_address: owned(ip), detail: d }
        },
    }
}

/// The reason written into a black-list entry.
pub open spec fn block_reason_text(kind: BlockKind, limit: i64, prior: i64) -> Seq<char> {
    match kind {
        BlockKind::Ip => "触发频率限制 "@ + int_text(limit as int) + "次/分，第"@ + int_text(prior + 1)
            + "次违规"@,
        BlockKind::Card => "卡密超限 "@ + int_text(limit as int) + "次/分，第"@ + int_text(prior + 1)
            + "次违规"@,
    }
}

/// The reason of a black-list entry (see `block_reason_text`).
pub fn block_reason(kind: BlockKind, limit: i64, prior: i64) -> (r: String)
    ensures
        r@ == block_reason_text(kind, limit, prior),
{
    let mut d = match kind {
        BlockKind::Ip => owned("触发频率限制 "),
        BlockKind::Card => owned("卡密超限 "),
    };
    push_int(&mut d, limit as i128);
    push_str(&mut d, "次/分，第");
    push_int(&mut d, prior as i128 + 1);
    push_str(&mut d, "次违规");
    d
}

// ---------------------------------------------------------------------------
// The violation numbers that black-list reasons record.

/// The largest violation number read back from a reason; larger ones read as it.
pub const VIOLATION_CAP: i64 = 1_000_000;

/// A decimal digit.
pub open spec fn is_digit(c: char) -> bool {
    '0' <= c <= '9'
}

/// The value of a text of decimal digits.
pub open spec fn digits_value(s: Seq<char>) -> nat
    decreases s.len(),
{
    if s.len() == 0 {
        0
    } else {
        digits_value(s.drop_last()) * 10 + ((s.last() as int) - ('0' as int)) as nat
    }
}

/// How many decimal digits end `s`.
pub open spec fn digit_tail(s: Seq<char>) -> nat
    decreases s.len(),
{
    if s.len() > 0 && is_digit(s.last()) {
        1 + digit_tail(s.drop_last())
    } else {
        0
    }
}

/// The violation number that a black-list reason records: the digits between the
/// last `第` and the closing `次违规`, at most `VIOLATION_CAP`; 0 for a reason that
/// records none.
pub open spec fn recorded_number(r: Seq<char>) -> int {
    if "次违规"@.is_suffix_of(r) {
        let body = r.take(r.len() - 3);
        let n = digit_tail(body);
        if 0 < n < body.len() && body[body.len() - n - 1] == '第' {
            let v = digits_value(body.skip(body.len() - n));
            if v > VIOLATION_CAP { VIOLATION_CAP as int } else { v as int }
        } else {
            0
        }
    } else {
        0
    }
}

/// The largest violation number that the reasons record (0 when none does).
pub open spec fn recorded_violations(rs: Seq<String>) -> int
    decreases rs.len(),
{
    if rs.len() == 0 {
        0
    } else {
        let a = recorded_violations(rs.drop_last());
        let b = recorded_number(rs.last()@);
        if a >= b { a } else { b }
    }
}

/// The violation number that a reason records (see `recorded_number`).
pub fn reason_number(r: &str) -> (n: i64)
    ensures
        n == recorded_number(r@),
{
    proof {
        reveal_strlit("次违规");
    }
    if !str_ends_with(r, "次违规") {
        return 0;
    }
    let v = chars_of(r);
    let b = v.len() - 3;
    let ghost body = r@.take(r@.len() - 3);
    let mut j = b;
    assert(body.take(b as int) == body);
    while j > 0 && '0' <= v[j - 1] && v[j - 1] <= '9'
        invariant
            j <= b,
            b == v.len() - 3,
            v@ == r@,
            body == r@.take(r@.len() - 3),
            digit_tail(body) == digit_tail(body.take(j as int)) + (b - j),
            forall|k: int| j <= k < b ==> is_digit(#[trigger] body[k]),
        decreases j,
    {
        assert(body.take(j as int).drop_last() == body.take(j - 1));
        j = j - 1;
    }
    assert(digit_tail(body.take(j as int)) == 0) by {
        if j > 0 {
            assert(body.take(j as int).last() == body[j - 1]);
        }
    }
    if j == b || j == 0 || v[j - 1] != '第' {
        return 0;
    }
    let mut acc: i64 = 0;
    let mut i = j;
    while i < b
        invariant
            j <= i <= b,
            b == v.len() - 3,
            v@ == r@,
            body == r@.take(r@.len() - 3),
            forall|k: int| j <= k < b ==> is_digit(#[trigger] body[k]),
            0 <= acc <= 10 * VIOLATION_CAP + 9,
            (acc > VIOLATION_CAP) == (digits_value(body.subrange(j as int, i as int)) > VIOLATION_CAP),
            acc <= VIOLATION_CAP ==> acc == digits_value(body.subrange(j as int, i as int)),
        decreases b - i,
    {
        let ghost before = body.subrange(j as int, i as int);
        assert(body.subrange(j as int, i + 1).drop_last() == before);
        assert(body.subrange(j as int, i + 1).last() == body[i as int]);
        assert(is_digit(body[i as int]));
        let d = (v[i] as u32 - '0' as u32) as i64;
        if acc <= VIOLATION_CAP {
            acc = acc * 10 + d;
        }
        i = i + 1;
    }
    assert(body.subrange(j as int, b as int) == body.skip(body.len() - (b - j)));
    if acc > VIOLATION_CAP { VIOLATION_CAP } else { acc }
}

/// The largest violation number that the reasons record (see `recorded_violations`).
pub fn recorded_violations_of(rs: &Vec<String>) -> (n: i64)
    ensures
        n == recorded_violations(rs@),
{
    let mut best: i64 = 0;
    let mut i: usize = 0;
    while i < rs.len()
        invariant
            i <= rs.len(),
            best == recorded_violations(rs@.take(i as int)),
            0 <= best <= VIOLATION_CAP,
        decreases rs.len() - i,
    {
        proof {
            assert(rs@.take(i + 1).drop_last() == rs@.take(i as int));
            lemma_recorded_bounds(rs@.take(i as int));
        }
        let k = reason_number(rs[i].as_str());
        if k > best {
            best = k;
        }
        i = i + 1;
    }
    assert(rs@.take(rs.len() as int) == rs@);
    best
}

/// The largest recorded violation number lies between 0 and `VIOLATION_CAP`.
pub proof fn lemma_recorded_bounds(rs: Seq<String>)
    ensures
        0 <= recorded_violations(rs) <= VIOLATION_CAP,
    decreases rs.len(),
{
    if rs.len() > 0 {
        lemma_recorded_bounds(rs.drop_last());
    }
}

proof fn lemma_digit_char(d: nat)
    requires
        d < 10,
    ensures
        is_digit(digit_char(d)),
        (digit_char(d) as int) - ('0' as int) == d,
{
}

proof fn lemma_digits(n: nat)
    ensures
        digits(n).len() > 0,
        forall|k: int| 0 <= k < digits(n).len() ==> is_digit(#[trigger] digits(n)[k]),
        digits_value(digits(n)) == n,
    decreases n,
{
    if n < 10 {
        lemma_digit_char(n);
        let d = digits(n);
        assert(d.drop_last() == Seq::<char>::empty());
        assert(digits_value(Seq::<char>::empty()) == 0);
        assert(d.last() == digit_char(n));
    } else {
        lemma_digits(n / 10);
        lemma_digit_char(n % 10);
        let d = digits(n);
        assert(d.drop_last() == digits(n / 10));
        assert(d.last() == digit_char(n % 10));
        assert(digits_value(d) == digits_value(digits(n / 10)) * 10 + n % 10);
        assert(n == (n / 10) * 10 + n % 10) by (nonlinear_arith);
    }
}

proof fn lemma_digit_tail(x: Seq<char>, d: Seq<char>)
    requires
        forall|k: int| 0 <= k < d.len() ==> is_digit(#[trigger] d[k]),
        x.len() == 0 || !is_digit(x.last()),
    ensures
        digit_tail(x + d) == d.len(),
    decreases d.len(),
{
    if d.len() == 0 {
        assert(x + d == x);
    } else {
        assert((x + d).drop_last() == x + d.drop_last());
        lemma_digit_tail(x, d.drop_last());
    }
}

/// A reason written for a violation after `prior` earlier ones records the number
/// `prior + 1`.
pub proof fn lemma_reason_records(kind: BlockKind, limit: i64, prior: i64)
    requires
        0 <= prior < VIOLATION_CAP,
    ensures
        recorded_number(block_reason_text(kind, limit, prior)) == prior + 1,
{
    reveal_strlit("次违规");
    reveal_strlit("次/分，第");
    let pre = match kind {
        BlockKind::Ip => "触发频率限制 "@,
        BlockKind::Card => "卡密超限 "@,
    };
    let x = pre + int_text(limit as int) + "次/分，第"@;
    let d = int_text(prior + 1);
    let r = block_reason_text(kind, limit, prior);
    lemma_digits((prior + 1) as nat);
    assert(d == digits((prior + 1) as nat));
    assert(r == x + d + "次违规"@);
    assert(r.subrange(r.len() - 3, r.len() as int) == "次违规"@);
    let body = r.take(r.len() - 3);
    assert(body == x + d);
    assert(x.last() == '第');
    lemma_digit_tail(x, d);
    assert(body[body.len() - d.len() - 1] == x.last());
    assert(body.skip(body.len() - d.len()) == d);
}

/// The largest recorded number is at least the number that any one reason records.
pub proof fn lemma_recorded_at_least(rs: Seq<String>, i: int)
    requires
        0 <= i < rs.len(),
    ensures
        recorded_violations(rs) >= recorded_number(rs[i]@),
    decreases rs.len(),
{
    if i < rs.len() - 1 {
        lemma_recorded_at_least(rs.drop_last(), i);
    }
}

} // verus!
