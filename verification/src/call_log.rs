use vstd::prelude::*;
use crate::risk::{in_time_range, DAY_US};
use crate::text::{chars_of, str_eq, str_starts_with};
use crate::api_ts::CallLogQuery;

verus! {

/// The order of texts that `str`'s `<` follows: character by character, a proper
/// prefix before the longer text. (UTF-8 keeps the order of code points, so the
/// byte order that `str` compares by is this one.)
pub open spec fn text_lt(a: Seq<char>, b: Seq<char>) -> bool
    decreases a.len(),
{
    if b.len() == 0 {
        false
    } else if a.len() == 0 {
        true
    } else if a[0] != b[0] {
        (a[0] as int) < (b[0] as int)
    } else {
        text_lt(a.drop_first(), b.drop_first())
    }
}

/// No text comes before itself.
pub proof fn lemma_text_lt_irreflexive(a: Seq<char>)
    ensures
        !text_lt(a, a),
    decreases a.len(),
{
    if a.len() > 0 {
        lemma_text_lt_irreflexive(a.drop_first());
    }
}

/// Of two different texts, one comes before the other.
pub proof fn lemma_text_lt_total(a: Seq<char>, b: Seq<char>)
    requires
        a != b,
    ensures
        text_lt(a, b) || text_lt(b, a),
    decreases a.len(),
{
    if a.len() > 0 && b.len() > 0 && a[0] == b[0] {
        if a.drop_first() == b.drop_first() {
            assert(a =~= seq![a[0]] + a.drop_first());
            assert(b =~= seq![b[0]] + b.drop_first());
        }
        lemma_text_lt_total(a.drop_first(), b.drop_first());
    } else if a.len() == 0 && b.len() == 0 {
        assert(a =~= b);
    }
}

/// Two texts never come before each other.
pub proof fn lemma_text_lt_asymmetric(a: Seq<char>, b: Seq<char>)
    ensures
        !(text_lt(a, b) && text_lt(b, a)),
    decreases a.len(),
{
    if a.len() > 0 && b.len() > 0 && a[0] == b[0] {
        lemma_text_lt_asymmetric(a.drop_first(), b.drop_first());
    }
}

/// The order of texts is transitive.
pub proof fn lemma_text_lt_transitive(a: Seq<char>, b: Seq<char>, c: Seq<char>)
    requires
        text_lt(a, b),
        text_lt(b, c),
    ensures
        text_lt(a, c),
    decreases a.len(),
{
    if a.len() > 0 && b.len() > 0 && c.len() > 0 && a[0] == b[0] && b[0] == c[0] {
        lemma_text_lt_transitive(a.drop_first(), b.drop_first(), c.drop_first());
    }
}

/// Whether `a` comes before `b` in the order of texts.
pub fn text_less(a: &Vec<char>, b: &Vec<char>) -> (r: bool)
    ensures
        r == text_lt(a@, b@),
{
    let mut i: usize = 0;
    assert(a@.skip(0) =~= a@);
    assert(b@.skip(0) =~= b@);
    while i < a.len() && i < b.len()
        invariant
            i <= a@.len(),
            i <= b@.len(),
            text_lt(a@, b@) == text_lt(a@.skip(i as int), b@.skip(i as int)),
        decreases a@.len() - i,
    {
        if a[i] != b[i] {
            return a[i] < b[i];
        }
        assert(a@.skip(i as int).drop_first() =~= a@.skip(i + 1));
        assert(b@.skip(i as int).drop_first() =~= b@.skip(i + 1));
        i = i + 1;
    }
    i < b.len()
}


/// One stored call of the signing API, with what the call log reads of it.
/// (Its id, result, failure reason and parameters are only carried through, and
/// stay with the caller, at the same index.)
pub struct LogRow {
    pub key_name: String,
    pub card_key: Option<String>,
    pub status: String,
    /// When the call was made, in microseconds since the epoch (UTC).
    pub created_us: i64,
}

/// The calendar day (UTC) of the instant `us`, in microseconds since the epoch, as
/// chrono prints a `NaiveDate`.
pub uninterp spec fn date_of(us: i64) -> Seq<char>;

/// The instant `us`, in microseconds since the epoch, as chrono's serde writes a
/// `DateTime<Utc>`: RFC 3339 with `Z`, and as many fraction digits as it needs.
pub uninterp spec fn stamp_of(us: i64) -> Seq<char>;

/// chrono: `DateTime::<Utc>::from_timestamp_micros(us)`, then `date_naive()` and
/// `to_string()`. The contract says only that the text is `date_of(us)`; what that
/// text is, it leaves to chrono.
#[verifier::external_body]
fn date_text(us: i64) -> (r: String)
    requires
        in_time_range(us as int),
    ensures
        r@ == date_of(us),
{
    chrono::DateTime::from_timestamp_micros(us).unwrap().date_naive().to_string()
}

/// chrono: `DateTime::<Utc>::from_timestamp_micros(us)`, then
/// `to_rfc3339_opts(SecondsFormat::AutoSi, true)`, which writes what chrono's serde
/// `Serialize` writes. The contract says only that the text is `stamp_of(us)`.
#[verifier::external_body]
fn stamp_text(us: i64) -> (r: String)
    requires
        in_time_range(us as int),
    ensures
        r@ == stamp_of(us),
{
    chrono::DateTime::from_timestamp_micros(us).unwrap().to_rfc3339_opts(chrono::SecondsFormat::AutoSi, true)
}

/// The card of a row, empty when it has none.
pub open spec fn card_text(r: LogRow) -> Seq<char> {
    match r.card_key {
        Some(c) => c@,
        None => Seq::empty(),
    }
}

/// The whole seconds since the epoch of the instant `us` (rounded down, as chrono's
/// `timestamp`).
pub open spec fn secs_of(us: i64) -> int {
    us as int / 1_000_000
}

/// The five-second window of the instant `us`: its seconds divided by five, rounded
/// toward zero as Rust's `/` on `i64`.
pub open spec fn window_of(us: i64) -> int {
    let s = secs_of(us);
    if s >= 0 {
        s / 5
    } else {
        -((-s) / 5)
    }
}

/// Two calls that the log shows as one: the same key, the same card and the same
/// five-second window.
pub open spec fn same_group(a: LogRow, b: LogRow) -> bool {
    &&& a.key_name@ == b.key_name@
    &&& card_text(a) == card_text(b)
    &&& window_of(a.created_us) == window_of(b.created_us)
}

/// The five-second window of `us` (see `window_of`).
fn window(us: i64) -> (w: i64)
    ensures
        w == window_of(us),
{
    let s: i64 = if us >= 0 {
        us / 1_000_000
    } else {
        let m: u64 = (-(us as i128)) as u64;
        let q: u64 = (m + 999_999) / 1_000_000;
        assert(us as int / 1_000_000 == -(q as int));
        -(q as i64)
    };
    if s >= 0 {
        s / 5
    } else {
        let m: i64 = -s;
        -(m / 5)
    }
}

/// Whether two rows fall into one group of the log (see `same_group`).
fn same_key(a: &LogRow, b: &LogRow) -> (r: bool)
    ensures
        r == same_group(*a, *b),
{
    if !str_eq(a.key_name.as_str(), b.key_name.as_str()) {
        return false;
    }
    let ca: bool = match (&a.card_key, &b.card_key) {
        (Some(x), Some(y)) => str_eq(x.as_str(), y.as_str()),
        (Some(x), None) => {
            let v = chars_of(x.as_str());
            assert(v.len() == 0 ==> x@ =~= Seq::<char>::empty());
            v.len() == 0
        },
        (None, Some(y)) => {
            let v = chars_of(y.as_str());
            assert(v.len() == 0 ==> y@ =~= Seq::<char>::empty());
            v.len() == 0
        },
        (None, None) => true,
    };
    if !ca {
        return false;
    }
    window(a.created_us) == window(b.created_us)
}


/// `ids` runs strictly upward.
pub open spec fn increasing(ids: Seq<usize>) -> bool {
    forall|a: int, b: int| 0 <= a < b < ids.len() ==> ids[a] < ids[b]
}

/// `m` is a group of today's rows: not empty, upward, and each of its rows is of
/// today and falls into one group with its first.
pub open spec fn group_ok(rows: Seq<LogRow>, today: Seq<bool>, m: Seq<usize>) -> bool {
    &&& m.len() > 0
    &&& increasing(m)
    &&& forall|a: int|
        0 <= a < m.len() ==> #[trigger] m[a] < rows.len() && today[m[a] as int] && same_group(
            rows[m[a] as int],
            rows[m[0] as int],
        )
}

/// Each of `groups` is not empty, and its first row is below `n`.
pub open spec fn heads_below(groups: Seq<Vec<usize>>, n: int) -> bool {
    forall|g: int| 0 <= g < groups.len() ==> (#[trigger] groups[g])@.len() > 0 && groups[g]@[0] < n
}

/// The group, among `groups`, whose first row falls into one group with row `i`.
fn find_group(rows: &Vec<LogRow>, groups: &Vec<Vec<usize>>, i: usize) -> (r: Option<usize>)
    requires
        i < rows.len(),
        heads_below(groups@, rows.len() as int),
    ensures
        match r {
            Some(g) => g < groups.len() && same_group(rows@[groups@[g as int]@[0] as int], rows@[i as int]),
            None => forall|g: int| 0 <= g < groups.len() ==> !same_group(rows@[(#[trigger] groups@[g]@[0]) as int], rows@[i as int]),
        },
{
    let mut k = groups.len();
    while k > 0
        invariant
            k <= groups.len(),
            i < rows.len(),
            heads_below(groups@, rows.len() as int),
            forall|g: int| k <= g < groups.len() ==> !same_group(rows@[(#[trigger] groups@[g]@[0]) as int], rows@[i as int]),
        decreases k,
    {
        let f = groups[k - 1][0];
        if same_key(&rows[f], &rows[i]) {
            return Some(k - 1);
        }
        k = k - 1;
    }
    None
}

/// Today's rows gathered into groups, the first of each group in the order of the
/// rows, and the other rows one by one in their order.
fn group_rows(rows: &Vec<LogRow>, today: &Vec<bool>) -> (r: (Vec<Vec<usize>>, Vec<usize>))
    requires
        today@.len() == rows@.len(),
    ensures
        forall|g: int| 0 <= g < r.0.len() ==> #[trigger] group_ok(rows@, today@, r.0@[g]@),
        forall|g: int, h: int|
            0 <= g < r.0.len() && 0 <= h < r.0.len() && g != h ==> !same_group(
                rows@[(#[trigger] r.0@[g]@[0]) as int],
                rows@[(#[trigger] r.0@[h]@[0]) as int],
            ),
        forall|j: int|
            0 <= j < rows.len() && today@[j] ==> exists|g: int|
                0 <= g < r.0.len() && (#[trigger] r.0@[g]@).contains(j as usize),
        increasing(r.1@),
        forall|a: int| 0 <= a < r.1.len() ==> #[trigger] r.1@[a] < rows.len() && !today@[r.1@[a] as int],
        forall|j: int| 0 <= j < rows.len() && !today@[j] ==> r.1@.contains(j as usize),
{
    let mut groups: Vec<Vec<usize>> = Vec::new();
    let mut singles: Vec<usize> = Vec::new();
    let mut i: usize = 0;
    while i < rows.len()
        invariant
            i <= rows.len(),
            today@.len() == rows@.len(),
            forall|g: int| 0 <= g < groups.len() ==> #[trigger] group_ok(rows@, today@, groups@[g]@),
            forall|g: int, a: int|
                0 <= g < groups.len() && 0 <= a < groups@[g]@.len() ==> (#[trigger] groups@[g]@[a]) < i,
            forall|g: int, h: int|
                0 <= g < groups.len() && 0 <= h < groups.len() && g != h ==> !same_group(
                    rows@[(#[trigger] groups@[g]@[0]) as int],
                    rows@[(#[trigger] groups@[h]@[0]) as int],
                ),
            forall|j: int|
                0 <= j < i && today@[j] ==> exists|g: int|
                    0 <= g < groups.len() && (#[trigger] groups@[g]@).contains(j as usize),
            increasing(singles@),
            forall|a: int| 0 <= a < singles.len() ==> #[trigger] singles@[a] < i && !today@[singles@[a] as int],
            forall|j: int| 0 <= j < i && !today@[j] ==> singles@.contains(j as usize),
        decreases rows.len() - i,
    {
        if today[i] {
            proof {
                assert forall|g: int| 0 <= g < groups.len() implies (#[trigger] groups@[g])@.len() > 0
                    && groups@[g]@[0] < rows.len() by {
                    assert(group_ok(rows@, today@, groups@[g]@));
                }
            }
            match find_group(rows, &groups, i) {
                Some(g) => {
                    let ghost old_groups = groups@;
                    let mut v: Vec<usize> = Vec::new();
                    groups.set_and_swap(g, &mut v);
                    let ghost old_v = v@;
                    v.push(i);
                    groups.set_and_swap(g, &mut v);
                    proof {
                        assert(group_ok(rows@, today@, old_groups[g as int]@));
                        assert(groups@[g as int]@ == old_v.push(i));
                        assert(group_ok(rows@, today@, groups@[g as int]@));
                        assert forall|h: int| 0 <= h < groups.len() && h != g implies groups@[h] == old_groups[h] by {}
                        assert(groups@[g as int]@[old_v.len() as int] == i);
                        assert(groups@[g as int]@.contains(i));
                        assert forall|j: int| 0 <= j < i + 1 && today@[j] implies exists|h: int|
                            0 <= h < groups.len() && (#[trigger] groups@[h]@).contains(j as usize) by {
                            if j < i {
                                let h = choose|h: int| 0 <= h < old_groups.len() && (#[trigger] old_groups[h]@).contains(j as usize);
                                if h == g {
                                    let a = choose|a: int| 0 <= a < old_v.len() && old_v[a] == j as usize;
                                    assert(groups@[g as int]@[a] == j as usize);
                                }
                                assert(groups@[h]@.contains(j as usize));
                            } else {
                                assert(groups@[g as int]@[old_v.len() as int] == i);
                            }
                        }
                    }
                },
                None => {
                    let ghost old_groups = groups@;
                    groups.push(vec![i]);
                    proof {
                        let last = old_groups.len() as int;
                        assert(groups@[last]@ =~= seq![i]);
                        assert(group_ok(rows@, today@, groups@[last]@));
                        assert forall|h: int| 0 <= h < old_groups.len() implies groups@[h] == old_groups[h] by {}
                        assert forall|j: int| 0 <= j < i + 1 && today@[j] implies exists|h: int|
                            0 <= h < groups.len() && (#[trigger] groups@[h]@).contains(j as usize) by {
                            if j < i {
                                let h = choose|h: int| 0 <= h < old_groups.len() && (#[trigger] old_groups[h]@).contains(j as usize);
                                assert(groups@[h]@.contains(j as usize));
                            } else {
                                assert(groups@[last]@[0] == i);
                            }
                        }
                    }
                },
            }
        } else {
            let ghost old_singles = singles@;
            singles.push(i);
            proof {
                assert forall|j: int| 0 <= j < i + 1 && !today@[j] implies singles@.contains(j as usize) by {
                    if j < i {
                        let a = choose|a: int| 0 <= a < old_singles.len() && old_singles[a] == j as usize;
                        assert(singles@[a] == j as usize);
                    } else {
                        assert(singles@[singles.len() - 1] == i);
                    }
                }
            }
        }
        i = i + 1;
    }
    (groups, singles)
}


/// The key of id `x`: the stamp at `key_at[x]`.
pub open spec fn key_of(stamps: Seq<Vec<char>>, key_at: Seq<usize>, x: usize) -> Seq<char> {
    stamps[key_at[x as int] as int]@
}

/// The key of `x` comes strictly before that of `y`: upward when `desc` is false,
/// downward when it is true.
pub open spec fn key_first(stamps: Seq<Vec<char>>, key_at: Seq<usize>, x: usize, y: usize, desc: bool) -> bool {
    if desc {
        text_lt(key_of(stamps, key_at, y), key_of(stamps, key_at, x))
    } else {
        text_lt(key_of(stamps, key_at, x), key_of(stamps, key_at, y))
    }
}

/// `x` comes before `y`: its key first, or the keys equal and `x` the smaller.
pub open spec fn id_before(stamps: Seq<Vec<char>>, key_at: Seq<usize>, x: usize, y: usize, desc: bool) -> bool {
    ||| key_first(stamps, key_at, x, y, desc)
    ||| (key_of(stamps, key_at, x) == key_of(stamps, key_at, y) && x < y)
}

/// `s` is in the order of `id_before`.
pub open spec fn sorted_ids(stamps: Seq<Vec<char>>, key_at: Seq<usize>, s: Seq<usize>, desc: bool) -> bool {
    forall|a: int, b: int| 0 <= a < b < s.len() ==> id_before(stamps, key_at, #[trigger] s[a], #[trigger] s[b], desc)
}

/// Keys in order, or equal, chain.
proof fn lemma_key_chain(stamps: Seq<Vec<char>>, key_at: Seq<usize>, x: usize, y: usize, z: usize, desc: bool)
    requires
        key_first(stamps, key_at, x, y, desc) || key_of(stamps, key_at, x) == key_of(stamps, key_at, y),
        key_first(stamps, key_at, y, z, desc) || key_of(stamps, key_at, y) == key_of(stamps, key_at, z),
    ensures
        key_first(stamps, key_at, x, z, desc) || key_of(stamps, key_at, x) == key_of(stamps, key_at, z),
{
    let kx = key_of(stamps, key_at, x);
    let ky = key_of(stamps, key_at, y);
    let kz = key_of(stamps, key_at, z);
    if key_first(stamps, key_at, x, y, desc) && key_first(stamps, key_at, y, z, desc) {
        if desc {
            lemma_text_lt_transitive(kz, ky, kx);
        } else {
            lemma_text_lt_transitive(kx, ky, kz);
        }
    }
}

/// Whether the key of `x` comes strictly before that of `y` (see `key_first`).
fn key_first_exec(stamps: &Vec<Vec<char>>, key_at: &Vec<usize>, x: usize, y: usize, desc: bool) -> (r: bool)
    requires
        x < key_at.len(),
        y < key_at.len(),
        forall|z: int| 0 <= z < key_at.len() ==> #[trigger] key_at@[z] < stamps.len(),
    ensures
        r == key_first(stamps@, key_at@, x, y, desc),
{
    let kx = &stamps[key_at[x]];
    let ky = &stamps[key_at[y]];
    if desc {
        text_less(ky, kx)
    } else {
        text_less(kx, ky)
    }
}

/// Putting `x`, larger than every id of the sorted `s`, at `j`, after the ids whose
/// keys are not after its own and before those whose keys are, keeps `s` sorted.
proof fn lemma_insert_sorted(stamps: Seq<Vec<char>>, key_at: Seq<usize>, s: Seq<usize>, x: usize, j: int, desc: bool)
    requires
        sorted_ids(stamps, key_at, s, desc),
        0 <= j <= s.len(),
        forall|a: int| 0 <= a < s.len() ==> #[trigger] s[a] < x,
        forall|a: int| j <= a < s.len() ==> key_first(stamps, key_at, x, #[trigger] s[a], desc),
        j > 0 ==> !key_first(stamps, key_at, x, s[j - 1], desc),
    ensures
        sorted_ids(stamps, key_at, s.insert(j, x), desc),
{
    let t = s.insert(j, x);
    if j > 0 {
        let kx = key_of(stamps, key_at, x);
        let kp = key_of(stamps, key_at, s[j - 1]);
        if kx != kp {
            lemma_text_lt_total(kx, kp);
        }
    }
    assert forall|a: int, b: int| 0 <= a < b < t.len() implies id_before(stamps, key_at, #[trigger] t[a], #[trigger] t[b], desc) by {
        if b < j {
            assert(t[a] == s[a] && t[b] == s[b]);
        } else if a > j {
            assert(t[a] == s[a - 1] && t[b] == s[b - 1]);
        } else if a < j && b > j {
            assert(t[a] == s[a] && t[b] == s[b - 1]);
        } else if a == j {
            assert(t[a] == x && t[b] == s[b - 1]);
        } else {
            assert(b == j && a < j);
            assert(t[a] == s[a] && t[b] == x);
            if a < j - 1 {
                assert(id_before(stamps, key_at, s[a], s[j - 1], desc));
                lemma_key_chain(stamps, key_at, s[a], s[j - 1], x, desc);
            }
        }
    }
}

/// `ids`, upward and distinct, put in the order of `id_before`: by key (upward, or
/// downward when `desc`), and of equal keys in their first order.
fn sort_ids(stamps: &Vec<Vec<char>>, key_at: &Vec<usize>, ids: &Vec<usize>, desc: bool) -> (out: Vec<usize>)
    requires
        forall|z: int| 0 <= z < key_at.len() ==> #[trigger] key_at@[z] < stamps.len(),
        increasing(ids@),
        forall|a: int| 0 <= a < ids.len() ==> #[trigger] ids@[a] < key_at.len(),
    ensures
        out@.len() == ids@.len(),
        out@.no_duplicates(),
        forall|x: usize| out@.contains(x) <==> ids@.contains(x),
        sorted_ids(stamps@, key_at@, out@, desc),
{
    let mut out: Vec<usize> = Vec::new();
    let mut i: usize = 0;
    while i < ids.len()
        invariant
            i <= ids.len(),
            forall|z: int| 0 <= z < key_at.len() ==> #[trigger] key_at@[z] < stamps.len(),
            increasing(ids@),
            forall|a: int| 0 <= a < ids.len() ==> #[trigger] ids@[a] < key_at.len(),
            out@.len() == i,
            out@.no_duplicates(),
            forall|x: usize| out@.contains(x) <==> ids@.take(i as int).contains(x),
            sorted_ids(stamps@, key_at@, out@, desc),
        decreases ids.len() - i,
    {
        let x = ids[i];
        proof {
            assert forall|a: int| 0 <= a < out@.len() implies #[trigger] out@[a] < x by {
                assert(out@.contains(out@[a]));
                let b = choose|b: int| 0 <= b < i && ids@.take(i as int)[b] == out@[a];
                assert(ids@[b] == out@[a]);
            }
        }
        let mut j = out.len();
        while j > 0 && key_first_exec(stamps, key_at, x, out[j - 1], desc)
            invariant
                j <= out.len(),
                x < key_at.len(),
                forall|z: int| 0 <= z < key_at.len() ==> #[trigger] key_at@[z] < stamps.len(),
                forall|a: int| 0 <= a < out.len() ==> #[trigger] out@[a] < key_at.len(),
                forall|a: int| j <= a < out.len() ==> key_first(stamps@, key_at@, x, #[trigger] out@[a], desc),
            decreases j,
        {
            j = j - 1;
        }
        let ghost before = out@;
        proof {
            lemma_insert_sorted(stamps@, key_at@, before, x, j as int, desc);
        }
        out.insert(j, x);
        proof {
            assert(ids@.take(i + 1) =~= ids@.take(i as int).push(x));
            assert forall|y: usize| out@.contains(y) <==> ids@.take(i + 1).contains(y) by {
                if out@.contains(y) {
                    let a = choose|a: int| 0 <= a < out@.len() && out@[a] == y;
                    if a != j {
                        let b = if a < j { a } else { a - 1 };
                        assert(before[b] == y);
                        assert(before.contains(y));
                    }
                    assert(ids@.take(i as int).push(x)[i as int] == x);
                }
                if ids@.take(i + 1).contains(y) {
                    if y == x {
                        assert(out@[j as int] == x);
                    } else {
                        assert(ids@.take(i as int).contains(y));
                        assert(before.contains(y));
                        let b = choose|b: int| 0 <= b < before.len() && before[b] == y;
                        if b < j {
                            assert(out@[b] == y);
                        } else {
                            assert(out@[b + 1] == y);
                        }
                    }
                }
            }
            assert forall|a: int, b: int| 0 <= a < out@.len() && 0 <= b < out@.len() && a != b implies out@[a] != out@[b] by {
                if a == j {
                    assert(b < j ==> out@[b] == before[b]);
                    assert(b > j ==> out@[b] == before[b - 1]);
                } else if b == j {
                    assert(a < j ==> out@[a] == before[a]);
                    assert(a > j ==> out@[a] == before[a - 1]);
                } else {
                    let a0 = if a < j { a } else { a - 1 };
                    let b0 = if b < j { b } else { b - 1 };
                    assert(out@[a] == before[a0] && out@[b] == before[b0]);
                }
            }
        }
        i = i + 1;
    }
    assert(ids@.take(ids@.len() as int) =~= ids@);
    out
}


/// One line of the call log: the row it shows, and the rows of the calls merged
/// under it.
pub struct LogEntry {
    pub head: usize,
    pub subs: Vec<usize>,
    /// Whether the line is of today's calls (which are merged) or of another day.
    pub today: bool,
}

/// The rows a line stands for, its own first.
pub open spec fn members(e: LogEntry) -> Seq<usize> {
    seq![e.head] + e.subs@
}

/// The stamp of row `i`.
pub open spec fn row_stamp(rows: Seq<LogRow>, i: usize) -> Seq<char> {
    stamp_of(rows[i as int].created_us)
}

/// Row `i` was made on the day `day`.
pub open spec fn row_on(rows: Seq<LogRow>, i: usize, day: Seq<char>) -> bool {
    date_of(rows[i as int].created_us) == day
}

/// Inside a line, row `x` comes before row `y`: by stamp upward, and of equal stamps
/// in the order of the rows.
pub open spec fn stamp_before(rows: Seq<LogRow>, x: usize, y: usize) -> bool {
    ||| text_lt(row_stamp(rows, x), row_stamp(rows, y))
    ||| (row_stamp(rows, x) == row_stamp(rows, y) && x < y)
}

/// The rows of a line come in the order of `stamp_before`.
pub open spec fn entry_in_order(rows: Seq<LogRow>, e: LogEntry) -> bool {
    forall|a: int, b: int|
        0 <= a < b < members(e).len() ==> stamp_before(rows, #[trigger] members(e)[a], #[trigger] members(e)[b])
}

/// What a line stands for, as its flag tells: a call of today, with every call of
/// today that falls into one group with it; or a call of another day, alone.
pub open spec fn entry_holds(rows: Seq<LogRow>, today: Seq<char>, e: LogEntry) -> bool {
    &&& e.today == row_on(rows, e.head, today)
    &&& if row_on(rows, e.head, today) {
        forall|r: usize|
            r < rows.len() ==> (#[trigger] members(e).contains(r) <==> (row_on(rows, r, today) && same_group(
                rows[r as int],
                rows[e.head as int],
            )))
    } else {
        e.subs@.len() == 0
    }
}

/// Row `r` stands in one of the lines `es`.
pub open spec fn covered(es: Seq<LogEntry>, r: usize) -> bool {
    exists|k: int| 0 <= k < es.len() && #[trigger] members(es[k]).contains(r)
}

/// Each of the rows `0..n` stands in exactly one of the lines `es`, once.
pub open spec fn partitions(es: Seq<LogEntry>, n: int) -> bool {
    &&& forall|k: int| 0 <= k < es.len() ==> (#[trigger] members(es[k])).no_duplicates()
    &&& forall|k: int, a: int|
        0 <= k < es.len() && 0 <= a < members(es[k]).len() ==> (#[trigger] members(es[k])[a]) < n
    &&& forall|r: usize| r < n ==> #[trigger] covered(es, r)
    &&& forall|k: int, l: int, r: usize|
        0 <= k < es.len() && 0 <= l < es.len() && #[trigger] members(es[k]).contains(r)
            && #[trigger] members(es[l]).contains(r) ==> k == l
}

/// The lines built from the groups and the other rows stand for the rows as the log
/// shows them.
proof fn lemma_units(
    rows: Seq<LogRow>,
    is_today: Seq<bool>,
    today: Seq<char>,
    groups: Seq<Vec<usize>>,
    singles: Seq<usize>,
    units: Seq<LogEntry>,
    heads: Seq<usize>,
    gc: int,
)
    requires
        is_today.len() == rows.len(),
        forall|j: int| 0 <= j < rows.len() ==> #[trigger] is_today[j] == row_on(rows, j as usize, today),
        forall|g: int| 0 <= g < groups.len() ==> #[trigger] group_ok(rows, is_today, groups[g]@),
        forall|g: int, h: int|
            0 <= g < groups.len() && 0 <= h < groups.len() && g != h ==> !same_group(
                rows[(#[trigger] groups[g]@[0]) as int],
                rows[(#[trigger] groups[h]@[0]) as int],
            ),
        forall|j: int|
            0 <= j < rows.len() && is_today[j] ==> exists|g: int|
                0 <= g < groups.len() && (#[trigger] groups[g]@).contains(j as usize),
        increasing(singles),
        forall|a: int| 0 <= a < singles.len() ==> #[trigger] singles[a] < rows.len() && !is_today[singles[a] as int],
        forall|j: int| 0 <= j < rows.len() && !is_today[j] ==> singles.contains(j as usize),
        gc == groups.len(),
        units.len() == gc + singles.len(),
        heads.len() == units.len(),
        forall|p: int| 0 <= p < units.len() ==> #[trigger] heads[p] == units[p].head,
        forall|p: int| 0 <= p < gc ==> (#[trigger] members(units[p])).no_duplicates(),
        forall|p: int, x: usize| 0 <= p < gc ==> (#[trigger] members(units[p]).contains(x) <==> groups[p]@.contains(x)),
        forall|p: int| 0 <= p < gc ==> #[trigger] entry_in_order(rows, units[p]),
        forall|p: int| gc <= p < units.len() ==> (#[trigger] units[p]).head == singles[p - gc] && units[p].subs@.len() == 0,
        forall|p: int| 0 <= p < units.len() ==> (#[trigger] units[p]).today == (p < gc),
    ensures
        partitions(units, rows.len() as int),
        forall|p: int| 0 <= p < units.len() ==> #[trigger] entry_holds(rows, today, units[p]),
        forall|p: int| 0 <= p < units.len() ==> #[trigger] entry_in_order(rows, units[p]),
        forall|p: int| 0 <= p < gc ==> row_on(rows, #[trigger] heads[p], today),
        forall|p: int| gc <= p < units.len() ==> !row_on(rows, #[trigger] heads[p], today),
        forall|p: int, q: int| gc <= p < q < units.len() ==> #[trigger] heads[p] < #[trigger] heads[q],
{
    let n = rows.len() as int;
    assert forall|p: int| gc <= p < units.len() implies #[trigger] members(units[p]) =~= seq![singles[p - gc]] by {
        assert(units[p].head == singles[p - gc]);
    }
    // where a row of a group's line comes from
    assert forall|p: int, a: int| 0 <= p < gc && 0 <= a < members(units[p]).len() implies
        (#[trigger] members(units[p])[a]) < n && is_today[members(units[p])[a] as int]
        && same_group(rows[members(units[p])[a] as int], rows[groups[p]@[0] as int]) by {
        let x = members(units[p])[a];
        assert(members(units[p]).contains(x));
        assert(groups[p]@.contains(x));
        assert(group_ok(rows, is_today, groups[p]@));
        let b = choose|b: int| 0 <= b < groups[p]@.len() && groups[p]@[b] == x;
        assert(groups[p]@[b] < rows.len());
    }
    // the rows stand in the lines
    assert forall|k: int| 0 <= k < units.len() implies (#[trigger] members(units[k])).no_duplicates() by {
        if k >= gc {
            assert(members(units[k]) =~= seq![singles[k - gc]]);
        }
    }
    assert forall|k: int, a: int| 0 <= k < units.len() && 0 <= a < members(units[k]).len() implies (#[trigger] members(units[k])[a]) < n by {
        if k >= gc {
            assert(members(units[k]) =~= seq![singles[k - gc]]);
            assert(singles[k - gc] < rows.len());
        }
    }
    assert forall|r: usize| r < n implies #[trigger] covered(units, r) by {
        if is_today[r as int] {
            let g = choose|g: int| 0 <= g < groups.len() && (#[trigger] groups[g]@).contains(r);
            assert(members(units[g]).contains(r));
            assert(0 <= g < units.len());
        } else {
            assert(singles.contains(r));
            let a = choose|a: int| 0 <= a < singles.len() && singles[a] == r;
            assert(members(units[gc + a]) =~= seq![singles[a]]);
            assert(members(units[gc + a])[0] == r);
            assert(members(units[gc + a]).contains(r));
        }
    }
    assert forall|k: int, l: int, r: usize|
        0 <= k < units.len() && 0 <= l < units.len() && #[trigger] members(units[k]).contains(r)
            && #[trigger] members(units[l]).contains(r) implies k == l by {
        let ak = choose|a: int| 0 <= a < members(units[k]).len() && members(units[k])[a] == r;
        let al = choose|a: int| 0 <= a < members(units[l]).len() && members(units[l])[a] == r;
        if k < gc && l < gc {
            assert(same_group(rows[r as int], rows[groups[k]@[0] as int]));
            assert(same_group(rows[r as int], rows[groups[l]@[0] as int]));
        } else if k >= gc && l >= gc {
            assert(members(units[k]) =~= seq![singles[k - gc]]);
            assert(members(units[l]) =~= seq![singles[l - gc]]);
            assert(singles[k - gc] == r && singles[l - gc] == r);
        } else if k < gc {
            assert(members(units[l]) =~= seq![singles[l - gc]]);
            assert(is_today[r as int]);
            assert(!is_today[singles[l - gc] as int]);
        } else {
            assert(members(units[k]) =~= seq![singles[k - gc]]);
            assert(is_today[r as int]);
            assert(!is_today[singles[k - gc] as int]);
        }
    }
    // what each line stands for
    assert forall|p: int| 0 <= p < units.len() implies #[trigger] entry_holds(rows, today, units[p]) by {
        let e = units[p];
        if p < gc {
            assert(members(e)[0] == e.head);
            assert(is_today[e.head as int]);
            assert(row_on(rows, e.head, today));
            let f = groups[p]@[0];
            assert forall|r: usize| r < rows.len() implies (#[trigger] members(e).contains(r) <==> (row_on(rows, r, today) && same_group(
                rows[r as int],
                rows[e.head as int],
            ))) by {
                if members(e).contains(r) {
                    let a = choose|a: int| 0 <= a < members(e).len() && members(e)[a] == r;
                    assert(is_today[r as int]);
                }
                if row_on(rows, r, today) && same_group(rows[r as int], rows[e.head as int]) {
                    assert(is_today[r as int]);
                    let q = choose|q: int| 0 <= q < groups.len() && (#[trigger] groups[q]@).contains(r);
                    assert(group_ok(rows, is_today, groups[q]@));
                    let b = choose|b: int| 0 <= b < groups[q]@.len() && groups[q]@[b] == r;
                    assert(same_group(rows[r as int], rows[groups[q]@[0] as int]));
                    if q != p {
                        assert(!same_group(rows[groups[p]@[0] as int], rows[groups[q]@[0] as int]));
                    }
                    assert(members(units[q]).contains(r));
                }
            }
        } else {
            assert(e.head == singles[p - gc]);
            assert(!is_today[e.head as int]);
        }
    }
    assert forall|p: int| 0 <= p < units.len() implies #[trigger] entry_in_order(rows, units[p]) by {
        if p >= gc {
            assert(members(units[p]) =~= seq![singles[p - gc]]);
        }
    }
    assert forall|p: int| 0 <= p < gc implies row_on(rows, #[trigger] heads[p], today) by {
        assert(members(units[p])[0] == units[p].head);
    }
    assert forall|p: int| gc <= p < units.len() implies !row_on(rows, #[trigger] heads[p], today) by {
        assert(heads[p] == singles[p - gc]);
        assert(!is_today[singles[p - gc] as int]);
    }
    assert forall|p: int, q: int| gc <= p < q < units.len() implies #[trigger] heads[p] < #[trigger] heads[q] by {
        assert(heads[p] == singles[p - gc]);
        assert(heads[q] == singles[q - gc]);
    }
}

/// Lines taken in a sorted order of their positions keep what they stand for, and
/// come in the order of the log.
proof fn lemma_ordered(
    rows: Seq<LogRow>,
    today: Seq<char>,
    all: Seq<LogEntry>,
    heads: Seq<usize>,
    stamps: Seq<Vec<char>>,
    order: Seq<usize>,
    es: Seq<LogEntry>,
    gc: int,
)
    requires
        stamps.len() == rows.len(),
        forall|j: int| 0 <= j < rows.len() ==> #[trigger] stamps[j]@ == row_stamp(rows, j as usize),
        partitions(all, rows.len() as int),
        forall|p: int| 0 <= p < all.len() ==> #[trigger] entry_holds(rows, today, all[p]),
        forall|p: int| 0 <= p < all.len() ==> #[trigger] entry_in_order(rows, all[p]),
        heads.len() == all.len(),
        forall|p: int| 0 <= p < all.len() ==> #[trigger] heads[p] == all[p].head,
        0 <= gc <= all.len() <= usize::MAX,
        forall|p: int| 0 <= p < gc ==> row_on(rows, #[trigger] heads[p], today),
        forall|p: int| gc <= p < all.len() ==> !row_on(rows, #[trigger] heads[p], today),
        forall|p: int, q: int| gc <= p < q < all.len() ==> #[trigger] heads[p] < #[trigger] heads[q],
        order.len() == all.len(),
        order.no_duplicates(),
        forall|x: usize| order.contains(x) <==> x < all.len(),
        sorted_ids(stamps, heads, order, true),
        es.len() == order.len(),
        forall|a: int| 0 <= a < es.len() ==> #[trigger] es[a] == all[order[a] as int],
    ensures
        partitions(es, rows.len() as int),
        forall|k: int| 0 <= k < es.len() ==> #[trigger] entry_holds(rows, today, es[k]),
        forall|k: int| 0 <= k < es.len() ==> #[trigger] entry_in_order(rows, es[k]),
        entries_in_order(rows, today, es),
{
    let n = rows.len() as int;
    assert forall|a: int| 0 <= a < order.len() implies (#[trigger] order[a]) < all.len() by {
        assert(order.contains(order[a]));
    }
    assert forall|k: int| 0 <= k < es.len() implies (#[trigger] members(es[k])).no_duplicates() by {
        assert(es[k] == all[order[k] as int]);
        assert(members(all[order[k] as int]).no_duplicates());
    }
    assert forall|k: int, a: int| 0 <= k < es.len() && 0 <= a < members(es[k]).len() implies (#[trigger] members(es[k])[a]) < n by {
        assert(es[k] == all[order[k] as int]);
        assert(members(all[order[k] as int])[a] < n);
    }
    assert forall|r: usize| r < n implies #[trigger] covered(es, r) by {
        assert(covered(all, r));
        let p = choose|p: int| 0 <= p < all.len() && #[trigger] members(all[p]).contains(r);
        assert(order.contains(p as usize));
        let k = choose|k: int| 0 <= k < order.len() && order[k] == p as usize;
        assert(order[k] as int == p);
        assert(es[k] == all[order[k] as int]);
        assert(es[k] == all[p]);
        assert(members(es[k]).contains(r));
    }
    assert forall|k: int, l: int, r: usize|
        0 <= k < es.len() && 0 <= l < es.len() && #[trigger] members(es[k]).contains(r)
            && #[trigger] members(es[l]).contains(r) implies k == l by {
        assert(es[k] == all[order[k] as int]);
        assert(es[l] == all[order[l] as int]);
        assert(members(all[order[k] as int]).contains(r));
        assert(members(all[order[l] as int]).contains(r));
    }
    assert forall|k: int| 0 <= k < es.len() implies #[trigger] entry_holds(rows, today, es[k]) by {
        assert(es[k] == all[order[k] as int]);
        assert(entry_holds(rows, today, all[order[k] as int]));
    }
    assert forall|k: int| 0 <= k < es.len() implies #[trigger] entry_in_order(rows, es[k]) by {
        assert(es[k] == all[order[k] as int]);
        assert(entry_in_order(rows, all[order[k] as int]));
    }
    assert forall|k: int, l: int| 0 <= k < l < es.len() implies #[trigger] lines_in_order(rows, today, es[k], es[l]) by {
        let pk = order[k];
        let pl = order[l];
        assert(id_before(stamps, heads, pk, pl, true));
        assert(es[k] == all[pk as int] && es[l] == all[pl as int]);
        assert(heads[pk as int] == es[k].head && heads[pl as int] == es[l].head);
        assert(members(all[pk as int])[0] < n);
        assert(members(all[pl as int])[0] < n);
        assert(key_of(stamps, heads, pk) == row_stamp(rows, es[k].head));
        assert(key_of(stamps, heads, pl) == row_stamp(rows, es[l].head));
        let sk = row_stamp(rows, es[k].head);
        let sl = row_stamp(rows, es[l].head);
        lemma_text_lt_asymmetric(sk, sl);
        lemma_text_lt_irreflexive(sk);
    }
}

/// The lines of the log before they are ordered: one for each group of today's
/// calls, in the order of the groups, then one for each other call, in the order of
/// the rows. Also the row each line shows, and how many lines are of today.
fn build_units(
    rows: &Vec<LogRow>,
    is_today: &Vec<bool>,
    stamps: &Vec<Vec<char>>,
    ident: &Vec<usize>,
    Ghost(today): Ghost<Seq<char>>,
) -> (r: (Vec<LogEntry>, Vec<usize>, usize))
    requires
        is_today@.len() == rows@.len(),
        stamps@.len() == rows@.len(),
        ident@.len() == rows@.len(),
        forall|j: int| 0 <= j < rows.len() ==> #[trigger] is_today@[j] == row_on(rows@, j as usize, today),
        forall|j: int| 0 <= j < rows.len() ==> #[trigger] stamps@[j]@ == row_stamp(rows@, j as usize),
        forall|j: int| 0 <= j < rows.len() ==> #[trigger] ident@[j] == j,
    ensures
        partitions(r.0@, rows.len() as int),
        forall|p: int| 0 <= p < r.0.len() ==> #[trigger] entry_holds(rows@, today, r.0@[p]),
        forall|p: int| 0 <= p < r.0.len() ==> #[trigger] entry_in_order(rows@, r.0@[p]),
        r.1@.len() == r.0@.len(),
        forall|p: int| 0 <= p < r.0.len() ==> #[trigger] r.1@[p] == r.0@[p].head,
        r.2 <= r.0.len(),
        forall|p: int| 0 <= p < r.2 ==> row_on(rows@, #[trigger] r.1@[p], today),
        forall|p: int| r.2 <= p < r.0.len() ==> !row_on(rows@, #[trigger] r.1@[p], today),
        forall|p: int, q: int| r.2 <= p < q < r.0.len() ==> #[trigger] r.1@[p] < #[trigger] r.1@[q],
{
    let ghost n = rows.len() as int;
    let (groups, singles) = group_rows(rows, is_today);
    proof {
        assert forall|z: int| 0 <= z < ident.len() implies #[trigger] ident@[z] < stamps.len() by {}
        assert forall|x: usize| x < n implies key_of(stamps@, ident@, x) == row_stamp(rows@, x) by {
            assert(ident@[x as int] == x);
        }
    }
    let mut units: Vec<LogEntry> = Vec::new();
    let mut heads: Vec<usize> = Vec::new();
    let mut g: usize = 0;
    while g < groups.len()
        invariant
            g <= groups.len(),
            n == rows.len(),
            stamps@.len() == rows@.len(),
            ident@.len() == rows@.len(),
            forall|z: int| 0 <= z < ident.len() ==> #[trigger] ident@[z] < stamps.len(),
            forall|x: usize| x < n ==> key_of(stamps@, ident@, x) == row_stamp(rows@, x),
            forall|h: int| 0 <= h < groups.len() ==> #[trigger] group_ok(rows@, is_today@, groups@[h]@),
            units@.len() == g,
            heads@.len() == g,
            forall|p: int| 0 <= p < g ==> #[trigger] heads@[p] == units@[p].head,
            forall|p: int| 0 <= p < g ==> (#[trigger] members(units@[p])).no_duplicates(),
            forall|p: int, x: usize| 0 <= p < g ==> (#[trigger] members(units@[p]).contains(x) <==> groups@[p]@.contains(x)),
            forall|p: int| 0 <= p < g ==> #[trigger] entry_in_order(rows@, units@[p]),
            forall|p: int| 0 <= p < g ==> (#[trigger] units@[p]).today,
        decreases groups.len() - g,
    {
        proof {
            assert(group_ok(rows@, is_today@, groups@[g as int]@));
        }
        let mut s = sort_ids(stamps, ident, &groups[g], false);
        let ghost full = s@;
        let rest = s.split_off(1);
        let h = s[0];
        let ghost sorted = s@ + rest@;
        let e = LogEntry { head: h, subs: rest, today: true };
        proof {
            assert(members(e) =~= sorted);
            assert(sorted =~= full);
            assert forall|x: usize| members(e).contains(x) <==> groups@[g as int]@.contains(x) by {
                assert(full.contains(x) <==> groups@[g as int]@.contains(x));
            }
            assert forall|a: int, b: int| 0 <= a < b < members(e).len() implies stamp_before(rows@, #[trigger] members(e)[a], #[trigger] members(e)[b]) by {
                assert(id_before(stamps@, ident@, sorted[a], sorted[b], false));
                assert(groups@[g as int]@.contains(sorted[a]));
                assert(groups@[g as int]@.contains(sorted[b]));
                let a0 = choose|a0: int| 0 <= a0 < groups@[g as int]@.len() && groups@[g as int]@[a0] == sorted[a];
                let b0 = choose|b0: int| 0 <= b0 < groups@[g as int]@.len() && groups@[g as int]@[b0] == sorted[b];
                assert(groups@[g as int]@[a0] < n);
                assert(groups@[g as int]@[b0] < n);
            }
        }
        units.push(e);
        heads.push(h);
        g = g + 1;
    }
    let gc = groups.len();
    let mut a: usize = 0;
    while a < singles.len()
        invariant
            a <= singles.len(),
            gc == groups.len(),
            units@.len() == gc + a,
            heads@.len() == gc + a,
            forall|p: int| 0 <= p < gc + a ==> #[trigger] heads@[p] == units@[p].head,
            forall|p: int| 0 <= p < gc ==> (#[trigger] members(units@[p])).no_duplicates(),
            forall|p: int, x: usize| 0 <= p < gc ==> (#[trigger] members(units@[p]).contains(x) <==> groups@[p]@.contains(x)),
            forall|p: int| 0 <= p < gc ==> #[trigger] entry_in_order(rows@, units@[p]),
            forall|p: int| gc <= p < gc + a ==> (#[trigger] units@[p]).head == singles@[p - gc] && units@[p].subs@.len() == 0,
            forall|p: int| 0 <= p < gc + a ==> (#[trigger] units@[p]).today == (p < gc),
        decreases singles.len() - a,
    {
        let x = singles[a];
        units.push(LogEntry { head: x, subs: Vec::new(), today: false });
        heads.push(x);
        a = a + 1;
    }
    proof {
        lemma_units(rows@, is_today@, today, groups@, singles@, units@, heads@, gc as int);
    }
    (units, heads, gc)
}


/// Line `e` may stand before line `f`: its stamp is not before that of `f`; of equal
/// stamps, a line of another day does not come before one of today, and two lines of
/// other days come in the order of their rows.
pub open spec fn lines_in_order(rows: Seq<LogRow>, today: Seq<char>, e: LogEntry, f: LogEntry) -> bool {
    let se = row_stamp(rows, e.head);
    let sf = row_stamp(rows, f.head);
    &&& !text_lt(se, sf)
    &&& (se == sf && row_on(rows, f.head, today)) ==> row_on(rows, e.head, today)
    &&& (se == sf && !row_on(rows, e.head, today) && !row_on(rows, f.head, today)) ==> e.head < f.head
}

/// The lines come by the stamps of the rows they show, downward (see `lines_in_order`).
pub open spec fn entries_in_order(rows: Seq<LogRow>, today: Seq<char>, es: Seq<LogEntry>) -> bool {
    forall|k: int, l: int| 0 <= k < l < es.len() ==> #[trigger] lines_in_order(rows, today, es[k], es[l])
}

/// The lines put in the order of the log: by the stamps of the rows they show,
/// downward, and of equal stamps in the order they come in.
fn order_units(
    units: Vec<LogEntry>,
    heads: &Vec<usize>,
    stamps: &Vec<Vec<char>>,
    gc: usize,
    Ghost(rows): Ghost<Seq<LogRow>>,
    Ghost(today): Ghost<Seq<char>>,
) -> (es: Vec<LogEntry>)
    requires
        stamps@.len() == rows.len(),
        forall|j: int| 0 <= j < rows.len() ==> #[trigger] stamps@[j]@ == row_stamp(rows, j as usize),
        partitions(units@, rows.len() as int),
        forall|p: int| 0 <= p < units.len() ==> #[trigger] entry_holds(rows, today, units@[p]),
        forall|p: int| 0 <= p < units.len() ==> #[trigger] entry_in_order(rows, units@[p]),
        heads@.len() == units@.len(),
        forall|p: int| 0 <= p < units.len() ==> #[trigger] heads@[p] == units@[p].head,
        gc <= units.len(),
        forall|p: int| 0 <= p < gc ==> row_on(rows, #[trigger] heads@[p], today),
        forall|p: int| gc <= p < units.len() ==> !row_on(rows, #[trigger] heads@[p], today),
        forall|p: int, q: int| gc <= p < q < units.len() ==> #[trigger] heads@[p] < #[trigger] heads@[q],
    ensures
        partitions(es@, rows.len() as int),
        forall|k: int| 0 <= k < es.len() ==> #[trigger] entry_holds(rows, today, es@[k]),
        forall|k: int| 0 <= k < es.len() ==> #[trigger] entry_in_order(rows, es@[k]),
        entries_in_order(rows, today, es@),
{
    let ghost all = units@;
    let ghost n = rows.len() as int;
    let mut positions: Vec<usize> = Vec::new();
    let mut p: usize = 0;
    while p < units.len()
        invariant
            p <= units.len(),
            positions@.len() == p,
            forall|q: int| 0 <= q < p ==> #[trigger] positions@[q] == q,
        decreases units.len() - p,
    {
        positions.push(p);
        p = p + 1;
    }
    proof {
        assert forall|z: int| 0 <= z < heads.len() implies #[trigger] heads@[z] < stamps.len() by {
            let k = z;
            assert(members(all[k])[0] == all[k].head);
        }
    }
    let order = sort_ids(stamps, heads, &positions, true);
    proof {
        assert forall|x: usize| order@.contains(x) <==> x < all.len() by {
            if x < all.len() {
                assert(positions@[x as int] == x);
            }
            if positions@.contains(x) {
                let q = choose|q: int| 0 <= q < positions@.len() && positions@[q] == x;
            }
        }
    }
    let mut units = units;
    let mut es: Vec<LogEntry> = Vec::new();
    let mut k: usize = 0;
    while k < order.len()
        invariant
            k <= order.len(),
            order@.len() == all.len(),
            order@.no_duplicates(),
            forall|x: usize| order@.contains(x) <==> x < all.len(),
            units@.len() == all.len(),
            es@.len() == k,
            forall|a: int| 0 <= a < k ==> #[trigger] es@[a] == all[order@[a] as int],
            forall|q: int| 0 <= q < all.len() && !order@.take(k as int).contains(q as usize) ==> #[trigger] units@[q] == all[q],
        decreases order.len() - k,
    {
        let q = order[k];
        proof {
            assert(order@.contains(q));
            assert(!order@.take(k as int).contains(q)) by {
                if order@.take(k as int).contains(q) {
                    let b = choose|b: int| 0 <= b < k && order@.take(k as int)[b] == q;
                    assert(order@[b] == order@[k as int]);
                }
            }
        }
        let mut e = LogEntry { head: 0, subs: Vec::new(), today: false };
        units.set_and_swap(q, &mut e);
        es.push(e);
        proof {
            assert forall|r: int| 0 <= r < all.len() && !order@.take(k + 1).contains(r as usize) implies #[trigger] units@[r] == all[r] by {
                assert(order@.take(k + 1)[k as int] == q);
                if r != q {
                    assert forall|b: int| 0 <= b < k && order@.take(k as int)[b] == r as usize implies false by {
                        assert(order@.take(k + 1)[b] == r as usize);
                    }
                }
            }
        }
        k = k + 1;
    }
    proof {
        lemma_ordered(rows, today, all, heads@, stamps@, order@, es@, gc as int);
    }
    es
}


/// The call log as the management page shows it: the lines, their number and that
/// of the rows, today's and yesterday's calls, today's lines that succeeded and
/// failed, and the page asked for.
pub struct CallLogPage {
    pub entries: Vec<LogEntry>,
    pub total: usize,
    pub raw_total: usize,
    pub today_count: usize,
    pub yesterday_count: usize,
    pub today_success: usize,
    pub today_failed: usize,
    pub page: i64,
    pub page_size: i64,
}

/// How many of `rows` were made on `day`.
pub open spec fn count_on(rows: Seq<LogRow>, day: Seq<char>) -> nat
    decreases rows.len(),
{
    if rows.len() == 0 {
        0
    } else {
        count_on(rows.drop_last(), day) + (if date_of(rows.last().created_us) == day {
            1nat
        } else {
            0nat
        })
    }
}

/// How many of the lines `es` show a row whose stamp begins with `today` and whose
/// status is "success" (when `success`) or is not (when not).
pub open spec fn count_outcome(rows: Seq<LogRow>, es: Seq<LogEntry>, today: Seq<char>, success: bool) -> nat
    decreases es.len(),
{
    if es.len() == 0 {
        0
    } else {
        let e = es.last();
        count_outcome(rows, es.drop_last(), today, success) + (if today.is_prefix_of(row_stamp(rows, e.head))
            && ((rows[e.head as int].status@ == "success"@) == success) {
            1nat
        } else {
            0nat
        })
    }
}

/// The page asked for: the first when none is, and never below the first.
pub open spec fn page_of(page: Option<i64>) -> i64 {
    match page {
        Some(p) => if p < 1 { 1 } else { p },
        None => 1,
    }
}

/// The page size asked for, twenty when none is.
pub open spec fn page_size_of(size: Option<i64>) -> i64 {
    match size {
        Some(s) => s,
        None => 20,
    }
}

/// The call log at the instant `now_us`: today's calls of one key and one card within
/// one five-second window shown as one line, led by the earliest; the calls of other
/// days one line each; the lines newest first. Also the counts of rows and lines,
/// today's and yesterday's calls, and today's lines that succeeded and failed. The
/// rows are the stored calls, newest first; the query's filters are not applied.
pub fn call_log_page(rows: &Vec<LogRow>, now_us: i64, q: &CallLogQuery) -> (r: CallLogPage)
    requires
        forall|i: int| 0 <= i < rows.len() ==> in_time_range(#[trigger] rows@[i].created_us as int),
        in_time_range(now_us as int),
        in_time_range(now_us - DAY_US),
    ensures
        r.raw_total == rows.len(),
        r.total == r.entries@.len(),
        partitions(r.entries@, rows.len() as int),
        forall|k: int| 0 <= k < r.entries.len() ==> #[trigger] entry_holds(rows@, date_of(now_us), r.entries@[k]),
        forall|k: int| 0 <= k < r.entries.len() ==> #[trigger] entry_in_order(rows@, r.entries@[k]),
        entries_in_order(rows@, date_of(now_us), r.entries@),
        r.today_count == count_on(rows@, date_of(now_us)),
        r.yesterday_count == count_on(rows@, date_of((now_us - DAY_US) as i64)),
        r.today_success == count_outcome(rows@, r.entries@, date_of(now_us), true),
        r.today_failed == count_outcome(rows@, r.entries@, date_of(now_us), false),
        r.page == page_of(q.page),
        r.page_size == page_size_of(q.page_size),
{
    let today = date_text(now_us);
    let yesterday = date_text(now_us - DAY_US);
    let ghost day = today@;
    let mut is_today: Vec<bool> = Vec::new();
    let mut stamps: Vec<Vec<char>> = Vec::new();
    let mut stamp_strs: Vec<String> = Vec::new();
    let mut ident: Vec<usize> = Vec::new();
    let mut today_count: usize = 0;
    let mut yesterday_count: usize = 0;
    let mut i: usize = 0;
    while i < rows.len()
        invariant
            i <= rows.len(),
            forall|j: int| 0 <= j < rows.len() ==> in_time_range(#[trigger] rows@[j].created_us as int),
            today@ == date_of(now_us),
            day == today@,
            yesterday@ == date_of((now_us - DAY_US) as i64),
            is_today@.len() == i,
            stamps@.len() == i,
            stamp_strs@.len() == i,
            ident@.len() == i,
            forall|j: int| 0 <= j < i ==> #[trigger] is_today@[j] == row_on(rows@, j as usize, day),
            forall|j: int| 0 <= j < i ==> #[trigger] stamps@[j]@ == row_stamp(rows@, j as usize),
            forall|j: int| 0 <= j < i ==> #[trigger] stamp_strs@[j]@ == row_stamp(rows@, j as usize),
            forall|j: int| 0 <= j < i ==> #[trigger] ident@[j] == j,
            today_count <= i,
            yesterday_count <= i,
            today_count == count_on(rows@.take(i as int), day),
            yesterday_count == count_on(rows@.take(i as int), yesterday@),
        decreases rows.len() - i,
    {
        let us = rows[i].created_us;
        let d = date_text(us);
        let t = str_eq(d.as_str(), today.as_str());
        let y = str_eq(d.as_str(), yesterday.as_str());
        proof {
            assert(rows@.take(i + 1).drop_last() =~= rows@.take(i as int));
            assert(rows@.take(i + 1).last() == rows@[i as int]);
        }
        if t {
            today_count = today_count + 1;
        }
        if y {
            yesterday_count = yesterday_count + 1;
        }
        is_today.push(t);
        let st = stamp_text(us);
        stamps.push(chars_of(st.as_str()));
        stamp_strs.push(st);
        ident.push(i);
        i = i + 1;
    }
    proof {
        assert(rows@.take(rows.len() as int) =~= rows@);
    }
    let (units, heads, gc) = build_units(rows, &is_today, &stamps, &ident, Ghost(day));
    let entries = order_units(units, &heads, &stamps, gc, Ghost(rows@), Ghost(day));
    let mut today_success: usize = 0;
    let mut today_failed: usize = 0;
    let mut k: usize = 0;
    while k < entries.len()
        invariant
            k <= entries.len(),
            partitions(entries@, rows.len() as int),
            stamp_strs@.len() == rows.len(),
            forall|j: int| 0 <= j < rows.len() ==> #[trigger] stamp_strs@[j]@ == row_stamp(rows@, j as usize),
            today@ == day,
            today_success <= k,
            today_failed <= k,
            today_success == count_outcome(rows@, entries@.take(k as int), day, true),
            today_failed == count_outcome(rows@, entries@.take(k as int), day, false),
        decreases entries.len() - k,
    {
        let h = entries[k].head;
        proof {
            assert(members(entries@[k as int])[0] == h);
            assert(entries@.take(k + 1).drop_last() =~= entries@.take(k as int));
            assert(entries@.take(k + 1).last() == entries@[k as int]);
        }
        if str_starts_with(stamp_strs[h].as_str(), today.as_str()) {
            if str_eq(rows[h].status.as_str(), "success") {
                today_success = today_success + 1;
            } else {
                today_failed = today_failed + 1;
            }
        }
        k = k + 1;
    }
    proof {
        assert(entries@.take(entries.len() as int) =~= entries@);
    }
    let page: i64 = match q.page {
        Some(p) => if p < 1 { 1 } else { p },
        None => 1,
    };
    let page_size: i64 = match q.page_size {
        Some(s) => s,
        None => 20,
    };
    let total = entries.len();
    CallLogPage {
        entries,
        total,
        raw_total: rows.len(),
        today_count,
        yesterday_count,
        today_success,
        today_failed,
        page,
        page_size,
    }
}

} // verus!
