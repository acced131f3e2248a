//! Relative timestamps of posts and comments ("5 min ago").
use vstd::prelude::*;
use crate::text::{byte_prefix, decimal, prefix_bytes, push_decimal};

verus! {

/// What `chrono::NaiveDateTime::parse_from_str(s, fmt)` yields, read as
/// UTC: the Unix timestamp in seconds and the sub-second nanoseconds;
/// `None` when `s` does not match `fmt`.
pub uninterp spec fn chrono_naive_parse(s: Seq<char>, fmt: Seq<char>) -> Option<(i64, u32)>;

/// `chrono::NaiveDateTime::parse_from_str`, the result taken as UTC and
/// converted to `(timestamp, timestamp_subsec_nanos)`. The result is a
/// function of the two strings; nothing more is stated of it.
#[verifier::external_body]
fn parse_naive_timestamp(s: &str, fmt: &str) -> (r: Option<(i64, u32)>)
    ensures
        r == chrono_naive_parse(s@, fmt@),
{
    chrono::NaiveDateTime::parse_from_str(s, fmt).ok().map(
        |dt| (dt.and_utc().timestamp(), dt.and_utc().timestamp_subsec_nanos()),
    )
}

/// `chrono::Utc::now()` as `(timestamp, timestamp_subsec_nanos)`: the
/// clock's reading, of which nothing is stated.
#[verifier::external_body]
fn utc_now_timestamp() -> (r: (i64, u32)) {
    let now = chrono::Utc::now();
    (now.timestamp(), now.timestamp_subsec_nanos())
}

/// Integer division of `a` by `b > 0`, rounding toward zero.
pub open spec fn div_toward_zero(a: int, b: int) -> int {
    if a >= 0 {
        a / b
    } else {
        -((-a) / b)
    }
}

/// The leap second that chrono's `signed_duration_since` counts between
/// two times (given as timestamp and nanoseconds, a nanosecond count of
/// a billion or more marking a leap second): one more when the earlier
/// time is a leap second and the later one lies later in its day, one
/// less when the later time is a leap second and lies earlier in its day
/// than the earlier one.
pub open spec fn leap_adjustment(then: (i64, u32), now: (i64, u32)) -> int {
    let day_then = then.0 % 86400;
    let day_now = now.0 % 86400;
    if day_now > day_then && then.1 >= 1_000_000_000 {
        1
    } else if day_now < day_then && now.1 >= 1_000_000_000 {
        -1
    } else {
        0
    }
}

/// Whole seconds from `then` to `now`, rounded toward zero, as chrono's
/// `signed_duration_since(..).num_seconds()` counts them.
pub open spec fn elapsed_seconds(then: (i64, u32), now: (i64, u32)) -> int {
    div_toward_zero(
        (now.0 - then.0 + leap_adjustment(then, now)) * 1_000_000_000 + now.1 - then.1,
        1_000_000_000,
    )
}

/// The second of the day of a timestamp.
fn second_of_day(t: i64) -> (r: i64)
    ensures
        r == t % 86400,
{
    match t.checked_rem_euclid(86400) {
        Some(r) => r,
        None => 0,
    }
}

/// The date part shown for old, future or unreadable timestamps: the
/// first ten bytes, or the whole text when they do not end on a
/// character boundary inside it.
pub open spec fn date_part(ts: Seq<char>) -> Seq<char> {
    match byte_prefix(ts, 10) {
        Some(p) => p,
        None => ts,
    }
}

/// The relative time shown for `ts`, which parsed to `parsed`, at `now`.
pub open spec fn spec_time_ago(ts: Seq<char>, parsed: Option<(i64, u32)>, now: (i64, u32)) -> Seq<char> {
    match parsed {
        None => date_part(ts),
        Some(p) => {
            let s = elapsed_seconds(p, now);
            if s < 0 {
                date_part(ts)
            } else if s < 60 {
                "just now"@
            } else if s / 60 < 60 {
                decimal((s / 60) as nat) + " min ago"@
            } else if s / 3600 < 24 {
                decimal((s / 3600) as nat) + " h ago"@
            } else if s / 86400 < 7 {
                decimal((s / 86400) as nat) + " d ago"@
            } else if s / 86400 / 7 < 5 {
                decimal((s / 86400 / 7) as nat) + " w ago"@
            } else {
                date_part(ts)
            }
        },
    }
}

/// For a nonnegative `s`, `s / d < k` exactly when `s < d * k`.
proof fn lemma_div_below(s: int, d: int, k: int)
    requires
        s >= 0,
        d > 0,
        k >= 0,
    ensures
        (s / d < k) == (s < d * k),
{
    vstd::arithmetic::div_mod::lemma_fundamental_div_mod(s, d);
    assert(0 <= s % d < d) by {
        vstd::arithmetic::div_mod::lemma_mod_bound(s, d);
    }
    if s / d < k {
        assert(s / d <= k - 1);
        assert(d * (s / d) <= d * (k - 1)) by (nonlinear_arith)
            requires
                s / d <= k - 1,
                d > 0,
        ;
        assert(d * (k - 1) + d == d * k) by (nonlinear_arith);
    } else {
        assert(d * (s / d) >= d * k) by (nonlinear_arith)
            requires
                s / d >= k,
                d > 0,
        ;
    }
}

/// How old a post looks, by how many whole seconds `s` passed since it
/// was made: under a minute "just now"; under an hour the whole minutes;
/// under a day the whole hours; under a week the whole days; under five
/// weeks the whole weeks; the date part when it lies in the future or
/// five weeks or more back, or when the timestamp could not be read.
/// Each count is at least one.
pub proof fn lemma_time_ago_ranges(ts: Seq<char>, parsed: Option<(i64, u32)>, now: (i64, u32))
    ensures
        parsed is None ==> spec_time_ago(ts, parsed, now) == date_part(ts),
        parsed matches Some(p) ==> ({
            let s = elapsed_seconds(p, now);
            let r = spec_time_ago(ts, parsed, now);
            &&& s < 0 ==> r == date_part(ts)
            &&& 0 <= s < 60 ==> r == "just now"@
            &&& 60 <= s < 3600 ==> 1 <= s / 60 < 60 && r == decimal((s / 60) as nat)
                + " min ago"@
            &&& 3600 <= s < 86400 ==> 1 <= s / 3600 < 24 && r == decimal((s / 3600) as nat)
                + " h ago"@
            &&& 86400 <= s < 7 * 86400 ==> 1 <= s / 86400 < 7 && r == decimal(
                (s / 86400) as nat,
            ) + " d ago"@
            &&& 7 * 86400 <= s < 35 * 86400 ==> 1 <= s / 604800 < 5 && r == decimal(
                (s / 604800) as nat,
            ) + " w ago"@
            &&& s >= 35 * 86400 ==> r == date_part(ts)
        }),
{
    if let Some(p) = parsed {
        let s = elapsed_seconds(p, now);
        if s >= 0 {
            lemma_div_below(s, 60, 60);
            lemma_div_below(s, 60, 1);
            lemma_div_below(s, 3600, 24);
            lemma_div_below(s, 3600, 1);
            lemma_div_below(s, 86400, 7);
            lemma_div_below(s, 86400, 1);
            lemma_div_below(s, 604800, 5);
            lemma_div_below(s, 604800, 1);
            vstd::arithmetic::div_mod::lemma_div_denominator(s, 86400, 7);
            lemma_div_below(s / 86400, 7, 5);
            assert(s / 86400 >= 0) by {
                vstd::arithmetic::div_mod::lemma_div_pos_is_pos(s, 86400);
            }
        }
    }
}

fn date_part_of(ts: &str) -> (r: String)
    ensures
        r@ == date_part(ts@),
{
    match prefix_bytes(ts, 10) {
        Some(p) => p.to_owned(),
        None => ts.to_owned(),
    }
}

fn with_suffix(n: i128, suffix: &str) -> (r: String)
    requires
        0 <= n < 60,
    ensures
        r@ == decimal(n as nat) + suffix@,
{
    let mut r = String::new();
    push_decimal(&mut r, n as u64);
    r.append(suffix);
    assert(r@ =~= decimal(n as nat) + suffix@);
    r
}

/// The relative time of `ts` at `now`, given what parsing `ts` gave.
pub fn time_ago_from(ts: &str, parsed: Option<(i64, u32)>, now: (i64, u32)) -> (r: String)
    ensures
        r@ == spec_time_ago(ts@, parsed, now),
{
    let p = match parsed {
        None => {
            return date_part_of(ts);
        },
        Some(p) => p,
    };
    let day_then = second_of_day(p.0);
    let day_now = second_of_day(now.0);
    let adjust: i128 = if day_now > day_then && p.1 >= 1_000_000_000 {
        1
    } else if day_now < day_then && now.1 >= 1_000_000_000 {
        -1
    } else {
        0
    };
    let diff: i128 = (now.0 as i128 - p.0 as i128 + adjust) * 1_000_000_000 + now.1 as i128
        - p.1 as i128;
    let secs: i128 = if diff >= 0 {
        diff / 1_000_000_000
    } else {
        -((-diff) / 1_000_000_000)
    };
    assert(secs == elapsed_seconds(p, now));
    if secs < 0 {
        return date_part_of(ts);
    }
    if secs < 60 {
        return "just now".to_owned();
    }
    let s = secs;
    let minutes = s / 60;
    if minutes < 60 {
        return with_suffix(minutes, " min ago");
    }
    let hours = s / 3600;
    if hours < 24 {
        return with_suffix(hours, " h ago");
    }
    let days = s / 86400;
    if days < 7 {
        return with_suffix(days, " d ago");
    }
    let weeks = days / 7;
    if weeks < 5 {
        return with_suffix(weeks, " w ago");
    }
    date_part_of(ts)
}

/// `ts` with every `T` turned into a space and every `Z` removed.
pub open spec fn normalize_timestamp(ts: Seq<char>) -> Seq<char>
    decreases ts.len(),
{
    if ts.len() == 0 {
        ts
    } else {
        let rest = normalize_timestamp(ts.drop_last());
        let c = ts.last();
        if c == 'T' {
            rest.push(' ')
        } else if c == 'Z' {
            rest
        } else {
            rest.push(c)
        }
    }
}

fn normalize(ts: &str) -> (r: String)
    ensures
        r@ == normalize_timestamp(ts@),
{
    let n = ts.unicode_len();
    let mut r = String::new();
    let mut i: usize = 0;
    while i < n
        invariant
            n == ts@.len(),
            i <= n,
            r@ == normalize_timestamp(ts@.take(i as int)),
        decreases n - i,
    {
        let c = ts.get_char(i);
        let ghost before = r@;
        if c == 'T' {
            proof {
                reveal_strlit(" ");
            }
            r.append(" ");
        } else if c != 'Z' {
            r.append(ts.substring_char(i, i + 1));
        }
        proof {
            assert(ts@.take(i + 1).drop_last() =~= ts@.take(i as int));
            assert(ts@.take(i + 1).last() == c);
            assert(r@ =~= normalize_timestamp(ts@.take(i + 1)));
        }
        i = i + 1;
    }
    assert(ts@.take(n as int) =~= ts@);
    r
}

/// How `ts` parses: with fractional seconds first, then without.
pub open spec fn spec_parse_post_timestamp(ts: Seq<char>) -> Option<(i64, u32)> {
    let d = normalize_timestamp(ts);
    match chrono_naive_parse(d, "%Y-%m-%d %H:%M:%S%.f"@) {
        Some(t) => Some(t),
        None => chrono_naive_parse(d, "%Y-%m-%d %H:%M:%S"@),
    }
}

/// Parse an ISO 8601 timestamp (`T` and `Z` allowed) as UTC.
pub fn parse_post_timestamp(ts: &str) -> (r: Option<(i64, u32)>)
    ensures
        r == spec_parse_post_timestamp(ts@),
{
    let d = normalize(ts);
    match parse_naive_timestamp(d.as_str(), "%Y-%m-%d %H:%M:%S%.f") {
        Some(t) => Some(t),
        None => parse_naive_timestamp(d.as_str(), "%Y-%m-%d %H:%M:%S"),
    }
}

/// Format a timestamp as relative time ("just now", "5 min ago",
/// "2 h ago", "3 d ago", "1 w ago") measured from the current time, or
/// as its date part for older, future or unreadable timestamps. The
/// contract leaves the clock's reading free: it holds for whatever time
/// `chrono::Utc::now` returned; the exact rule for a given time is
/// [`time_ago_from`]'s.
pub fn format_time_ago(timestamp: &str) -> (r: String)
    ensures
        exists|now: (i64, u32)| r@ == spec_time_ago(timestamp@, spec_parse_post_timestamp(timestamp@), now),
{
    let parsed = parse_post_timestamp(timestamp);
    let now = utc_now_timestamp();
    time_ago_from(timestamp, parsed, now)
}

} // verus!
