//! How a transaction's timestamp is displayed.
use vstd::prelude::*;
use crate::components::validation::is_first_index;

verus! {

/// `chrono::DateTime::parse_from_rfc3339(s)` rendered by `format(out)`
/// (in the timestamp's own offset); `None` when `s` is not RFC 3339.
pub uninterp spec fn chrono_rfc3339_display(s: Seq<char>, out: Seq<char>) -> Option<Seq<char>>;

/// `chrono::NaiveDateTime::parse_from_str(s, fmt)` rendered by
/// `format(out)`; `None` when `s` does not match `fmt`.
pub uninterp spec fn chrono_naive_display(s: Seq<char>, fmt: Seq<char>, out: Seq<char>) -> Option<
    Seq<char>,
>;

/// The pattern a transaction's date is shown with: `10 Jun 2025, 04:20`.
pub open spec fn date_display_pattern() -> Seq<char> {
    "%d %b %Y, %H:%M"@
}

/// `chrono::DateTime::parse_from_rfc3339`, the parsed time rendered by
/// `format(out)`. The result is a function of `s` and `out`. Rendering
/// panics on a pattern chrono cannot read, so `out` is held to the one
/// pattern this library uses, which chrono reads.
#[verifier::external_body]
fn rfc3339_display(s: &str, out: &str) -> (r: Option<String>)
    requires
        out@ == date_display_pattern(),
    ensures
        match r {
            Some(t) => chrono_rfc3339_display(s@, out@) == Some(t@),
            None => chrono_rfc3339_display(s@, out@) is None,
        },
{
    match chrono::DateTime::parse_from_rfc3339(s) {
        Ok(dt) => Some(dt.format(out).to_string()),
        Err(_) => None,
    }
}

/// `chrono::NaiveDateTime::parse_from_str(s, fmt)`, the parsed time
/// rendered by `format(out)`. The result is a function of `s`, `fmt` and
/// `out`. Parsing never panics; rendering panics on a pattern chrono
/// cannot read, so `out` is held to the one pattern this library uses.
#[verifier::external_body]
fn naive_display(s: &str, fmt: &str, out: &str) -> (r: Option<String>)
    requires
        out@ == date_display_pattern(),
    ensures
        match r {
            Some(t) => chrono_naive_display(s@, fmt@, out@) == Some(t@),
            None => chrono_naive_display(s@, fmt@, out@) is None,
        },
{
    match chrono::NaiveDateTime::parse_from_str(s, fmt) {
        Ok(dt) => Some(dt.format(out).to_string()),
        Err(_) => None,
    }
}

/// The text before the first `T`, or all of `s` when it has none.
pub open spec fn before_first_t(s: Seq<char>) -> Seq<char> {
    if exists|i: int| is_first_index(s, 'T', i) {
        s.take(choose|i: int| is_first_index(s, 'T', i))
    } else {
        s
    }
}

/// The displayed date of `ts`: its RFC 3339 reading, else its naive
/// reading, else the part before the first `T`.
pub open spec fn spec_format_date(ts: Seq<char>) -> Seq<char> {
    match chrono_rfc3339_display(ts, date_display_pattern()) {
        Some(d) => d,
        None => match chrono_naive_display(ts, "%Y-%m-%dT%H:%M:%S%.f"@, date_display_pattern()) {
            Some(d) => d,
            None => before_first_t(ts),
        },
    }
}

/// Format a timestamp as `10 Jun 2025, 04:20`, falling back to its date
/// part.
pub fn format_date(timestamp: &str) -> (r: String)
    ensures
        r@ == spec_format_date(timestamp@),
{
    let pattern = "%d %b %Y, %H:%M";
    if let Some(d) = rfc3339_display(timestamp, pattern) {
        return d;
    }
    if let Some(d) = naive_display(timestamp, "%Y-%m-%dT%H:%M:%S%.f", pattern) {
        return d;
    }
    let n = timestamp.unicode_len();
    let mut i: usize = 0;
    while i < n
        invariant
            n == timestamp@.len(),
            i <= n,
            chrono_rfc3339_display(timestamp@, date_display_pattern()) is None,
            chrono_naive_display(timestamp@, "%Y-%m-%dT%H:%M:%S%.f"@, date_display_pattern())
                is None,
            forall|k: int| 0 <= k < i ==> timestamp@[k] != 'T',
        decreases n - i,
    {
        if timestamp.get_char(i) == 'T' {
            proof {
                assert(is_first_index(timestamp@, 'T', i as int));
                assert forall|j: int| is_first_index(timestamp@, 'T', j) implies j == i by {
                    if j < i {
                        assert(timestamp@[j] != 'T');
                    }
                    if i < j {
                        assert(timestamp@[i as int] == 'T');
                    }
                }
            }
            let p = timestamp.substring_char(0, i);
            assert(p@ =~= timestamp@.take(i as int));
            return p.to_owned();
        }
        i = i + 1;
    }
    assert(!exists|j: int| is_first_index(timestamp@, 'T', j));
    timestamp.to_owned()
}

} // verus!
