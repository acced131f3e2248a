//! Advertisement types for the My Ads page.
use vstd::prelude::*;
use crate::text::{lex_lt, text_lt};

verus! {

/// Advertisement type.
#[derive(Debug, Clone, Copy, PartialEq, Eq, Structural)]
pub enum AdvertisementType {
    Pinned,
    Basic,
}

impl AdvertisementType {
    /// The GraphQL name of the type.
    pub fn as_str(&self) -> (r: &'static str)
        ensures
            r@ == match *self {
                AdvertisementType::Pinned => "PINNED"@,
                AdvertisementType::Basic => "BASIC"@,
            },
    {
        match self {
            AdvertisementType::Pinned => "PINNED",
            AdvertisementType::Basic => "BASIC",
        }
    }
}

/// Sort order for advertisement history.
#[derive(Debug, Clone, Copy, PartialEq, Eq, Structural)]
pub enum AdvertisementSort {
    Newest,
    Oldest,
    BiggestCost,
    SmallestCost,
}

impl AdvertisementSort {
    /// The GraphQL name of the sort order.
    pub fn as_str(&self) -> (r: &'static str)
        ensures
            r@ == match *self {
                AdvertisementSort::Newest => "NEWEST"@,
                AdvertisementSort::Oldest => "OLDEST"@,
                AdvertisementSort::BiggestCost => "BIGGEST_COST"@,
                AdvertisementSort::SmallestCost => "SMALLEST_COST"@,
            },
    {
        match self {
            AdvertisementSort::Newest => "NEWEST",
            AdvertisementSort::Oldest => "OLDEST",
            AdvertisementSort::BiggestCost => "BIGGEST_COST",
            AdvertisementSort::SmallestCost => "SMALLEST_COST",
        }
    }
}

/// `chrono::Utc::now().to_rfc3339()`: the current UTC time in RFC 3339
/// form. Nothing is stated of the result: it is the clock's reading.
#[verifier::external_body]
fn utc_now_rfc3339() -> String {
    chrono::Utc::now().to_rfc3339()
}

/// Whether an advertisement whose timeframe ends at `timeframe_end` is
/// still running at `now`: both are ISO 8601 strings, compared as text.
pub fn ends_after(timeframe_end: &str, now: &str) -> (r: bool)
    ensures
        r == lex_lt(now@, timeframe_end@),
{
    text_lt(now, timeframe_end)
}

/// Whether an advertisement ending at `timeframe_end` is active now: the
/// end is compared, by [`ends_after`], with the clock's current time. The
/// contract leaves the clock's reading free: it holds for whatever time
/// `chrono::Utc::now` returned.
pub fn advertisement_is_active(timeframe_end: &str) -> (r: bool)
    ensures
        exists|now: Seq<char>| r == lex_lt(now, timeframe_end@),
{
    let now = utc_now_rfc3339();
    let r = ends_after(timeframe_end, now.as_str());
    assert(r == lex_lt(now@, timeframe_end@));
    r
}

} // verus!
