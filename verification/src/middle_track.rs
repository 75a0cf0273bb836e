//! The cached score report of the middle service: the shape served to
//! callers, the stored cache row, the conversions between them, and the
//! staleness rule of the cache.

use vstd::prelude::*;

verus! {

/// A cache row becomes stale this many seconds after its last update.
pub const CACHE_FRESH_SECONDS: i64 = 3600;

/// One reported round of the middle service's score report.
#[derive(Debug, Clone, PartialEq, Eq)]
pub struct MiddleTrackApiDetails {
    pub bz_round: i64,
    pub round_point: i64,
    pub round_result: String,
    pub clan_tag: String,
    pub opp_clan_tag: String,
    pub explain: String,
}

/// The middle service's score report for one unit, as served to
/// callers.
#[derive(Debug, Clone, PartialEq, Eq)]
pub struct MiddleTrackApi {
    pub server: String,
    pub bz_total_score: i64,
    pub public_total_score: i64,
    pub details: Vec<MiddleTrackApiDetails>,
    pub summary: Vec<String>,
    pub tag: String,
}

/// A stored cache row of the score report.
#[derive(Debug, Clone, PartialEq, Eq)]
pub struct Track {
    pub id: u64,
    pub server: String,
    pub bz_total_score: i64,
    pub public_total_score: i64,
    pub details: Vec<MiddleTrackApiDetails>,
    pub summary: Vec<String>,
    pub create_time: i64,
    pub update_time: i64,
    pub tag: String,
}

/// Whether a cache row last updated at `update_time` must be refreshed
/// at wall-clock time `now`.
pub fn cache_is_stale(update_time: i64, now: i64) -> (r: bool)
    ensures
        r == (now - update_time > CACHE_FRESH_SECONDS),
{
    (now as i128) - (update_time as i128) > CACHE_FRESH_SECONDS as i128
}

impl Track {
    /// The report a cache row answers with.
    pub fn self_to_api(self) -> (r: MiddleTrackApi)
        ensures
            r.server == self.server,
            r.bz_total_score == self.bz_total_score,
            r.public_total_score == self.public_total_score,
            r.details == self.details,
            r.summary == self.summary,
            r.tag == self.tag,
    {
        MiddleTrackApi {
            server: self.server,
            bz_total_score: self.bz_total_score,
            public_total_score: self.public_total_score,
            details: self.details,
            summary: self.summary,
            tag: self.tag,
        }
    }
}

impl MiddleTrackApi {
    /// The cache row a fresh report is stored as; the row id and the
    /// stamps are assigned by storage.
    pub fn self_to_database(self) -> (r: Track)
        ensures
            r.id == 0,
            r.server == self.server,
            r.bz_total_score == self.bz_total_score,
            r.public_total_score == self.public_total_score,
            r.details == self.details,
            r.summary == self.summary,
            r.create_time == 0,
            r.update_time == 0,
            r.tag == self.tag,
    {
        Track {
            id: 0,
            server: self.server,
            bz_total_score: self.bz_total_score,
            public_total_score: self.public_total_score,
            details: self.details,
            summary: self.summary,
            create_time: 0,
            update_time: 0,
            tag: self.tag,
        }
    }
}

} // verus!
