//! Outcome records ("tracks") and the internal decision rules: reward
//! priority, score comparison, and the recent-history tie-break.

use vstd::prelude::*;
use crate::capped_reward;

verus! {

/// The result of an adjudicated pairing, seen from the registering side.
#[derive(Debug, Clone, Copy, PartialEq, Eq, Structural)]
pub enum TrackResult {
    Win,
    Undecided,
    Lose,
}

/// Provenance of an outcome record.
#[derive(Debug, Clone, Copy, PartialEq, Eq, Structural)]
pub enum TrackType {
    /// Adjudicated by the external oracle without a recognized ally rival.
    External,
    /// Decided locally by score comparison or the history tie-break.
    Internal,
    /// Adjudicated by the external oracle against a cooperating-alliance rival.
    Alliance,
    /// Granted purely by reward-credit consumption.
    Award,
    /// Forced by a penalty debt or by the rival's banked credit.
    Penalty,
    /// A compensating record inverting an earlier internal outcome.
    Reverse,
}

/// Before/after snapshot of both sides' credit balances, attached to a
/// record whenever the resolution was decided locally.
#[derive(Debug, Clone, Copy, PartialEq, Eq, Structural)]
pub struct TrackRewardInfo {
    pub self_history: i64,
    pub rival_history: i64,
    pub self_now: i64,
    pub rival_now: i64,
}

impl TrackRewardInfo {
    /// A snapshot of the balances before resolution; the after-values
    /// start out equal to a zero change.
    pub fn new_history(self_history: i64, rival_history: i64) -> (r: Self)
        ensures
            r.self_history == self_history,
            r.rival_history == rival_history,
            r.self_now == 0,
            r.rival_now == 0,
    {
        TrackRewardInfo { self_history, rival_history, self_now: 0, rival_now: 0 }
    }

    /// Records the balances after resolution as the before-balances plus
    /// the applied credit deltas.
    pub fn set_now(&mut self, self_sub: i64, rival_sub: i64)
        requires
            i64::MIN <= old(self).self_history + self_sub <= i64::MAX,
            i64::MIN <= old(self).rival_history + rival_sub <= i64::MAX,
        ensures
            final(self).self_now == old(self).self_history + self_sub,
            final(self).rival_now == old(self).rival_history + rival_sub,
            final(self).self_history == old(self).self_history,
            final(self).rival_history == old(self).rival_history,
    {
        self.self_now = self.self_history + self_sub;
        self.rival_now = self.rival_history + rival_sub;
    }
}

/// An immutable, append-only decision artifact for one unit pairing in
/// one round. `*_history_point` are the scores before resolution and
/// `*_now_point` the scores after; `reward_info` snapshots both credit
/// balances when the outcome was decided locally.
#[derive(Debug, Clone, PartialEq)]
#[verifier::ext_equal]
pub struct Track {
    pub id: u64,
    pub self_clan_id: u64,
    pub rival_clan_id: u64,
    pub self_history_point: i64,
    pub rival_history_point: i64,
    pub create_time: i64,
    pub self_now_point: i64,
    pub rival_now_point: i64,
    pub round_id: u64,
    pub result: TrackResult,
    pub kind: TrackType,
    pub reward_info: Option<TrackRewardInfo>,
    pub round_code: Option<Vec<u8>>,
    pub self_tag: Option<Vec<u8>>,
    pub self_name: Option<Vec<u8>>,
    pub rival_tag: Option<Vec<u8>>,
    pub rival_name: Option<Vec<u8>>,
}

/// Whether `clan_id` took part in `t`, on either side.
pub open spec fn participates(t: Track, clan_id: u64) -> bool {
    t.self_clan_id == clan_id || t.rival_clan_id == clan_id
}

/// Whether `t` records an actual victory of `clan_id`, regardless of the
/// side it stood on.
pub open spec fn is_win_for(t: Track, clan_id: u64) -> bool {
    ||| (t.result == TrackResult::Win && t.self_clan_id == clan_id)
    ||| (t.result == TrackResult::Lose && t.rival_clan_id == clan_id)
}

/// The number of victories of `clan_id` among its most recent `limit`
/// appearances in `tracks` (later entries are more recent).
pub open spec fn recent_wins(tracks: Seq<Track>, clan_id: u64, limit: int) -> int
    decreases tracks.len(),
{
    if tracks.len() == 0 || limit <= 0 {
        0
    } else {
        let t = tracks.last();
        let rest = tracks.drop_last();
        if participates(t, clan_id) {
            (if is_win_for(t, clan_id) { 1int } else { 0int }) + recent_wins(rest, clan_id, limit - 1)
        } else {
            recent_wins(rest, clan_id, limit)
        }
    }
}

proof fn lemma_recent_wins_bounds(tracks: Seq<Track>, clan_id: u64, limit: int)
    ensures
        0 <= recent_wins(tracks, clan_id, limit),
        recent_wins(tracks, clan_id, limit) <= tracks.len(),
    decreases tracks.len(),
{
    if tracks.len() > 0 && limit > 0 {
        lemma_recent_wins_bounds(tracks.drop_last(), clan_id, limit - 1);
        lemma_recent_wins_bounds(tracks.drop_last(), clan_id, limit);
    }
}

/// Counts victories of `clan_id` among its most recent `limit`
/// appearances in `tracks`, walking backwards from the newest record.
pub fn count_recent_wins(tracks: &Vec<Track>, clan_id: u64, limit: usize) -> (n: u64)
    ensures
        n == recent_wins(tracks@, clan_id, limit as int),
{
    let mut i: usize = tracks.len();
    let mut seen: usize = 0;
    let mut n: u64 = 0;
    proof {
        lemma_recent_wins_bounds(tracks@, clan_id, limit as int);
        assert(tracks@.take(i as int) =~= tracks@);
    }
    while i > 0 && seen < limit
        invariant
            0 <= i <= tracks@.len(),
            tracks@.len() <= usize::MAX,
            seen <= limit,
            n <= tracks@.len() - i,
            n + recent_wins(tracks@.take(i as int), clan_id, limit - seen)
                == recent_wins(tracks@, clan_id, limit as int),
        decreases i,
    {
        let t = &tracks[i - 1];
        proof {
            assert(tracks@.take(i as int).drop_last() =~= tracks@.take(i - 1int));
            assert(tracks@.take(i as int).last() == tracks@[i - 1int]);
        }
        if t.self_clan_id == clan_id || t.rival_clan_id == clan_id {
            let won = match t.result {
                TrackResult::Win => t.self_clan_id == clan_id,
                TrackResult::Lose => t.rival_clan_id == clan_id,
                TrackResult::Undecided => false,
            };
            if won {
                n = n + 1;
            }
            seen = seen + 1;
        }
        i = i - 1;
        if seen == limit {
            proof {
                lemma_recent_wins_bounds(tracks@.take(i as int), clan_id, 0);
            }
        }
    }
    proof {
        if i == 0 {
            assert(tracks@.take(0) =~= Seq::<Track>::empty());
        }
    }
    n
}

/// One locally decided resolution, as deltas against the pre-resolution
/// state: the result and provenance of the record, the score changes, and
/// the credit changes of both sides.
pub ghost struct Decision {
    pub result: TrackResult,
    pub kind: TrackType,
    pub self_score_delta: int,
    pub rival_score_delta: int,
    pub self_reward_delta: int,
    pub rival_reward_delta: int,
}

/// The decision rules for a pairing whose both sides are locally known,
/// evaluated in strict priority order:
///
/// 1. a positive credit of the registering side forces a win and consumes
///    one credit (`Award`);
/// 2. a standing penalty debt of the rival forces a win and clears one
///    unit of that debt (`Award`);
/// 3. a positive credit of the rival forces a loss and consumes one of
///    the rival's credits (`Penalty`);
/// 4. a penalty debt of the registering side forces a loss and clears one
///    unit of its debt (`Penalty`);
/// 5. otherwise the strictly lower score wins, the winner's score falls
///    by one and the loser's rises by one (`Internal`);
/// 6. on a score tie, the side with the fewer recent victories wins,
///    equal counts favouring the registering side (`Internal`).
pub open spec fn internal_decision(
    s_point: int,
    r_point: int,
    s_reward: int,
    r_reward: int,
    s_wins: int,
    r_wins: int,
) -> Decision {
    if s_reward > 0 {
        Decision {
            result: TrackResult::Win,
            kind: TrackType::Award,
            self_score_delta: 0,
            rival_score_delta: 0,
            self_reward_delta: -1,
            rival_reward_delta: 0,
        }
    } else if r_reward < 0 {
        Decision {
            result: TrackResult::Win,
            kind: TrackType::Award,
            self_score_delta: 0,
            rival_score_delta: 0,
            self_reward_delta: 0,
            rival_reward_delta: 1,
        }
    } else if r_reward > 0 {
        Decision {
            result: TrackResult::Lose,
            kind: TrackType::Penalty,
            self_score_delta: 0,
            rival_score_delta: 0,
            self_reward_delta: 0,
            rival_reward_delta: -1,
        }
    } else if s_reward < 0 {
        Decision {
            result: TrackResult::Lose,
            kind: TrackType::Penalty,
            self_score_delta: 0,
            rival_score_delta: 0,
            self_reward_delta: 1,
            rival_reward_delta: 0,
        }
    } else if s_point < r_point {
        Decision {
            result: TrackResult::Win,
            kind: TrackType::Internal,
            self_score_delta: -1,
            rival_score_delta: 1,
            self_reward_delta: 0,
            rival_reward_delta: 0,
        }
    } else if s_point > r_point {
        Decision {
            result: TrackResult::Lose,
            kind: TrackType::Internal,
            self_score_delta: 1,
            rival_score_delta: -1,
            self_reward_delta: 0,
            rival_reward_delta: 0,
        }
    } else if s_wins <= r_wins {
        Decision {
            result: TrackResult::Win,
            kind: TrackType::Internal,
            self_score_delta: -1,
            rival_score_delta: 1,
            self_reward_delta: 0,
            rival_reward_delta: 0,
        }
    } else {
        Decision {
            result: TrackResult::Lose,
            kind: TrackType::Internal,
            self_score_delta: 1,
            rival_score_delta: -1,
            self_reward_delta: 0,
            rival_reward_delta: 0,
        }
    }
}

/// With balanced credits on both sides, equal scores, and equal recent
/// victory counts, the reward stage never fires: the tie-break decides,
/// deterministically granting the win to the registering side.
pub proof fn lemma_balanced_tie_deterministic(
    s_point: int,
    r_point: int,
    s_wins: int,
    r_wins: int,
)
    requires
        s_point == r_point,
        s_wins == r_wins,
    ensures
        internal_decision(s_point, r_point, 0, 0, s_wins, r_wins).kind == TrackType::Internal,
        internal_decision(s_point, r_point, 0, 0, s_wins, r_wins).result == TrackResult::Win,
{
}

/// Locally decided resolutions are zero-sum on scores: the two score
/// deltas cancel, and on the `Internal` path each side moves by exactly
/// one point while the credit balances stay untouched.
pub proof fn lemma_internal_zero_sum(
    s_point: int,
    r_point: int,
    s_reward: int,
    r_reward: int,
    s_wins: int,
    r_wins: int,
)
    ensures
        ({
            let d = internal_decision(s_point, r_point, s_reward, r_reward, s_wins, r_wins);
            &&& d.self_score_delta + d.rival_score_delta == 0
            &&& d.kind == TrackType::Internal ==> {
                &&& (d.self_score_delta == 1 || d.self_score_delta == -1)
                &&& d.self_reward_delta == 0
                &&& d.rival_reward_delta == 0
            }
        }),
{
}

/// Reward-path resolutions never touch the scores: whenever the decision
/// is of kind `Award` or `Penalty`, both score deltas are zero and
/// exactly one credit moves by exactly one unit.
pub proof fn lemma_reward_preserves_scores(
    s_point: int,
    r_point: int,
    s_reward: int,
    r_reward: int,
    s_wins: int,
    r_wins: int,
)
    ensures
        ({
            let d = internal_decision(s_point, r_point, s_reward, r_reward, s_wins, r_wins);
            (d.kind == TrackType::Award || d.kind == TrackType::Penalty) ==> {
                &&& d.self_score_delta == 0
                &&& d.rival_score_delta == 0
                &&& d.self_reward_delta + d.rival_reward_delta == 1
                    || d.self_reward_delta + d.rival_reward_delta == -1
            }
        }),
{
}

/// The credit balance never accrues past the cap: applying any
/// non-negative delta to a balance at or below [`crate::REWARD_CAP`]
/// leaves it at or below the cap, while negative deltas always apply.
pub proof fn lemma_reward_cap(current: int, delta: int)
    ensures
        current <= crate::REWARD_CAP && delta >= 0 ==> capped_reward(current, delta)
            <= crate::REWARD_CAP,
        delta <= 0 ==> capped_reward(current, delta) == current + delta,
{
}

} // verus!

verus! {

/// Whether two optional byte texts hold the same content.
pub open spec fn opt_bytes_like(a: Option<Vec<u8>>, b: Option<Vec<u8>>) -> bool {
    match (a, b) {
        (Option::Some(x), Option::Some(y)) => x@ == y@,
        (Option::None, Option::None) => true,
        _ => false,
    }
}

/// Whether two outcome records carry the same data: equal scalar fields
/// and textual fields of equal content.
pub open spec fn track_like(a: Track, b: Track) -> bool {
    &&& a.id == b.id
    &&& a.self_clan_id == b.self_clan_id
    &&& a.rival_clan_id == b.rival_clan_id
    &&& a.self_history_point == b.self_history_point
    &&& a.rival_history_point == b.rival_history_point
    &&& a.create_time == b.create_time
    &&& a.self_now_point == b.self_now_point
    &&& a.rival_now_point == b.rival_now_point
    &&& a.round_id == b.round_id
    &&& a.result == b.result
    &&& a.kind == b.kind
    &&& a.reward_info == b.reward_info
    &&& opt_bytes_like(a.round_code, b.round_code)
    &&& opt_bytes_like(a.self_tag, b.self_tag)
    &&& opt_bytes_like(a.self_name, b.self_name)
    &&& opt_bytes_like(a.rival_tag, b.rival_tag)
    &&& opt_bytes_like(a.rival_name, b.rival_name)
}

/// Copies an outcome record.
pub fn track_copy(t: &Track) -> (r: Track)
    ensures
        track_like(r, *t),
{
    Track {
        id: t.id,
        self_clan_id: t.self_clan_id,
        rival_clan_id: t.rival_clan_id,
        self_history_point: t.self_history_point,
        rival_history_point: t.rival_history_point,
        create_time: t.create_time,
        self_now_point: t.self_now_point,
        rival_now_point: t.rival_now_point,
        round_id: t.round_id,
        result: t.result,
        kind: t.kind,
        reward_info: t.reward_info,
        round_code: crate::clan::opt_bytes_clone(&t.round_code),
        self_tag: crate::clan::opt_bytes_clone(&t.self_tag),
        self_name: crate::clan::opt_bytes_clone(&t.self_name),
        rival_tag: crate::clan::opt_bytes_clone(&t.rival_tag),
        rival_name: crate::clan::opt_bytes_clone(&t.rival_name),
    }
}

} // verus!
