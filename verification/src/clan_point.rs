//! Per-unit point ledger entries: a running score and a reward/penalty
//! credit balance, mutated only through atomic delta application.

use vstd::prelude::*;
use crate::capped_reward;
use crate::REWARD_CAP;

verus! {

/// A unit's ledger entry. `point` is the running score; `reward_point` is
/// the banked reward credit, negative values being a standing penalty debt.
#[derive(Debug, Clone, Copy, PartialEq, Eq, Structural)]
pub struct ClanPoint {
    pub clan_id: u64,
    pub point: i64,
    pub reward_point: i64,
    pub create_time: i64,
    pub update_time: i64,
    pub status: Option<i16>,
}

impl ClanPoint {
    /// A fresh entry for `clan_id` with the given starting score, no
    /// banked credit, and active status.
    pub fn new(clan_id: u64, point: i64) -> (r: Self)
        ensures
            r.clan_id == clan_id,
            r.point == point,
            r.reward_point == 0,
            r.create_time == 0,
            r.update_time == 0,
            r.status == Some(1i16),
    {
        ClanPoint {
            clan_id,
            point,
            reward_point: 0,
            create_time: 0,
            update_time: 0,
            status: Some(1),
        }
    }

    /// Adds `add` to the running score and stamps the update time.
    pub fn update_point(&mut self, add: i64, now: i64)
        requires
            i64::MIN <= old(self).point + add <= i64::MAX,
        ensures
            final(self).point == old(self).point + add,
            final(self).update_time == now,
            final(self).clan_id == old(self).clan_id,
            final(self).reward_point == old(self).reward_point,
            final(self).create_time == old(self).create_time,
            final(self).status == old(self).status,
    {
        self.point = self.point + add;
        self.update_time = now;
    }

    /// Adds `reward_add` to the credit balance under the accrual cap:
    /// a positive delta that would push the balance past [`REWARD_CAP`]
    /// is dropped entirely, while consumption and penalties (negative
    /// deltas) are always applied.
    pub fn update_reward_point(&mut self, reward_add: i64, now: i64)
        requires
            i64::MIN <= old(self).reward_point + reward_add <= i64::MAX,
        ensures
            final(self).reward_point == capped_reward(
                old(self).reward_point as int,
                reward_add as int,
            ),
            final(self).update_time == now,
            final(self).clan_id == old(self).clan_id,
            final(self).point == old(self).point,
            final(self).create_time == old(self).create_time,
            final(self).status == old(self).status,
    {
        if !(reward_add > 0 && self.reward_point > REWARD_CAP - reward_add) {
            self.reward_point = self.reward_point + reward_add;
        }
        self.update_time = now;
    }
}

} // verus!

verus! {

/// The administrative reward and penalty grants, each carrying the
/// credit delta it applies to a unit's balance.
#[derive(Debug, Clone, Copy, PartialEq, Eq, Structural)]
pub enum RewardType {
    /// Compensation for a match against an outside opponent.
    HitExternal,
    /// Consolation for a string of bad luck.
    FaceBlack,
    /// A one-credit sanction.
    Penalty,
    /// A two-credit sanction.
    Penalty2,
    /// A three-credit sanction.
    Penalty3,
}

/// The credit delta an administrative grant applies: rewards bank one
/// credit, sanctions debit one to three.
pub open spec fn reward_credit_delta(t: RewardType) -> int {
    match t {
        RewardType::HitExternal => 1,
        RewardType::FaceBlack => 1,
        RewardType::Penalty => -1,
        RewardType::Penalty2 => -2,
        RewardType::Penalty3 => -3,
    }
}

impl RewardType {
    /// The credit delta this grant applies.
    pub fn credit_delta(&self) -> (d: i64)
        ensures
            d == reward_credit_delta(*self),
    {
        match self {
            RewardType::HitExternal => 1,
            RewardType::FaceBlack => 1,
            RewardType::Penalty => -1,
            RewardType::Penalty2 => -2,
            RewardType::Penalty3 => -3,
        }
    }

    /// Whether this grant is the one-credit sanction.
    pub fn is_reward_penalty(&self) -> (b: bool)
        ensures
            b == (*self is Penalty),
    {
        match self {
            RewardType::Penalty => true,
            _ => false,
        }
    }
}

} // verus!
