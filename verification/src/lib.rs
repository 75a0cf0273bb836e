//! Outcome-resolution and point-ledger engine for recurring head-to-head
//! matches between organizational units ("clans") across periodic
//! competition cycles ("rounds").
//!
//! The crate decides win/lose outcomes, applies score deltas, manages a
//! secondary reward/penalty credit currency, breaks ties with recent match
//! history, guards against duplicate registration, and supports reversing
//! previously recorded internal results. All storage is modelled as an
//! in-memory repository; callers sync it with their own persistence and
//! perform the external service calls, handing the replies in as plain
//! values.

use vstd::prelude::*;

pub mod auth;
pub mod clan;
pub mod clan_point;
pub mod config;
pub mod game_api;
pub mod middle;
pub mod middle_round;
pub mod middle_track;
pub mod round;
pub mod store;
pub mod track;

pub use auth::VoidToken;
pub use clan::Clan;
pub use clan_point::ClanPoint;
pub use clan_point::RewardType;
pub use config::Config;
pub use config::ConfigApi;
pub use config::ConfigDatabase;
pub use config::ConfigServer;
pub use middle::MiddleApi;
pub use middle_round::MiddleRoundApi;
pub use middle_track::MiddleTrackApi;
pub use middle_track::MiddleTrackApiDetails;
pub use round::Round;
pub use round::RoundTime;
pub use store::Store;
pub use track::Track;
pub use track::TrackResult;
pub use track::TrackRewardInfo;
pub use track::TrackType;

verus! {

/// Cap on positive reward-credit accrual: further accrual past this
/// balance is silently dropped, while consumption is always applied.
pub const REWARD_CAP: i64 = 5;

/// The reward balance after applying `delta` to `current` under the cap
/// rule: a positive delta that would push the balance past the cap is
/// dropped entirely; negative deltas always apply.
pub open spec fn capped_reward(current: int, delta: int) -> int {
    if delta > 0 && current + delta > REWARD_CAP {
        current
    } else {
        current + delta
    }
}

} // verus!
