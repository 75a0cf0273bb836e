//! The middle service's round synchronization report and the rule that
//! decides whether a new round must be created from it.

use vstd::prelude::*;

verus! {

/// The round times the middle service reports: the current period and
/// the future one, each with its start text.
#[derive(Debug, Clone, PartialEq, Eq)]
pub struct MiddleRoundApi {
    pub current_round: String,
    pub current_round_sync_time: String,
    pub future_round: String,
    pub future_round_sync_time: String,
}

impl MiddleRoundApi {
    /// Whether the report announces a period beyond the current one,
    /// so that a round should be created from the future start time.
    pub fn has_new_round(&self) -> (r: bool)
        ensures
            r == (self.current_round@ != self.future_round@),
    {
        !(self.current_round == self.future_round)
    }
}

} // verus!
