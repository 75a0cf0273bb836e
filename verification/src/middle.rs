//! The oracle reply: the authoritative adjudication handed back by the
//! external service when one side of a pairing is not locally known, and
//! the rules that read a result out of it.

use vstd::prelude::*;
use crate::clan::bytes_eq;
use crate::clan::canon_tag;
use crate::clan::canon_tag_spec;
use crate::clan::opt_bytes_clone;
use crate::track::TrackResult;
use crate::track::TrackType;

verus! {

/// A reply of the external oracle service. `my_tag` echoes the queried
/// side (possibly swapped when the oracle inverted the pairing),
/// `win_tag` names the winning side, and `err` marks a reply in which
/// the oracle itself could not determine a result.
#[derive(Debug, Clone, PartialEq)]
#[verifier::ext_equal]
pub struct MiddleApi {
    pub my_tag: Vec<u8>,
    pub my_name: Option<Vec<u8>>,
    pub opp_tag: Vec<u8>,
    pub opp_name: Option<Vec<u8>>,
    pub match_type: Option<Vec<u8>>,
    pub win_tag: Vec<u8>,
    pub win_name: Option<Vec<u8>>,
    pub explain_ch: Option<Vec<u8>>,
    pub explain_en: Option<Vec<u8>>,
    pub email: Option<Vec<u8>>,
    pub match_strategy: Option<Vec<u8>>,
    pub round_score: i64,
    pub err: bool,
}

/// The rival identity read from an oracle reply, resolved against the
/// registering side's tag.
#[derive(Debug, Clone, PartialEq)]
pub struct OracleSides {
    pub rival_tag: Vec<u8>,
    pub rival_name: Option<Vec<u8>>,
    pub self_name: Option<Vec<u8>>,
}

/// Whether the reply's echoed `my_tag` names the registering side
/// itself (the oracle may have swapped the pairing).
pub open spec fn echoes_self(api: MiddleApi, self_tag: Seq<u8>) -> bool {
    canon_tag_spec(api.my_tag@) == canon_tag_spec(self_tag)
}

/// The canonical rival tag of a reply: the echoed opponent when the
/// reply speaks from the registering side, else the echoed `my_tag`.
pub open spec fn rival_tag_spec(api: MiddleApi, self_tag: Seq<u8>) -> Seq<u8> {
    if echoes_self(api, self_tag) {
        canon_tag_spec(api.opp_tag@)
    } else {
        canon_tag_spec(api.my_tag@)
    }
}

pub open spec fn rival_name_spec(api: MiddleApi, self_tag: Seq<u8>) -> Option<Vec<u8>> {
    if echoes_self(api, self_tag) {
        api.opp_name
    } else {
        api.my_name
    }
}

pub open spec fn self_name_spec(api: MiddleApi, self_tag: Seq<u8>) -> Option<Vec<u8>> {
    if echoes_self(api, self_tag) {
        api.my_name
    } else {
        api.opp_name
    }
}

/// The result the oracle's reply assigns to the registering side: a
/// loss when the named winner is the rival, undecided when the oracle
/// could not determine a result, else a win.
pub open spec fn oracle_result(win_tag: Seq<u8>, rival_tag: Seq<u8>, err: bool) -> TrackResult {
    if win_tag == rival_tag {
        TrackResult::Lose
    } else if err {
        TrackResult::Undecided
    } else {
        TrackResult::Win
    }
}

/// The provenance an oracle-adjudicated record carries: `External` only
/// when the oracle could not decide, else a recognized alliance pairing.
pub open spec fn oracle_kind(win_tag: Seq<u8>, rival_tag: Seq<u8>, err: bool) -> TrackType {
    if win_tag == rival_tag {
        TrackType::Alliance
    } else if err {
        TrackType::External
    } else {
        TrackType::Alliance
    }
}

pub open spec fn opt_bytes_view(o: Option<Vec<u8>>) -> Option<Seq<u8>> {
    match o {
        Some(v) => Some(v@),
        None => None,
    }
}

impl MiddleApi {
    /// Resolves which echoed side is the rival of `self_tag`, returning
    /// its canonical tag together with both display names.
    pub fn rival_of(&self, self_tag: &Vec<u8>) -> (r: OracleSides)
        ensures
            r.rival_tag@ == rival_tag_spec(*self, self_tag@),
            opt_bytes_view(r.rival_name) == opt_bytes_view(rival_name_spec(*self, self_tag@)),
            opt_bytes_view(r.self_name) == opt_bytes_view(self_name_spec(*self, self_tag@)),
    {
        let my = canon_tag(&self.my_tag);
        let own = canon_tag(self_tag);
        if bytes_eq(&my, &own) {
            OracleSides {
                rival_tag: canon_tag(&self.opp_tag),
                rival_name: opt_bytes_clone(&self.opp_name),
                self_name: opt_bytes_clone(&self.my_name),
            }
        } else {
            OracleSides {
                rival_tag: my,
                rival_name: opt_bytes_clone(&self.my_name),
                self_name: opt_bytes_clone(&self.opp_name),
            }
        }
    }

    /// Reads the registering side's result and the record's provenance
    /// out of the reply, given the canonical rival tag.
    pub fn decide(&self, rival_tag: &Vec<u8>) -> (r: (TrackResult, TrackType))
        ensures
            r.0 == oracle_result(canon_tag_spec(self.win_tag@), rival_tag@, self.err),
            r.1 == oracle_kind(canon_tag_spec(self.win_tag@), rival_tag@, self.err),
    {
        let win = canon_tag(&self.win_tag);
        if bytes_eq(&win, rival_tag) {
            (TrackResult::Lose, TrackType::Alliance)
        } else if self.err {
            (TrackResult::Undecided, TrackType::External)
        } else {
            (TrackResult::Win, TrackType::Alliance)
        }
    }
}

} // verus!
