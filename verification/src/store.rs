//! The in-memory repository of rounds, units, ledger entries and outcome
//! records, together with the operations the engine exposes: ledger
//! reads and atomic deltas, round creation, outcome registration, and
//! reversal.

use vstd::prelude::*;
use crate::clan::Clan;
use crate::clan_point::ClanPoint;
use crate::round::Round;
use crate::track::participates;
use crate::track::Track;

verus! {

/// No two units share an id, and no two share the same identity triple
/// of tag, status and globality.
pub open spec fn clans_distinct(clans: Seq<Clan>) -> bool {
    forall|i: int, j: int|
        #![trigger clans[i], clans[j]]
        0 <= i < clans.len() && 0 <= j < clans.len() && i != j ==> clans[i].id != clans[j].id && !(
        clans[i].tag@ == clans[j].tag@ && clans[i].status == clans[j].status
            && clans[i].is_global == clans[j].is_global)
}

/// Ledger entries are keyed by unit: no two entries share a unit id.
pub open spec fn points_distinct(points: Seq<ClanPoint>) -> bool {
    forall|i: int, j: int|
        #![trigger points[i], points[j]]
        0 <= i < points.len() && 0 <= j < points.len() && i != j ==> points[i].clan_id
            != points[j].clan_id
}

/// Outcome records carry unique ids.
pub open spec fn tracks_distinct(tracks: Seq<Track>) -> bool {
    forall|i: int, j: int|
        #![trigger tracks[i], tracks[j]]
        0 <= i < tracks.len() && 0 <= j < tracks.len() && i != j ==> tracks[i].id != tracks[j].id
}

/// The ledger entry of `clan_id`, if any.
pub open spec fn point_in(points: Seq<ClanPoint>, clan_id: u64) -> Option<ClanPoint> {
    if exists|i: int| 0 <= i < points.len() && points[i].clan_id == clan_id {
        Some(
            points[choose|i: int| 0 <= i < points.len() && points[i].clan_id == clan_id],
        )
    } else {
        None
    }
}

/// The outcome record with id `id`, if any.
pub open spec fn track_in(tracks: Seq<Track>, id: u64) -> Option<Track> {
    if exists|i: int| 0 <= i < tracks.len() && tracks[i].id == id {
        Some(tracks[choose|i: int| 0 <= i < tracks.len() && tracks[i].id == id])
    } else {
        None
    }
}

/// Whether `c` is the unit filed under `tag` with the given status in
/// the given dataset.
pub open spec fn clan_matches(c: Clan, tag: Seq<u8>, status: i16, is_global: bool) -> bool {
    c.tag@ == tag && c.status == status && c.is_global == is_global
}

/// The unit filed under the identity triple, if any.
pub open spec fn clan_in(clans: Seq<Clan>, tag: Seq<u8>, status: i16, is_global: bool) -> Option<
    Clan,
> {
    if exists|i: int| 0 <= i < clans.len() && clan_matches(clans[i], tag, status, is_global) {
        Some(
            clans[choose|i: int|
                0 <= i < clans.len() && clan_matches(clans[i], tag, status, is_global)],
        )
    } else {
        None
    }
}

/// The earliest stored record of round `round_id` in which `clan_id`
/// took part, on either side.
pub open spec fn first_registered(tracks: Seq<Track>, clan_id: u64, round_id: u64) -> Option<
    Track,
>
    decreases tracks.len(),
{
    if tracks.len() == 0 {
        None
    } else if participates(tracks[0], clan_id) && tracks[0].round_id == round_id {
        Some(tracks[0])
    } else {
        first_registered(tracks.drop_first(), clan_id, round_id)
    }
}

/// Appending a record leaves every earlier registration lookup intact;
/// a unit not registered before is registered afterwards exactly when
/// the new record names it in that round.
pub proof fn lemma_first_registered_push(tracks: Seq<Track>, t: Track, clan_id: u64, round_id: u64)
    ensures
        first_registered(tracks.push(t), clan_id, round_id) == (
        if first_registered(tracks, clan_id, round_id) is Some {
            first_registered(tracks, clan_id, round_id)
        } else if participates(t, clan_id) && t.round_id == round_id {
            Some(t)
        } else {
            None
        }),
    decreases tracks.len(),
{
    if tracks.len() == 0 {
        assert(tracks.push(t)[0] == t);
        assert(tracks.push(t).drop_first() =~= Seq::<Track>::empty());
    } else {
        assert(tracks.push(t)[0] == tracks[0]);
        assert(tracks.push(t).drop_first() =~= tracks.drop_first().push(t));
        lemma_first_registered_push(tracks.drop_first(), t, clan_id, round_id);
    }
}

proof fn lemma_point_in_update(points: Seq<ClanPoint>, idx: int, p: ClanPoint)
    requires
        points_distinct(points),
        0 <= idx < points.len(),
        p.clan_id == points[idx].clan_id,
    ensures
        points_distinct(points.update(idx, p)),
        point_in(points.update(idx, p), p.clan_id) == Some(p),
        forall|c: u64|
            c != p.clan_id ==> point_in(points.update(idx, p), c) == point_in(points, c),
{
    let s2 = points.update(idx, p);
    assert(point_in(s2, p.clan_id) == Some(p)) by {
        assert(s2[idx].clan_id == p.clan_id);
        let k = choose|i: int| 0 <= i < s2.len() && s2[i].clan_id == p.clan_id;
        if k != idx {
            assert(points[k].clan_id == p.clan_id == points[idx].clan_id);
            assert(false);
        }
    }
    assert forall|c: u64| c != p.clan_id implies point_in(s2, c) == point_in(points, c) by {
        if exists|i: int| 0 <= i < s2.len() && s2[i].clan_id == c {
            let k2 = choose|i: int| 0 <= i < s2.len() && s2[i].clan_id == c;
            assert(k2 != idx);
            assert(points[k2].clan_id == c);
            let k1 = choose|i: int| 0 <= i < points.len() && points[i].clan_id == c;
            assert(k1 != idx);
            if k1 != k2 {
                assert(false);
            }
            assert(s2[k2] == points[k1]);
        } else {
            if exists|i: int| 0 <= i < points.len() && points[i].clan_id == c {
                let k1 = choose|i: int| 0 <= i < points.len() && points[i].clan_id == c;
                assert(k1 != idx);
                assert(s2[k1].clan_id == c);
                assert(false);
            }
        }
    }
}

proof fn lemma_point_in_push(points: Seq<ClanPoint>, q: ClanPoint)
    requires
        points_distinct(points),
        point_in(points, q.clan_id) is None,
    ensures
        points_distinct(points.push(q)),
        point_in(points.push(q), q.clan_id) == Some(q),
        forall|c: u64| c != q.clan_id ==> point_in(points.push(q), c) == point_in(points, c),
{
    let s2 = points.push(q);
    let n = points.len() as int;
    assert(s2[n] == q);
    assert(forall|i: int| 0 <= i < n ==> s2[i] == points[i]);
    assert(points_distinct(s2)) by {
        assert forall|i: int, j: int|
            0 <= i < s2.len() && 0 <= j < s2.len() && i != j implies #[trigger] s2[i].clan_id
            != #[trigger] s2[j].clan_id by {
            if i < n && j < n {
                assert(points[i].clan_id != points[j].clan_id);
            } else if i == n {
                assert(s2[j].clan_id != q.clan_id);
            } else {
                assert(s2[i].clan_id != q.clan_id);
            }
        }
    }
    assert(point_in(s2, q.clan_id) == Some(q)) by {
        let k = choose|i: int| 0 <= i < s2.len() && s2[i].clan_id == q.clan_id;
        if k != n {
            assert(points[k].clan_id == q.clan_id);
            assert(false);
        }
    }
    assert forall|c: u64| c != q.clan_id implies point_in(s2, c) == point_in(points, c) by {
        if exists|i: int| 0 <= i < s2.len() && s2[i].clan_id == c {
            let k2 = choose|i: int| 0 <= i < s2.len() && s2[i].clan_id == c;
            assert(k2 != n);
            let k1 = choose|i: int| 0 <= i < points.len() && points[i].clan_id == c;
            if k1 != k2 {
                assert(false);
            }
        } else {
            if exists|i: int| 0 <= i < points.len() && points[i].clan_id == c {
                let k1 = choose|i: int| 0 <= i < points.len() && points[i].clan_id == c;
                assert(s2[k1].clan_id == c);
                assert(false);
            }
        }
    }
}

/// The repository the engine runs against: rounds ordered by creation,
/// units, per-unit ledger entries, and the append-only record log.
/// `next_id` feeds fresh ids; `alliance_series_id` is the grouping that
/// recognized alliance rivals are filed under.
#[derive(Debug, Clone, PartialEq)]
pub struct Store {
    pub rounds: Vec<Round>,
    pub clans: Vec<Clan>,
    pub points: Vec<ClanPoint>,
    pub tracks: Vec<Track>,
    pub next_id: u64,
    pub alliance_series_id: Option<u64>,
}

impl Store {
    /// Structural soundness of the repository: unique identities,
    /// fresh-id headroom, no nil unit references in keyed rows, and
    /// rounds ordered by creation time (the last one is the latest).
    pub open spec fn wf(self) -> bool {
        &&& self.next_id >= 1
        &&& clans_distinct(self.clans@)
        &&& points_distinct(self.points@)
        &&& tracks_distinct(self.tracks@)
        &&& forall|i: int|
            0 <= i < self.clans@.len() ==> 0 < #[trigger] self.clans@[i].id < self.next_id
        &&& forall|i: int| 0 <= i < self.tracks@.len() ==> #[trigger] self.tracks@[i].id < self.next_id
        &&& forall|i: int| 0 <= i < self.rounds@.len() ==> #[trigger] self.rounds@[i].id < self.next_id
        &&& forall|i: int| 0 <= i < self.points@.len() ==> #[trigger] self.points@[i].clan_id != 0
        &&& forall|i: int, j: int|
            #![trigger self.rounds@[i], self.rounds@[j]]
            0 <= i < j < self.rounds@.len() ==> self.rounds@[i].create_time
                <= self.rounds@[j].create_time
    }

    /// Every ledger balance keeps enough headroom for one resolution or
    /// reversal (score moves of at most two, credit moves of one).
    pub open spec fn ledgers_bounded(self) -> bool {
        forall|i: int|
            0 <= i < self.points@.len() ==> {
                &&& i64::MIN + 2 <= (#[trigger] self.points@[i]).point <= i64::MAX - 2
                &&& i64::MIN + 2 <= self.points@[i].reward_point <= i64::MAX - 2
            }
    }

    /// Every stored record's before-scores keep enough headroom for the
    /// one-point move a reversal writes into the compensating record.
    pub open spec fn records_bounded(self) -> bool {
        forall|i: int|
            0 <= i < self.tracks@.len() ==> {
                &&& i64::MIN + 2 <= (#[trigger] self.tracks@[i]).self_history_point <= i64::MAX - 2
                &&& i64::MIN + 2 <= self.tracks@[i].rival_history_point <= i64::MAX - 2
            }
    }

    /// The latest round: the one created last.
    pub open spec fn spec_latest(self) -> Option<Round> {
        if self.rounds@.len() == 0 {
            None
        } else {
            Some(self.rounds@.last())
        }
    }

    /// An empty repository. `alliance_series_id` is the grouping id that
    /// recognized alliance rivals will be filed under.
    pub fn new(alliance_series_id: Option<u64>) -> (r: Store)
        ensures
            r.wf(),
            r.ledgers_bounded(),
            r.rounds@.len() == 0,
            r.clans@.len() == 0,
            r.points@.len() == 0,
            r.tracks@.len() == 0,
            r.next_id == 1,
            r.alliance_series_id == alliance_series_id,
    {
        Store {
            rounds: Vec::new(),
            clans: Vec::new(),
            points: Vec::new(),
            tracks: Vec::new(),
            next_id: 1,
            alliance_series_id,
        }
    }

    /// The latest round, or `None` when none was created yet.
    pub fn latest_round(&self) -> (r: Option<&Round>)
        ensures
            match r {
                Some(round) => self.spec_latest() == Some(*round),
                None => self.spec_latest() is None,
            },
    {
        if self.rounds.len() == 0 {
            None
        } else {
            Some(&self.rounds[self.rounds.len() - 1])
        }
    }

    fn find_point_idx(&self, clan_id: u64) -> (r: Option<usize>)
        requires
            self.wf(),
        ensures
            match r {
                Some(i) => i < self.points@.len() && self.points@[i as int].clan_id == clan_id
                    && point_in(self.points@, clan_id) == Some(self.points@[i as int]),
                None => point_in(self.points@, clan_id) is None,
            },
    {
        let n = self.points.len();
        let mut i: usize = 0;
        while i < n
            invariant
                0 <= i <= n == self.points@.len(),
                forall|j: int| 0 <= j < i ==> self.points@[j].clan_id != clan_id,
                points_distinct(self.points@),
            decreases n - i,
        {
            if self.points[i].clan_id == clan_id {
                proof {
                    let k = choose|k: int|
                        0 <= k < self.points@.len() && self.points@[k].clan_id == clan_id;
                    if k != i {
                        assert(false);
                    }
                }
                return Some(i);
            }
            i = i + 1;
        }
        None
    }

    fn find_clan_idx(&self, tag: &Vec<u8>, status: i16, is_global: bool) -> (r: Option<usize>)
        requires
            self.wf(),
        ensures
            match r {
                Some(i) => i < self.clans@.len() && clan_matches(
                    self.clans@[i as int],
                    tag@,
                    status,
                    is_global,
                ) && clan_in(self.clans@, tag@, status, is_global) == Some(self.clans@[i as int]),
                None => clan_in(self.clans@, tag@, status, is_global) is None,
            },
    {
        let n = self.clans.len();
        let mut i: usize = 0;
        while i < n
            invariant
                0 <= i <= n == self.clans@.len(),
                forall|j: int| 0 <= j < i ==> !clan_matches(self.clans@[j], tag@, status, is_global),
                clans_distinct(self.clans@),
            decreases n - i,
        {
            let c = &self.clans[i];
            if c.status == status && c.is_global == is_global && crate::clan::bytes_eq(
                &c.tag,
                tag,
            ) {
                proof {
                    let k = choose|k: int|
                        0 <= k < self.clans@.len() && clan_matches(
                            self.clans@[k],
                            tag@,
                            status,
                            is_global,
                        );
                    if k != i {
                        assert(false);
                    }
                }
                return Some(i);
            }
            i = i + 1;
        }
        None
    }

    fn find_track_idx(&self, id: u64) -> (r: Option<usize>)
        requires
            self.wf(),
        ensures
            match r {
                Some(i) => i < self.tracks@.len() && self.tracks@[i as int].id == id && track_in(
                    self.tracks@,
                    id,
                ) == Some(self.tracks@[i as int]),
                None => track_in(self.tracks@, id) is None,
            },
    {
        let n = self.tracks.len();
        let mut i: usize = 0;
        while i < n
            invariant
                0 <= i <= n == self.tracks@.len(),
                forall|j: int| 0 <= j < i ==> self.tracks@[j].id != id,
                tracks_distinct(self.tracks@),
            decreases n - i,
        {
            if self.tracks[i].id == id {
                proof {
                    let k = choose|k: int|
                        0 <= k < self.tracks@.len() && self.tracks@[k].id == id;
                    if k != i {
                        assert(false);
                    }
                }
                return Some(i);
            }
            i = i + 1;
        }
        None
    }

    fn find_registered_idx(&self, clan_id: u64, round_id: u64) -> (r: Option<usize>)
        ensures
            match r {
                Some(i) => i < self.tracks@.len() && first_registered(
                    self.tracks@,
                    clan_id,
                    round_id,
                ) == Some(self.tracks@[i as int]),
                None => first_registered(self.tracks@, clan_id, round_id) is None,
            },
    {
        let n = self.tracks.len();
        let mut i: usize = 0;
        proof {
            assert(self.tracks@.skip(0) =~= self.tracks@);
        }
        while i < n
            invariant
                0 <= i <= n == self.tracks@.len(),
                first_registered(self.tracks@, clan_id, round_id) == first_registered(
                    self.tracks@.skip(i as int),
                    clan_id,
                    round_id,
                ),
            decreases n - i,
        {
            let t = &self.tracks[i];
            proof {
                assert(self.tracks@.skip(i as int)[0] == self.tracks@[i as int]);
                assert(self.tracks@.skip(i as int).drop_first() =~= self.tracks@.skip(i + 1));
            }
            if (t.self_clan_id == clan_id || t.rival_clan_id == clan_id) && t.round_id == round_id {
                return Some(i);
            }
            i = i + 1;
        }
        proof {
            assert(self.tracks@.skip(n as int) =~= Seq::<Track>::empty());
        }
        None
    }

    /// The current ledger entry of `clan_id`: unknown units are an
    /// expected outcome, not a failure.
    pub fn get_ledger(&self, clan_id: u64) -> (r: Option<ClanPoint>)
        requires
            self.wf(),
        ensures
            r == point_in(self.points@, clan_id),
    {
        match self.find_point_idx(clan_id) {
            Some(i) => Some(self.points[i]),
            None => None,
        }
    }

    /// Makes sure a ledger entry for `clan_id` exists: creates one with
    /// score `initial` when absent, else leaves the stored score and
    /// credit untouched; either way stamps the update time.
    fn ensure_point(&mut self, clan_id: u64, initial: i64, now: i64) -> (idx: usize)
        requires
            old(self).wf(),
            clan_id != 0,
        ensures
            final(self).wf(),
            idx < final(self).points@.len(),
            final(self).points@[idx as int].clan_id == clan_id,
            point_in(final(self).points@, clan_id) == Some(final(self).points@[idx as int]),
            final(self).rounds@ == old(self).rounds@,
            final(self).clans@ == old(self).clans@,
            final(self).tracks@ == old(self).tracks@,
            final(self).next_id == old(self).next_id,
            final(self).alliance_series_id == old(self).alliance_series_id,
            match point_in(old(self).points@, clan_id) {
                Some(p) => idx < old(self).points@.len() && old(self).points@[idx as int] == p
                    && final(self).points@ == old(self).points@.update(idx as int, stamped(p, now)),
                None => idx == old(self).points@.len() && final(self).points@ == old(
                    self,
                ).points@.push(fresh_point(clan_id, initial, now)),
            },
            forall|c: u64|
                c != clan_id ==> point_in(final(self).points@, c) == point_in(
                    old(self).points@,
                    c,
                ),
    {
        match self.find_point_idx(clan_id) {
            Some(i) => {
                let mut p = self.points[i];
                let ghost pre = *self;
                p.update_time = now;
                self.points[i] = p;
                proof {
                    lemma_point_in_update(pre.points@, i as int, p);
                }
                i
            },
            None => {
                let q = ClanPoint {
                    clan_id,
                    point: initial,
                    reward_point: 0,
                    create_time: now,
                    update_time: now,
                    status: Some(1),
                };
                let ghost pre = *self;
                let idx = self.points.len();
                self.points.push(q);
                proof {
                    lemma_point_in_push(pre.points@, q);
                }
                idx
            },
        }
    }

    /// Creates the ledger entry of `clan_id` with the given score when
    /// absent; an existing entry keeps its score and credit and only
    /// has its update time stamped. Returns the entry.
    pub fn upsert(&mut self, clan_id: u64, score: i64, now: i64) -> (r: ClanPoint)
        requires
            old(self).wf(),
            clan_id != 0,
        ensures
            final(self).wf(),
            point_in(final(self).points@, clan_id) == Some(r),
            match point_in(old(self).points@, clan_id) {
                Some(p) => r == stamped(p, now),
                None => r == fresh_point(clan_id, score, now),
            },
            forall|c: u64|
                c != clan_id ==> point_in(final(self).points@, c) == point_in(
                    old(self).points@,
                    c,
                ),
            final(self).rounds@ == old(self).rounds@,
            final(self).clans@ == old(self).clans@,
            final(self).tracks@ == old(self).tracks@,
            final(self).next_id == old(self).next_id,
            final(self).alliance_series_id == old(self).alliance_series_id,
    {
        let idx = self.ensure_point(clan_id, score, now);
        self.points[idx]
    }

    /// Adds `delta` to the stored score of `clan_id` and stamps the
    /// update time; unknown units are reported, not created.
    pub fn apply_delta(&mut self, clan_id: u64, delta: i64, now: i64) -> (r: Option<ClanPoint>)
        requires
            old(self).wf(),
            point_in(old(self).points@, clan_id) matches Some(p) ==> i64::MIN <= p.point + delta
                <= i64::MAX,
        ensures
            final(self).wf(),
            match point_in(old(self).points@, clan_id) {
                Some(p) => {
                    &&& r == Some(scored(p, delta, now))
                    &&& point_in(final(self).points@, clan_id) == Some(scored(p, delta, now))
                },
                None => r is None && *final(self) == *old(self),
            },
            forall|c: u64|
                c != clan_id ==> point_in(final(self).points@, c) == point_in(
                    old(self).points@,
                    c,
                ),
            final(self).rounds@ == old(self).rounds@,
            final(self).clans@ == old(self).clans@,
            final(self).tracks@ == old(self).tracks@,
            final(self).next_id == old(self).next_id,
            final(self).alliance_series_id == old(self).alliance_series_id,
    {
        match self.find_point_idx(clan_id) {
            Some(i) => {
                let mut p = self.points[i];
                let ghost pre = *self;
                p.update_point(delta, now);
                self.points[i] = p;
                proof {
                    lemma_point_in_update(pre.points@, i as int, p);
                }
                Some(p)
            },
            None => None,
        }
    }

    /// Adds `delta` to the stored reward credit of `clan_id` under the
    /// accrual cap and stamps the update time; unknown units are
    /// reported, not created.
    pub fn apply_reward_delta(&mut self, clan_id: u64, delta: i64, now: i64) -> (r: Option<
        ClanPoint,
    >)
        requires
            old(self).wf(),
            point_in(old(self).points@, clan_id) matches Some(p) ==> i64::MIN <= p.reward_point
                + delta <= i64::MAX,
        ensures
            final(self).wf(),
            match point_in(old(self).points@, clan_id) {
                Some(p) => {
                    &&& r == Some(rewarded(p, delta, now))
                    &&& point_in(final(self).points@, clan_id) == Some(rewarded(p, delta, now))
                },
                None => r is None && *final(self) == *old(self),
            },
            forall|c: u64|
                c != clan_id ==> point_in(final(self).points@, c) == point_in(
                    old(self).points@,
                    c,
                ),
            final(self).rounds@ == old(self).rounds@,
            final(self).clans@ == old(self).clans@,
            final(self).tracks@ == old(self).tracks@,
            final(self).next_id == old(self).next_id,
            final(self).alliance_series_id == old(self).alliance_series_id,
    {
        match self.find_point_idx(clan_id) {
            Some(i) => {
                let mut p = self.points[i];
                let ghost pre = *self;
                p.update_reward_point(delta, now);
                self.points[i] = p;
                proof {
                    lemma_point_in_update(pre.points@, i as int, p);
                }
                Some(p)
            },
            None => None,
        }
    }
}

/// `p` with only its update time stamped.
pub open spec fn stamped(p: ClanPoint, now: i64) -> ClanPoint {
    ClanPoint {
        clan_id: p.clan_id,
        point: p.point,
        reward_point: p.reward_point,
        create_time: p.create_time,
        update_time: now,
        status: p.status,
    }
}

/// A ledger entry created lazily at first resolution.
pub open spec fn fresh_point(clan_id: u64, point: i64, now: i64) -> ClanPoint {
    ClanPoint {
        clan_id,
        point,
        reward_point: 0,
        create_time: now,
        update_time: now,
        status: Some(1i16),
    }
}

/// `p` with `delta` added to its score and the update time stamped.
pub open spec fn scored(p: ClanPoint, delta: i64, now: i64) -> ClanPoint {
    ClanPoint {
        clan_id: p.clan_id,
        point: (p.point + delta) as i64,
        reward_point: p.reward_point,
        create_time: p.create_time,
        update_time: now,
        status: p.status,
    }
}

/// `p` with `delta` applied to its credit under the accrual cap and the
/// update time stamped.
pub open spec fn rewarded(p: ClanPoint, delta: i64, now: i64) -> ClanPoint {
    ClanPoint {
        clan_id: p.clan_id,
        point: p.point,
        reward_point: crate::capped_reward(p.reward_point as int, delta as int) as i64,
        create_time: p.create_time,
        update_time: now,
        status: p.status,
    }
}

} // verus!

verus! {

/// How many recent appearances the history tie-break looks at.
pub const HISTORY_LIMIT: usize = 10;

/// Why a registration was refused.
#[derive(Debug, Clone, Copy, PartialEq, Eq, Structural)]
pub enum RegisterError {
    /// No round exists yet, or no opponent could be determined.
    NotFound,
    /// The latest round has not opened yet.
    RoundClosed,
    /// The pairing clashes with a record already written this round, or
    /// a unit was paired against itself.
    Conflict,
}

/// Why a reversal was refused.
#[derive(Debug, Clone, Copy, PartialEq, Eq, Structural)]
pub enum ReverseError {
    /// No such record, or a referenced ledger entry is missing.
    NotFound,
    /// Only decided, internally resolved records can be reversed.
    Rejected,
}

/// Why a round was not created.
#[derive(Debug, Clone, Copy, PartialEq, Eq, Structural)]
pub enum RoundError {
    /// The supplied start equals the latest round's effective start:
    /// no new period has begun yet.
    NoNewPeriod,
}

/// What a registration request came to.
#[derive(Debug, Clone, PartialEq)]
pub enum Registration {
    /// Resolved; holds the outcome record (also on an idempotent
    /// re-read of an existing registration).
    Completed(Track),
    /// No opponent was named; the caller must obtain the active
    /// opponent from the metadata source and register again.
    NeedOpponent,
    /// One side is unknown locally; the caller must obtain an oracle
    /// reply and finish through [`Store::register_outcome_external`].
    NeedOracle,
}

/// The ledger state a resolution reads for a unit: its stored entry, or
/// a zeroed entry created lazily at `now`.
pub open spec fn entry_or0(points: Seq<ClanPoint>, clan_id: u64, now: i64) -> ClanPoint {
    match point_in(points, clan_id) {
        Some(p) => p,
        None => fresh_point(clan_id, 0, now),
    }
}

/// `p` after a resolution applied `score_delta` to the score and
/// `reward_delta` to the credit (under the accrual cap), stamping the
/// update time.
pub open spec fn resolved(p: ClanPoint, score_delta: i64, reward_delta: i64, now: i64) -> ClanPoint {
    ClanPoint {
        clan_id: p.clan_id,
        point: (p.point + score_delta) as i64,
        reward_point: crate::capped_reward(p.reward_point as int, reward_delta as int) as i64,
        create_time: p.create_time,
        update_time: now,
        status: p.status,
    }
}

impl Store {
    /// What a completed local resolution does to the repository, given
    /// the two member units, the round, and the clock: both ledger
    /// entries exist afterwards and carry the decision's deltas, and
    /// exactly one new record describing the decision is appended.
    pub open spec fn internal_post(
        pre: Store,
        post: Store,
        sc: Clan,
        rc: Clan,
        round_id: u64,
        now: i64,
        t: Track,
    ) -> bool {
        let s0 = entry_or0(pre.points@, sc.id, now);
        let r0 = entry_or0(pre.points@, rc.id, now);
        let sw = crate::track::recent_wins(pre.tracks@, sc.id, HISTORY_LIMIT as int);
        let rw = crate::track::recent_wins(pre.tracks@, rc.id, HISTORY_LIMIT as int);
        let d = crate::track::internal_decision(
            s0.point as int,
            r0.point as int,
            s0.reward_point as int,
            r0.reward_point as int,
            sw,
            rw,
        );
        &&& {
            &&& t.id == pre.next_id
            &&& t.self_clan_id == sc.id
            &&& t.rival_clan_id == rc.id
            &&& t.round_id == round_id
            &&& t.create_time == now
            &&& t.self_history_point == s0.point
            &&& t.rival_history_point == r0.point
            &&& t.self_now_point == s0.point + d.self_score_delta
            &&& t.rival_now_point == r0.point + d.rival_score_delta
            &&& t.result == d.result
            &&& t.kind == d.kind
            &&& t.reward_info == Some(
                crate::track::TrackRewardInfo {
                    self_history: s0.reward_point,
                    rival_history: r0.reward_point,
                    self_now: (s0.reward_point + d.self_reward_delta) as i64,
                    rival_now: (r0.reward_point + d.rival_reward_delta) as i64,
                },
            )
            &&& t.round_code is None
            &&& t.self_tag is None
            &&& t.self_name is None
            &&& t.rival_tag is None
            &&& t.rival_name is None
            &&& post.tracks@ == pre.tracks@.push(t)
        }
        &&& post.rounds@ == pre.rounds@
        &&& post.clans@ == pre.clans@
        &&& post.next_id == pre.next_id + 1
        &&& post.alliance_series_id == pre.alliance_series_id
        &&& point_in(post.points@, sc.id) == Some(
            resolved(s0, d.self_score_delta as i64, d.self_reward_delta as i64, now),
        )
        &&& point_in(post.points@, rc.id) == Some(
            resolved(r0, d.rival_score_delta as i64, d.rival_reward_delta as i64, now),
        )
        &&& forall|c: u64|
            c != sc.id && c != rc.id ==> point_in(post.points@, c) == point_in(pre.points@, c)
    }

    /// The full contract of [`Store::register_outcome`], branch by
    /// branch in evaluation order: missing round, unopened round,
    /// missing opponent, idempotent re-read, opponent conflict,
    /// locally unknown side, self-pairing, and the completed local
    /// resolution.
    pub open spec fn register_post(
        pre: Store,
        post: Store,
        self_tag: Seq<u8>,
        rival_tag: Option<Seq<u8>>,
        is_global: bool,
        prefer_reversed: bool,
        now: i64,
        r: Result<Registration, RegisterError>,
    ) -> bool {
        if pre.rounds@.len() == 0 {
            post == pre && r == Err::<Registration, RegisterError>(RegisterError::NotFound)
        } else {
            let round = pre.rounds@.last();
            if round.round_time > now {
                post == pre && r == Err::<Registration, RegisterError>(RegisterError::RoundClosed)
            } else {
                match rival_tag {
                    None => post == pre && if is_global {
                        r matches Ok(reg) && reg is NeedOpponent
                    } else {
                        r == Err::<Registration, RegisterError>(RegisterError::NotFound)
                    },
                    Some(named_rival) => {
                        let st = if prefer_reversed {
                            named_rival
                        } else {
                            self_tag
                        };
                        let rt = if prefer_reversed {
                            self_tag
                        } else {
                            named_rival
                        };
                        let sc = clan_in(pre.clans@, st, crate::clan::STATUS_MEMBER, is_global);
                        let rc = clan_in(pre.clans@, rt, crate::clan::STATUS_MEMBER, is_global);
                        let s_reg = if sc is Some {
                            first_registered(pre.tracks@, sc->0.id, round.id)
                        } else {
                            None
                        };
                        let r_reg = if rc is Some {
                            first_registered(pre.tracks@, rc->0.id, round.id)
                        } else {
                            None
                        };
                        if s_reg is Some {
                            &&& post == pre
                            &&& r matches Ok(reg)
                            &&& reg matches Registration::Completed(t)
                            &&& crate::track::track_like(t, s_reg->0)
                        } else if r_reg is Some {
                            post == pre && r == Err::<Registration, RegisterError>(
                                RegisterError::Conflict,
                            )
                        } else if sc is None || rc is None {
                            &&& post == pre
                            &&& r matches Ok(reg)
                            &&& reg is NeedOracle
                        } else if sc->0.id == rc->0.id {
                            post == pre && r == Err::<Registration, RegisterError>(
                                RegisterError::Conflict,
                            )
                        } else {
                            &&& r matches Ok(reg)
                            &&& reg matches Registration::Completed(t)
                            &&& Store::internal_post(pre, post, sc->0, rc->0, round.id, now, t)
                        }
                    },
                }
            }
        }
    }
}

proof fn lemma_bounded_entry(s: Store, id: u64)
    requires
        s.ledgers_bounded(),
    ensures
        point_in(s.points@, id) matches Some(p) ==> i64::MIN + 2 <= p.point <= i64::MAX - 2
            && i64::MIN + 2 <= p.reward_point <= i64::MAX - 2,
{
    if exists|i: int| 0 <= i < s.points@.len() && s.points@[i].clan_id == id {
        let k = choose|i: int| 0 <= i < s.points@.len() && s.points@[i].clan_id == id;
        assert(i64::MIN + 2 <= s.points@[k].point <= i64::MAX - 2);
    }
}

proof fn lemma_tracks_push_wf(tracks: Seq<Track>, t: Track, bound: u64)
    requires
        tracks_distinct(tracks),
        forall|i: int| 0 <= i < tracks.len() ==> (#[trigger] tracks[i]).id < bound,
        t.id == bound,
    ensures
        tracks_distinct(tracks.push(t)),
        forall|i: int| 0 <= i < tracks.push(t).len() ==> (#[trigger] tracks.push(t)[i]).id < bound
            + 1,
{
    let s2 = tracks.push(t);
    let n = tracks.len() as int;
    assert forall|i: int, j: int|
        0 <= i < s2.len() && 0 <= j < s2.len() && i != j implies #[trigger] s2[i].id
        != #[trigger] s2[j].id by {
        if i < n && j < n {
            assert(tracks[i].id != tracks[j].id);
        } else if i == n {
            assert(s2[j].id < bound);
        } else {
            assert(s2[i].id < bound);
        }
    }
}

impl Store {
    /// Makes sure the ledger entry of `clan_id` exists and applies the
    /// decision's deltas to it: `score_delta` plain, `reward_delta`
    /// under the accrual cap, the update time stamped.
    fn resolve_entry(&mut self, clan_id: u64, score_delta: i64, reward_delta: i64, now: i64)
        requires
            old(self).wf(),
            clan_id != 0,
            i64::MIN <= entry_or0(old(self).points@, clan_id, now).point + score_delta <= i64::MAX,
            i64::MIN <= entry_or0(old(self).points@, clan_id, now).reward_point + reward_delta
                <= i64::MAX,
        ensures
            final(self).wf(),
            point_in(final(self).points@, clan_id) == Some(
                resolved(entry_or0(old(self).points@, clan_id, now), score_delta, reward_delta, now),
            ),
            forall|c: u64|
                c != clan_id ==> point_in(final(self).points@, c) == point_in(
                    old(self).points@,
                    c,
                ),
            final(self).rounds@ == old(self).rounds@,
            final(self).clans@ == old(self).clans@,
            final(self).tracks@ == old(self).tracks@,
            final(self).next_id == old(self).next_id,
            final(self).alliance_series_id == old(self).alliance_series_id,
    {
        let idx = self.ensure_point(clan_id, 0, now);
        let mut p = self.points[idx];
        let ghost mid = *self;
        p.update_point(score_delta, now);
        p.update_reward_point(reward_delta, now);
        self.points[idx] = p;
        proof {
            lemma_point_in_update(mid.points@, idx as int, p);
        }
    }

    /// Registers an outcome for `self_tag` in the latest round, against
    /// `rival_tag` or, with `prefer_reversed`, as the second party of
    /// the named pairing. Decides locally when both units are known
    /// members; otherwise asks the caller to consult the metadata
    /// source or the oracle. Re-registration in the same round returns
    /// the existing record unchanged.
    #[verifier::rlimit(100)]
    pub fn register_outcome(
        &mut self,
        self_tag: &Vec<u8>,
        rival_tag: Option<&Vec<u8>>,
        is_global: bool,
        prefer_reversed: bool,
        now: i64,
    ) -> (r: Result<Registration, RegisterError>)
        requires
            old(self).wf(),
            old(self).ledgers_bounded(),
            old(self).next_id < u64::MAX,
        ensures
            final(self).wf(),
            Store::register_post(
                *old(self),
                *final(self),
                self_tag@,
                match rival_tag {
                    Some(v) => Some(v@),
                    None => None,
                },
                is_global,
                prefer_reversed,
                now,
                r,
            ),
    {
        let (round_id, round_time) = match self.latest_round() {
            None => {
                return Err(RegisterError::NotFound);
            },
            Some(round) => (round.id, round.round_time),
        };
        if round_time > now {
            return Err(RegisterError::RoundClosed);
        }
        let named_rival: &Vec<u8> = match rival_tag {
            Some(v) => v,
            None => {
                if is_global {
                    return Ok(Registration::NeedOpponent);
                } else {
                    return Err(RegisterError::NotFound);
                }
            },
        };
        let (st, rt) = if prefer_reversed {
            (named_rival, self_tag)
        } else {
            (self_tag, named_rival)
        };
        let sc_idx = self.find_clan_idx(st, crate::clan::STATUS_MEMBER, is_global);
        let rc_idx = self.find_clan_idx(rt, crate::clan::STATUS_MEMBER, is_global);
        if let Some(si) = sc_idx {
            let sid = self.clans[si].id;
            if let Some(ti) = self.find_registered_idx(sid, round_id) {
                let t = crate::track::track_copy(&self.tracks[ti]);
                return Ok(Registration::Completed(t));
            }
        }
        if let Some(ri) = rc_idx {
            let rid = self.clans[ri].id;
            if self.find_registered_idx(rid, round_id).is_some() {
                return Err(RegisterError::Conflict);
            }
        }
        let (si, ri) = match (sc_idx, rc_idx) {
            (Some(a), Some(b)) => (a, b),
            _ => {
                return Ok(Registration::NeedOracle);
            },
        };
        let sid = self.clans[si].id;
        let rid = self.clans[ri].id;
        if sid == rid {
            return Err(RegisterError::Conflict);
        }
        let t = self.register_internal(si, ri, round_id, now);
        Ok(Registration::Completed(t))
    }

    /// Resolves a pairing of two distinct, locally known member units
    /// and appends the record: reward priority first, then score
    /// comparison, then the recent-history tie-break.
    fn register_internal(&mut self, si: usize, ri: usize, round_id: u64, now: i64) -> (t: Track)
        requires
            old(self).wf(),
            old(self).ledgers_bounded(),
            old(self).next_id < u64::MAX,
            si < old(self).clans@.len(),
            ri < old(self).clans@.len(),
            old(self).clans@[si as int].id != old(self).clans@[ri as int].id,
        ensures
            final(self).wf(),
            Store::internal_post(
                *old(self),
                *final(self),
                old(self).clans@[si as int],
                old(self).clans@[ri as int],
                round_id,
                now,
                t,
            ),
    {
        let ghost pre = *old(self);
        let sid = self.clans[si].id;
        let rid = self.clans[ri].id;
        let s0 = match self.find_point_idx(sid) {
            Some(i) => self.points[i],
            None => ClanPoint {
                clan_id: sid,
                point: 0,
                reward_point: 0,
                create_time: now,
                update_time: now,
                status: Some(1),
            },
        };
        let r0 = match self.find_point_idx(rid) {
            Some(i) => self.points[i],
            None => ClanPoint {
                clan_id: rid,
                point: 0,
                reward_point: 0,
                create_time: now,
                update_time: now,
                status: Some(1),
            },
        };
        proof {
            assert(s0 == entry_or0(pre.points@, sid, now));
            assert(r0 == entry_or0(pre.points@, rid, now));
            lemma_bounded_entry(pre, sid);
            lemma_bounded_entry(pre, rid);
        }
        let sw = crate::track::count_recent_wins(&self.tracks, sid, HISTORY_LIMIT);
        let rw = crate::track::count_recent_wins(&self.tracks, rid, HISTORY_LIMIT);
        let (result, kind, sd, rd, srd, rrd): (
            crate::track::TrackResult,
            crate::track::TrackType,
            i64,
            i64,
            i64,
            i64,
        ) = if s0.reward_point > 0 {
            (crate::track::TrackResult::Win, crate::track::TrackType::Award, 0, 0, -1, 0)
        } else if r0.reward_point < 0 {
            (crate::track::TrackResult::Win, crate::track::TrackType::Award, 0, 0, 0, 1)
        } else if r0.reward_point > 0 {
            (crate::track::TrackResult::Lose, crate::track::TrackType::Penalty, 0, 0, 0, -1)
        } else if s0.reward_point < 0 {
            (crate::track::TrackResult::Lose, crate::track::TrackType::Penalty, 0, 0, 1, 0)
        } else if s0.point < r0.point {
            (crate::track::TrackResult::Win, crate::track::TrackType::Internal, -1, 1, 0, 0)
        } else if s0.point > r0.point {
            (crate::track::TrackResult::Lose, crate::track::TrackType::Internal, 1, -1, 0, 0)
        } else if sw <= rw {
            (crate::track::TrackResult::Win, crate::track::TrackType::Internal, -1, 1, 0, 0)
        } else {
            (crate::track::TrackResult::Lose, crate::track::TrackType::Internal, 1, -1, 0, 0)
        };
        let ghost d = crate::track::internal_decision(
            s0.point as int,
            r0.point as int,
            s0.reward_point as int,
            r0.reward_point as int,
            sw as int,
            rw as int,
        );
        proof {
            assert(result == d.result);
            assert(kind == d.kind);
            assert(sd == d.self_score_delta);
            assert(rd == d.rival_score_delta);
            assert(srd == d.self_reward_delta);
            assert(rrd == d.rival_reward_delta);
        }
        self.resolve_entry(sid, sd, srd, now);
        self.resolve_entry(rid, rd, rrd, now);
        let mut snapshot = crate::track::TrackRewardInfo::new_history(
            s0.reward_point,
            r0.reward_point,
        );
        snapshot.set_now(srd, rrd);
        let fresh_id = self.next_id;
        let t = Track {
            id: fresh_id,
            self_clan_id: sid,
            rival_clan_id: rid,
            self_history_point: s0.point,
            rival_history_point: r0.point,
            create_time: now,
            self_now_point: s0.point + sd,
            rival_now_point: r0.point + rd,
            round_id,
            result,
            kind,
            reward_info: Some(snapshot),
            round_code: None,
            self_tag: None,
            self_name: None,
            rival_tag: None,
            rival_name: None,
        };
        // Two identical values: one is appended to the log, the other
        // returned to the caller.
        let t_out = Track {
            id: fresh_id,
            self_clan_id: sid,
            rival_clan_id: rid,
            self_history_point: s0.point,
            rival_history_point: r0.point,
            create_time: now,
            self_now_point: s0.point + sd,
            rival_now_point: r0.point + rd,
            round_id,
            result,
            kind,
            reward_info: Some(snapshot),
            round_code: None,
            self_tag: None,
            self_name: None,
            rival_tag: None,
            rival_name: None,
        };
        let ghost mid = *self;
        self.tracks.push(t);
        self.next_id = self.next_id + 1;
        proof {
            lemma_tracks_push_wf(mid.tracks@, t_out, pre.next_id);
            assert(mid.tracks@ == pre.tracks@);
        }
        t_out
    }
}

} // verus!

verus! {

proof fn lemma_clan_in_push(clans: Seq<Clan>, c: Clan)
    requires
        clans_distinct(clans),
        clan_in(clans, c.tag@, c.status, c.is_global) is None,
        forall|i: int| 0 <= i < clans.len() ==> (#[trigger] clans[i]).id != c.id,
    ensures
        clans_distinct(clans.push(c)),
        clan_in(clans.push(c), c.tag@, c.status, c.is_global) == Some(c),
        forall|tg: Seq<u8>, st: i16, gl: bool|
            !(tg == c.tag@ && st == c.status && gl == c.is_global) ==> #[trigger] clan_in(
                clans.push(c),
                tg,
                st,
                gl,
            ) == clan_in(clans, tg, st, gl),
{
    let s2 = clans.push(c);
    let n = clans.len() as int;
    assert(s2[n] == c);
    assert(forall|i: int| 0 <= i < n ==> s2[i] == clans[i]);
    assert(clans_distinct(s2)) by {
        assert forall|i: int, j: int|
            0 <= i < s2.len() && 0 <= j < s2.len() && i != j implies (#[trigger] s2[i]).id
            != (#[trigger] s2[j]).id && !(s2[i].tag@ == s2[j].tag@ && s2[i].status == s2[j].status
            && s2[i].is_global == s2[j].is_global) by {
            if i < n && j < n {
                assert(clans[i].id != clans[j].id);
            } else if i == n {
                assert(!clan_matches(clans[j], c.tag@, c.status, c.is_global));
            } else {
                assert(!clan_matches(clans[i], c.tag@, c.status, c.is_global));
            }
        }
    }
    assert(clan_in(s2, c.tag@, c.status, c.is_global) == Some(c)) by {
        assert(clan_matches(s2[n], c.tag@, c.status, c.is_global));
        let k = choose|i: int|
            0 <= i < s2.len() && clan_matches(s2[i], c.tag@, c.status, c.is_global);
        if k != n {
            assert(clan_matches(clans[k], c.tag@, c.status, c.is_global));
            assert(false);
        }
    }
    assert forall|tg: Seq<u8>, st: i16, gl: bool|
        !(tg == c.tag@ && st == c.status && gl == c.is_global) implies #[trigger] clan_in(
        s2,
        tg,
        st,
        gl,
    ) == clan_in(clans, tg, st, gl) by {
        if exists|i: int| 0 <= i < s2.len() && clan_matches(s2[i], tg, st, gl) {
            let k2 = choose|i: int| 0 <= i < s2.len() && clan_matches(s2[i], tg, st, gl);
            assert(k2 != n);
            assert(clan_matches(clans[k2], tg, st, gl));
            let k1 = choose|i: int| 0 <= i < clans.len() && clan_matches(clans[i], tg, st, gl);
            if k1 != k2 {
                assert(false);
            }
        } else {
            if exists|i: int| 0 <= i < clans.len() && clan_matches(clans[i], tg, st, gl) {
                let k1 = choose|i: int| 0 <= i < clans.len() && clan_matches(clans[i], tg, st, gl);
                assert(clan_matches(s2[k1], tg, st, gl));
                assert(false);
            }
        }
    }
}

impl Store {
    /// Creates a new round whose effective start is the wall-clock
    /// moment `t` minus the caller's zone offset. Refused when that
    /// start equals the latest round's effective start: no new period
    /// has begun. The period label is derived from `t`'s date.
    pub fn create_round(&mut self, t: &crate::round::RoundTime, tz_offset_seconds: i64, now: i64)
        -> (r: Result<Round, RoundError>)
        requires
            old(self).wf(),
            crate::round::valid_round_time(*t),
            old(self).next_id < u64::MAX,
            -172800 <= tz_offset_seconds <= 172800,
            old(self).spec_latest() matches Some(lr) ==> now >= lr.create_time,
        ensures
            final(self).wf(),
            ({
                let start = crate::round::epoch_seconds_spec(*t) - tz_offset_seconds;
                match r {
                    Err(e) => {
                        &&& e == RoundError::NoNewPeriod
                        &&& *final(self) == *old(self)
                        &&& old(self).spec_latest() matches Some(lr) && lr.round_time == start
                    },
                    Ok(round) => {
                        &&& (old(self).spec_latest() matches Some(lr) ==> lr.round_time != start)
                        &&& round.id == old(self).next_id
                        &&& round.code@ == crate::round::round_code_spec(*t)
                        &&& round.round_time == start
                        &&& round.create_time == now
                        &&& final(self).rounds@.len() == old(self).rounds@.len() + 1
                        &&& final(self).rounds@.take(old(self).rounds@.len() as int) == old(
                            self,
                        ).rounds@
                        &&& ({
                            let stored = final(self).rounds@.last();
                            stored.id == round.id && stored.code@ == round.code@
                                && stored.round_time == round.round_time && stored.create_time
                                == round.create_time
                        })
                        &&& final(self).spec_latest() matches Some(lr2) && lr2.id == round.id
                        &&& final(self).next_id == old(self).next_id + 1
                        &&& final(self).clans@ == old(self).clans@
                        &&& final(self).points@ == old(self).points@
                        &&& final(self).tracks@ == old(self).tracks@
                        &&& final(self).alliance_series_id == old(self).alliance_series_id
                    },
                }
            }),
    {
        let start = crate::round::epoch_seconds(t) - tz_offset_seconds;
        if let Some(last) = self.latest_round() {
            if last.round_time == start {
                return Err(RoundError::NoNewPeriod);
            }
        }
        let code = crate::round::round_code(t);
        let code2 = crate::clan::bytes_clone(&code);
        let fresh_id = self.next_id;
        let stored = Round { id: fresh_id, code, round_time: start, create_time: now };
        let out = Round { id: fresh_id, code: code2, round_time: start, create_time: now };
        let ghost pre = *self;
        self.rounds.push(stored);
        self.next_id = self.next_id + 1;
        proof {
            assert(final(self).rounds@.take(pre.rounds@.len() as int) =~= pre.rounds@);
        }
        Ok(out)
    }

    /// Files a new unit under its identity triple of tag, status and
    /// globality, returning its fresh id; refused (`None`) when a unit
    /// with the same triple already exists.
    pub fn add_clan(
        &mut self,
        tag: Vec<u8>,
        name: Option<Vec<u8>>,
        status: i16,
        series_id: Option<u64>,
        is_global: bool,
        now: i64,
    ) -> (r: Option<u64>)
        requires
            old(self).wf(),
            old(self).next_id < u64::MAX,
        ensures
            final(self).wf(),
            match r {
                None => *final(self) == *old(self) && clan_in(
                    old(self).clans@,
                    tag@,
                    status,
                    is_global,
                ) is Some,
                Some(id) => {
                    &&& clan_in(old(self).clans@, tag@, status, is_global) is None
                    &&& id == old(self).next_id
                    &&& final(self).next_id == old(self).next_id + 1
                    &&& final(self).clans@.len() == old(self).clans@.len() + 1
                    &&& final(self).clans@.take(old(self).clans@.len() as int) == old(self).clans@
                    &&& ({
                        let c = final(self).clans@.last();
                        &&& c.id == id
                        &&& c.tag == tag
                        &&& c.name == name
                        &&& c.status == status
                        &&& c.series_id == series_id
                        &&& c.is_global == is_global
                        &&& c.create_time == now
                        &&& c.update_time == now
                    })
                    &&& clan_in(final(self).clans@, tag@, status, is_global) == Some(
                        final(self).clans@.last(),
                    )
                    &&& forall|tg: Seq<u8>, st: i16, gl: bool|
                        !(tg == tag@ && st == status && gl == is_global) ==> #[trigger] clan_in(
                            final(self).clans@,
                            tg,
                            st,
                            gl,
                        ) == clan_in(old(self).clans@, tg, st, gl)
                    &&& final(self).points@ == old(self).points@
                    &&& final(self).tracks@ == old(self).tracks@
                    &&& final(self).rounds@ == old(self).rounds@
                    &&& final(self).alliance_series_id == old(self).alliance_series_id
                },
            },
    {
        if self.find_clan_idx(&tag, status, is_global).is_some() {
            return None;
        }
        let id = self.next_id;
        let c = Clan {
            id,
            tag,
            name,
            status,
            series_id,
            is_global,
            create_time: now,
            update_time: now,
        };
        let ghost pre = *self;
        let ghost cg = c;
        self.clans.push(c);
        self.next_id = self.next_id + 1;
        proof {
            lemma_clan_in_push(pre.clans@, cg);
            assert(final(self).clans@.take(pre.clans@.len() as int) =~= pre.clans@);
            assert forall|i: int| 0 <= i < self.clans@.len() implies 0 < (
            #[trigger] self.clans@[i]).id < self.next_id by {
                if i < pre.clans@.len() {
                    assert(self.clans@[i] == pre.clans@[i]);
                    assert(0 < pre.clans@[i].id < pre.next_id);
                }
            }
        }
        Some(id)
    }
}

} // verus!

verus! {

impl Store {
    /// The full contract of [`Store::register_outcome_external`]: the
    /// guard checks, then the oracle's adjudication — the rival filed
    /// as an externally registered unit (created if absent), the
    /// result and provenance read from the reply, no score deltas, and
    /// the registering side's ledger entry made present when it is a
    /// known member.
    pub open spec fn external_post(
        pre: Store,
        post: Store,
        self_tag: Seq<u8>,
        is_global: bool,
        reply: crate::middle::MiddleApi,
        now: i64,
        r: Result<Registration, RegisterError>,
    ) -> bool {
        if pre.rounds@.len() == 0 {
            post == pre && r == Err::<Registration, RegisterError>(RegisterError::NotFound)
        } else {
            let round = pre.rounds@.last();
            if round.round_time > now {
                post == pre && r == Err::<Registration, RegisterError>(RegisterError::RoundClosed)
            } else {
                let sc = clan_in(pre.clans@, self_tag, crate::clan::STATUS_MEMBER, is_global);
                let s_reg = if sc is Some {
                    first_registered(pre.tracks@, sc->0.id, round.id)
                } else {
                    None
                };
                if s_reg is Some {
                    &&& post == pre
                    &&& r matches Ok(reg)
                    &&& reg matches Registration::Completed(t)
                    &&& crate::track::track_like(t, s_reg->0)
                } else {
                    let rtag = crate::middle::rival_tag_spec(reply, self_tag);
                    let status = if reply.err {
                        crate::clan::STATUS_UNDECIDED
                    } else {
                        crate::clan::STATUS_ALLIANCE
                    };
                    let rc0 = clan_in(pre.clans@, rtag, status, is_global);
                    let rcl = if rc0 is Some {
                        rc0->0
                    } else {
                        post.clans@.last()
                    };
                    let sid = if sc is Some {
                        sc->0.id
                    } else {
                        0
                    };
                    let s0 = entry_or0(pre.points@, sid, now);
                    let r0 = entry_or0(pre.points@, rcl.id, now);
                    let res = crate::middle::oracle_result(
                        crate::clan::canon_tag_spec(reply.win_tag@),
                        rtag,
                        reply.err,
                    );
                    let knd = crate::middle::oracle_kind(
                        crate::clan::canon_tag_spec(reply.win_tag@),
                        rtag,
                        reply.err,
                    );
                    &&& (rc0 is Some ==> post.clans@ == pre.clans@ && post.next_id == pre.next_id
                        + 1)
                    &&& (rc0 is None ==> {
                        &&& post.clans@.len() == pre.clans@.len() + 1
                        &&& post.clans@.take(pre.clans@.len() as int) == pre.clans@
                        &&& ({
                            let c = post.clans@.last();
                            &&& c.id == pre.next_id
                            &&& c.tag@ == rtag
                            &&& crate::track::opt_bytes_like(
                                c.name,
                                crate::middle::rival_name_spec(reply, self_tag),
                            )
                            &&& c.status == status
                            &&& c.series_id == (if reply.err {
                                None
                            } else {
                                pre.alliance_series_id
                            })
                            &&& c.is_global == is_global
                            &&& c.create_time == now
                            &&& c.update_time == now
                        })
                        &&& post.next_id == pre.next_id + 2
                    })
                    &&& r matches Ok(reg) && reg matches Registration::Completed(t) && {
                        &&& t.id == post.next_id - 1
                        &&& t.self_clan_id == sid
                        &&& t.rival_clan_id == rcl.id
                        &&& t.round_id == round.id
                        &&& t.create_time == now
                        &&& t.self_history_point == s0.point
                        &&& t.self_now_point == s0.point
                        &&& t.rival_history_point == r0.point
                        &&& t.rival_now_point == r0.point
                        &&& t.result == res
                        &&& t.kind == knd
                        &&& t.reward_info is None
                        &&& t.round_code is None
                        &&& t.self_tag matches Some(v) && v@ == self_tag
                        &&& crate::track::opt_bytes_like(
                            t.self_name,
                            crate::middle::self_name_spec(reply, self_tag),
                        )
                        &&& t.rival_tag matches Some(v) && v@ == rcl.tag@
                        &&& crate::track::opt_bytes_like(t.rival_name, rcl.name)
                        &&& post.tracks@.len() == pre.tracks@.len() + 1
                        &&& post.tracks@.take(pre.tracks@.len() as int) == pre.tracks@
                        &&& crate::track::track_like(post.tracks@.last(), t)
                    }
                    &&& (sc is None ==> post.points@ == pre.points@)
                    &&& (sc is Some ==> {
                        &&& point_in(post.points@, sid) == Some(
                            match point_in(pre.points@, sid) {
                                Some(p) => stamped(p, now),
                                None => fresh_point(sid, 0, now),
                            },
                        )
                        &&& forall|c: u64|
                            c != sid ==> point_in(post.points@, c) == point_in(pre.points@, c)
                    })
                    &&& post.rounds@ == pre.rounds@
                    &&& post.alliance_series_id == pre.alliance_series_id
                }
            }
        }
    }

    /// Finishes a registration whose pairing the local ledger could not
    /// resolve, from the oracle's reply: files the adjudicated rival as
    /// an externally registered unit, records the reply's result with
    /// no score deltas, and returns the new record.
    #[verifier::rlimit(100)]
    #[verifier::spinoff_prover]
    pub fn register_outcome_external(
        &mut self,
        self_tag: &Vec<u8>,
        is_global: bool,
        reply: &crate::middle::MiddleApi,
        now: i64,
    ) -> (r: Result<Registration, RegisterError>)
        requires
            old(self).wf(),
            old(self).next_id < u64::MAX - 1,
        ensures
            final(self).wf(),
            Store::external_post(*old(self), *final(self), self_tag@, is_global, *reply, now, r),
    {
        let ghost pre = *old(self);
        let (round_id, round_time) = match self.latest_round() {
            None => {
                return Err(RegisterError::NotFound);
            },
            Some(round) => (round.id, round.round_time),
        };
        if round_time > now {
            return Err(RegisterError::RoundClosed);
        }
        let sc_idx = self.find_clan_idx(self_tag, crate::clan::STATUS_MEMBER, is_global);
        if let Some(si) = sc_idx {
            let sid = self.clans[si].id;
            if let Some(ti) = self.find_registered_idx(sid, round_id) {
                let t = crate::track::track_copy(&self.tracks[ti]);
                return Ok(Registration::Completed(t));
            }
        }
        let sides = reply.rival_of(self_tag);
        let status: i16 = if reply.err {
            crate::clan::STATUS_UNDECIDED
        } else {
            crate::clan::STATUS_ALLIANCE
        };
        let series_id: Option<u64> = if reply.err {
            None
        } else {
            self.alliance_series_id
        };
        let (rcid, r_tag, r_name) = match self.find_clan_idx(&sides.rival_tag, status, is_global) {
            Some(ri) => {
                let c = &self.clans[ri];
                (c.id, crate::clan::bytes_clone(&c.tag), crate::clan::opt_bytes_clone(&c.name))
            },
            None => {
                let tag_stored = crate::clan::bytes_clone(&sides.rival_tag);
                let name_stored = crate::clan::opt_bytes_clone(&sides.rival_name);
                let id = match self.add_clan(
                    tag_stored,
                    name_stored,
                    status,
                    series_id,
                    is_global,
                    now,
                ) {
                    Some(id) => id,
                    None => {
                        proof {
                            assert(false);
                        }
                        return Err(RegisterError::Conflict);
                    },
                };
                (
                    id,
                    crate::clan::bytes_clone(&sides.rival_tag),
                    crate::clan::opt_bytes_clone(&sides.rival_name),
                )
            },
        };
        let (sid, s_point) = match sc_idx {
            Some(si) => {
                let id = self.clans[si].id;
                match self.find_point_idx(id) {
                    Some(pi) => (id, self.points[pi].point),
                    None => (id, 0),
                }
            },
            None => (0, 0),
        };
        let r_point = match self.find_point_idx(rcid) {
            Some(pi) => self.points[pi].point,
            None => 0,
        };
        let (result, kind) = reply.decide(&r_tag);
        let fresh_id = self.next_id;
        let t = Track {
            id: fresh_id,
            self_clan_id: sid,
            rival_clan_id: rcid,
            self_history_point: s_point,
            rival_history_point: r_point,
            create_time: now,
            self_now_point: s_point,
            rival_now_point: r_point,
            round_id,
            result,
            kind,
            reward_info: None,
            round_code: None,
            self_tag: Some(crate::clan::bytes_clone(self_tag)),
            self_name: crate::clan::opt_bytes_clone(&sides.self_name),
            rival_tag: Some(crate::clan::bytes_clone(&r_tag)),
            rival_name: crate::clan::opt_bytes_clone(&r_name),
        };
        let t_out = crate::track::track_copy(&t);
        let ghost mid = *self;
        self.tracks.push(t);
        self.next_id = self.next_id + 1;
        proof {
            lemma_tracks_push_wf(mid.tracks@, self.tracks@.last(), mid.next_id);
            assert(self.tracks@.take(pre.tracks@.len() as int) =~= pre.tracks@);
        }
        if sid != 0 {
            self.upsert(sid, s_point, now);
        }
        Ok(Registration::Completed(t_out))
    }
}

} // verus!

verus! {

/// Whether an outcome record is reversible: only decided records of a
/// pure local resolution between two distinct units may be inverted.
pub open spec fn reversible(t: Track) -> bool {
    &&& t.kind == crate::track::TrackType::Internal
    &&& t.result != crate::track::TrackResult::Undecided
    &&& t.self_clan_id != t.rival_clan_id
}

/// A record written by a reversal carries kind `Reverse`, never
/// `Internal`; reversing a reversal is therefore always rejected.
pub proof fn lemma_reverse_not_reversible(t: Track)
    requires
        t.kind == crate::track::TrackType::Reverse,
    ensures
        !reversible(t),
{
}

/// After a fresh registration appended the record `t` for a unit that
/// had none in that round, an immediate re-read for the same unit and
/// round finds exactly `t`: registering twice returns the same record.
pub proof fn lemma_register_idempotent(tracks: Seq<Track>, t: Track, clan_id: u64, round_id: u64)
    requires
        first_registered(tracks, clan_id, round_id) is None,
        participates(t, clan_id),
        t.round_id == round_id,
    ensures
        first_registered(tracks.push(t), clan_id, round_id) == Some(t),
{
    lemma_first_registered_push(tracks, t, clan_id, round_id);
}

impl Store {
    /// Locally decided resolutions are zero-sum: the two after-scores of
    /// a record written by the local resolver sum to the two
    /// before-scores, and on the score/tie-break path each side moved
    /// by exactly one point.
    pub proof fn lemma_resolution_zero_sum(
        pre: Store,
        post: Store,
        sc: Clan,
        rc: Clan,
        round_id: u64,
        now: i64,
        t: Track,
    )
        requires
            Store::internal_post(pre, post, sc, rc, round_id, now, t),
        ensures
            t.self_now_point + t.rival_now_point == t.self_history_point + t.rival_history_point,
            t.kind == crate::track::TrackType::Internal ==> (t.self_now_point
                == t.self_history_point + 1 || t.self_now_point == t.self_history_point - 1),
    {
        let s0 = entry_or0(pre.points@, sc.id, now);
        let r0 = entry_or0(pre.points@, rc.id, now);
        crate::track::lemma_internal_zero_sum(
            s0.point as int,
            r0.point as int,
            s0.reward_point as int,
            r0.reward_point as int,
            crate::track::recent_wins(pre.tracks@, sc.id, HISTORY_LIMIT as int),
            crate::track::recent_wins(pre.tracks@, rc.id, HISTORY_LIMIT as int),
        );
    }

    /// Reward-path resolutions never change scores: a record written by
    /// the local resolver with kind `Award` or `Penalty` keeps both
    /// sides' scores, in the record and in the ledger.
    pub proof fn lemma_reward_path_keeps_scores(
        pre: Store,
        post: Store,
        sc: Clan,
        rc: Clan,
        round_id: u64,
        now: i64,
        t: Track,
    )
        requires
            Store::internal_post(pre, post, sc, rc, round_id, now, t),
            t.kind == crate::track::TrackType::Award || t.kind == crate::track::TrackType::Penalty,
        ensures
            t.self_now_point == t.self_history_point,
            t.rival_now_point == t.rival_history_point,
            point_in(post.points@, sc.id) matches Some(p) && p.point == entry_or0(
                pre.points@,
                sc.id,
                now,
            ).point,
            point_in(post.points@, rc.id) matches Some(p) && p.point == entry_or0(
                pre.points@,
                rc.id,
                now,
            ).point,
    {
        let s0 = entry_or0(pre.points@, sc.id, now);
        let r0 = entry_or0(pre.points@, rc.id, now);
        crate::track::lemma_reward_preserves_scores(
            s0.point as int,
            r0.point as int,
            s0.reward_point as int,
            r0.reward_point as int,
            crate::track::recent_wins(pre.tracks@, sc.id, HISTORY_LIMIT as int),
            crate::track::recent_wins(pre.tracks@, rc.id, HISTORY_LIMIT as int),
        );
    }

    /// The full contract of [`Store::reverse_outcome`]: missing records
    /// and missing ledger entries are `NotFound`, irreversible records
    /// are `Rejected`, and a reversal appends one compensating record
    /// with the inverted result and moves each ledger score by two
    /// points against the original outcome.
    pub open spec fn reverse_post(
        pre: Store,
        post: Store,
        track_id: u64,
        now: i64,
        r: Result<Track, ReverseError>,
    ) -> bool {
        match track_in(pre.tracks@, track_id) {
            None => post == pre && r == Err::<Track, ReverseError>(ReverseError::NotFound),
            Some(t0) => {
                if !reversible(t0) {
                    post == pre && r == Err::<Track, ReverseError>(ReverseError::Rejected)
                } else if point_in(pre.points@, t0.self_clan_id) is None || point_in(
                    pre.points@,
                    t0.rival_clan_id,
                ) is None {
                    post == pre && r == Err::<Track, ReverseError>(ReverseError::NotFound)
                } else {
                    let sp = point_in(pre.points@, t0.self_clan_id)->0;
                    let rp = point_in(pre.points@, t0.rival_clan_id)->0;
                    let won = t0.result == crate::track::TrackResult::Win;
                    let sd: i64 = if won {
                        2i64
                    } else {
                        -2i64
                    };
                    &&& r matches Ok(t) && {
                        &&& t.id == pre.next_id
                        &&& t.round_id == t0.round_id
                        &&& t.create_time == now
                        &&& t.self_clan_id == t0.self_clan_id
                        &&& t.rival_clan_id == t0.rival_clan_id
                        &&& t.result == (if won {
                            crate::track::TrackResult::Lose
                        } else {
                            crate::track::TrackResult::Win
                        })
                        &&& t.kind == crate::track::TrackType::Reverse
                        &&& t.self_history_point == t0.self_history_point
                        &&& t.rival_history_point == t0.rival_history_point
                        &&& t.self_now_point == t0.self_history_point + (if won {
                            1int
                        } else {
                            -1int
                        })
                        &&& t.rival_now_point == t0.rival_history_point + (if won {
                            -1int
                        } else {
                            1int
                        })
                        &&& t.reward_info == t0.reward_info
                        &&& crate::track::opt_bytes_like(t.round_code, t0.round_code)
                        &&& crate::track::opt_bytes_like(t.self_tag, t0.self_tag)
                        &&& crate::track::opt_bytes_like(t.self_name, t0.self_name)
                        &&& crate::track::opt_bytes_like(t.rival_tag, t0.rival_tag)
                        &&& crate::track::opt_bytes_like(t.rival_name, t0.rival_name)
                        &&& post.tracks@.len() == pre.tracks@.len() + 1
                        &&& post.tracks@.take(pre.tracks@.len() as int) == pre.tracks@
                        &&& crate::track::track_like(post.tracks@.last(), t)
                    }
                    &&& point_in(post.points@, t0.self_clan_id) == Some(scored(sp, sd, now))
                    &&& point_in(post.points@, t0.rival_clan_id) == Some(
                        scored(rp, (-sd) as i64, now),
                    )
                    &&& forall|c: u64|
                        c != t0.self_clan_id && c != t0.rival_clan_id ==> point_in(post.points@, c)
                            == point_in(pre.points@, c)
                    &&& post.rounds@ == pre.rounds@
                    &&& post.clans@ == pre.clans@
                    &&& post.next_id == pre.next_id + 1
                    &&& post.alliance_series_id == pre.alliance_series_id
                }
            },
        }
    }

    /// Inverts a previously recorded internal outcome: appends a
    /// compensating `Reverse` record with the opposite result and backs
    /// the two points the original resolution moved out again, twice
    /// over, so the ledger ends as if the opposite had been recorded.
    #[verifier::rlimit(100)]
    pub fn reverse_outcome(&mut self, track_id: u64, now: i64) -> (r: Result<Track, ReverseError>)
        requires
            old(self).wf(),
            old(self).ledgers_bounded(),
            old(self).records_bounded(),
            old(self).next_id < u64::MAX,
        ensures
            final(self).wf(),
            Store::reverse_post(*old(self), *final(self), track_id, now, r),
    {
        let ghost pre = *old(self);
        let ti = match self.find_track_idx(track_id) {
            None => {
                return Err(ReverseError::NotFound);
            },
            Some(i) => i,
        };
        let not_internal = match self.tracks[ti].kind {
            crate::track::TrackType::Internal => false,
            _ => true,
        };
        let undecided = match self.tracks[ti].result {
            crate::track::TrackResult::Undecided => true,
            _ => false,
        };
        let sid = self.tracks[ti].self_clan_id;
        let rid = self.tracks[ti].rival_clan_id;
        if not_internal || undecided || sid == rid {
            return Err(ReverseError::Rejected);
        }
        if self.find_point_idx(sid).is_none() || self.find_point_idx(rid).is_none() {
            return Err(ReverseError::NotFound);
        }
        let won = match self.tracks[ti].result {
            crate::track::TrackResult::Win => true,
            _ => false,
        };
        let sd: i64 = if won {
            2
        } else {
            -2
        };
        let fresh_id = self.next_id;
        let t0 = &self.tracks[ti];
        let t = Track {
            id: fresh_id,
            self_clan_id: sid,
            rival_clan_id: rid,
            self_history_point: t0.self_history_point,
            rival_history_point: t0.rival_history_point,
            create_time: now,
            self_now_point: if won {
                t0.self_history_point + 1
            } else {
                t0.self_history_point - 1
            },
            rival_now_point: if won {
                t0.rival_history_point - 1
            } else {
                t0.rival_history_point + 1
            },
            round_id: t0.round_id,
            result: if won {
                crate::track::TrackResult::Lose
            } else {
                crate::track::TrackResult::Win
            },
            kind: crate::track::TrackType::Reverse,
            reward_info: t0.reward_info,
            round_code: crate::clan::opt_bytes_clone(&t0.round_code),
            self_tag: crate::clan::opt_bytes_clone(&t0.self_tag),
            self_name: crate::clan::opt_bytes_clone(&t0.self_name),
            rival_tag: crate::clan::opt_bytes_clone(&t0.rival_tag),
            rival_name: crate::clan::opt_bytes_clone(&t0.rival_name),
        };
        proof {
            lemma_bounded_entry(pre, sid);
            lemma_bounded_entry(pre, rid);
            assert(i64::MIN + 2 <= pre.tracks@[ti as int].self_history_point <= i64::MAX - 2);
            assert(i64::MIN + 2 <= pre.tracks@[ti as int].rival_history_point <= i64::MAX - 2);
        }
        let t_out = crate::track::track_copy(&t);
        let ghost mid = *self;
        self.tracks.push(t);
        self.next_id = self.next_id + 1;
        proof {
            assert(self.tracks@.take(pre.tracks@.len() as int) =~= pre.tracks@);
            assert forall|i: int, j: int|
                0 <= i < self.tracks@.len() && 0 <= j < self.tracks@.len() && i != j implies (
            #[trigger] self.tracks@[i]).id != (#[trigger] self.tracks@[j]).id by {
                let n = pre.tracks@.len() as int;
                if i < n && j < n {
                    assert(pre.tracks@[i].id != pre.tracks@[j].id);
                } else if i == n {
                    assert(self.tracks@[j].id < pre.next_id);
                } else if j == n {
                    assert(self.tracks@[i].id < pre.next_id);
                }
            }
        }
        self.apply_delta(sid, sd, now);
        let rd: i64 = if won {
            -2
        } else {
            2
        };
        self.apply_delta(rid, rd, now);
        Ok(t_out)
    }
}

} // verus!
