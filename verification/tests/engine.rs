//! End-to-end behaviour of the outcome engine: guards, reward priority,
//! score comparison, tie-break, the oracle path, and reversal.

use orange::clan::STATUS_ALLIANCE;
use orange::clan::STATUS_MEMBER;
use orange::clan::STATUS_UNDECIDED;
use orange::middle::MiddleApi;
use orange::round::RoundTime;
use orange::store::Registration;
use orange::store::RegisterError;
use orange::store::ReverseError;
use orange::store::Store;
use orange::track::Track;
use orange::track::TrackResult;
use orange::track::TrackType;

const NOW: i64 = 1_709_641_800;

fn march_round() -> RoundTime {
    RoundTime { year: 2024, month: 3, day: 5, hour: 0, minute: 0, second: 0 }
}

/// A store with one open round and two member units A (#AAA) and B
/// (#BBB), both with a ledger entry holding the given scores and
/// credits.
fn setup(a_score: i64, a_credit: i64, b_score: i64, b_credit: i64) -> (Store, u64, u64) {
    let mut store = Store::new(Some(77));
    store.create_round(&march_round(), 0, NOW - 1000).unwrap();
    let a = store
        .add_clan(b"#AAA".to_vec(), Some(b"Alpha".to_vec()), STATUS_MEMBER, None, true, NOW - 900)
        .unwrap();
    let b = store
        .add_clan(b"#BBB".to_vec(), Some(b"Beta".to_vec()), STATUS_MEMBER, None, true, NOW - 900)
        .unwrap();
    store.upsert(a, 0, NOW - 800);
    store.upsert(b, 0, NOW - 800);
    store.apply_delta(a, a_score, NOW - 700).unwrap();
    store.apply_delta(b, b_score, NOW - 700).unwrap();
    store.apply_reward_delta(a, a_credit, NOW - 600).unwrap();
    store.apply_reward_delta(b, b_credit, NOW - 600).unwrap();
    (store, a, b)
}

fn register(store: &mut Store) -> Result<Registration, RegisterError> {
    let self_tag = b"#AAA".to_vec();
    let rival_tag = b"#BBB".to_vec();
    store.register_outcome(&self_tag, Some(&rival_tag), true, false, NOW)
}

fn completed(r: Result<Registration, RegisterError>) -> Track {
    match r.expect("registration failed") {
        Registration::Completed(t) => t,
        other => panic!("expected a completed registration, got {other:?}"),
    }
}

#[test]
fn no_round_is_not_found() {
    let mut store = Store::new(None);
    let tag = b"#AAA".to_vec();
    let rival = b"#BBB".to_vec();
    let r = store.register_outcome(&tag, Some(&rival), true, false, NOW);
    assert_eq!(r, Err(RegisterError::NotFound));
}

#[test]
fn unopened_round_is_rejected() {
    let mut store = Store::new(None);
    store.create_round(&march_round(), 0, NOW - 1000).unwrap();
    let tag = b"#AAA".to_vec();
    let rival = b"#BBB".to_vec();
    // The round starts at NOW; one second earlier it has not opened.
    let r = store.register_outcome(&tag, Some(&rival), true, false, NOW - 86_400 - 1);
    assert_eq!(r, Err(RegisterError::RoundClosed));
}

#[test]
fn missing_rival_asks_for_opponent() {
    let (mut store, _, _) = setup(0, 0, 0, 0);
    let tag = b"#AAA".to_vec();
    let r = store.register_outcome(&tag, None, true, false, NOW);
    assert_eq!(r, Ok(Registration::NeedOpponent));
    let r2 = store.register_outcome(&tag, None, false, false, NOW);
    assert_eq!(r2, Err(RegisterError::NotFound));
}

#[test]
fn self_pairing_is_a_conflict() {
    let (mut store, _, _) = setup(0, 0, 0, 0);
    let tag = b"#AAA".to_vec();
    let same = b"#AAA".to_vec();
    let r = store.register_outcome(&tag, Some(&same), true, false, NOW);
    assert_eq!(r, Err(RegisterError::Conflict));
}

#[test]
fn lower_score_wins_and_scores_move_one_point() {
    let (mut store, a, b) = setup(5, 0, 9, 0);
    let t = completed(register(&mut store));
    assert_eq!(t.result, TrackResult::Win);
    assert_eq!(t.kind, TrackType::Internal);
    assert_eq!(t.self_history_point, 5);
    assert_eq!(t.rival_history_point, 9);
    assert_eq!(t.self_now_point, 4);
    assert_eq!(t.rival_now_point, 10);
    assert_eq!(store.get_ledger(a).unwrap().point, 4);
    assert_eq!(store.get_ledger(b).unwrap().point, 10);
}

#[test]
fn higher_score_loses() {
    let (mut store, a, b) = setup(9, 0, 5, 0);
    let t = completed(register(&mut store));
    assert_eq!(t.result, TrackResult::Lose);
    assert_eq!(t.kind, TrackType::Internal);
    assert_eq!(store.get_ledger(a).unwrap().point, 10);
    assert_eq!(store.get_ledger(b).unwrap().point, 4);
}

#[test]
fn resolution_is_zero_sum() {
    let (mut store, a, b) = setup(7, 0, 7, 0);
    let t = completed(register(&mut store));
    assert_eq!(
        t.self_now_point + t.rival_now_point,
        t.self_history_point + t.rival_history_point
    );
    assert_eq!((t.self_now_point - t.self_history_point).abs(), 1);
    let sum = store.get_ledger(a).unwrap().point + store.get_ledger(b).unwrap().point;
    assert_eq!(sum, 14);
}

#[test]
fn self_credit_forces_award_win() {
    // The registering side banks two credits: it wins by award, one
    // credit is consumed, and no score moves.
    let (mut store, a, b) = setup(10, 2, 10, 0);
    let t = completed(register(&mut store));
    assert_eq!(t.result, TrackResult::Win);
    assert_eq!(t.kind, TrackType::Award);
    assert_eq!(t.self_now_point, t.self_history_point);
    assert_eq!(t.rival_now_point, t.rival_history_point);
    let info = t.reward_info.expect("award records carry a credit snapshot");
    assert_eq!(info.self_history, 2);
    assert_eq!(info.self_now, 1);
    assert_eq!(store.get_ledger(a).unwrap().reward_point, 1);
    assert_eq!(store.get_ledger(a).unwrap().point, 10);
    assert_eq!(store.get_ledger(b).unwrap().point, 10);
}

#[test]
fn rival_debt_forces_award_win() {
    let (mut store, a, b) = setup(10, 0, 10, -2);
    let t = completed(register(&mut store));
    assert_eq!(t.result, TrackResult::Win);
    assert_eq!(t.kind, TrackType::Award);
    assert_eq!(store.get_ledger(b).unwrap().reward_point, -1);
    assert_eq!(store.get_ledger(a).unwrap().reward_point, 0);
    assert_eq!(store.get_ledger(a).unwrap().point, 10);
}

#[test]
fn rival_credit_forces_penalty_loss() {
    let (mut store, a, b) = setup(10, 0, 10, 3);
    let t = completed(register(&mut store));
    assert_eq!(t.result, TrackResult::Lose);
    assert_eq!(t.kind, TrackType::Penalty);
    assert_eq!(store.get_ledger(b).unwrap().reward_point, 2);
    assert_eq!(store.get_ledger(a).unwrap().point, 10);
    assert_eq!(store.get_ledger(b).unwrap().point, 10);
    let _ = a;
}

#[test]
fn self_debt_forces_penalty_loss() {
    let (mut store, a, _) = setup(10, -1, 10, 0);
    let t = completed(register(&mut store));
    assert_eq!(t.result, TrackResult::Lose);
    assert_eq!(t.kind, TrackType::Penalty);
    assert_eq!(store.get_ledger(a).unwrap().reward_point, 0);
}

#[test]
fn self_credit_takes_precedence_over_rival_debt() {
    let (mut store, a, b) = setup(10, 1, 10, -1);
    let t = completed(register(&mut store));
    assert_eq!(t.kind, TrackType::Award);
    assert_eq!(store.get_ledger(a).unwrap().reward_point, 0);
    assert_eq!(store.get_ledger(b).unwrap().reward_point, -1);
}

#[test]
fn equal_everything_favors_the_registering_side() {
    // Equal scores, balanced credits, equal (empty) histories: the
    // reward stage must not fire and the tie-break must pick the
    // registering side, deterministically.
    let (mut store, _, _) = setup(10, 0, 10, 0);
    let t = completed(register(&mut store));
    assert_eq!(t.result, TrackResult::Win);
    assert_eq!(t.kind, TrackType::Internal);
    // A second registration returns the very same record: no
    // oscillation across repeated calls.
    let again = completed(register(&mut store));
    assert_eq!(again, t);
}

#[test]
fn tie_break_counts_recent_wins() {
    // Equal scores; A carries one more recorded victory than B, so B
    // would win a tie-break against it: registering A against B makes
    // A lose.
    let (mut store, a, b) = setup(10, 0, 10, 0);
    let round_id = store.rounds[0].id;
    // A past round's record: A beat some third unit (id 999).
    store.tracks.push(Track {
        id: 900,
        self_clan_id: a,
        rival_clan_id: 999,
        self_history_point: 0,
        rival_history_point: 0,
        create_time: NOW - 500,
        self_now_point: -1,
        rival_now_point: 1,
        round_id: round_id.wrapping_sub(1),
        result: TrackResult::Win,
        kind: TrackType::Internal,
        reward_info: None,
        round_code: None,
        self_tag: None,
        self_name: None,
        rival_tag: None,
        rival_name: None,
    });
    let t = completed(register(&mut store));
    assert_eq!(t.result, TrackResult::Lose);
    assert_eq!(t.kind, TrackType::Internal);
    let _ = b;
}

#[test]
fn equal_recent_win_counts_favor_self() {
    // Both sides carry three victories among their last matches: the
    // tie-break fires and equal counts favour the registering side.
    let (mut store, a, b) = setup(10, 0, 10, 0);
    for k in 0..3u64 {
        for (unit, id) in [(a, 800 + k), (b, 850 + k)] {
            store.tracks.push(Track {
                id,
                self_clan_id: unit,
                rival_clan_id: 999,
                self_history_point: 0,
                rival_history_point: 0,
                create_time: NOW - 500,
                self_now_point: -1,
                rival_now_point: 1,
                round_id: 424,
                result: TrackResult::Win,
                kind: TrackType::Internal,
                reward_info: None,
                round_code: None,
                self_tag: None,
                self_name: None,
                rival_tag: None,
                rival_name: None,
            });
        }
    }
    let t = completed(register(&mut store));
    assert_eq!(t.result, TrackResult::Win);
    assert_eq!(t.kind, TrackType::Internal);
}

#[test]
fn registering_twice_returns_the_same_record() {
    let (mut store, _, _) = setup(4, 0, 9, 0);
    let first = completed(register(&mut store));
    let records = store.tracks.len();
    let second = completed(register(&mut store));
    assert_eq!(second, first);
    assert_eq!(store.tracks.len(), records, "no duplicate rows");
    // The second party reads the same record back too.
    let b_tag = b"#BBB".to_vec();
    let a_tag = b"#AAA".to_vec();
    let third = completed(store.register_outcome(&b_tag, Some(&a_tag), true, false, NOW));
    assert_eq!(third, first);
}

#[test]
fn registered_rival_is_a_conflict() {
    let (mut store, _, _) = setup(4, 0, 9, 0);
    completed(register(&mut store));
    let c = store
        .add_clan(b"#CCC".to_vec(), None, STATUS_MEMBER, None, true, NOW - 100)
        .unwrap();
    store.upsert(c, 0, NOW - 100);
    let c_tag = b"#CCC".to_vec();
    let b_tag = b"#BBB".to_vec();
    let r = store.register_outcome(&c_tag, Some(&b_tag), true, false, NOW);
    assert_eq!(r, Err(RegisterError::Conflict));
}

#[test]
fn prefer_reversed_swaps_the_sides() {
    let (mut store, a, b) = setup(5, 0, 9, 0);
    // B is the caller but registers as the second party: the named
    // pairing stays "A versus B", so A still takes the win.
    let b_tag = b"#BBB".to_vec();
    let a_tag = b"#AAA".to_vec();
    let t = completed(store.register_outcome(&b_tag, Some(&a_tag), true, true, NOW));
    assert_eq!(t.self_clan_id, a);
    assert_eq!(t.rival_clan_id, b);
    assert_eq!(t.result, TrackResult::Win);
}

fn oracle_reply(my: &[u8], opp: &[u8], win: &[u8], err: bool) -> MiddleApi {
    MiddleApi {
        my_tag: my.to_vec(),
        my_name: Some(b"Mine".to_vec()),
        opp_tag: opp.to_vec(),
        opp_name: Some(b"Theirs".to_vec()),
        match_type: None,
        win_tag: win.to_vec(),
        win_name: None,
        explain_ch: None,
        explain_en: None,
        email: None,
        match_strategy: None,
        round_score: 0,
        err,
    }
}

#[test]
fn unknown_units_ask_for_the_oracle() {
    let mut store = Store::new(Some(77));
    store.create_round(&march_round(), 0, NOW - 1000).unwrap();
    let tag = b"#XXX".to_vec();
    let rival = b"#YYY".to_vec();
    let r = store.register_outcome(&tag, Some(&rival), true, false, NOW);
    assert_eq!(r, Ok(Registration::NeedOracle));
    assert_eq!(store.tracks.len(), 0, "asking for the oracle mutates nothing");
}

#[test]
fn failed_oracle_records_an_undecided_external_result() {
    // Neither unit has a ledger entry; the oracle itself reports that
    // it could not determine a result.
    let mut store = Store::new(Some(77));
    store.create_round(&march_round(), 0, NOW - 1000).unwrap();
    let tag = b"#XXX".to_vec();
    let reply = oracle_reply(b"#XXX", b"#YYY", b"", true);
    let t = match store
        .register_outcome_external(&tag, true, &reply, NOW)
        .expect("external registration failed")
    {
        Registration::Completed(t) => t,
        other => panic!("expected a completed registration, got {other:?}"),
    };
    assert_eq!(t.result, TrackResult::Undecided);
    assert_eq!(t.kind, TrackType::External);
    assert_eq!(t.self_history_point, 0);
    assert_eq!(t.self_now_point, 0);
    assert_eq!(t.rival_now_point, 0);
    assert_eq!(store.points.len(), 0, "no score mutation on the oracle path");
    // The unknown rival was filed as an externally registered unit.
    let rival = store.clans.iter().find(|c| c.tag == b"#YYY".to_vec()).unwrap();
    assert_eq!(rival.status, STATUS_UNDECIDED);
    assert_eq!(rival.series_id, None);
}

#[test]
fn oracle_win_against_alliance_rival() {
    let mut store = Store::new(Some(77));
    store.create_round(&march_round(), 0, NOW - 1000).unwrap();
    let a = store
        .add_clan(b"#AAA".to_vec(), None, STATUS_MEMBER, None, true, NOW - 900)
        .unwrap();
    store.upsert(a, 3, NOW - 800);
    let tag = b"#AAA".to_vec();
    // The oracle echoes the pairing and names the registering side as
    // the winner.
    let reply = oracle_reply(b"#AAA", b"#ZZZ", b"#AAA", false);
    let t = match store
        .register_outcome_external(&tag, true, &reply, NOW)
        .expect("external registration failed")
    {
        Registration::Completed(t) => t,
        other => panic!("expected a completed registration, got {other:?}"),
    };
    assert_eq!(t.result, TrackResult::Win);
    assert_eq!(t.kind, TrackType::Alliance);
    assert_eq!(t.self_clan_id, a);
    assert_eq!(t.self_history_point, 3);
    assert_eq!(t.self_now_point, 3, "the oracle path bypasses score deltas");
    let rival = store.clans.iter().find(|c| c.tag == b"#ZZZ".to_vec()).unwrap();
    assert_eq!(rival.status, STATUS_ALLIANCE);
    assert_eq!(rival.series_id, Some(77));
    assert_eq!(t.rival_clan_id, rival.id);
    // A loss comes when the oracle names the rival as the winner.
    let mut store2 = Store::new(None);
    store2.create_round(&march_round(), 0, NOW - 1000).unwrap();
    let tag2 = b"#QQQ".to_vec();
    let reply2 = oracle_reply(b"#QQQ", b"#ZZZ", b"#ZZZ", false);
    let t2 = match store2
        .register_outcome_external(&tag2, true, &reply2, NOW)
        .expect("external registration failed")
    {
        Registration::Completed(t) => t,
        other => panic!("expected a completed registration, got {other:?}"),
    };
    assert_eq!(t2.result, TrackResult::Lose);
    assert_eq!(t2.kind, TrackType::Alliance);
}

#[test]
fn oracle_swapped_reply_resolves_sides() {
    // The oracle answered with the pairing inverted: `my_tag` names
    // the opponent. The rival must still come out as the other side.
    let mut store = Store::new(None);
    store.create_round(&march_round(), 0, NOW - 1000).unwrap();
    let tag = b"#AAA".to_vec();
    let reply = oracle_reply(b"#ZZZ", b"#AAA", b"#AAA", false);
    let t = match store
        .register_outcome_external(&tag, true, &reply, NOW)
        .expect("external registration failed")
    {
        Registration::Completed(t) => t,
        other => panic!("expected a completed registration, got {other:?}"),
    };
    assert_eq!(t.rival_tag, Some(b"#ZZZ".to_vec()));
    // The winner named "#AAA" is not the rival, so the side wins.
    assert_eq!(t.result, TrackResult::Win);
}

#[test]
fn reversal_inverts_result_and_scores() {
    let (mut store, a, b) = setup(5, 0, 9, 0);
    let t = completed(register(&mut store));
    assert_eq!(t.result, TrackResult::Win);
    let rev = store.reverse_outcome(t.id, NOW + 10).expect("reversal failed");
    assert_eq!(rev.result, TrackResult::Lose);
    assert_eq!(rev.kind, TrackType::Reverse);
    assert_eq!(rev.self_history_point, 5);
    assert_eq!(rev.self_now_point, 6);
    assert_eq!(rev.rival_now_point, 8);
    // The ledger ends as if the opposite had been recorded.
    assert_eq!(store.get_ledger(a).unwrap().point, 6);
    assert_eq!(store.get_ledger(b).unwrap().point, 8);
}

#[test]
fn reverse_of_a_reversal_is_rejected() {
    let (mut store, _, _) = setup(5, 0, 9, 0);
    let t = completed(register(&mut store));
    let rev = store.reverse_outcome(t.id, NOW + 10).expect("reversal failed");
    assert_eq!(rev.kind, TrackType::Reverse);
    let again = store.reverse_outcome(rev.id, NOW + 20);
    assert_eq!(again, Err(ReverseError::Rejected));
}

#[test]
fn only_internal_records_are_reversible() {
    let (mut store, _, _) = setup(10, 2, 10, 0);
    let t = completed(register(&mut store));
    assert_eq!(t.kind, TrackType::Award);
    assert_eq!(store.reverse_outcome(t.id, NOW + 10), Err(ReverseError::Rejected));
    assert_eq!(store.reverse_outcome(424_242, NOW + 10), Err(ReverseError::NotFound));
}

#[test]
fn reward_path_of_second_branch_keeps_all_scores() {
    // A rival's standing debt decides the match; both stored scores
    // and both recorded scores stay put (the reward invariant).
    let (mut store, a, b) = setup(3, 0, 8, -1);
    let t = completed(register(&mut store));
    assert_eq!(t.kind, TrackType::Award);
    assert_eq!(t.self_now_point, 3);
    assert_eq!(t.rival_now_point, 8);
    assert_eq!(store.get_ledger(a).unwrap().point, 3);
    assert_eq!(store.get_ledger(b).unwrap().point, 8);
}

#[test]
fn credit_never_accrues_past_the_cap() {
    let (mut store, a, _) = setup(0, 0, 0, 0);
    store.apply_reward_delta(a, 5, NOW).unwrap();
    assert_eq!(store.get_ledger(a).unwrap().reward_point, 5);
    // One more at the cap is silently dropped.
    store.apply_reward_delta(a, 1, NOW).unwrap();
    assert_eq!(store.get_ledger(a).unwrap().reward_point, 5);
    // Consumption is always applied, and accrual resumes below the cap.
    store.apply_reward_delta(a, -2, NOW).unwrap();
    assert_eq!(store.get_ledger(a).unwrap().reward_point, 3);
    store.apply_reward_delta(a, 2, NOW).unwrap();
    assert_eq!(store.get_ledger(a).unwrap().reward_point, 5);
    // A jump past the cap is dropped entirely, not clamped.
    store.apply_reward_delta(a, -1, NOW).unwrap();
    store.apply_reward_delta(a, 3, NOW).unwrap();
    assert_eq!(store.get_ledger(a).unwrap().reward_point, 4);
}

#[test]
fn ledger_operations_report_unknown_units() {
    let mut store = Store::new(None);
    assert_eq!(store.get_ledger(42), None);
    assert_eq!(store.apply_delta(42, 1, NOW), None);
    assert_eq!(store.apply_reward_delta(42, 1, NOW), None);
    // An upsert creates the entry; a second upsert keeps its score.
    let p = store.upsert(42, 7, NOW);
    assert_eq!(p.point, 7);
    let p2 = store.upsert(42, 99, NOW + 1);
    assert_eq!(p2.point, 7);
    assert_eq!(p2.update_time, NOW + 1);
    assert_eq!(store.get_ledger(42).unwrap().point, 7);
}

#[test]
fn external_registration_is_idempotent_too() {
    let (mut store, a, _) = setup(4, 0, 9, 0);
    let first = completed(register(&mut store));
    // The side is already registered this round: the external entry
    // answers with the same record and changes nothing.
    let tag = b"#AAA".to_vec();
    let reply = oracle_reply(b"#AAA", b"#YYY", b"", true);
    let records = store.tracks.len();
    let again = match store
        .register_outcome_external(&tag, true, &reply, NOW)
        .expect("external registration failed")
    {
        Registration::Completed(t) => t,
        other => panic!("expected a completed registration, got {other:?}"),
    };
    assert_eq!(again, first);
    assert_eq!(store.tracks.len(), records);
    assert_eq!(store.get_ledger(a).unwrap().point, 3);
}
