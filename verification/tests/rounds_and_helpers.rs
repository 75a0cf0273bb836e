//! The round registry, the date-time grammar, the period label, tag
//! canonicalization, history counting, and the plain plumbing types.

use orange::clan::bytes_eq;
use orange::clan::canon_tag;
use orange::clan::normalize_tag;
use orange::config::Config;
use orange::config::ConfigServer;
use orange::middle::MiddleApi;
use orange::middle_round::MiddleRoundApi;
use orange::middle_track::cache_is_stale;
use orange::middle_track::MiddleTrackApi;
use orange::middle_track::MiddleTrackApiDetails;
use orange::round::epoch_seconds;
use orange::round::month_days;
use orange::round::parse_round_time;
use orange::round::round_code;
use orange::round::RoundTime;
use orange::store::RoundError;
use orange::store::Store;
use orange::track::count_recent_wins;
use orange::track::Track;
use orange::track::TrackResult;
use orange::track::TrackType;
use orange::auth::VoidToken;
use orange::clan_point::RewardType;

#[test]
fn parses_the_long_form() {
    let t = parse_round_time(&b"2024-03-05T12:30:45".to_vec()).unwrap();
    assert_eq!(
        t,
        RoundTime { year: 2024, month: 3, day: 5, hour: 12, minute: 30, second: 45 }
    );
}

#[test]
fn parses_the_short_form_with_zero_seconds() {
    let t = parse_round_time(&b"1999-12-31T23:59".to_vec()).unwrap();
    assert_eq!(
        t,
        RoundTime { year: 1999, month: 12, day: 31, hour: 23, minute: 59, second: 0 }
    );
}

#[test]
fn rejects_malformed_and_invalid_times() {
    assert_eq!(parse_round_time(&b"2024-03-05".to_vec()), None);
    assert_eq!(parse_round_time(&b"2024-13-05T00:00".to_vec()), None);
    assert_eq!(parse_round_time(&b"2024-00-05T00:00".to_vec()), None);
    assert_eq!(parse_round_time(&b"2024-04-31T00:00".to_vec()), None);
    assert_eq!(parse_round_time(&b"2024-03-05 12:30".to_vec()), None);
    assert_eq!(parse_round_time(&b"2024-03-05T24:00".to_vec()), None);
    assert_eq!(parse_round_time(&b"2024-03-05T12:60".to_vec()), None);
    assert_eq!(parse_round_time(&b"2024-03-05T12:30:60".to_vec()), None);
    assert_eq!(parse_round_time(&b"20x4-03-05T12:30".to_vec()), None);
    assert_eq!(parse_round_time(&b"1969-12-31T23:59".to_vec()), None);
}

#[test]
fn leap_years_are_respected() {
    assert!(parse_round_time(&b"2024-02-29T00:00".to_vec()).is_some());
    assert_eq!(parse_round_time(&b"2023-02-29T00:00".to_vec()), None);
    assert_eq!(month_days(2000, 2), 29);
    assert_eq!(month_days(1900, 2), 28);
    assert_eq!(month_days(2023, 2), 28);
    assert_eq!(month_days(2024, 11), 30);
}

#[test]
fn epoch_seconds_match_the_calendar() {
    let zero = RoundTime { year: 1970, month: 1, day: 1, hour: 0, minute: 0, second: 0 };
    assert_eq!(epoch_seconds(&zero), 0);
    let day2 = RoundTime { year: 1970, month: 1, day: 2, hour: 0, minute: 0, second: 0 };
    assert_eq!(epoch_seconds(&day2), 86_400);
    let y2k = RoundTime { year: 2000, month: 1, day: 1, hour: 0, minute: 0, second: 0 };
    assert_eq!(epoch_seconds(&y2k), 946_684_800);
    let leap = RoundTime { year: 2024, month: 2, day: 29, hour: 0, minute: 0, second: 0 };
    assert_eq!(epoch_seconds(&leap), 1_709_164_800);
    let spring = RoundTime { year: 2024, month: 3, day: 5, hour: 12, minute: 30, second: 0 };
    assert_eq!(epoch_seconds(&spring), 1_709_641_800);
}

#[test]
fn the_period_label_is_the_prefixed_date() {
    let t = RoundTime { year: 2024, month: 3, day: 5, hour: 12, minute: 30, second: 0 };
    assert_eq!(round_code(&t), b"GLOBAL20240305".to_vec());
    let t2 = RoundTime { year: 1999, month: 12, day: 31, hour: 0, minute: 0, second: 0 };
    assert_eq!(round_code(&t2), b"GLOBAL19991231".to_vec());
}

#[test]
fn round_creation_and_the_no_new_period_rule() {
    let mut store = Store::new(None);
    let t = RoundTime { year: 2024, month: 3, day: 5, hour: 12, minute: 30, second: 0 };
    let round = store.create_round(&t, 3600, 100).unwrap();
    assert_eq!(round.code, b"GLOBAL20240305".to_vec());
    // The effective start is the wall-clock moment minus the zone offset.
    assert_eq!(round.round_time, 1_709_641_800 - 3600);
    assert_eq!(round.create_time, 100);
    assert!(round.check_not_now(round.round_time - 1));
    assert!(!round.check_not_now(round.round_time));
    assert_eq!(round.get_id(), round.id);
    assert_eq!(round.get_code(), &round.code);
    // The same effective start again: no new period has begun.
    let again = store.create_round(&t, 3600, 200);
    assert_eq!(again, Err(RoundError::NoNewPeriod));
    assert_eq!(store.rounds.len(), 1);
    // A different start creates the next round, which becomes latest.
    let t2 = RoundTime { year: 2024, month: 3, day: 19, hour: 12, minute: 30, second: 0 };
    let round2 = store.create_round(&t2, 3600, 300).unwrap();
    assert_eq!(store.rounds.len(), 2);
    assert_eq!(store.latest_round().unwrap().id, round2.id);
}

#[test]
fn tags_are_canonicalized() {
    assert_eq!(canon_tag(&b"#2J99x".to_vec()), b"#2J99x".to_vec());
    assert_eq!(canon_tag(&b"2J99x".to_vec()), b"#2J99x".to_vec());
    assert_eq!(canon_tag(&b"##2J#99x".to_vec()), b"#2J99x".to_vec());
    assert_eq!(canon_tag(&b"".to_vec()), b"#".to_vec());
    assert_eq!(normalize_tag(&b"#2j99x".to_vec()), b"#2J99X".to_vec());
    assert_eq!(normalize_tag(&b"abc#".to_vec()), b"#ABC".to_vec());
    assert!(bytes_eq(&b"#AAA".to_vec(), &b"#AAA".to_vec()));
    assert!(!bytes_eq(&b"#AAA".to_vec(), &b"#AAB".to_vec()));
    assert!(!bytes_eq(&b"#AAA".to_vec(), &b"#AAAA".to_vec()));
}

fn history_record(id: u64, unit: u64, rival: u64, result: TrackResult) -> Track {
    Track {
        id,
        self_clan_id: unit,
        rival_clan_id: rival,
        self_history_point: 0,
        rival_history_point: 0,
        create_time: 0,
        self_now_point: 0,
        rival_now_point: 0,
        round_id: 1,
        result,
        kind: TrackType::Internal,
        reward_info: None,
        round_code: None,
        self_tag: None,
        self_name: None,
        rival_tag: None,
        rival_name: None,
    }
}

#[test]
fn recent_wins_count_both_sides_within_the_window() {
    let mut tracks: Vec<Track> = Vec::new();
    // A victory as the registering side, and one recorded from the
    // rival seat (a loss of the other side), both count.
    tracks.push(history_record(1, 7, 8, TrackResult::Win));
    tracks.push(history_record(2, 9, 7, TrackResult::Lose));
    tracks.push(history_record(3, 7, 8, TrackResult::Lose));
    tracks.push(history_record(4, 8, 9, TrackResult::Win));
    assert_eq!(count_recent_wins(&tracks, 7, 10), 2);
    assert_eq!(count_recent_wins(&tracks, 8, 10), 2);
    assert_eq!(count_recent_wins(&tracks, 9, 10), 0);
    // The window looks at the most recent appearances only.
    let mut long: Vec<Track> = Vec::new();
    long.push(history_record(10, 7, 8, TrackResult::Win));
    for k in 0..10u64 {
        long.push(history_record(11 + k, 7, 8, TrackResult::Lose));
    }
    assert_eq!(count_recent_wins(&long, 7, 10), 0);
    assert_eq!(count_recent_wins(&long, 7, 11), 1);
}

#[test]
fn cache_staleness_has_a_one_hour_boundary() {
    assert!(!cache_is_stale(1000, 1000 + 3600));
    assert!(cache_is_stale(1000, 1000 + 3601));
    assert!(!cache_is_stale(1000, 500));
}

#[test]
fn middle_round_report_announces_new_rounds() {
    let same = MiddleRoundApi {
        current_round: "R12".to_string(),
        current_round_sync_time: "2024-03-05T12:30".to_string(),
        future_round: "R12".to_string(),
        future_round_sync_time: "2024-03-05T12:30".to_string(),
    };
    assert!(!same.has_new_round());
    let moved = MiddleRoundApi {
        current_round: "R12".to_string(),
        current_round_sync_time: "2024-03-05T12:30".to_string(),
        future_round: "R13".to_string(),
        future_round_sync_time: "2024-03-19T12:30".to_string(),
    };
    assert!(moved.has_new_round());
}

#[test]
fn middle_track_conversions_carry_every_field() {
    let api = MiddleTrackApi {
        server: "bz".to_string(),
        bz_total_score: 12,
        public_total_score: 34,
        details: vec![MiddleTrackApiDetails {
            bz_round: 1,
            round_point: 2,
            round_result: "win".to_string(),
            clan_tag: "#AAA".to_string(),
            opp_clan_tag: "#BBB".to_string(),
            explain: "ok".to_string(),
        }],
        summary: vec!["fine".to_string()],
        tag: "#AAA".to_string(),
    };
    let row = api.clone().self_to_database();
    assert_eq!(row.server, "bz");
    assert_eq!(row.bz_total_score, 12);
    assert_eq!(row.public_total_score, 34);
    assert_eq!(row.details, api.details);
    assert_eq!(row.summary, api.summary);
    assert_eq!(row.tag, "#AAA");
    assert_eq!(row.self_to_api(), api);
}

#[test]
fn oracle_reply_side_and_result_reading() {
    let reply = MiddleApi {
        my_tag: b"2J99".to_vec(),
        my_name: Some(b"Mine".to_vec()),
        opp_tag: b"#QQ8".to_vec(),
        opp_name: Some(b"Theirs".to_vec()),
        match_type: None,
        win_tag: b"QQ8".to_vec(),
        win_name: None,
        explain_ch: None,
        explain_en: None,
        email: None,
        match_strategy: None,
        round_score: 0,
        err: false,
    };
    // The echoed tags are canonicalized before any comparison.
    let sides = reply.rival_of(&b"#2J99".to_vec());
    assert_eq!(sides.rival_tag, b"#QQ8".to_vec());
    assert_eq!(sides.self_name, Some(b"Mine".to_vec()));
    assert_eq!(sides.rival_name, Some(b"Theirs".to_vec()));
    // The named winner is the rival: the registering side loses.
    let (result, kind) = reply.decide(&sides.rival_tag);
    assert_eq!(result, TrackResult::Lose);
    assert_eq!(kind, TrackType::Alliance);
}

#[test]
fn config_accessors_fall_back_to_defaults() {
    let empty = Config { server: None, database: None, redis: None, coc_api: None };
    let server = empty.get_server();
    assert_eq!(server.get_port(), 50000);
    assert_eq!(server.get_path(), "0.0.0.0");
    assert_eq!(server._get_url(), "0.0.0.0:50000");
    assert!(empty.get_database().host.is_none());
    assert!(empty.get_redis().url.is_none());
    assert!(empty.get_api().token.is_none());
    let set = Config {
        server: Some(ConfigServer {
            url: None,
            path: Some("127.0.0.1".to_string()),
            port: Some(8080),
        }),
        database: None,
        redis: None,
        coc_api: None,
    };
    let s = set.get_server();
    assert_eq!(s.get_port(), 8080);
    assert_eq!(s.get_path(), "127.0.0.1");
    assert_eq!(s._get_url(), "0.0.0.0:50000");
}

#[test]
fn tokens_wrap_their_text() {
    let token = VoidToken::new("argon2id$abc".to_string());
    assert_eq!(token.text().as_str(), "argon2id$abc");
    assert_eq!(token.0, "argon2id$abc");
}

#[test]
fn administrative_grants_carry_their_credit_deltas() {
    assert_eq!(RewardType::HitExternal.credit_delta(), 1);
    assert_eq!(RewardType::FaceBlack.credit_delta(), 1);
    assert_eq!(RewardType::Penalty.credit_delta(), -1);
    assert_eq!(RewardType::Penalty2.credit_delta(), -2);
    assert_eq!(RewardType::Penalty3.credit_delta(), -3);
    assert!(RewardType::Penalty.is_reward_penalty());
    assert!(!RewardType::Penalty2.is_reward_penalty());
    assert!(!RewardType::HitExternal.is_reward_penalty());
}
