use svo_backend::metrics_stream::{LineFramer, TimelineStreamError};
use svo_backend::metrics_summary::{
    decode_warnings, delivery_nonce, duration_footer, existing_ingestion_outcome, last_max, match_highlights,
    outbox_failure_status, LeaderboardMetric,
};
use svo_backend::metrics_tally::{AggregationError, FinishedPlayer, MatchTally, TallyEvent, TimelineTally};

const GAME: u128 = 0x0000_0000_0000_0000_0000_0000_0000_0001;
const OTHER_GAME: u128 = 0x0000_0000_0000_0000_0000_0000_0000_0099;
const A: u128 = 0x0000_0000_0000_0000_0000_0000_0000_0002;
const B: u128 = 0x0000_0000_0000_0000_0000_0000_0000_0003;
const C: u128 = 0x0000_0000_0000_0000_0000_0000_0000_0004;

fn start(ts: i64) -> TallyEvent {
    TallyEvent::GameStarted { timestamp_ms: ts, game_id: GAME, map: "svo".to_string() }
}

fn end(ts: i64, winner: Option<&str>) -> TallyEvent {
    TallyEvent::GameEnded { timestamp_ms: ts, game_id: GAME, winning_team: winner.map(|w| w.to_string()) }
}

fn join(ts: i64, id: u128, nick: &str, team: &str) -> TallyEvent {
    TallyEvent::PlayerJoined {
        timestamp_ms: ts,
        player_id: id,
        nickname: nick.to_string(),
        team: Some(team.to_string()),
    }
}

fn death(ts: i64, victim: u128, killer: Option<u128>, assistants: Vec<u128>) -> TallyEvent {
    TallyEvent::PlayerDeath {
        timestamp_ms: ts,
        victim_id: victim,
        killer_id: killer,
        source_kind: "weapon".to_string(),
        breakdown_key: "ak".to_string(),
        assistants,
    }
}

fn run(events: Vec<TallyEvent>) -> Result<MatchTally, AggregationError> {
    let mut tally = TimelineTally::new(GAME);
    let mut line: u64 = 0;
    for event in events {
        line += 1;
        tally.apply(event, line)?;
    }
    tally.finish()
}

fn player(t: &MatchTally, id: u128) -> &FinishedPlayer {
    t.players.iter().find(|p| p.tally.player_id == id).expect("player")
}

fn count(entries: &[(String, u64)], key: &str) -> u64 {
    entries.iter().find(|(k, _)| k == key).map(|(_, v)| *v).unwrap_or(0)
}

#[test]
fn kills_and_assists_go_to_other_teams_only() {
    let t = run(vec![
        start(0),
        join(1, A, "A", "Attack"),
        join(2, B, "B", "Defense"),
        join(3, C, "C", "Attack"),
        death(10, B, Some(A), vec![C]),
        end(20, Some("Attack")),
    ])
    .expect("valid timeline");
    let a = player(&t, A);
    assert_eq!(a.tally.kills, 1);
    assert_eq!(count(&a.tally.kills_by_weapon, "ak"), 1);
    assert_eq!(player(&t, C).tally.assists, 1);
    assert_eq!(player(&t, B).tally.deaths, 1);
    assert_eq!(count(&player(&t, B).tally.deaths_by_source, "weapon"), 1);
    assert_eq!(a.wins, 1);
    assert_eq!(player(&t, B).losses, 1);
    assert!(t.completed);
}

#[test]
fn distinguishes_teamkill_suicide_and_environment_death_counts() {
    let t = run(vec![
        start(0),
        join(1, A, "A", "Attack"),
        join(2, B, "B", "Attack"),
        death(3, B, Some(A), vec![]),
        death(4, A, Some(A), vec![]),
        death(5, B, None, vec![]),
        end(10, None),
    ])
    .expect("valid timeline");
    let a = player(&t, A);
    let b = player(&t, B);
    assert_eq!(a.tally.teamkills, 1);
    assert_eq!(a.tally.kills, 0);
    assert_eq!(a.tally.suicides, 1);
    assert_eq!(a.tally.environment_deaths, 0);
    assert_eq!(b.tally.suicides, 1);
    assert_eq!(b.tally.environment_deaths, 1);
    assert_eq!(b.tally.deaths, 2);
}

#[test]
fn team_changes_and_headshots_are_counted() {
    let t = run(vec![
        start(0),
        join(1, A, "A", "Attack"),
        TallyEvent::PlayerTeamChanged { timestamp_ms: 2, player_id: A, new_team: "Defense".to_string() },
        TallyEvent::PlayerDamage { timestamp_ms: 3, victim_id: B, attacker_id: Some(A), headshot: true },
        end(12, None),
    ])
    .expect("valid timeline");
    let a = player(&t, A);
    assert!(a.tally.changed_team);
    assert_eq!(a.tally.team_changes, 1);
    assert_eq!(a.tally.initial_team.as_deref(), Some("Attack"));
    assert_eq!(a.tally.current_team.as_deref(), Some("Defense"));
    assert_eq!(a.tally.headshots, 1);
    assert!(t.warnings.iter().any(|w| w.contains("was referenced before player_joined")));
}

#[test]
fn deduplicates_vehicle_events_and_excludes_empty_and_teamkills_in_tally() {
    let destroyed = |entity: &str, vt: &str, teamkill: bool| TallyEvent::VehicleDestroyed {
        timestamp_ms: 5,
        vehicle_entity_id: entity.to_string(),
        vehicle_type: Some(vt.to_string()),
        attacker_id: Some(A),
        vehicle_owner_id: Some(B),
        breakdown_key: "rpg".to_string(),
        is_team_kill: teamkill,
    };
    let damage = |entity: &str| TallyEvent::VehicleDamage {
        timestamp_ms: 4,
        vehicle_entity_id: entity.to_string(),
        attacker_id: Some(A),
        vehicle_owner_id: Some(B),
        is_fatal: true,
    };
    let t = run(vec![
        start(0),
        join(1, A, "A", "Attack"),
        join(2, B, "B", "Defense"),
        damage("vehicle-1"),
        damage("vehicle-1"),
        destroyed("vehicle-1", "CAR", false),
        destroyed("vehicle-1", "CAR", false),
        destroyed("empty", "EMPTY", false),
        destroyed("friendly", "CAR", true),
        end(20, None),
    ])
    .expect("valid timeline");
    let a = player(&t, A);
    assert_eq!(a.tally.vehicle_final_hits, 1);
    assert_eq!(a.tally.vehicle_destructions, 1);
    assert_eq!(a.tally.vehicle_teamkills, 1);
    assert_eq!(count(&a.tally.vehicle_kills_by_type, "CAR"), 1);
    assert_eq!(player(&t, B).tally.vehicles_lost, 2);
    assert!(t.warnings.iter().any(|w| w.contains("duplicate vehicle_destroyed")));
    assert!(t.warnings.iter().any(|w| w.contains("vehicle teamkill flag (true) differs from team state (false)")));
}

#[test]
fn handles_rejoin_missing_left_nickname_changes_and_unknown_events_in_tally() {
    let t = run(vec![
        start(0),
        join(10, A, "First", "Attack"),
        TallyEvent::PlayerLeft { timestamp_ms: 20, player_id: A },
        join(30, A, "Second", "Defense"),
        TallyEvent::Ignored { timestamp_ms: Some(40), event_type: "future_event".to_string(), known: false },
        end(50, None),
    ])
    .expect("valid timeline");
    let a = player(&t, A);
    assert_eq!(a.tally.time_in_game_ms, 30);
    assert_eq!(a.tally.left_count, 1);
    assert_eq!(a.nickname, "Second");
    assert_eq!(a.tally.nicknames, vec!["First".to_string(), "Second".to_string()]);
    assert_eq!(a.tally.initial_team.as_deref(), Some("Attack"));
    assert!(t.warnings.iter().any(|w| w.contains("unknown event type `future_event` ignored")));
    assert_eq!(t.event_count, 6);
    assert_eq!(count(&t.event_counts, "player_joined"), 2);
}

#[test]
fn refuses_mismatched_game_and_duplicate_starts() {
    let mut tally = TimelineTally::new(GAME);
    assert!(tally.apply(start(0), 1).is_ok());
    assert_eq!(tally.apply(start(1), 2), Err(AggregationError::DuplicateGameStarted));
    let mut other = TimelineTally::new(GAME);
    let wrong = TallyEvent::GameEnded { timestamp_ms: 5, game_id: OTHER_GAME, winning_team: None };
    let err = other.apply(wrong, 1).unwrap_err();
    assert_eq!(err, AggregationError::GameIdMismatch { expected: GAME, actual: OTHER_GAME });
    assert_eq!(
        err.message(),
        "event gameId 00000000-0000-0000-0000-000000000099 does not match URL gameId 00000000-0000-0000-0000-000000000001"
    );
}

#[test]
fn finishing_needs_a_start_players_and_an_end_after_start() {
    assert_eq!(run(vec![]).unwrap_err(), AggregationError::MissingGameStarted);
    assert_eq!(run(vec![start(10)]).unwrap_err(), AggregationError::NoPlayers);
    assert_eq!(
        run(vec![start(10), join(11, A, "A", "Attack"), end(5, None)]).unwrap_err(),
        AggregationError::EndBeforeStart
    );
    assert_eq!(AggregationError::NoPlayers.message(), "timeline does not contain any players");
}

#[test]
fn incomplete_match_warns_and_keeps_presence_open() {
    let t = run(vec![start(0), join(5, A, "A", "Attack")]).expect("valid timeline");
    assert!(!t.completed);
    assert_eq!(t.status(), "incomplete");
    assert_eq!(t.duration_ms(), None);
    assert_eq!(player(&t, A).matches_played, 0);
    assert_eq!(player(&t, A).tally.time_in_game_ms, 0);
    assert!(t.warnings.iter().any(|w| w.starts_with("game_ended is missing")));
    assert_eq!(t.map, "svo");
}

#[test]
fn unnamed_player_gets_a_fallback_nickname_and_players_are_ordered() {
    let t = run(vec![
        start(0),
        join(1, C, "C", "Attack"),
        TallyEvent::PlayerDamage { timestamp_ms: 2, victim_id: A, attacker_id: None, headshot: false },
        end(3, None),
    ])
    .expect("valid timeline");
    assert_eq!(t.players[0].tally.player_id, A);
    assert_eq!(t.players[1].tally.player_id, C);
    assert_eq!(t.players[0].nickname, "Unknown-00000000");
}

#[test]
fn backwards_time_and_events_after_the_end_are_warned() {
    let t = run(vec![start(10), join(5, A, "A", "Attack"), end(20, None), TallyEvent::Ignored {
        timestamp_ms: Some(30),
        event_type: "money_movement".to_string(),
        known: true,
    }])
    .expect("valid timeline");
    assert!(t.warnings.iter().any(|w| w == "line 2: timestampMs moved backwards from 10 to 5; source order was preserved"));
    assert!(t.warnings.iter().any(|w| w == "line 4: event money_movement occurs after game_ended"));
    assert_eq!(t.duration_ms(), Some(10));
}

#[test]
fn warnings_stop_at_the_cap() {
    let mut tally = TimelineTally::new(GAME);
    tally.apply(start(0), 1).unwrap();
    for i in 0..600u64 {
        let e = TallyEvent::Ignored { timestamp_ms: None, event_type: "x".to_string(), known: false };
        tally.apply(e, i + 2).unwrap();
    }
    tally.apply(join(1, A, "A", "Attack"), 700).unwrap();
    let t = tally.finish().unwrap();
    assert_eq!(t.warnings.len(), 501);
    assert_eq!(t.warnings[500], "additional warnings were truncated");
}

#[test]
fn framer_cuts_lines_across_chunks_and_strips_carriage_returns() {
    let mut framer = LineFramer::new(1024);
    let mut lines = Vec::new();
    for chunk in b"first\r\nsec".chunks(3) {
        lines.extend(framer.push_chunk(chunk).unwrap());
    }
    lines.extend(framer.push_chunk(b"ond\nthird").unwrap());
    assert!(framer.check_pending().is_ok());
    let last = framer.finish().expect("last line");
    assert_eq!(lines.len(), 2);
    assert_eq!(lines[0].number, 1);
    assert_eq!(lines[0].bytes, b"first".to_vec());
    assert_eq!(lines[1].bytes, b"second".to_vec());
    assert_eq!(last.number, 3);
    assert_eq!(last.bytes, b"third".to_vec());
    assert_eq!(framer.line_count(), 3);
    assert_eq!(framer.byte_count(), 19);
}

#[test]
fn enforces_upload_limit_on_chunks() {
    let mut framer = LineFramer::new(8);
    let err = framer.push_chunk(b"123456789").unwrap_err();
    assert!(matches!(err, TimelineStreamError::TooLarge { max_bytes: 8 }));
    assert_eq!(err.message(), "timeline exceeds the configured 8 byte limit");
    assert_eq!(framer.byte_count(), 0);
}

#[test]
fn a_waiting_line_stays_within_the_limit() {
    let mut framer = LineFramer::new(4);
    framer.push_chunk(b"ab").unwrap();
    assert!(framer.check_pending().is_ok());
    let mut tight = LineFramer::new(0);
    assert!(tight.push_chunk(b"").unwrap().is_empty());
    assert!(tight.finish().is_none());
    assert_eq!(TimelineStreamError::LineTooLarge.message(), "NDJSON line exceeds the configured upload limit");
}

#[test]
fn leaderboard_metric_names_round_trip() {
    for name in [
        "kills",
        "deaths",
        "assists",
        "vehicle_destructions",
        "kd",
        "kda",
        "damage_dealt",
        "damage_per_minute",
        "win_rate",
        "headshots",
        "time_in_game",
    ] {
        let metric = LeaderboardMetric::parse(name).expect("known metric");
        assert_eq!(metric.as_str(), name);
    }
    assert_eq!(LeaderboardMetric::parse("unknown"), None);
}

#[test]
fn summary_footer_and_outbox_decisions() {
    assert_eq!(duration_footer(Some(125_000)), "⏱ Длительность: 02:05");
    assert_eq!(duration_footer(None), "⏱ Длительность: 00:00");
    assert_eq!(duration_footer(Some(6_000_000)), "⏱ Длительность: 100:00");
    assert_eq!(outbox_failure_status(3, 3), "failed");
    assert_eq!(outbox_failure_status(2, 3), "retry");
    assert_eq!(delivery_nonce(0x6d5e4f2d_b82f_4d57_a69c_7ca6a234f3bd), "6d5e4f2db82f4d57a69c7ca6a");
}

#[test]
fn highlights_pick_the_last_leader_with_a_positive_count() {
    assert_eq!(last_max(&vec![1, 3, 3, 2]), Some(2));
    assert_eq!(last_max(&vec![]), None);
    let t = run(vec![
        start(0),
        join(1, A, "Alpha", "Attack"),
        join(2, B, "Beta", "Attack"),
        death(3, B, Some(A), vec![]),
        end(4, None),
    ])
    .expect("valid timeline");
    let lines = match_highlights(&t.players);
    assert_eq!(lines, vec!["🔫 **Больше всего тимкиллов:** Alpha (1 тимкиллов)".to_string()]);
}

#[test]
fn stored_warnings_and_duplicate_uploads() {
    assert_eq!(decode_warnings("[\"a\",\"b\"]"), vec!["a".to_string(), "b".to_string()]);
    assert!(decode_warnings("[1]").is_empty());
    assert!(decode_warnings("not json").is_empty());
    let dup = existing_ingestion_outcome(GAME, "abc", 7, "[\"w\"]", "abc", 2).expect("duplicate");
    assert_eq!(dup.status, "duplicate");
    assert_eq!(dup.events_processed, 7);
    assert_eq!(dup.warnings, vec!["w".to_string()]);
    assert_eq!(existing_ingestion_outcome(GAME, "abc", 7, "[]", "def", 2).unwrap_err(), GAME);
}
