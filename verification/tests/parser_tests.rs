use svo_backend::count_order::{merge_i64_map, sorted_counts};
use svo_backend::metrics_summary::{claimed_outbox_row, next_outbox_delivery, OutboxRow};
use svo_backend::metrics_event::{read_event_head, EventKind, ParseError};
use svo_backend::metrics_fields::{read_core_event, CoreEventError};
use svo_backend::metrics_stream::{TimelineStreamError, TimelineUpload};
use svo_backend::metrics_tally::{AggregationError, FinishedPlayer, MatchTally, TallyEvent, TimelineTally};

const GAME: &str = "00000000-0000-0000-0000-000000000001";
const OTHER_GAME: &str = "00000000-0000-0000-0000-000000000099";
const A: &str = "00000000-0000-0000-0000-000000000002";
const B: &str = "00000000-0000-0000-0000-000000000003";
const C: &str = "00000000-0000-0000-0000-000000000004";
const GAME_ID: u128 = 1;
const OTHER_ID: u128 = 0x99;
const A_ID: u128 = 2;
const B_ID: u128 = 3;
const C_ID: u128 = 4;

fn event(kind: &str, timestamp: i64, fields: &str) -> String {
    format!(r#"{{"type":"{kind}","timestampMs":{timestamp},{fields}}}"#)
}

fn start() -> String {
    event("game_started", 0, &format!(r#""gameId":"{GAME}","map":"svo""#))
}

fn end(timestamp: i64) -> String {
    event("game_ended", timestamp, &format!(r#""gameId":"{GAME}","winningTeam":"Attack""#))
}

fn join(id: &str, nickname: &str, team: &str, timestamp: i64) -> String {
    event("player_joined", timestamp, &format!(r#""playerId":"{id}","nickname":"{nickname}","team":"{team}""#))
}

fn death(victim: &str, killer: Option<&str>, timestamp: i64) -> String {
    let killer = killer.map(|value| format!(r#""{value}""#)).unwrap_or_else(|| "null".to_string());
    event(
        "player_death",
        timestamp,
        &format!(
            r#""victimId":"{victim}","killerId":{killer},"totalDamage":100.0,"source":{{"type":"tacz:gun","weaponId":"tacz:m4a1"}}"#
        ),
    )
}

/// The kinds of the lines of a body uploaded in chunks of 7 bytes, blank
/// lines left out.
fn kinds(body: &[u8]) -> Result<Vec<EventKind>, TimelineStreamError> {
    let mut upload = TimelineUpload::new(1024 * 1024);
    let mut lines = Vec::new();
    for chunk in body.chunks(7) {
        lines.extend(upload.push_chunk(chunk)?);
    }
    let (last, totals) = upload.finish();
    lines.extend(last);
    assert_eq!(totals.byte_count, body.len());
    let mut out = Vec::new();
    for line in lines {
        if let Some(head) = read_event_head(&line.bytes, line.number).map_err(TimelineStreamError::Parse)? {
            out.push(head.kind);
        }
    }
    Ok(out)
}

fn t_start() -> TallyEvent {
    TallyEvent::GameStarted { timestamp_ms: 0, game_id: GAME_ID, map: "svo".to_string() }
}

fn t_end(ts: i64) -> TallyEvent {
    TallyEvent::GameEnded { timestamp_ms: ts, game_id: GAME_ID, winning_team: Some("Attack".to_string()) }
}

fn t_join(id: u128, nick: &str, team: &str, ts: i64) -> TallyEvent {
    TallyEvent::PlayerJoined { timestamp_ms: ts, player_id: id, nickname: nick.to_string(), team: Some(team.to_string()) }
}

fn t_death(victim: u128, killer: Option<u128>, ts: i64, assistants: Vec<u128>) -> TallyEvent {
    TallyEvent::PlayerDeath {
        timestamp_ms: ts,
        victim_id: victim,
        killer_id: killer,
        source_kind: "tacz:gun".to_string(),
        breakdown_key: "tacz:m4a1".to_string(),
        assistants,
    }
}

fn run(events: Vec<TallyEvent>) -> Result<MatchTally, AggregationError> {
    let mut tally = TimelineTally::new(GAME_ID);
    for (i, e) in events.into_iter().enumerate() {
        tally.apply(e, i as u64 + 1)?;
    }
    tally.finish()
}

fn player(t: &MatchTally, id: u128) -> &FinishedPlayer {
    t.players.iter().find(|p| p.tally.player_id == id).expect("player aggregate")
}

fn keys_in_order(entries: &[(String, u64)]) -> bool {
    entries.windows(2).all(|w| w[0].0 < w[1].0)
}

#[test]
fn calculates_kills_assists_at_threshold_and_clears_context() {
    let body = [
        start(),
        join(A, "A", "Attack", 1),
        join(B, "B", "Defense", 1),
        join(C, "C", "Attack", 1),
        death(B, Some(A), 4),
        death(B, Some(A), 7),
        death(B, Some(A), 8),
        end(10),
    ]
    .join("\n");
    assert_eq!(kinds(body.as_bytes()).expect("valid timeline").len(), 8);
    // C dealt 30% of the damage before the first death and 29% before the
    // second; the third comes with no damage since.
    let t = run(vec![
        t_start(),
        t_join(A_ID, "A", "Attack", 1),
        t_join(B_ID, "B", "Defense", 1),
        t_join(C_ID, "C", "Attack", 1),
        t_death(B_ID, Some(A_ID), 4, vec![C_ID]),
        t_death(B_ID, Some(A_ID), 7, vec![]),
        t_death(B_ID, Some(A_ID), 8, vec![]),
        t_end(10),
    ])
    .expect("valid timeline");
    assert_eq!(player(&t, A_ID).tally.kills, 3);
    assert_eq!(player(&t, A_ID).tally.assists, 0);
    assert_eq!(player(&t, B_ID).tally.deaths, 3);
    assert_eq!(player(&t, B_ID).tally.assists, 0);
    assert_eq!(player(&t, C_ID).tally.assists, 1);
}

#[test]
fn distinguishes_teamkill_suicide_and_environment_death() {
    let body = [start(), join(A, "A", "Attack", 1), join(B, "B", "Attack", 1), death(B, Some(A), 2), death(B, None, 3), death(A, Some(A), 4), end(5)]
        .join("\n");
    assert_eq!(kinds(body.as_bytes()).expect("valid timeline")[3], EventKind::PlayerDeath);
    let t = run(vec![
        t_start(),
        t_join(A_ID, "A", "Attack", 1),
        t_join(B_ID, "B", "Attack", 1),
        t_death(B_ID, Some(A_ID), 2, vec![]),
        t_death(B_ID, None, 3, vec![]),
        t_death(A_ID, Some(A_ID), 4, vec![]),
        t_end(5),
    ])
    .expect("valid timeline");
    let a = player(&t, A_ID);
    let b = player(&t, B_ID);
    assert_eq!(a.tally.kills, 0);
    assert_eq!(a.tally.teamkills, 1);
    assert_eq!(a.tally.suicides, 1);
    assert_eq!(a.tally.environment_deaths, 0);
    assert_eq!(b.tally.suicides, 1);
    assert_eq!(b.tally.environment_deaths, 1);
}

#[test]
fn tracks_team_changes_friendly_self_damage_and_headshots() {
    let t = run(vec![
        t_start(),
        t_join(A_ID, "A", "Attack", 1),
        t_join(B_ID, "B", "Defense", 1),
        TallyEvent::PlayerDamage { timestamp_ms: 2, victim_id: A_ID, attacker_id: Some(A_ID), headshot: true },
        TallyEvent::PlayerDamage { timestamp_ms: 3, victim_id: B_ID, attacker_id: Some(A_ID), headshot: false },
        TallyEvent::PlayerTeamChanged { timestamp_ms: 4, player_id: A_ID, new_team: "Defense".to_string() },
        TallyEvent::PlayerDamage { timestamp_ms: 5, victim_id: B_ID, attacker_id: Some(A_ID), headshot: false },
        t_end(6),
    ])
    .expect("valid timeline");
    let a = player(&t, A_ID);
    assert_eq!(a.tally.headshots, 1);
    assert!(a.tally.changed_team);
    assert_eq!(a.tally.team_changes, 1);
}

#[test]
fn deduplicates_vehicle_events_and_excludes_empty_and_teamkills() {
    let damage = |entity: &str, ts: i64| TallyEvent::VehicleDamage {
        timestamp_ms: ts,
        vehicle_entity_id: entity.to_string(),
        attacker_id: Some(A_ID),
        vehicle_owner_id: Some(B_ID),
        is_fatal: true,
    };
    let destroyed = |entity: &str, vt: &str, owner: u128, ts: i64| TallyEvent::VehicleDestroyed {
        timestamp_ms: ts,
        vehicle_entity_id: entity.to_string(),
        vehicle_type: Some(vt.to_string()),
        attacker_id: Some(A_ID),
        vehicle_owner_id: Some(owner),
        breakdown_key: "gun".to_string(),
        is_team_kill: false,
    };
    let t = run(vec![
        t_start(),
        t_join(A_ID, "A", "Attack", 1),
        t_join(B_ID, "B", "Defense", 1),
        t_join(C_ID, "C", "Attack", 1),
        damage("vehicle-1", 2),
        damage("vehicle-1", 3),
        destroyed("vehicle-1", "CAR", B_ID, 4),
        destroyed("vehicle-1", "CAR", B_ID, 5),
        destroyed("empty", "EMPTY", B_ID, 6),
        destroyed("friendly", "CAR", C_ID, 7),
        t_end(8),
    ])
    .expect("valid timeline");
    let a = player(&t, A_ID);
    assert_eq!(a.tally.vehicle_final_hits, 1);
    assert_eq!(a.tally.vehicle_destructions, 1);
    assert_eq!(a.tally.vehicle_teamkills, 1);
    assert!(t.warnings.iter().any(|w| w.contains("duplicate vehicle_destroyed")));
}

#[test]
fn handles_rejoin_missing_left_nickname_changes_equal_timestamps_and_unknown_events() {
    let body = [
        start(),
        join(A, "First", "Attack", 10),
        event("player_left", 20, &format!(r#""playerId":"{A}","reason":null"#)),
        join(A, "Second", "Attack", 30),
        join(B, "B", "Defense", 30),
        event("future_event", 30, r#""value":1"#),
        end(50),
    ]
    .join("\n");
    assert_eq!(kinds(body.as_bytes()).expect("valid timeline")[5], EventKind::Unknown);
    let t = run(vec![
        t_start(),
        t_join(A_ID, "First", "Attack", 10),
        TallyEvent::PlayerLeft { timestamp_ms: 20, player_id: A_ID },
        t_join(A_ID, "Second", "Attack", 30),
        t_join(B_ID, "B", "Defense", 30),
        TallyEvent::Ignored { timestamp_ms: Some(30), event_type: "future_event".to_string(), known: false },
        t_end(50),
    ])
    .expect("valid timeline");
    let a = player(&t, A_ID);
    assert_eq!(a.tally.time_in_game_ms, 30);
    assert_eq!(a.tally.left_count, 1);
    assert_eq!(a.nickname, "Second");
    assert_eq!(a.tally.nicknames, vec!["First".to_string(), "Second".to_string()]);
    assert_eq!(player(&t, B_ID).tally.time_in_game_ms, 20);
    assert!(t.warnings.iter().any(|w| w.contains("unknown event type")));
    assert!(keys_in_order(&t.event_counts));
    assert_eq!(t.event_counts.len(), 5);
}

#[test]
fn accepts_empty_lines_extra_fields_and_utf8_bom() {
    let joined = event("player_joined", 1, &format!(r#""playerId":"{A}","nickname":"Игрок","team":"Attack","extra":true"#));
    let body = format!("\u{feff}{}\n\n{}\n{}", start(), joined, end(2));
    assert_eq!(
        kinds(body.as_bytes()).expect("valid timeline"),
        vec![EventKind::GameStarted, EventKind::PlayerJoined, EventKind::GameEnded]
    );
    let t = run(vec![t_start(), t_join(A_ID, "Игрок", "Attack", 1), t_end(2)]).expect("valid timeline");
    assert_eq!(t.event_count, 3);
    assert_eq!(player(&t, A_ID).nickname, "Игрок");
}

#[test]
fn rejects_invalid_json_missing_fields_mismatched_game_and_non_utf8() {
    assert!(matches!(
        kinds(format!("{}\nnot-json", start()).as_bytes()),
        Err(TimelineStreamError::Parse(ParseError::InvalidJson { line: 2, .. }))
    ));
    let missing = event("player_joined", 1, &format!(r#""playerId":"{A}","team":"Attack""#));
    assert!(matches!(read_core_event(&missing, EventKind::PlayerJoined, 2, "player_joined"), Err(CoreEventError::Shape)));
    let mut tally = TimelineTally::new(GAME_ID);
    tally.apply(read_core_event(&start(), EventKind::GameStarted, 1, "game_started").unwrap(), 1).unwrap();
    let ended = event("game_ended", 2, &format!(r#""gameId":"{OTHER_GAME}","winningTeam":null"#));
    let other = read_core_event(&ended, EventKind::GameEnded, 2, "game_ended").unwrap();
    assert!(matches!(other, TallyEvent::GameEnded { game_id: OTHER_ID, winning_team: None, .. }));
    assert!(tally.apply(other, 2).is_err());
    assert!(matches!(
        kinds(&[0xff, b'\n']),
        Err(TimelineStreamError::Parse(ParseError::InvalidJson { line: 1, .. }))
    ));
}

#[test]
fn enforces_upload_limit() {
    let mut upload = TimelineUpload::new(8);
    assert!(matches!(upload.push_chunk(b"123456789"), Err(TimelineStreamError::TooLarge { .. })));
}

#[test]
fn count_lists_come_in_key_order() {
    let entries = vec![("b".to_string(), 2), ("a".to_string(), 1), ("c".to_string(), 3)];
    assert_eq!(sorted_counts(&entries), vec![("a".to_string(), 1), ("b".to_string(), 2), ("c".to_string(), 3)]);
}

#[test]
fn stored_counts_are_added_key_by_key() {
    let mut totals = vec![("ak".to_string(), 2i64), ("rpg".to_string(), 1)];
    merge_i64_map(&mut totals, r#"{"ak":3,"knife":1}"#);
    totals.sort();
    assert_eq!(totals, vec![("ak".to_string(), 5), ("knife".to_string(), 1), ("rpg".to_string(), 1)]);
    let before = totals.clone();
    merge_i64_map(&mut totals, r#"{"ak":1.5}"#);
    merge_i64_map(&mut totals, "not json");
    assert_eq!(totals, before);
}

#[test]
fn the_earliest_due_summary_is_claimed_next() {
    let row = |id: u128, status: &str, at: i64| OutboxRow { game_id: id, status: status.to_string(), attempt_count: 1, next_attempt_at: at };
    let rows = vec![row(1, "delivered", 0), row(2, "retry", 50), row(3, "pending", 20), row(4, "failed", 10), row(5, "processing", 200)];
    assert_eq!(next_outbox_delivery(&rows, 100), Some(2));
    assert_eq!(next_outbox_delivery(&rows, 10), None);
    let claimed = claimed_outbox_row(&rows[2], 100, 60);
    assert_eq!(claimed.status, "processing");
    assert_eq!(claimed.attempt_count, 2);
    assert_eq!(claimed.next_attempt_at, 60_100);
    assert_eq!(claimed.game_id, 3);
}

#[test]
fn game_and_player_fields_are_read_and_checked() {
    let joined = read_core_event(&join(A, "Ann", "  ", 5), EventKind::PlayerJoined, 3, "player_joined").unwrap();
    assert!(matches!(joined, TallyEvent::PlayerJoined { timestamp_ms: 5, player_id: A_ID, ref nickname, team: None } if nickname == "Ann"));
    let blank_map = event("game_started", 0, &format!(r#""gameId":"{GAME}","map":" ""#));
    match read_core_event(&blank_map, EventKind::GameStarted, 4, "game_started") {
        Err(CoreEventError::Invalid(e)) => assert_eq!(e.text(), "line 4: invalid game_started event: map must not be empty"),
        other => panic!("unexpected {:?}", other.is_ok()),
    }
    let bad_id = event("player_left", 3, r#""playerId":"nope""#);
    match read_core_event(&bad_id, EventKind::PlayerLeft, 5, "player_left") {
        Err(CoreEventError::Invalid(e)) => assert!(e.text().ends_with("playerId must be a UUID")),
        other => panic!("unexpected {:?}", other.is_ok()),
    }
    let negative = event("player_team_changed", -1, &format!(r#""playerId":"{A}","newTeam":"Defense""#));
    match read_core_event(&negative, EventKind::PlayerTeamChanged, 6, "player_team_changed") {
        Err(CoreEventError::Invalid(e)) => assert!(e.text().ends_with("timestampMs must be non-negative")),
        other => panic!("unexpected {:?}", other.is_ok()),
    }
    let wrong_type = event("game_ended", 2, &format!(r#""gameId":"{GAME}","winningTeam":7"#));
    assert!(matches!(read_core_event(&wrong_type, EventKind::GameEnded, 7, "game_ended"), Err(CoreEventError::Shape)));
}
