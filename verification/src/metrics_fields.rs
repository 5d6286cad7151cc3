//! The fields of the timeline events that carry no damage amounts: game
//! start and end, players joining, leaving and changing team.
use vstd::prelude::*;
use crate::json::{as_int, as_text, get_member, get_spec, int_of, json_document, parse_json, text_of, JsonModel, JsonValue};
use crate::metrics_event::{
    check_non_empty, check_timestamp, check_uuid, invalid_is, normalize_optional, uuid_of_text, EventKind,
    ParseError,
};
use crate::metrics_tally::{opt_text, TallyEvent};
use crate::text::is_blank;

verus! {

/// Why an event's fields were refused: they do not have the shape of the
/// event (a required field missing, or a field of another type), or a
/// field's value is refused.
#[derive(Clone, Debug)]
pub enum CoreEventError {
    Shape,
    Invalid(ParseError),
}

/// The event kinds read here.
pub open spec fn is_core_kind(kind: EventKind) -> bool {
    ||| kind == EventKind::GameStarted
    ||| kind == EventKind::GameEnded
    ||| kind == EventKind::PlayerJoined
    ||| kind == EventKind::PlayerLeft
    ||| kind == EventKind::PlayerTeamChanged
}

/// An optional text field: absent or `null` is none, a string is itself,
/// anything else does not fit.
pub open spec fn optional_text(v: Option<JsonModel>) -> Option<Option<Seq<char>>> {
    match v {
        None => Some(None),
        Some(JsonModel::Null) => Some(None),
        Some(JsonModel::Text(s)) => Some(Some(s)),
        _ => None,
    }
}

/// An optional text kept only when it is not blank.
pub open spec fn kept(o: Option<Seq<char>>) -> Option<Seq<char>> {
    match o {
        Some(s) => if is_blank(s) {
            None
        } else {
            Some(s)
        },
        None => None,
    }
}

pub open spec fn refused<T>(r: Result<T, CoreEventError>, line: u64, event_type: Seq<char>, detail: Seq<char>) -> bool {
    r matches Err(CoreEventError::Invalid(e)) && invalid_is(Err::<T, ParseError>(e), line, event_type, detail)
}

/// The timestamp, then the UUID field, refused in that order.
pub open spec fn head_refused(
    r: Result<TallyEvent, CoreEventError>,
    ts: i64,
    id_text: Seq<char>,
    id_field: Seq<char>,
    line: u64,
    et: Seq<char>,
) -> bool {
    if ts < 0 {
        refused(r, line, et, "timestampMs must be non-negative"@)
    } else {
        refused(r, line, et, id_field + " must be a UUID"@)
    }
}

pub open spec fn head_passes(ts: i64, id_text: Seq<char>) -> bool {
    ts >= 0 && uuid_of_text(id_text) is Some
}

pub open spec fn game_started_outcome(d: JsonModel, line: u64, et: Seq<char>, r: Result<TallyEvent, CoreEventError>) -> bool {
    match (int_of(get_spec(d, "timestampMs"@)), text_of(get_spec(d, "gameId"@)), text_of(get_spec(d, "map"@))) {
        (Some(t), Some(g), Some(m)) => if !head_passes(t, g) {
            head_refused(r, t, g, "gameId"@, line, et)
        } else if is_blank(m) {
            refused(r, line, et, "map must not be empty"@)
        } else {
            r matches Ok(TallyEvent::GameStarted { timestamp_ms, game_id, map }) && timestamp_ms == t && Some(game_id)
                == uuid_of_text(g) && map@ == m
        },
        _ => r matches Err(CoreEventError::Shape),
    }
}

pub open spec fn game_ended_outcome(d: JsonModel, line: u64, et: Seq<char>, r: Result<TallyEvent, CoreEventError>) -> bool {
    match (int_of(get_spec(d, "timestampMs"@)), text_of(get_spec(d, "gameId"@)), optional_text(get_spec(d, "winningTeam"@))) {
        (Some(t), Some(g), Some(w)) => if !head_passes(t, g) {
            head_refused(r, t, g, "gameId"@, line, et)
        } else {
            r matches Ok(TallyEvent::GameEnded { timestamp_ms, game_id, winning_team }) && timestamp_ms == t
                && Some(game_id) == uuid_of_text(g) && opt_text(winning_team) == kept(w)
        },
        _ => r matches Err(CoreEventError::Shape),
    }
}

pub open spec fn player_joined_outcome(d: JsonModel, line: u64, et: Seq<char>, r: Result<TallyEvent, CoreEventError>) -> bool {
    match (
        int_of(get_spec(d, "timestampMs"@)),
        text_of(get_spec(d, "playerId"@)),
        text_of(get_spec(d, "nickname"@)),
        optional_text(get_spec(d, "team"@)),
    ) {
        (Some(t), Some(p), Some(n), Some(team)) => if !head_passes(t, p) {
            head_refused(r, t, p, "playerId"@, line, et)
        } else if is_blank(n) {
            refused(r, line, et, "nickname must not be empty"@)
        } else {
            r matches Ok(TallyEvent::PlayerJoined { timestamp_ms, player_id, nickname, team: tm }) && timestamp_ms
                == t && Some(player_id) == uuid_of_text(p) && nickname@ == n && opt_text(tm) == kept(team)
        },
        _ => r matches Err(CoreEventError::Shape),
    }
}

pub open spec fn player_left_outcome(d: JsonModel, line: u64, et: Seq<char>, r: Result<TallyEvent, CoreEventError>) -> bool {
    match (int_of(get_spec(d, "timestampMs"@)), text_of(get_spec(d, "playerId"@))) {
        (Some(t), Some(p)) => if !head_passes(t, p) {
            head_refused(r, t, p, "playerId"@, line, et)
        } else {
            r matches Ok(TallyEvent::PlayerLeft { timestamp_ms, player_id }) && timestamp_ms == t && Some(player_id)
                == uuid_of_text(p)
        },
        _ => r matches Err(CoreEventError::Shape),
    }
}

pub open spec fn team_changed_outcome(d: JsonModel, line: u64, et: Seq<char>, r: Result<TallyEvent, CoreEventError>) -> bool {
    match (int_of(get_spec(d, "timestampMs"@)), text_of(get_spec(d, "playerId"@)), text_of(get_spec(d, "newTeam"@))) {
        (Some(t), Some(p), Some(nt)) => if !head_passes(t, p) {
            head_refused(r, t, p, "playerId"@, line, et)
        } else if is_blank(nt) {
            refused(r, line, et, "newTeam must not be empty"@)
        } else {
            r matches Ok(TallyEvent::PlayerTeamChanged { timestamp_ms, player_id, new_team }) && timestamp_ms == t
                && Some(player_id) == uuid_of_text(p) && new_team@ == nt
        },
        _ => r matches Err(CoreEventError::Shape),
    }
}

/// What reading the fields of an event of a core kind gives, for its
/// document `doc` (`None` when the text is no JSON document).
pub open spec fn core_event_outcome(
    doc: Option<JsonModel>,
    kind: EventKind,
    line: u64,
    et: Seq<char>,
    r: Result<TallyEvent, CoreEventError>,
) -> bool {
    match doc {
        None => r matches Err(CoreEventError::Shape),
        Some(d) => if kind == EventKind::GameStarted {
            game_started_outcome(d, line, et, r)
        } else if kind == EventKind::GameEnded {
            game_ended_outcome(d, line, et, r)
        } else if kind == EventKind::PlayerJoined {
            player_joined_outcome(d, line, et, r)
        } else if kind == EventKind::PlayerLeft {
            player_left_outcome(d, line, et, r)
        } else {
            team_changed_outcome(d, line, et, r)
        },
    }
}

fn optional_text_member(doc: &JsonValue, key: &str) -> (r: Option<Option<String>>)
    ensures
        match r {
            Some(o) => optional_text(get_spec(crate::json::json_view(*doc), key@)) == Some(opt_text(o)),
            None => optional_text(get_spec(crate::json::json_view(*doc), key@)) is None,
        },
{
    match get_member(doc, key) {
        None => Some(None),
        Some(JsonValue::Null) => Some(None),
        Some(JsonValue::Text(s)) => Some(Some(s.clone())),
        Some(_) => None,
    }
}

fn text_member(doc: &JsonValue, key: &str) -> (r: Option<String>)
    ensures
        opt_text(r) == text_of(get_spec(crate::json::json_view(*doc), key@)),
{
    match as_text(get_member(doc, key)) {
        Some(s) => Some(s.to_string()),
        None => None,
    }
}

fn int_member(doc: &JsonValue, key: &str) -> (r: Option<i64>)
    ensures
        r == int_of(get_spec(crate::json::json_view(*doc), key@)),
{
    as_int(get_member(doc, key))
}

fn read_game_started(doc: &JsonValue, ts: i64, line: u64, event_type: &str) -> (r: Result<TallyEvent, CoreEventError>)
    requires
        int_of(get_spec(crate::json::json_view(*doc), "timestampMs"@)) == Some(ts),
    ensures
        game_started_outcome(crate::json::json_view(*doc), line, event_type@, r),
{
    proof {
        reveal_strlit("map");
        reveal_strlit(" must not be empty");
        reveal_strlit("map must not be empty");
        assert("map"@ + " must not be empty"@ =~= "map must not be empty"@);
    }
    let g = match text_member(&doc, "gameId") {
        Some(g) => g,
        None => {
            return Err(CoreEventError::Shape);
        },
    };
    let m = match text_member(&doc, "map") {
        Some(m) => m,
        None => {
            return Err(CoreEventError::Shape);
        },
    };
    let t = match check_timestamp(ts, line, event_type) {
        Ok(t) => t,
        Err(e) => {
            return Err(CoreEventError::Invalid(e));
        },
    };
    let u = match check_uuid(g.as_str(), line, event_type, "gameId") {
        Ok(u) => u,
        Err(e) => {
            return Err(CoreEventError::Invalid(e));
        },
    };
    match check_non_empty(m, line, event_type, "map") {
        Ok(map) => Ok(TallyEvent::GameStarted { timestamp_ms: t, game_id: u, map }),
        Err(e) => Err(CoreEventError::Invalid(e)),
    }
}

fn read_game_ended(doc: &JsonValue, ts: i64, line: u64, event_type: &str) -> (r: Result<TallyEvent, CoreEventError>)
    requires
        int_of(get_spec(crate::json::json_view(*doc), "timestampMs"@)) == Some(ts),
    ensures
        game_ended_outcome(crate::json::json_view(*doc), line, event_type@, r),
{
    let g = match text_member(&doc, "gameId") {
        Some(g) => g,
        None => {
            return Err(CoreEventError::Shape);
        },
    };
    let w = match optional_text_member(&doc, "winningTeam") {
        Some(w) => w,
        None => {
            return Err(CoreEventError::Shape);
        },
    };
    let t = match check_timestamp(ts, line, event_type) {
        Ok(t) => t,
        Err(e) => {
            return Err(CoreEventError::Invalid(e));
        },
    };
    let u = match check_uuid(g.as_str(), line, event_type, "gameId") {
        Ok(u) => u,
        Err(e) => {
            return Err(CoreEventError::Invalid(e));
        },
    };
    Ok(TallyEvent::GameEnded { timestamp_ms: t, game_id: u, winning_team: normalize_optional(w) })
}

fn read_player_joined(doc: &JsonValue, ts: i64, line: u64, event_type: &str) -> (r: Result<TallyEvent, CoreEventError>)
    requires
        int_of(get_spec(crate::json::json_view(*doc), "timestampMs"@)) == Some(ts),
    ensures
        player_joined_outcome(crate::json::json_view(*doc), line, event_type@, r),
{
    proof {
        reveal_strlit("nickname");
        reveal_strlit(" must not be empty");
        reveal_strlit("nickname must not be empty");
        assert("nickname"@ + " must not be empty"@ =~= "nickname must not be empty"@);
    }
    let p = match text_member(&doc, "playerId") {
        Some(p) => p,
        None => {
            return Err(CoreEventError::Shape);
        },
    };
    let n = match text_member(&doc, "nickname") {
        Some(n) => n,
        None => {
            return Err(CoreEventError::Shape);
        },
    };
    let team = match optional_text_member(&doc, "team") {
        Some(x) => x,
        None => {
            return Err(CoreEventError::Shape);
        },
    };
    let t = match check_timestamp(ts, line, event_type) {
        Ok(t) => t,
        Err(e) => {
            return Err(CoreEventError::Invalid(e));
        },
    };
    let u = match check_uuid(p.as_str(), line, event_type, "playerId") {
        Ok(u) => u,
        Err(e) => {
            return Err(CoreEventError::Invalid(e));
        },
    };
    match check_non_empty(n, line, event_type, "nickname") {
        Ok(nickname) => Ok(
            TallyEvent::PlayerJoined { timestamp_ms: t, player_id: u, nickname, team: normalize_optional(team) },
        ),
        Err(e) => Err(CoreEventError::Invalid(e)),
    }
}

fn read_player_left(doc: &JsonValue, ts: i64, line: u64, event_type: &str) -> (r: Result<TallyEvent, CoreEventError>)
    requires
        int_of(get_spec(crate::json::json_view(*doc), "timestampMs"@)) == Some(ts),
    ensures
        player_left_outcome(crate::json::json_view(*doc), line, event_type@, r),
{
    let p = match text_member(&doc, "playerId") {
        Some(p) => p,
        None => {
            return Err(CoreEventError::Shape);
        },
    };
    let t = match check_timestamp(ts, line, event_type) {
        Ok(t) => t,
        Err(e) => {
            return Err(CoreEventError::Invalid(e));
        },
    };
    match check_uuid(p.as_str(), line, event_type, "playerId") {
        Ok(u) => Ok(TallyEvent::PlayerLeft { timestamp_ms: t, player_id: u }),
        Err(e) => Err(CoreEventError::Invalid(e)),
    }
}

fn read_team_changed(doc: &JsonValue, ts: i64, line: u64, event_type: &str) -> (r: Result<TallyEvent, CoreEventError>)
    requires
        int_of(get_spec(crate::json::json_view(*doc), "timestampMs"@)) == Some(ts),
    ensures
        team_changed_outcome(crate::json::json_view(*doc), line, event_type@, r),
{
    proof {
        reveal_strlit("newTeam");
        reveal_strlit(" must not be empty");
        reveal_strlit("newTeam must not be empty");
        assert("newTeam"@ + " must not be empty"@ =~= "newTeam must not be empty"@);
    }
    let p = match text_member(&doc, "playerId") {
        Some(p) => p,
        None => {
            return Err(CoreEventError::Shape);
        },
    };
    let nt = match text_member(&doc, "newTeam") {
        Some(x) => x,
        None => {
            return Err(CoreEventError::Shape);
        },
    };
    let t = match check_timestamp(ts, line, event_type) {
        Ok(t) => t,
        Err(e) => {
            return Err(CoreEventError::Invalid(e));
        },
    };
    let u = match check_uuid(p.as_str(), line, event_type, "playerId") {
        Ok(u) => u,
        Err(e) => {
            return Err(CoreEventError::Invalid(e));
        },
    };
    match check_non_empty(nt, line, event_type, "newTeam") {
        Ok(new_team) => Ok(TallyEvent::PlayerTeamChanged { timestamp_ms: t, player_id: u, new_team }),
        Err(e) => Err(CoreEventError::Invalid(e)),
    }
}

/// Reads the fields of an event of a core kind from its line's text, with
/// the checks the timeline applies to them.
pub fn read_core_event(text: &str, kind: EventKind, line: u64, event_type: &str) -> (r: Result<TallyEvent, CoreEventError>)
    requires
        is_core_kind(kind),
    ensures
        core_event_outcome(json_document(text@), kind, line, event_type@, r),
{
    let doc = match parse_json(text) {
        Some(d) => d,
        None => {
            return Err(CoreEventError::Shape);
        },
    };
    let ts = match int_member(&doc, "timestampMs") {
        Some(t) => t,
        None => {
            return Err(CoreEventError::Shape);
        },
    };
    match kind {
        EventKind::GameStarted => read_game_started(&doc, ts, line, event_type),
        EventKind::GameEnded => read_game_ended(&doc, ts, line, event_type),
        EventKind::PlayerJoined => read_player_joined(&doc, ts, line, event_type),
        EventKind::PlayerLeft => read_player_left(&doc, ts, line, event_type),
        _ => read_team_changed(&doc, ts, line, event_type),
    }
}

} // verus!
