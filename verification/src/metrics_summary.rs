//! Reading the tallies of finished matches: the leaderboard metrics, the
//! outcome of storing a timeline, and the Discord summary's integer parts.
use vstd::prelude::*;
use crate::ids::{uuid_simple, uuid_simple_string};
use crate::json::{json_document, parse_json, JsonModel, JsonValue};
use crate::metrics_tally::{FinishedPlayer, MatchTally};
use crate::text::{decimal, int_text, push_i64, push_decimal, push_str, str_equal, string_of, take_chars, take_chars_spec};
use crate::delivery::DiscordApiError;

verus! {

// ---------------------------------------------------------------------------
// Leaderboard metrics.
// ---------------------------------------------------------------------------

/// What a leaderboard ranks players by.
#[derive(Clone, Copy, Debug, PartialEq, Eq, Structural)]
pub enum LeaderboardMetric {
    Kills,
    Deaths,
    Assists,
    VehicleDestructions,
    Kd,
    Kda,
    DamageDealt,
    DamagePerMinute,
    WinRate,
    Headshots,
    TimeInGame,
}

impl LeaderboardMetric {
    pub open spec fn name(self) -> Seq<char> {
        match self {
            LeaderboardMetric::Kills => "kills"@,
            LeaderboardMetric::Deaths => "deaths"@,
            LeaderboardMetric::Assists => "assists"@,
            LeaderboardMetric::VehicleDestructions => "vehicle_destructions"@,
            LeaderboardMetric::Kd => "kd"@,
            LeaderboardMetric::Kda => "kda"@,
            LeaderboardMetric::DamageDealt => "damage_dealt"@,
            LeaderboardMetric::DamagePerMinute => "damage_per_minute"@,
            LeaderboardMetric::WinRate => "win_rate"@,
            LeaderboardMetric::Headshots => "headshots"@,
            LeaderboardMetric::TimeInGame => "time_in_game"@,
        }
    }

    pub open spec fn from_name(s: Seq<char>) -> Option<LeaderboardMetric> {
        if s == "kills"@ {
            Some(LeaderboardMetric::Kills)
        } else if s == "deaths"@ {
            Some(LeaderboardMetric::Deaths)
        } else if s == "assists"@ {
            Some(LeaderboardMetric::Assists)
        } else if s == "vehicle_destructions"@ {
            Some(LeaderboardMetric::VehicleDestructions)
        } else if s == "kd"@ {
            Some(LeaderboardMetric::Kd)
        } else if s == "kda"@ {
            Some(LeaderboardMetric::Kda)
        } else if s == "damage_dealt"@ {
            Some(LeaderboardMetric::DamageDealt)
        } else if s == "damage_per_minute"@ {
            Some(LeaderboardMetric::DamagePerMinute)
        } else if s == "win_rate"@ {
            Some(LeaderboardMetric::WinRate)
        } else if s == "headshots"@ {
            Some(LeaderboardMetric::Headshots)
        } else if s == "time_in_game"@ {
            Some(LeaderboardMetric::TimeInGame)
        } else {
            None
        }
    }

    /// The metric a query names, if any.
    pub fn parse(value: &str) -> (r: Option<LeaderboardMetric>)
        ensures
            r == LeaderboardMetric::from_name(value@),
    {
        if str_equal(value, "kills") {
            Some(LeaderboardMetric::Kills)
        } else if str_equal(value, "deaths") {
            Some(LeaderboardMetric::Deaths)
        } else if str_equal(value, "assists") {
            Some(LeaderboardMetric::Assists)
        } else if str_equal(value, "vehicle_destructions") {
            Some(LeaderboardMetric::VehicleDestructions)
        } else if str_equal(value, "kd") {
            Some(LeaderboardMetric::Kd)
        } else if str_equal(value, "kda") {
            Some(LeaderboardMetric::Kda)
        } else if str_equal(value, "damage_dealt") {
            Some(LeaderboardMetric::DamageDealt)
        } else if str_equal(value, "damage_per_minute") {
            Some(LeaderboardMetric::DamagePerMinute)
        } else if str_equal(value, "win_rate") {
            Some(LeaderboardMetric::WinRate)
        } else if str_equal(value, "headshots") {
            Some(LeaderboardMetric::Headshots)
        } else if str_equal(value, "time_in_game") {
            Some(LeaderboardMetric::TimeInGame)
        } else {
            None
        }
    }

    /// The metric's name in queries and responses.
    pub fn as_str(self) -> (r: &'static str)
        ensures
            r@ == self.name(),
    {
        match self {
            LeaderboardMetric::Kills => "kills",
            LeaderboardMetric::Deaths => "deaths",
            LeaderboardMetric::Assists => "assists",
            LeaderboardMetric::VehicleDestructions => "vehicle_destructions",
            LeaderboardMetric::Kd => "kd",
            LeaderboardMetric::Kda => "kda",
            LeaderboardMetric::DamageDealt => "damage_dealt",
            LeaderboardMetric::DamagePerMinute => "damage_per_minute",
            LeaderboardMetric::WinRate => "win_rate",
            LeaderboardMetric::Headshots => "headshots",
            LeaderboardMetric::TimeInGame => "time_in_game",
        }
    }

    /// Parsing a metric's name gives the metric back.
    pub proof fn lemma_name_round_trip(k: LeaderboardMetric)
        ensures
            LeaderboardMetric::from_name(k.name()) == Some(k),
    {
        reveal_strlit("kills");
        reveal_strlit("deaths");
        reveal_strlit("assists");
        reveal_strlit("vehicle_destructions");
        reveal_strlit("kd");
        reveal_strlit("kda");
        reveal_strlit("damage_dealt");
        reveal_strlit("damage_per_minute");
        reveal_strlit("win_rate");
        reveal_strlit("headshots");
        reveal_strlit("time_in_game");
        match k {
            LeaderboardMetric::Kills => {
            },
            LeaderboardMetric::Deaths => {
                assert("deaths"@[0] != "kills"@[0]);
            },
            LeaderboardMetric::Assists => {
                assert("assists"@[0] != "kills"@[0]);
                assert("assists"@[0] != "deaths"@[0]);
            },
            LeaderboardMetric::VehicleDestructions => {
                assert("vehicle_destructions"@[0] != "kills"@[0]);
                assert("vehicle_destructions"@[0] != "deaths"@[0]);
                assert("vehicle_destructions"@[0] != "assists"@[0]);
            },
            LeaderboardMetric::Kd => {
                assert("kd"@[1] != "kills"@[1]);
                assert("kd"@[0] != "deaths"@[0]);
                assert("kd"@[0] != "assists"@[0]);
                assert("kd"@[0] != "vehicle_destructions"@[0]);
            },
            LeaderboardMetric::Kda => {
                assert("kda"@[1] != "kills"@[1]);
                assert("kda"@[0] != "deaths"@[0]);
                assert("kda"@[0] != "assists"@[0]);
                assert("kda"@[0] != "vehicle_destructions"@[0]);
                assert("kda"@.len() != "kd"@.len());
            },
            LeaderboardMetric::DamageDealt => {
                assert("damage_dealt"@[0] != "kills"@[0]);
                assert("damage_dealt"@[1] != "deaths"@[1]);
                assert("damage_dealt"@[0] != "assists"@[0]);
                assert("damage_dealt"@[0] != "vehicle_destructions"@[0]);
                assert("damage_dealt"@[0] != "kd"@[0]);
                assert("damage_dealt"@[0] != "kda"@[0]);
            },
            LeaderboardMetric::DamagePerMinute => {
                assert("damage_per_minute"@[0] != "kills"@[0]);
                assert("damage_per_minute"@[1] != "deaths"@[1]);
                assert("damage_per_minute"@[0] != "assists"@[0]);
                assert("damage_per_minute"@[0] != "vehicle_destructions"@[0]);
                assert("damage_per_minute"@[0] != "kd"@[0]);
                assert("damage_per_minute"@[0] != "kda"@[0]);
                assert("damage_per_minute"@[7] != "damage_dealt"@[7]);
            },
            LeaderboardMetric::WinRate => {
                assert("win_rate"@[0] != "kills"@[0]);
                assert("win_rate"@[0] != "deaths"@[0]);
                assert("win_rate"@[0] != "assists"@[0]);
                assert("win_rate"@[0] != "vehicle_destructions"@[0]);
                assert("win_rate"@[0] != "kd"@[0]);
                assert("win_rate"@[0] != "kda"@[0]);
                assert("win_rate"@[0] != "damage_dealt"@[0]);
                assert("win_rate"@[0] != "damage_per_minute"@[0]);
            },
            LeaderboardMetric::Headshots => {
                assert("headshots"@[0] != "kills"@[0]);
                assert("headshots"@[0] != "deaths"@[0]);
                assert("headshots"@[0] != "assists"@[0]);
                assert("headshots"@[0] != "vehicle_destructions"@[0]);
                assert("headshots"@[0] != "kd"@[0]);
                assert("headshots"@[0] != "kda"@[0]);
                assert("headshots"@[0] != "damage_dealt"@[0]);
                assert("headshots"@[0] != "damage_per_minute"@[0]);
                assert("headshots"@[0] != "win_rate"@[0]);
            },
            LeaderboardMetric::TimeInGame => {
                assert("time_in_game"@[0] != "kills"@[0]);
                assert("time_in_game"@[0] != "deaths"@[0]);
                assert("time_in_game"@[0] != "assists"@[0]);
                assert("time_in_game"@[0] != "vehicle_destructions"@[0]);
                assert("time_in_game"@[0] != "kd"@[0]);
                assert("time_in_game"@[0] != "kda"@[0]);
                assert("time_in_game"@[0] != "damage_dealt"@[0]);
                assert("time_in_game"@[0] != "damage_per_minute"@[0]);
                assert("time_in_game"@[0] != "win_rate"@[0]);
                assert("time_in_game"@[0] != "headshots"@[0]);
            },
        }
    }
}

// ---------------------------------------------------------------------------
// Storing a timeline.
// ---------------------------------------------------------------------------

/// What storing a timeline came to.
#[derive(Clone, Debug)]
pub struct PersistedIngestion {
    pub game_id: u128,
    pub status: &'static str,
    pub events_processed: i64,
    pub players_processed: i64,
    pub warnings: Vec<String>,
}

/// The warnings stored as a JSON array of texts; anything else reads as
/// none.
pub open spec fn stored_warnings(doc: Option<JsonModel>) -> Seq<Seq<char>> {
    match doc {
        Some(JsonModel::Array(items)) => if forall|i: int| 0 <= i < items.len() ==> (#[trigger] items[i]) is Text {
            Seq::new(items.len(), |i: int| items[i]->Text_0)
        } else {
            Seq::empty()
        },
        _ => Seq::empty(),
    }
}

pub open spec fn texts_of(v: Seq<String>) -> Seq<Seq<char>> {
    Seq::new(v.len(), |i: int| v[i]@)
}

/// Reads stored warnings.
pub fn decode_warnings(value: &str) -> (r: Vec<String>)
    ensures
        texts_of(r@) == stored_warnings(json_document(value@)),
{
    let doc = parse_json(value);
    let items = match &doc {
        Some(JsonValue::Array(items)) => items,
        _ => {
            let empty: Vec<String> = Vec::new();
            proof {
                assert(texts_of(empty@) =~= stored_warnings(json_document(value@)));
            }
            return empty;
        },
    };
    let ghost model_items = match json_document(value@) {
        Some(JsonModel::Array(xs)) => xs,
        _ => Seq::empty(),
    };
    let mut out: Vec<String> = Vec::new();
    let n: usize = items.len();
    let mut i: usize = 0;
    while i < n
        invariant
            0 <= i <= n,
            n == items@.len(),
            model_items.len() == n,
            json_document(value@) == Some(JsonModel::Array(model_items)),
            forall|j: int| 0 <= j < n ==> model_items[j] == crate::json::json_view(#[trigger] items@[j]),
            out@.len() == i,
            forall|j: int| 0 <= j < i ==> (#[trigger] model_items[j]) is Text && out@[j]@ == model_items[j]->Text_0,
        decreases n - i,
    {
        match &items[i] {
            JsonValue::Text(t) => {
                out.push(t.clone());
            },
            _ => {
                let empty: Vec<String> = Vec::new();
                proof {
                    assert(!(model_items[i as int] is Text));
                    assert(texts_of(empty@) =~= stored_warnings(json_document(value@)));
                }
                return empty;
            },
        }
        i = i + 1;
    }
    proof {
        assert(texts_of(out@) =~= stored_warnings(json_document(value@)));
    }
    out
}

/// A timeline already stored for the game: the same content is a
/// duplicate (answered with what was stored), other content a conflict.
pub fn existing_ingestion_outcome(
    game_id: u128,
    stored_sha256: &str,
    stored_event_count: i64,
    stored_warnings_json: &str,
    new_sha256: &str,
    players: usize,
) -> (r: Result<PersistedIngestion, u128>)
    ensures
        stored_sha256@ == new_sha256@ ==> (r matches Ok(p) && p.game_id == game_id && p.status@ == "duplicate"@
            && p.events_processed == stored_event_count && p.players_processed == players as i64 && texts_of(
            p.warnings@,
        ) == stored_warnings(json_document(stored_warnings_json@))),
        stored_sha256@ != new_sha256@ ==> r == Err::<PersistedIngestion, u128>(game_id),
{
    if str_equal(stored_sha256, new_sha256) {
        Ok(
            PersistedIngestion {
                game_id,
                status: "duplicate",
                events_processed: stored_event_count,
                players_processed: players as i64,
                warnings: decode_warnings(stored_warnings_json),
            },
        )
    } else {
        Err(game_id)
    }
}

/// A newly stored timeline: processed when the match completed, else
/// incomplete.
pub fn stored_ingestion(tally: &MatchTally) -> (r: PersistedIngestion)
    ensures
        r.game_id == tally.game_id,
        r.status@ == (if tally.completed {
            "processed"@
        } else {
            "incomplete"@
        }),
        r.events_processed == tally.event_count as i64,
        r.players_processed == tally.players@.len() as i64,
        texts_of(r.warnings@) == texts_of(tally.warnings@),
{
    let n: usize = tally.warnings.len();
    let mut warnings: Vec<String> = Vec::new();
    let mut i: usize = 0;
    while i < n
        invariant
            0 <= i <= n,
            n == tally.warnings@.len(),
            warnings@.len() == i,
            forall|j: int| 0 <= j < i ==> (#[trigger] warnings@[j])@ == tally.warnings@[j]@,
        decreases n - i,
    {
        warnings.push(tally.warnings[i].clone());
        i = i + 1;
    }
    proof {
        assert(texts_of(warnings@) =~= texts_of(tally.warnings@));
    }
    PersistedIngestion {
        game_id: tally.game_id,
        status: if tally.completed {
            "processed"
        } else {
            "incomplete"
        },
        events_processed: tally.event_count as i64,
        players_processed: tally.players.len() as i64,
        warnings,
    }
}

// ---------------------------------------------------------------------------
// Discord delivery of match summaries.
// ---------------------------------------------------------------------------

/// A stored summary waiting in the Discord outbox.
#[derive(Clone, Debug)]
pub struct OutboxRow {
    pub game_id: u128,
    pub status: String,
    pub attempt_count: i64,
    /// Milliseconds since the epoch.
    pub next_attempt_at: i64,
}

/// A summary may be claimed when it is pending, to be retried or left in
/// processing, and its next attempt is due.
pub open spec fn outbox_due(row: OutboxRow, now: i64) -> bool {
    &&& (row.status@ == "pending"@ || row.status@ == "retry"@ || row.status@ == "processing"@)
    &&& row.next_attempt_at <= now
}

/// The summary to deliver next: a due one whose next attempt is earliest,
/// or none when nothing is due.
pub fn next_outbox_delivery(rows: &Vec<OutboxRow>, now: i64) -> (r: Option<usize>)
    ensures
        match r {
            Some(i) => i < rows@.len() && outbox_due(rows@[i as int], now) && forall|j: int|
                0 <= j < rows@.len() && outbox_due(#[trigger] rows@[j], now) ==> rows@[i as int].next_attempt_at
                    <= rows@[j].next_attempt_at,
            None => forall|j: int| 0 <= j < rows@.len() ==> !outbox_due(#[trigger] rows@[j], now),
        },
{
    let mut best: Option<usize> = None;
    let n: usize = rows.len();
    let mut i: usize = 0;
    while i < n
        invariant
            0 <= i <= n,
            n == rows@.len(),
            match best {
                Some(b) => b < i && outbox_due(rows@[b as int], now) && forall|j: int|
                    0 <= j < i && outbox_due(#[trigger] rows@[j], now) ==> rows@[b as int].next_attempt_at
                        <= rows@[j].next_attempt_at,
                None => forall|j: int| 0 <= j < i ==> !outbox_due(#[trigger] rows@[j], now),
            },
        decreases n - i,
    {
        let row = &rows[i];
        let status = row.status.as_str();
        let due = (str_equal(status, "pending") || str_equal(status, "retry") || str_equal(status, "processing"))
            && row.next_attempt_at <= now;
        if due {
            match best {
                Some(b) => {
                    if row.next_attempt_at < rows[b].next_attempt_at {
                        best = Some(i);
                    }
                },
                None => {
                    best = Some(i);
                },
            }
        }
        i = i + 1;
    }
    best
}

/// A claimed summary: in processing, one attempt more, attempted now and
/// due again after the retry interval.
pub fn claimed_outbox_row(row: &OutboxRow, now: i64, retry_interval_seconds: i64) -> (r: OutboxRow)
    requires
        row.attempt_count < i64::MAX,
        i64::MIN <= now + retry_interval_seconds * 1000 <= i64::MAX,
    ensures
        r.game_id == row.game_id,
        r.status@ == "processing"@,
        r.attempt_count == row.attempt_count + 1,
        r.next_attempt_at == now + retry_interval_seconds * 1000,
{
    OutboxRow {
        game_id: row.game_id,
        status: "processing".to_string(),
        attempt_count: row.attempt_count + 1,
        next_attempt_at: (now as i128 + retry_interval_seconds as i128 * 1000) as i64,
    }
}

/// A failed delivery is retried until the attempts reach the limit.
pub fn outbox_failure_status(attempt_count: i64, max_attempts: i64) -> (r: &'static str)
    ensures
        r@ == (if attempt_count >= max_attempts {
            "failed"@
        } else {
            "retry"@
        }),
{
    if attempt_count >= max_attempts {
        "failed"
    } else {
        "retry"
    }
}

pub open spec fn discord_error_text(error: DiscordApiError) -> Seq<char> {
    match error {
        DiscordApiError::Timeout(m) => m@,
        DiscordApiError::Forbidden(m) => m@,
        DiscordApiError::NotFound(m) => m@,
        DiscordApiError::RateLimited(m) => m@,
        DiscordApiError::Http(m) => m@,
        DiscordApiError::Transport(m) => m@,
    }
}

/// The error text stored with a failed delivery: the message, cut to a
/// thousand characters.
pub fn delivery_error_text(error: DiscordApiError) -> (r: String)
    ensures
        r@ == take_chars_spec(discord_error_text(error), 1000),
{
    let message = match error {
        DiscordApiError::Timeout(m) => m,
        DiscordApiError::Forbidden(m) => m,
        DiscordApiError::NotFound(m) => m,
        DiscordApiError::RateLimited(m) => m,
        DiscordApiError::Http(m) => m,
        DiscordApiError::Transport(m) => m,
    };
    take_chars(message.as_str(), 1000)
}

/// The nonce that makes a summary's delivery idempotent: the first 25
/// digits of the game id.
pub fn delivery_nonce(game_id: u128) -> (r: String)
    ensures
        r@ == uuid_simple(game_id).subrange(0, 25),
{
    let simple = uuid_simple_string(game_id);
    proof {
        crate::ids::lemma_uuid_simple_len(game_id);
    }
    let r = take_chars(simple.as_str(), 25);
    proof {
        assert(take_chars_spec(simple@, 25) =~= uuid_simple(game_id).subrange(0, 25));
    }
    r
}

// ---------------------------------------------------------------------------
// The match summary's integer parts.
// ---------------------------------------------------------------------------

/// `i` holds the greatest value, and no later index holds as much: the
/// element `Iterator::max_by_key` gives.
pub open spec fn is_last_max(v: Seq<u64>, i: int) -> bool {
    &&& 0 <= i < v.len()
    &&& forall|j: int| 0 <= j < v.len() ==> #[trigger] v[j] <= v[i]
    &&& forall|j: int| i < j < v.len() ==> #[trigger] v[j] < v[i]
}

pub proof fn lemma_last_max_unique(v: Seq<u64>, i: int, j: int)
    requires
        is_last_max(v, i),
        is_last_max(v, j),
    ensures
        i == j,
{
    if i < j {
        assert(v[j] < v[i]);
        assert(v[i] <= v[j]);
    } else if j < i {
        assert(v[i] < v[j]);
        assert(v[j] <= v[i]);
    }
}

/// The index of the last greatest value, if any.
pub fn last_max(v: &Vec<u64>) -> (r: Option<usize>)
    ensures
        match r {
            None => v@.len() == 0,
            Some(i) => is_last_max(v@, i as int),
        },
{
    let n: usize = v.len();
    if n == 0 {
        return None;
    }
    let mut best: usize = 0;
    let mut k: usize = 1;
    while k < n
        invariant
            1 <= k <= n,
            n == v@.len(),
            best < k,
            forall|j: int| 0 <= j < k ==> #[trigger] v@[j] <= v@[best as int],
            forall|j: int| best < j < k ==> #[trigger] v@[j] < v@[best as int],
        decreases n - k,
    {
        if v[k] >= v[best] {
            best = k;
        }
        k = k + 1;
    }
    Some(best)
}

/// The three achievements a summary highlights.
#[derive(Clone, Copy, Debug, PartialEq, Eq, Structural)]
pub enum Highlight {
    Teamkills,
    VehicleDestructions,
    Suicides,
}

pub open spec fn highlight_values(ps: Seq<FinishedPlayer>, h: Highlight) -> Seq<u64> {
    Seq::new(
        ps.len(),
        |i: int|
            match h {
                Highlight::Teamkills => ps[i].tally.teamkills,
                Highlight::VehicleDestructions => ps[i].tally.vehicle_destructions,
                Highlight::Suicides => ps[i].tally.suicides,
            },
    )
}

pub open spec fn highlight_text(h: Highlight, nickname: Seq<char>, n: u64) -> Seq<char> {
    match h {
        Highlight::Teamkills => "🔫 **Больше всего тимкиллов:** "@ + nickname + " ("@ + decimal(n as nat)
            + " тимкиллов)"@,
        Highlight::VehicleDestructions => "💥 **Уничтожено техники:** "@ + nickname + " ("@ + decimal(n as nat)
            + " уничтожено)"@,
        Highlight::Suicides => "💀 **Больше всего самоубийств:** "@ + nickname + " ("@ + decimal(n as nat)
            + " самоубийств)"@,
    }
}

/// The player with the most of `h` (the last one on a tie), when that
/// count is above zero.
pub open spec fn highlight_of(ps: Seq<FinishedPlayer>, h: Highlight) -> Option<Seq<char>> {
    let v = highlight_values(ps, h);
    if exists|i: int| is_last_max(v, i) {
        let i = choose|i: int| is_last_max(v, i);
        if v[i] > 0 {
            Some(highlight_text(h, ps[i].nickname@, v[i]))
        } else {
            None
        }
    } else {
        None
    }
}

pub open spec fn push_some(s: Seq<Seq<char>>, o: Option<Seq<char>>) -> Seq<Seq<char>> {
    match o {
        Some(t) => s.push(t),
        None => s,
    }
}

fn highlight_line(players: &Vec<FinishedPlayer>, h: Highlight) -> (r: Option<String>)
    ensures
        match r {
            Some(t) => highlight_of(players@, h) == Some(t@),
            None => highlight_of(players@, h) is None,
        },
{
    let ghost target = highlight_values(players@, h);
    let mut values: Vec<u64> = Vec::new();
    let n: usize = players.len();
    let mut i: usize = 0;
    while i < n
        invariant
            0 <= i <= n,
            n == players@.len(),
            target == highlight_values(players@, h),
            values@ == target.subrange(0, i as int),
        decreases n - i,
    {
        let x: u64 = match h {
            Highlight::Teamkills => players[i].tally.teamkills,
            Highlight::VehicleDestructions => players[i].tally.vehicle_destructions,
            Highlight::Suicides => players[i].tally.suicides,
        };
        values.push(x);
        assert(values@ =~= target.subrange(0, i + 1));
        i = i + 1;
    }
    assert(values@ =~= target);
    match last_max(&values) {
        None => None,
        Some(b) => {
            proof {
                let c = choose|i: int| is_last_max(target, i);
                lemma_last_max_unique(target, b as int, c);
            }
            let count: u64 = values[b];
            if count > 0 {
                let mut out: Vec<char> = Vec::new();
                match h {
                    Highlight::Teamkills => push_str(&mut out, "🔫 **Больше всего тимкиллов:** "),
                    Highlight::VehicleDestructions => push_str(&mut out, "💥 **Уничтожено техники:** "),
                    Highlight::Suicides => push_str(&mut out, "💀 **Больше всего самоубийств:** "),
                }
                push_str(&mut out, players[b].nickname.as_str());
                push_str(&mut out, " (");
                push_decimal(&mut out, count);
                match h {
                    Highlight::Teamkills => push_str(&mut out, " тимкиллов)"),
                    Highlight::VehicleDestructions => push_str(&mut out, " уничтожено)"),
                    Highlight::Suicides => push_str(&mut out, " самоубийств)"),
                }
                proof {
                    assert(out@ =~= highlight_text(h, players@[b as int].nickname@, count));
                }
                Some(string_of(out.as_slice()))
            } else {
                None
            }
        },
    }
}

/// The summary's achievements: most teamkills, most vehicles destroyed,
/// most suicides, each when above zero.
pub fn match_highlights(players: &Vec<FinishedPlayer>) -> (r: Vec<String>)
    ensures
        texts_of(r@) == push_some(
            push_some(
                push_some(Seq::empty(), highlight_of(players@, Highlight::Teamkills)),
                highlight_of(players@, Highlight::VehicleDestructions),
            ),
            highlight_of(players@, Highlight::Suicides),
        ),
{
    let mut out: Vec<String> = Vec::new();
    let a = highlight_line(players, Highlight::Teamkills);
    match a {
        Some(t) => out.push(t),
        None => {},
    }
    proof {
        assert(texts_of(out@) =~= push_some(Seq::empty(), highlight_of(players@, Highlight::Teamkills)));
    }
    let ghost s1 = texts_of(out@);
    let b = highlight_line(players, Highlight::VehicleDestructions);
    match b {
        Some(t) => out.push(t),
        None => {},
    }
    proof {
        assert(texts_of(out@) =~= push_some(s1, highlight_of(players@, Highlight::VehicleDestructions)));
    }
    let ghost s2 = texts_of(out@);
    let c = highlight_line(players, Highlight::Suicides);
    match c {
        Some(t) => out.push(t),
        None => {},
    }
    proof {
        assert(texts_of(out@) =~= push_some(s2, highlight_of(players@, Highlight::Suicides)));
    }
    out
}

/// Division that rounds toward zero, as Rust's.
pub open spec fn trunc_div(a: int, b: int) -> int {
    if a >= 0 {
        a / b
    } else {
        -((-a) / b)
    }
}

/// `{:02}`: at least two digits, the sign counting as one.
pub open spec fn two_digits(n: int) -> Seq<char> {
    if 0 <= n < 10 {
        "0"@ + decimal(n as nat)
    } else {
        int_text(n)
    }
}

pub open spec fn footer_spec(duration_ms: Option<i64>) -> Seq<char> {
    let ms: int = match duration_ms {
        Some(d) => d as int,
        None => 0,
    };
    let secs = trunc_div(ms, 1000);
    let mins = trunc_div(secs, 60);
    "⏱ Длительность: "@ + two_digits(mins) + ":"@ + two_digits(secs - 60 * mins)
}

fn push_two_digits(out: &mut Vec<char>, n: i64)
    ensures
        final(out)@ == old(out)@ + two_digits(n as int),
{
    if 0 <= n && n < 10 {
        push_str(out, "0");
        push_decimal(out, n as u64);
        proof {
            reveal_strlit("0");
            assert(final(out)@ =~= old(out)@ + two_digits(n as int));
        }
    } else {
        push_i64(out, n);
    }
}

/// The footer of the summary: how long the match lasted, as minutes and
/// seconds.
pub fn duration_footer(duration_ms: Option<i64>) -> (r: String)
    ensures
        r@ == footer_spec(duration_ms),
{
    let ms: i128 = match duration_ms {
        Some(d) => d as i128,
        None => 0,
    };
    let secs: i128 = if ms >= 0 {
        ((ms as u128) / 1000) as i128
    } else {
        -((((-ms) as u128) / 1000) as i128)
    };
    let mut mins: i128 = 0;
    let mut rest: i128 = 0;
    if secs >= 0 {
        let m: u128 = secs as u128;
        mins = (m / 60) as i128;
        rest = (m % 60) as i128;
        assert(m == 60 * (m / 60) + m % 60);
    } else {
        let m: u128 = (-secs) as u128;
        mins = -((m / 60) as i128);
        rest = -((m % 60) as i128);
        assert(m == 60 * (m / 60) + m % 60);
    }
    assert(mins == trunc_div(secs as int, 60));
    assert(rest == secs - 60 * mins);
    assert(-60 < rest < 60);
    assert(-9223372036854776i128 <= secs <= 9223372036854776i128);
    let mut out: Vec<char> = Vec::new();
    push_str(&mut out, "⏱ Длительность: ");
    push_two_digits(&mut out, mins as i64);
    push_str(&mut out, ":");
    push_two_digits(&mut out, rest as i64);
    proof {
        assert(out@ =~= footer_spec(duration_ms));
    }
    string_of(out.as_slice())
}

} // verus!
