//! The integer side of a match timeline: who took part, for how long and in
//! which team, and the counts of kills, deaths and vehicle events. Damage
//! amounts are fractional and are summed beside this tally by its caller,
//! which hands in, with each death, the players whose damage share earns
//! an assist.
use vstd::prelude::*;
use crate::ids::uuid_hyphenated;
use crate::text::{decimal, int_text, push_decimal, push_i64, push_str, str_equal, string_of};
use crate::ids::push_uuid;
use crate::metrics_event::{fallback_nickname, fallback_nickname_spec, valid_team, valid_team_spec};
use crate::gunskins::{sorted_weapon_keys, strictly_sorted};
use crate::count_order::{keys_sorted, sorted_counts};

verus! {

// ---------------------------------------------------------------------------
// Counted keys.
// ---------------------------------------------------------------------------

pub open spec fn opt_text(o: Option<String>) -> Option<Seq<char>> {
    match o {
        Some(s) => Some(s@),
        None => None,
    }
}

/// Entries of a count map name each key once.
pub open spec fn keys_distinct(e: Seq<(String, u64)>) -> bool {
    forall|i: int, j: int| 0 <= i < j < e.len() ==> e[i].0@ != e[j].0@
}

/// The count map that entries stand for.
pub open spec fn count_map(e: Seq<(String, u64)>) -> Map<Seq<char>, nat> {
    Map::new(
        |k: Seq<char>| exists|i: int| 0 <= i < e.len() && e[i].0@ == k,
        |k: Seq<char>| e[choose|i: int| 0 <= i < e.len() && e[i].0@ == k].1 as nat,
    )
}

/// One more for a key.
pub open spec fn bumped(m: Map<Seq<char>, nat>, k: Seq<char>) -> Map<Seq<char>, nat> {
    m.insert(
        k,
        if m.contains_key(k) {
            m[k] + 1
        } else {
            1
        },
    )
}

pub open spec fn counts_at_most(e: Seq<(String, u64)>, bound: int) -> bool {
    forall|i: int| 0 <= i < e.len() ==> #[trigger] e[i].1 <= bound
}

pub(crate) proof fn lemma_count_map_at(e: Seq<(String, u64)>, i: int)
    requires
        keys_distinct(e),
        0 <= i < e.len(),
    ensures
        count_map(e).contains_key(e[i].0@),
        count_map(e)[e[i].0@] == e[i].1 as nat,
{
    let k = e[i].0@;
    assert(exists|j: int| 0 <= j < e.len() && e[j].0@ == k);
    let c = choose|j: int| 0 <= j < e.len() && e[j].0@ == k;
    assert(c == i);
}

/// Counts one more for `key`.
fn bump(entries: &mut Vec<(String, u64)>, key: &str, Ghost(bound): Ghost<int>)
    requires
        keys_distinct(old(entries)@),
        counts_at_most(old(entries)@, bound),
        0 <= bound < u64::MAX,
    ensures
        keys_distinct(final(entries)@),
        counts_at_most(final(entries)@, bound + 1),
        count_map(final(entries)@) == bumped(count_map(old(entries)@), key@),
{
    let ghost before = entries@;
    let n: usize = entries.len();
    let mut k: usize = 0;
    while k < n
        invariant
            0 <= k <= n,
            n == entries@.len(),
            entries@ == before,
            before == old(entries)@,
            keys_distinct(before),
            counts_at_most(before, bound),
            0 <= bound < u64::MAX,
            forall|i: int| 0 <= i < k ==> (#[trigger] before[i]).0@ != key@,
        decreases n - k,
    {
        if str_equal(entries[k].0.as_str(), key) {
            let name = entries[k].0.clone();
            let v: u64 = entries[k].1;
            assert(v <= bound) by {
                assert(before[k as int].1 <= bound);
            }
            entries.set(k, (name, v + 1));
            proof {
                assert(before[k as int].0@ == key@);
                let after = entries@;
                assert(after == before.update(k as int, (before[k as int].0, (v + 1) as u64)));
                assert(keys_distinct(after));
                assert forall|i: int| 0 <= i < after.len() implies #[trigger] after[i].1 <= bound + 1 by {
                    if i != k {
                        assert(before[i].1 <= bound);
                    }
                }
                lemma_count_map_at(before, k as int);
                lemma_count_map_at(after, k as int);
                let m0 = count_map(before);
                let m1 = count_map(after);
                let target = bumped(m0, key@);
                assert forall|s: Seq<char>| m1.contains_key(s) <==> target.contains_key(s) by {
                    if m1.contains_key(s) {
                        let j = choose|j: int| 0 <= j < after.len() && after[j].0@ == s;
                        assert(before[j].0@ == s);
                    }
                    if target.contains_key(s) && s != key@ {
                        let j = choose|j: int| 0 <= j < before.len() && before[j].0@ == s;
                        assert(after[j].0@ == s);
                    }
                }
                assert forall|s: Seq<char>| m1.contains_key(s) implies m1[s] == target[s] by {
                    let j = choose|j: int| 0 <= j < after.len() && after[j].0@ == s;
                    lemma_count_map_at(after, j);
                    lemma_count_map_at(before, j);
                    if j == k {
                        assert(s == key@);
                        assert(m1[s] == v + 1);
                        assert(m0[s] == v);
                    } else {
                        assert(after[j] == before[j]);
                        assert(s != key@);
                    }
                }
                assert(m1 =~= target);
            }
            return;
        }
        k = k + 1;
    }
    entries.push((key.to_string(), 1));
    proof {
        let after = entries@;
        assert(after == before.push((after[n as int].0, 1u64)));
        assert(keys_distinct(after));
        assert(counts_at_most(after, bound + 1)) by {
            assert forall|i: int| 0 <= i < after.len() implies #[trigger] after[i].1 <= bound + 1 by {
                if i < n {
                    assert(before[i].1 <= bound);
                }
            }
        }
        let m0 = count_map(before);
        let m1 = count_map(after);
        let target = bumped(m0, key@);
        assert(!m0.contains_key(key@)) by {
            if m0.contains_key(key@) {
                let j = choose|j: int| 0 <= j < before.len() && before[j].0@ == key@;
                assert(before[j].0@ != key@);
            }
        }
        lemma_count_map_at(after, n as int);
        assert forall|s: Seq<char>| m1.contains_key(s) <==> target.contains_key(s) by {
            if m1.contains_key(s) && s != key@ {
                let j = choose|j: int| 0 <= j < after.len() && after[j].0@ == s;
                assert(before[j].0@ == s);
            }
            if target.contains_key(s) && s != key@ {
                let j = choose|j: int| 0 <= j < before.len() && before[j].0@ == s;
                assert(after[j].0@ == s);
            }
        }
        assert forall|s: Seq<char>| m1.contains_key(s) implies m1[s] == target[s] by {
            let j = choose|j: int| 0 <= j < after.len() && after[j].0@ == s;
            lemma_count_map_at(after, j);
            if j < n {
                lemma_count_map_at(before, j);
            }
        }
        assert(m1 =~= target);
    }
}

/// Texts named once each, in the order first seen.
pub open spec fn texts_distinct(v: Seq<String>) -> bool {
    forall|i: int, j: int| 0 <= i < j < v.len() ==> v[i]@ != v[j]@
}

pub open spec fn text_set(v: Seq<String>) -> Set<Seq<char>> {
    Set::new(|t: Seq<char>| exists|i: int| 0 <= i < v.len() && v[i]@ == t)
}

/// Adds a text unless it is there; says whether it was new.
fn insert_text(v: &mut Vec<String>, t: &str) -> (added: bool)
    requires
        texts_distinct(old(v)@),
    ensures
        texts_distinct(final(v)@),
        text_set(final(v)@) == text_set(old(v)@).insert(t@),
        added == !text_set(old(v)@).contains(t@),
{
    let ghost before = v@;
    let n: usize = v.len();
    let mut k: usize = 0;
    while k < n
        invariant
            0 <= k <= n,
            n == v@.len(),
            v@ == before,
            texts_distinct(before),
            forall|i: int| 0 <= i < k ==> (#[trigger] before[i])@ != t@,
        decreases n - k,
    {
        if str_equal(v[k].as_str(), t) {
            proof {
                assert(text_set(before).contains(t@)) by {
                    assert(before[k as int]@ == t@);
                }
                assert(text_set(before).insert(t@) =~= text_set(before));
            }
            return false;
        }
        k = k + 1;
    }
    v.push(t.to_string());
    proof {
        let after = v@;
        assert(!text_set(before).contains(t@)) by {
            if text_set(before).contains(t@) {
                let j = choose|j: int| 0 <= j < before.len() && before[j]@ == t@;
                assert(before[j]@ != t@);
            }
        }
        assert forall|s: Seq<char>| text_set(after).contains(s) <==> text_set(before).insert(t@).contains(s) by {
            if text_set(after).contains(s) && s != t@ {
                let j = choose|j: int| 0 <= j < after.len() && after[j]@ == s;
                assert(j < n);
                assert(before[j]@ == s);
            }
            if text_set(before).contains(s) {
                let j = choose|j: int| 0 <= j < before.len() && before[j]@ == s;
                assert(after[j]@ == s);
            }
            if s == t@ {
                assert(after[n as int]@ == s);
            }
        }
        assert(text_set(after) =~= text_set(before).insert(t@));
    }
    true
}

/// Whether a text is among them.
fn has_text(v: &Vec<String>, t: &str) -> (r: bool)
    ensures
        r == text_set(v@).contains(t@),
{
    let n: usize = v.len();
    let mut k: usize = 0;
    while k < n
        invariant
            0 <= k <= n,
            n == v@.len(),
            forall|i: int| 0 <= i < k ==> (#[trigger] v@[i])@ != t@,
        decreases n - k,
    {
        if str_equal(v[k].as_str(), t) {
            assert(v@[k as int]@ == t@);
            return true;
        }
        k = k + 1;
    }
    proof {
        if text_set(v@).contains(t@) {
            let j = choose|j: int| 0 <= j < v@.len() && v@[j]@ == t@;
            assert(v@[j]@ != t@);
        }
    }
    false
}

// ---------------------------------------------------------------------------
// Players.
// ---------------------------------------------------------------------------

/// What the tally knows of one player.
pub struct PlayerModel {
    pub id: u128,
    pub nickname: Option<Seq<char>>,
    pub nicknames: Set<Seq<char>>,
    pub initial_team: Option<Seq<char>>,
    pub current_team: Option<Seq<char>>,
    pub active_since: Option<i64>,
    pub changed_team: bool,
    pub team_changes: nat,
    pub left_count: nat,
    pub time_in_game_ms: int,
    pub kills: nat,
    pub deaths: nat,
    pub assists: nat,
    pub teamkills: nat,
    pub suicides: nat,
    pub environment_deaths: nat,
    pub headshots: nat,
    pub vehicle_final_hits: nat,
    pub vehicle_destructions: nat,
    pub vehicle_teamkills: nat,
    pub vehicles_lost: nat,
    pub kills_by_weapon: Map<Seq<char>, nat>,
    pub deaths_by_source: Map<Seq<char>, nat>,
    pub vehicle_kills_by_type: Map<Seq<char>, nat>,
    pub vehicle_kills_by_weapon: Map<Seq<char>, nat>,
}

/// A player first referenced by the timeline: nothing known yet.
pub open spec fn fresh_player(id: u128) -> PlayerModel {
    PlayerModel {
        id,
        nickname: None,
        nicknames: Set::empty(),
        initial_team: None,
        current_team: None,
        active_since: None,
        changed_team: false,
        team_changes: 0,
        left_count: 0,
        time_in_game_ms: 0,
        kills: 0,
        deaths: 0,
        assists: 0,
        teamkills: 0,
        suicides: 0,
        environment_deaths: 0,
        headshots: 0,
        vehicle_final_hits: 0,
        vehicle_destructions: 0,
        vehicle_teamkills: 0,
        vehicles_lost: 0,
        kills_by_weapon: Map::empty(),
        deaths_by_source: Map::empty(),
        vehicle_kills_by_type: Map::empty(),
        vehicle_kills_by_weapon: Map::empty(),
    }
}

/// One player's tally.
#[derive(Clone, Debug)]
pub struct PlayerTally {
    pub player_id: u128,
    pub nickname: Option<String>,
    pub nicknames: Vec<String>,
    pub initial_team: Option<String>,
    pub current_team: Option<String>,
    pub active_since: Option<i64>,
    pub changed_team: bool,
    pub team_changes: u64,
    pub left_count: u64,
    pub time_in_game_ms: i64,
    pub kills: u64,
    pub deaths: u64,
    pub assists: u64,
    pub teamkills: u64,
    pub suicides: u64,
    pub environment_deaths: u64,
    pub headshots: u64,
    pub vehicle_final_hits: u64,
    pub vehicle_destructions: u64,
    pub vehicle_teamkills: u64,
    pub vehicles_lost: u64,
    pub kills_by_weapon: Vec<(String, u64)>,
    pub deaths_by_source: Vec<(String, u64)>,
    pub vehicle_kills_by_type: Vec<(String, u64)>,
    pub vehicle_kills_by_weapon: Vec<(String, u64)>,
}

impl PlayerTally {
    pub open spec fn model(self) -> PlayerModel {
        PlayerModel {
            id: self.player_id,
            nickname: opt_text(self.nickname),
            nicknames: text_set(self.nicknames@),
            initial_team: opt_text(self.initial_team),
            current_team: opt_text(self.current_team),
            active_since: self.active_since,
            changed_team: self.changed_team,
            team_changes: self.team_changes as nat,
            left_count: self.left_count as nat,
            time_in_game_ms: self.time_in_game_ms as int,
            kills: self.kills as nat,
            deaths: self.deaths as nat,
            assists: self.assists as nat,
            teamkills: self.teamkills as nat,
            suicides: self.suicides as nat,
            environment_deaths: self.environment_deaths as nat,
            headshots: self.headshots as nat,
            vehicle_final_hits: self.vehicle_final_hits as nat,
            vehicle_destructions: self.vehicle_destructions as nat,
            vehicle_teamkills: self.vehicle_teamkills as nat,
            vehicles_lost: self.vehicles_lost as nat,
            kills_by_weapon: count_map(self.kills_by_weapon@),
            deaths_by_source: count_map(self.deaths_by_source@),
            vehicle_kills_by_type: count_map(self.vehicle_kills_by_type@),
            vehicle_kills_by_weapon: count_map(self.vehicle_kills_by_weapon@),
        }
    }

    /// The entries are well formed and no count exceeds `bound`.
    pub open spec fn bounded(self, bound: int) -> bool {
        &&& texts_distinct(self.nicknames@)
        &&& keys_distinct(self.kills_by_weapon@)
        &&& keys_distinct(self.deaths_by_source@)
        &&& keys_distinct(self.vehicle_kills_by_type@)
        &&& keys_distinct(self.vehicle_kills_by_weapon@)
        &&& counts_at_most(self.kills_by_weapon@, bound)
        &&& counts_at_most(self.deaths_by_source@, bound)
        &&& counts_at_most(self.vehicle_kills_by_type@, bound)
        &&& counts_at_most(self.vehicle_kills_by_weapon@, bound)
        &&& self.team_changes <= bound
        &&& self.left_count <= bound
        &&& self.kills <= bound
        &&& self.deaths <= bound
        &&& self.assists <= bound
        &&& self.teamkills <= bound
        &&& self.suicides <= bound
        &&& self.environment_deaths <= bound
        &&& self.headshots <= bound
        &&& self.vehicle_final_hits <= bound
        &&& self.vehicle_destructions <= bound
        &&& self.vehicle_teamkills <= bound
        &&& self.vehicles_lost <= bound
    }

    fn fresh(id: u128) -> (p: PlayerTally)
        ensures
            p.model() == fresh_player(id),
            p.bounded(0),
    {
        let p = PlayerTally {
            player_id: id,
            nickname: None,
            nicknames: Vec::new(),
            initial_team: None,
            current_team: None,
            active_since: None,
            changed_team: false,
            team_changes: 0,
            left_count: 0,
            time_in_game_ms: 0,
            kills: 0,
            deaths: 0,
            assists: 0,
            teamkills: 0,
            suicides: 0,
            environment_deaths: 0,
            headshots: 0,
            vehicle_final_hits: 0,
            vehicle_destructions: 0,
            vehicle_teamkills: 0,
            vehicles_lost: 0,
            kills_by_weapon: Vec::new(),
            deaths_by_source: Vec::new(),
            vehicle_kills_by_type: Vec::new(),
            vehicle_kills_by_weapon: Vec::new(),
        };
        proof {
            assert(text_set(p.nicknames@) =~= Set::empty());
            assert(count_map(p.kills_by_weapon@) =~= Map::empty());
            assert(count_map(p.deaths_by_source@) =~= Map::empty());
            assert(count_map(p.vehicle_kills_by_type@) =~= Map::empty());
            assert(count_map(p.vehicle_kills_by_weapon@) =~= Map::empty());
        }
        p
    }
}

proof fn lemma_bounded_grows(p: PlayerTally, a: int, b: int)
    requires
        p.bounded(a),
        a <= b,
    ensures
        p.bounded(b),
{
    assert forall|i: int| 0 <= i < p.kills_by_weapon@.len() implies #[trigger] p.kills_by_weapon@[i].1 <= b by {
        assert(p.kills_by_weapon@[i].1 <= a);
    }
    assert forall|i: int| 0 <= i < p.deaths_by_source@.len() implies #[trigger] p.deaths_by_source@[i].1 <= b by {
        assert(p.deaths_by_source@[i].1 <= a);
    }
    assert forall|i: int| 0 <= i < p.vehicle_kills_by_type@.len() implies #[trigger] p.vehicle_kills_by_type@[i].1
        <= b by {
        assert(p.vehicle_kills_by_type@[i].1 <= a);
    }
    assert forall|i: int| 0 <= i < p.vehicle_kills_by_weapon@.len() implies
        #[trigger] p.vehicle_kills_by_weapon@[i].1 <= b by {
        assert(p.vehicle_kills_by_weapon@[i].1 <= a);
    }
}

// ---------------------------------------------------------------------------
// Events and errors.
// ---------------------------------------------------------------------------

/// A timeline event as the tally reads it: what it counts, without the
/// damage amounts. With a death come the players whose damage share on the
/// victim earns an assist.
#[derive(Clone, Debug)]
pub enum TallyEvent {
    GameStarted { timestamp_ms: i64, game_id: u128, map: String },
    GameEnded { timestamp_ms: i64, game_id: u128, winning_team: Option<String> },
    PlayerJoined { timestamp_ms: i64, player_id: u128, nickname: String, team: Option<String> },
    PlayerLeft { timestamp_ms: i64, player_id: u128 },
    PlayerTeamChanged { timestamp_ms: i64, player_id: u128, new_team: String },
    PlayerDamage { timestamp_ms: i64, victim_id: u128, attacker_id: Option<u128>, headshot: bool },
    PlayerDeath {
        timestamp_ms: i64,
        victim_id: u128,
        killer_id: Option<u128>,
        source_kind: String,
        breakdown_key: String,
        assistants: Vec<u128>,
    },
    VehicleDamage {
        timestamp_ms: i64,
        vehicle_entity_id: String,
        attacker_id: Option<u128>,
        vehicle_owner_id: Option<u128>,
        is_fatal: bool,
    },
    VehicleDestroyed {
        timestamp_ms: i64,
        vehicle_entity_id: String,
        vehicle_type: Option<String>,
        attacker_id: Option<u128>,
        vehicle_owner_id: Option<u128>,
        breakdown_key: String,
        is_team_kill: bool,
    },
    Ignored { timestamp_ms: Option<i64>, event_type: String, known: bool },
}

impl TallyEvent {
    pub open spec fn kind_name(self) -> Seq<char> {
        match self {
            TallyEvent::GameStarted { .. } => "game_started"@,
            TallyEvent::GameEnded { .. } => "game_ended"@,
            TallyEvent::PlayerJoined { .. } => "player_joined"@,
            TallyEvent::PlayerLeft { .. } => "player_left"@,
            TallyEvent::PlayerTeamChanged { .. } => "player_team_changed"@,
            TallyEvent::PlayerDamage { .. } => "player_damage"@,
            TallyEvent::PlayerDeath { .. } => "player_death"@,
            TallyEvent::VehicleDamage { .. } => "vehicle_damage"@,
            TallyEvent::VehicleDestroyed { .. } => "vehicle_destroyed"@,
            TallyEvent::Ignored { event_type, .. } => event_type@,
        }
    }

    pub open spec fn time_of(self) -> Option<i64> {
        match self {
            TallyEvent::GameStarted { timestamp_ms, .. } => Some(timestamp_ms),
            TallyEvent::GameEnded { timestamp_ms, .. } => Some(timestamp_ms),
            TallyEvent::PlayerJoined { timestamp_ms, .. } => Some(timestamp_ms),
            TallyEvent::PlayerLeft { timestamp_ms, .. } => Some(timestamp_ms),
            TallyEvent::PlayerTeamChanged { timestamp_ms, .. } => Some(timestamp_ms),
            TallyEvent::PlayerDamage { timestamp_ms, .. } => Some(timestamp_ms),
            TallyEvent::PlayerDeath { timestamp_ms, .. } => Some(timestamp_ms),
            TallyEvent::VehicleDamage { timestamp_ms, .. } => Some(timestamp_ms),
            TallyEvent::VehicleDestroyed { timestamp_ms, .. } => Some(timestamp_ms),
            TallyEvent::Ignored { timestamp_ms, .. } => timestamp_ms,
        }
    }

    /// The event's type as the timeline names it.
    pub fn event_type(&self) -> (r: &str)
        ensures
            r@ == self.kind_name(),
    {
        match self {
            TallyEvent::GameStarted { .. } => "game_started",
            TallyEvent::GameEnded { .. } => "game_ended",
            TallyEvent::PlayerJoined { .. } => "player_joined",
            TallyEvent::PlayerLeft { .. } => "player_left",
            TallyEvent::PlayerTeamChanged { .. } => "player_team_changed",
            TallyEvent::PlayerDamage { .. } => "player_damage",
            TallyEvent::PlayerDeath { .. } => "player_death",
            TallyEvent::VehicleDamage { .. } => "vehicle_damage",
            TallyEvent::VehicleDestroyed { .. } => "vehicle_destroyed",
            TallyEvent::Ignored { event_type, .. } => event_type.as_str(),
        }
    }

    /// The event's time, when it has one.
    pub fn timestamp_ms(&self) -> (r: Option<i64>)
        ensures
            r == self.time_of(),
    {
        match self {
            TallyEvent::GameStarted { timestamp_ms, .. } => Some(*timestamp_ms),
            TallyEvent::GameEnded { timestamp_ms, .. } => Some(*timestamp_ms),
            TallyEvent::PlayerJoined { timestamp_ms, .. } => Some(*timestamp_ms),
            TallyEvent::PlayerLeft { timestamp_ms, .. } => Some(*timestamp_ms),
            TallyEvent::PlayerTeamChanged { timestamp_ms, .. } => Some(*timestamp_ms),
            TallyEvent::PlayerDamage { timestamp_ms, .. } => Some(*timestamp_ms),
            TallyEvent::PlayerDeath { timestamp_ms, .. } => Some(*timestamp_ms),
            TallyEvent::VehicleDamage { timestamp_ms, .. } => Some(*timestamp_ms),
            TallyEvent::VehicleDestroyed { timestamp_ms, .. } => Some(*timestamp_ms),
            TallyEvent::Ignored { timestamp_ms, .. } => *timestamp_ms,
        }
    }
}

/// Why a timeline cannot be tallied.
#[derive(Clone, Copy, Debug, PartialEq, Eq, Structural)]
pub enum AggregationError {
    MissingGameStarted,
    DuplicateGameStarted,
    DuplicateGameEnded,
    GameIdMismatch { expected: u128, actual: u128 },
    EndBeforeStart,
    NoPlayers,
}

impl AggregationError {
    pub open spec fn message_spec(self) -> Seq<char> {
        match self {
            AggregationError::MissingGameStarted => "timeline does not contain game_started"@,
            AggregationError::DuplicateGameStarted => "timeline contains more than one game_started"@,
            AggregationError::DuplicateGameEnded => "timeline contains more than one game_ended"@,
            AggregationError::GameIdMismatch { expected, actual } => "event gameId "@ + uuid_hyphenated(actual)
                + " does not match URL gameId "@ + uuid_hyphenated(expected),
            AggregationError::EndBeforeStart => "game_ended timestamp precedes game_started"@,
            AggregationError::NoPlayers => "timeline does not contain any players"@,
        }
    }

    /// The problem as text.
    pub fn message(&self) -> (r: String)
        ensures
            r@ == self.message_spec(),
    {
        match self {
            AggregationError::MissingGameStarted => "timeline does not contain game_started".to_string(),
            AggregationError::DuplicateGameStarted => "timeline contains more than one game_started".to_string(),
            AggregationError::DuplicateGameEnded => "timeline contains more than one game_ended".to_string(),
            AggregationError::GameIdMismatch { expected, actual } => {
                let mut out: Vec<char> = Vec::new();
                push_str(&mut out, "event gameId ");
                push_uuid(&mut out, *actual);
                push_str(&mut out, " does not match URL gameId ");
                push_uuid(&mut out, *expected);
                proof {
                    assert(out@ =~= "event gameId "@ + uuid_hyphenated(*actual) + " does not match URL gameId "@
                        + uuid_hyphenated(*expected));
                }
                string_of(out.as_slice())
            },
            AggregationError::EndBeforeStart => "game_ended timestamp precedes game_started".to_string(),
            AggregationError::NoPlayers => "timeline does not contain any players".to_string(),
        }
    }
}

// ---------------------------------------------------------------------------
// The tally as a model.
// ---------------------------------------------------------------------------

/// What the tally knows after some events.
pub struct TallyModel {
    pub expected_game_id: u128,
    pub map: Option<Seq<char>>,
    pub start: Option<i64>,
    pub end: Option<i64>,
    pub winning_team: Option<Seq<char>>,
    /// In the order the timeline first names them.
    pub players: Seq<PlayerModel>,
    pub fatal_vehicles: Set<Seq<char>>,
    pub destroyed_vehicles: Set<Seq<char>>,
    pub event_count: nat,
    pub event_counts: Map<Seq<char>, nat>,
    pub previous_ts: Option<i64>,
    pub warnings: Seq<Seq<char>>,
}

/// Warnings are kept up to a limit; the one past it says that more were
/// dropped.
pub open spec fn warned(w: Seq<Seq<char>>, text: Seq<char>) -> Seq<Seq<char>> {
    if w.len() < 500 {
        w.push(text)
    } else if w.len() == 500 {
        w.push("additional warnings were truncated"@)
    } else {
        w
    }
}

pub open spec fn with_warning(m: TallyModel, text: Seq<char>) -> TallyModel {
    TallyModel { warnings: warned(m.warnings, text), ..m }
}

pub open spec fn line_prefix(line: u64) -> Seq<char> {
    "line "@ + decimal(line as nat) + ": "@
}

pub open spec fn bool_text(b: bool) -> Seq<char> {
    if b {
        "true"@
    } else {
        "false"@
    }
}

/// Where a player stands in the model, when named there.
pub open spec fn index_of(ps: Seq<PlayerModel>, id: u128) -> Option<int> {
    if exists|i: int| 0 <= i < ps.len() && ps[i].id == id {
        Some(choose|i: int| 0 <= i < ps.len() && ps[i].id == id)
    } else {
        None
    }
}

pub open spec fn player_of(m: TallyModel, id: u128) -> PlayerModel {
    m.players[index_of(m.players, id)->0]
}

/// The model with a player replaced (found by its id).
pub open spec fn with_player(m: TallyModel, p: PlayerModel) -> TallyModel {
    TallyModel { players: m.players.update(index_of(m.players, p.id)->0, p), ..m }
}

/// A player named before joining gets an empty tally and, the first time,
/// a warning.
pub open spec fn referenced(m: TallyModel, id: u128, line: u64) -> TallyModel {
    if index_of(m.players, id) is Some {
        m
    } else {
        TallyModel {
            players: m.players.push(fresh_player(id)),
            warnings: warned(
                m.warnings,
                line_prefix(line) + "player "@ + uuid_hyphenated(id) + " was referenced before player_joined"@,
            ),
            ..m
        }
    }
}

/// The valid teams of two players, compared when both have one.
pub open spec fn team_relation(m: TallyModel, a: u128, b: u128) -> Option<bool> {
    let ta = match index_of(m.players, a) {
        Some(i) => valid_team_spec(m.players[i].current_team),
        None => None,
    };
    let tb = match index_of(m.players, b) {
        Some(i) => valid_team_spec(m.players[i].current_team),
        None => None,
    };
    match (ta, tb) {
        (Some(x), Some(y)) => Some(x == y),
        _ => None,
    }
}

pub open spec fn clamp_i64(x: int) -> int {
    if x > i64::MAX {
        i64::MAX as int
    } else if x < i64::MIN {
        i64::MIN as int
    } else {
        x
    }
}

pub open spec fn joined_step(
    m: TallyModel,
    id: u128,
    nickname: Seq<char>,
    team: Option<Seq<char>>,
    ts: i64,
    line: u64,
) -> TallyModel {
    let m1 = if index_of(m.players, id) is Some {
        m
    } else {
        TallyModel { players: m.players.push(fresh_player(id)), ..m }
    };
    let p = player_of(m1, id);
    if p.active_since is Some {
        with_warning(
            m1,
            line_prefix(line) + "duplicate player_joined for "@ + uuid_hyphenated(id) + "; existing interval was kept"@,
        )
    } else {
        with_player(
            m1,
            PlayerModel {
                nicknames: p.nicknames.insert(nickname),
                nickname: Some(nickname),
                initial_team: if p.initial_team is None {
                    team
                } else {
                    p.initial_team
                },
                current_team: team,
                active_since: Some(ts),
                ..p
            },
        )
    }
}

pub open spec fn left_step(m: TallyModel, id: u128, ts: i64, line: u64) -> TallyModel {
    let m1 = referenced(m, id, line);
    let p = player_of(m1, id);
    let m2 = with_player(
        m1,
        PlayerModel {
            left_count: p.left_count + 1,
            active_since: None,
            time_in_game_ms: match p.active_since {
                Some(j) => if ts >= j {
                    clamp_i64(p.time_in_game_ms + (ts - j))
                } else {
                    p.time_in_game_ms
                },
                None => p.time_in_game_ms,
            },
            ..p
        },
    );
    match p.active_since {
        Some(j) => if ts >= j {
            m2
        } else {
            with_warning(
                m2,
                line_prefix(line) + "player_left for "@ + uuid_hyphenated(id) + " precedes its player_joined"@,
            )
        },
        None => with_warning(
            m2,
            line_prefix(line) + "player_left for "@ + uuid_hyphenated(id) + " has no open presence interval"@,
        ),
    }
}

pub open spec fn team_changed_step(m: TallyModel, id: u128, team: Seq<char>, line: u64) -> TallyModel {
    let m1 = referenced(m, id, line);
    let p = player_of(m1, id);
    with_player(
        m1,
        PlayerModel { current_team: Some(team), team_changes: p.team_changes + 1, changed_team: true, ..p },
    )
}

pub open spec fn damage_step(m: TallyModel, victim: u128, attacker: Option<u128>, headshot: bool, line: u64) -> TallyModel {
    let m1 = referenced(m, victim, line);
    match attacker {
        None => m1,
        Some(a) => {
            let m2 = referenced(m1, a, line);
            if headshot {
                let p = player_of(m2, a);
                with_player(m2, PlayerModel { headshots: p.headshots + 1, ..p })
            } else {
                m2
            }
        },
    }
}

/// Each player named among the assistants, other than the killer and the
/// victim, earns an assist.
pub open spec fn assists_awarded(m: TallyModel, victim: u128, killer: u128, assistants: Seq<u128>) -> TallyModel {
    TallyModel {
        players: Seq::new(
            m.players.len(),
            |i: int|
                {
                    let p = m.players[i];
                    if assistants.contains(p.id) && p.id != killer && p.id != victim {
                        PlayerModel { assists: p.assists + 1, ..p }
                    } else {
                        p
                    }
                },
        ),
        ..m
    }
}

pub open spec fn death_step(
    m: TallyModel,
    victim: u128,
    killer: Option<u128>,
    kind: Seq<char>,
    key: Seq<char>,
    assistants: Seq<u128>,
    line: u64,
) -> TallyModel {
    let m1 = referenced(m, victim, line);
    let v = player_of(m1, victim);
    let self_inflicted = match killer {
        None => true,
        Some(k) => k == victim,
    };
    let m2 = with_player(
        m1,
        PlayerModel {
            deaths: v.deaths + 1,
            deaths_by_source: bumped(v.deaths_by_source, kind),
            suicides: if self_inflicted {
                v.suicides + 1
            } else {
                v.suicides
            },
            environment_deaths: if killer is None {
                v.environment_deaths + 1
            } else {
                v.environment_deaths
            },
            ..v
        },
    );
    match killer {
        Some(k) => if k == victim {
            m2
        } else {
            let m3 = referenced(m2, k, line);
            let kp = player_of(m3, k);
            if team_relation(m3, k, victim) == Some(true) {
                with_player(m3, PlayerModel { teamkills: kp.teamkills + 1, ..kp })
            } else {
                let m4 = with_player(
                    m3,
                    PlayerModel { kills: kp.kills + 1, kills_by_weapon: bumped(kp.kills_by_weapon, key), ..kp },
                );
                assists_awarded(m4, victim, k, assistants)
            }
        },
        None => m2,
    }
}

pub open spec fn vehicle_damage_step(
    m: TallyModel,
    entity: Seq<char>,
    attacker: Option<u128>,
    owner: Option<u128>,
    fatal: bool,
    line: u64,
) -> TallyModel {
    let m1 = match owner {
        Some(o) => referenced(m, o, line),
        None => m,
    };
    match attacker {
        None => m1,
        Some(a) => {
            let m2 = referenced(m1, a, line);
            if fatal && !m2.fatal_vehicles.contains(entity) {
                let p = player_of(m2, a);
                with_player(
                    TallyModel { fatal_vehicles: m2.fatal_vehicles.insert(entity), ..m2 },
                    PlayerModel { vehicle_final_hits: p.vehicle_final_hits + 1, ..p },
                )
            } else {
                m2
            }
        },
    }
}

pub open spec fn vehicle_destroyed_step(
    m: TallyModel,
    entity: Seq<char>,
    vehicle_type: Option<Seq<char>>,
    attacker: Option<u128>,
    owner: Option<u128>,
    key: Seq<char>,
    reported: bool,
    line: u64,
) -> TallyModel {
    if m.destroyed_vehicles.contains(entity) {
        with_warning(
            m,
            line_prefix(line) + "duplicate vehicle_destroyed for vehicleEntityId "@ + entity + " ignored"@,
        )
    } else {
        let m1 = TallyModel { destroyed_vehicles: m.destroyed_vehicles.insert(entity), ..m };
        let vt = match vehicle_type {
            Some(t) => t,
            None => "UNKNOWN"@,
        };
        if vt == "EMPTY"@ {
            m1
        } else {
            let m2 = match owner {
                Some(o) => {
                    let ma = referenced(m1, o, line);
                    let op = player_of(ma, o);
                    with_player(ma, PlayerModel { vehicles_lost: op.vehicles_lost + 1, ..op })
                },
                None => m1,
            };
            match attacker {
                None => m2,
                Some(a) => {
                    let m3 = referenced(m2, a, line);
                    let inferred = match owner {
                        Some(o) => if o != a {
                            team_relation(m3, a, o)
                        } else {
                            None
                        },
                        None => None,
                    };
                    let m4 = match inferred {
                        Some(x) => if x != reported {
                            with_warning(
                                m3,
                                line_prefix(line) + "vehicle teamkill flag ("@ + bool_text(reported)
                                    + ") differs from team state ("@ + bool_text(x) + ")"@,
                            )
                        } else {
                            m3
                        },
                        None => m3,
                    };
                    let ap = player_of(m4, a);
                    if reported || inferred == Some(true) {
                        with_player(m4, PlayerModel { vehicle_teamkills: ap.vehicle_teamkills + 1, ..ap })
                    } else {
                        with_player(
                            m4,
                            PlayerModel {
                                vehicle_destructions: ap.vehicle_destructions + 1,
                                vehicle_kills_by_type: bumped(ap.vehicle_kills_by_type, vt),
                                vehicle_kills_by_weapon: bumped(ap.vehicle_kills_by_weapon, key),
                                ..ap
                            },
                        )
                    }
                },
            }
        }
    }
}

/// The count and the clock: every event is counted under its type; a time
/// earlier than the one before, or later than the end of the game, is
/// warned of.
pub open spec fn counted_step(m: TallyModel, e: TallyEvent, line: u64) -> TallyModel {
    let m1 = TallyModel {
        event_count: m.event_count + 1,
        event_counts: bumped(m.event_counts, e.kind_name()),
        ..m
    };
    match e.time_of() {
        None => m1,
        Some(ts) => {
            let ma = match m1.previous_ts {
                Some(prev) => if ts < prev {
                    with_warning(
                        m1,
                        line_prefix(line) + "timestampMs moved backwards from "@ + int_text(prev as int) + " to "@
                            + int_text(ts as int) + "; source order was preserved"@,
                    )
                } else {
                    m1
                },
                None => m1,
            };
            let mb = TallyModel { previous_ts: Some(ts), ..ma };
            match mb.end {
                Some(end) => if ts > end {
                    with_warning(
                        mb,
                        line_prefix(line) + "event "@ + e.kind_name() + " occurs after game_ended"@,
                    )
                } else {
                    mb
                },
                None => mb,
            }
        },
    }
}

/// One event applied: the model after it, and whether the timeline is
/// refused at it.
pub open spec fn apply_spec(m: TallyModel, e: TallyEvent, line: u64) -> (TallyModel, Result<(), AggregationError>) {
    let c = counted_step(m, e, line);
    match e {
        TallyEvent::GameStarted { timestamp_ms, game_id, map } => if game_id != c.expected_game_id {
            (c, Err(AggregationError::GameIdMismatch { expected: c.expected_game_id, actual: game_id }))
        } else if c.start is Some {
            (c, Err(AggregationError::DuplicateGameStarted))
        } else {
            (TallyModel { start: Some(timestamp_ms), map: Some(map@), ..c }, Ok(()))
        },
        TallyEvent::GameEnded { timestamp_ms, game_id, winning_team } => if game_id != c.expected_game_id {
            (c, Err(AggregationError::GameIdMismatch { expected: c.expected_game_id, actual: game_id }))
        } else if c.end is Some {
            (c, Err(AggregationError::DuplicateGameEnded))
        } else {
            (TallyModel { end: Some(timestamp_ms), winning_team: opt_text(winning_team), ..c }, Ok(()))
        },
        TallyEvent::PlayerJoined { timestamp_ms, player_id, nickname, team } => (
            joined_step(c, player_id, nickname@, opt_text(team), timestamp_ms, line),
            Ok(()),
        ),
        TallyEvent::PlayerLeft { timestamp_ms, player_id } => (left_step(c, player_id, timestamp_ms, line), Ok(())),
        TallyEvent::PlayerTeamChanged { player_id, new_team, .. } => (
            team_changed_step(c, player_id, new_team@, line),
            Ok(()),
        ),
        TallyEvent::PlayerDamage { victim_id, attacker_id, headshot, .. } => (
            damage_step(c, victim_id, attacker_id, headshot, line),
            Ok(()),
        ),
        TallyEvent::PlayerDeath { victim_id, killer_id, source_kind, breakdown_key, assistants, .. } => (
            death_step(c, victim_id, killer_id, source_kind@, breakdown_key@, assistants@, line),
            Ok(()),
        ),
        TallyEvent::VehicleDamage { vehicle_entity_id, attacker_id, vehicle_owner_id, is_fatal, .. } => (
            vehicle_damage_step(c, vehicle_entity_id@, attacker_id, vehicle_owner_id, is_fatal, line),
            Ok(()),
        ),
        TallyEvent::VehicleDestroyed {
            vehicle_entity_id,
            vehicle_type,
            attacker_id,
            vehicle_owner_id,
            breakdown_key,
            is_team_kill,
            ..
        } => (
            vehicle_destroyed_step(
                c,
                vehicle_entity_id@,
                opt_text(vehicle_type),
                attacker_id,
                vehicle_owner_id,
                breakdown_key@,
                is_team_kill,
                line,
            ),
            Ok(()),
        ),
        TallyEvent::Ignored { event_type, known, .. } => (
            if known {
                c
            } else {
                with_warning(c, line_prefix(line) + "unknown event type `"@ + event_type@ + "` ignored"@)
            },
            Ok(()),
        ),
    }
}

// ---------------------------------------------------------------------------
// The tally.
// ---------------------------------------------------------------------------

/// The most events a tally takes: up to it, every counter of every player
/// fits its integer type.
pub const MAX_EVENTS: u64 = 0x5555_5555_5555_5554;

pub open spec fn ids_distinct(ps: Seq<PlayerModel>) -> bool {
    forall|i: int, j: int| 0 <= i < j < ps.len() ==> ps[i].id != ps[j].id
}

pub(crate) proof fn lemma_index_at(ps: Seq<PlayerModel>, k: int)
    requires
        ids_distinct(ps),
        0 <= k < ps.len(),
    ensures
        index_of(ps, ps[k].id) == Some(k),
{
    let id = ps[k].id;
    assert(exists|i: int| 0 <= i < ps.len() && ps[i].id == id);
    let c = choose|i: int| 0 <= i < ps.len() && ps[i].id == id;
    if c != k {
        if c < k {
            assert(ps[c].id != ps[k].id);
        } else {
            assert(ps[k].id != ps[c].id);
        }
    }
}

/// The tally of one match's timeline.
pub struct TimelineTally {
    expected_game_id: u128,
    map: Option<String>,
    start_timestamp_ms: Option<i64>,
    end_timestamp_ms: Option<i64>,
    winning_team: Option<String>,
    players: Vec<PlayerTally>,
    fatal_vehicle_entities: Vec<String>,
    destroyed_vehicle_entities: Vec<String>,
    event_count: u64,
    event_counts: Vec<(String, u64)>,
    previous_timestamp_ms: Option<i64>,
    warnings: Vec<String>,
}

pub open spec fn exec_ids_distinct(ps: Seq<PlayerTally>) -> bool {
    forall|i: int, j: int| 0 <= i < j < ps.len() ==> ps[i].player_id != ps[j].player_id
}

/// Replacing one player by a tally with the same id and counters one
/// level higher keeps the roster well formed.
proof fn lemma_update_player(ps: Seq<PlayerTally>, k: int, np: PlayerTally, level: int)
    requires
        exec_ids_distinct(ps),
        forall|i: int| 0 <= i < ps.len() ==> (#[trigger] ps[i]).bounded(level),
        0 <= k < ps.len(),
        np.player_id == ps[k].player_id,
        np.bounded(level + 1),
    ensures
        exec_ids_distinct(ps.update(k, np)),
        forall|i: int| 0 <= i < ps.len() ==> (#[trigger] ps.update(k, np)[i]).bounded(level + 1),
        player_models(ps.update(k, np)) == player_models(ps).update(k, np.model()),
        index_of(player_models(ps), np.player_id) == Some(k),
{
    let ns = ps.update(k, np);
    assert forall|i: int| 0 <= i < ps.len() implies (#[trigger] ns[i]).bounded(level + 1) by {
        if i != k {
            lemma_bounded_grows(ps[i], level, level + 1);
        }
    }
    assert(player_models(ns) =~= player_models(ps).update(k, np.model()));
    assert(ids_distinct(player_models(ps)));
    lemma_index_at(player_models(ps), k);
}

/// A roster at one level is at every higher one.
proof fn lemma_roster_grows(ps: Seq<PlayerTally>, a: int, b: int)
    requires
        forall|i: int| 0 <= i < ps.len() ==> (#[trigger] ps[i]).bounded(a),
        a <= b,
    ensures
        forall|i: int| 0 <= i < ps.len() ==> (#[trigger] ps[i]).bounded(b),
{
    assert forall|i: int| 0 <= i < ps.len() implies (#[trigger] ps[i]).bounded(b) by {
        lemma_bounded_grows(ps[i], a, b);
    }
}

pub open spec fn player_models(ps: Seq<PlayerTally>) -> Seq<PlayerModel> {
    ps.map_values(|p: PlayerTally| p.model())
}

pub open spec fn warning_texts(ws: Seq<String>) -> Seq<Seq<char>> {
    ws.map_values(|w: String| w@)
}

impl TimelineTally {
    pub closed spec fn model(self) -> TallyModel {
        TallyModel {
            expected_game_id: self.expected_game_id,
            map: opt_text(self.map),
            start: self.start_timestamp_ms,
            end: self.end_timestamp_ms,
            winning_team: opt_text(self.winning_team),
            players: player_models(self.players@),
            fatal_vehicles: text_set(self.fatal_vehicle_entities@),
            destroyed_vehicles: text_set(self.destroyed_vehicle_entities@),
            event_count: self.event_count as nat,
            event_counts: count_map(self.event_counts@),
            previous_ts: self.previous_timestamp_ms,
            warnings: warning_texts(self.warnings@),
        }
    }

    /// Every player is named once, every counter stays below three counts
    /// per event seen, and the entry lists are well formed.
    pub closed spec fn wf(self) -> bool {
        self.inv(3 * self.event_count)
    }

    /// As `wf`, with every player's counters at most `level`.
    pub closed spec fn inv(self, level: int) -> bool {
        &&& exec_ids_distinct(self.players@)
        &&& forall|i: int| 0 <= i < self.players@.len() ==> (#[trigger] self.players@[i]).bounded(level)
        &&& level >= 0
        &&& texts_distinct(self.fatal_vehicle_entities@)
        &&& texts_distinct(self.destroyed_vehicle_entities@)
        &&& keys_distinct(self.event_counts@)
        &&& counts_at_most(self.event_counts@, self.event_count as int)
        &&& self.event_count <= MAX_EVENTS
    }

    proof fn lemma_model_ids(self)
        requires
            exec_ids_distinct(self.players@),
        ensures
            ids_distinct(self.model().players),
            self.model().players.len() == self.players@.len(),
            forall|i: int| 0 <= i < self.players@.len() ==> #[trigger] self.model().players[i] == self.players@[i].model(),
    {
    }

    /// An empty tally for the game with this id.
    pub fn new(expected_game_id: u128) -> (t: TimelineTally)
        ensures
            t.wf(),
            t.model() == (TallyModel {
                expected_game_id,
                map: None,
                start: None,
                end: None,
                winning_team: None,
                players: Seq::empty(),
                fatal_vehicles: Set::empty(),
                destroyed_vehicles: Set::empty(),
                event_count: 0,
                event_counts: Map::empty(),
                previous_ts: None,
                warnings: Seq::empty(),
            }),
    {
        let t = TimelineTally {
            expected_game_id,
            map: None,
            start_timestamp_ms: None,
            end_timestamp_ms: None,
            winning_team: None,
            players: Vec::new(),
            fatal_vehicle_entities: Vec::new(),
            destroyed_vehicle_entities: Vec::new(),
            event_count: 0,
            event_counts: Vec::new(),
            previous_timestamp_ms: None,
            warnings: Vec::new(),
        };
        proof {
            assert(player_models(t.players@) =~= Seq::empty());
            assert(warning_texts(t.warnings@) =~= Seq::empty());
            assert(text_set(t.fatal_vehicle_entities@) =~= Set::empty());
            assert(text_set(t.destroyed_vehicle_entities@) =~= Set::empty());
            assert(count_map(t.event_counts@) =~= Map::empty());
        }
        t
    }

    /// How many events were applied.
    pub fn event_count(&self) -> (r: u64)
        ensures
            r == self.model().event_count,
    {
        self.event_count
    }

    /// Where the player stands, when named.
    fn find(&self, id: u128) -> (r: Option<usize>)
        requires
            exec_ids_distinct(self.players@),
        ensures
            match r {
                Some(k) => k < self.players@.len() && self.players@[k as int].player_id == id && index_of(
                    self.model().players,
                    id,
                ) == Some(k as int),
                None => index_of(self.model().players, id) is None,
            },
    {
        proof {
            self.lemma_model_ids();
        }
        let n: usize = self.players.len();
        let mut k: usize = 0;
        while k < n
            invariant
                0 <= k <= n,
                n == self.players@.len(),
                exec_ids_distinct(self.players@),
                forall|i: int| 0 <= i < k ==> (#[trigger] self.players@[i]).player_id != id,
            decreases n - k,
        {
            if self.players[k].player_id == id {
                proof {
                    self.lemma_model_ids();
                    lemma_index_at(self.model().players, k as int);
                }
                return Some(k);
            }
            k = k + 1;
        }
        proof {
            self.lemma_model_ids();
            if exists|i: int| 0 <= i < self.model().players.len() && self.model().players[i].id == id {
                let i = choose|i: int| 0 <= i < self.model().players.len() && self.model().players[i].id == id;
                assert(self.players@[i].player_id != id);
            }
        }
        None
    }

    /// Keeps a warning while there is room; the first one past it says
    /// that more were dropped.
    fn warn(&mut self, text: String)
        ensures
            final(self).model() == with_warning(old(self).model(), text@),
            final(self).players@ == old(self).players@,
            final(self).event_count == old(self).event_count,
            final(self).wf() == old(self).wf(),
            forall|l: int| old(self).inv(l) ==> final(self).inv(l),
    {
        let ghost before = self.warnings@;
        let n: usize = self.warnings.len();
        if n < 500 {
            self.warnings.push(text);
        } else if n == 500 {
            self.warnings.push("additional warnings were truncated".to_string());
        }
        proof {
            assert(warning_texts(self.warnings@) =~= warned(warning_texts(before), text@));
        }
    }
}

// ---------------------------------------------------------------------------
// Warning texts.
// ---------------------------------------------------------------------------

fn push_line_prefix(out: &mut Vec<char>, line: u64)
    ensures
        final(out)@ == old(out)@ + line_prefix(line),
{
    push_str(out, "line ");
    push_decimal(out, line);
    push_str(out, ": ");
    assert(final(out)@ =~= old(out)@ + line_prefix(line));
}

/// `line N: <before><player id><after>`.
fn player_warning(line: u64, before: &str, id: u128, after: &str) -> (r: String)
    ensures
        r@ == line_prefix(line) + before@ + uuid_hyphenated(id) + after@,
{
    let mut out: Vec<char> = Vec::new();
    push_line_prefix(&mut out, line);
    push_str(&mut out, before);
    push_uuid(&mut out, id);
    push_str(&mut out, after);
    assert(out@ =~= line_prefix(line) + before@ + uuid_hyphenated(id) + after@);
    string_of(out.as_slice())
}

/// `line N: <before><text><after>`.
fn text_warning(line: u64, before: &str, text: &str, after: &str) -> (r: String)
    ensures
        r@ == line_prefix(line) + before@ + text@ + after@,
{
    let mut out: Vec<char> = Vec::new();
    push_line_prefix(&mut out, line);
    push_str(&mut out, before);
    push_str(&mut out, text);
    push_str(&mut out, after);
    assert(out@ =~= line_prefix(line) + before@ + text@ + after@);
    string_of(out.as_slice())
}

fn bool_str(b: bool) -> (r: &'static str)
    ensures
        r@ == bool_text(b),
{
    if b {
        "true"
    } else {
        "false"
    }
}

fn flag_warning(line: u64, reported: bool, inferred: bool) -> (r: String)
    ensures
        r@ == line_prefix(line) + "vehicle teamkill flag ("@ + bool_text(reported) + ") differs from team state ("@
            + bool_text(inferred) + ")"@,
{
    let mut out: Vec<char> = Vec::new();
    push_line_prefix(&mut out, line);
    push_str(&mut out, "vehicle teamkill flag (");
    push_str(&mut out, bool_str(reported));
    push_str(&mut out, ") differs from team state (");
    push_str(&mut out, bool_str(inferred));
    push_str(&mut out, ")");
    assert(out@ =~= line_prefix(line) + "vehicle teamkill flag ("@ + bool_text(reported)
        + ") differs from team state ("@ + bool_text(inferred) + ")"@);
    string_of(out.as_slice())
}

fn backwards_warning(line: u64, prev: i64, ts: i64) -> (r: String)
    ensures
        r@ == line_prefix(line) + "timestampMs moved backwards from "@ + int_text(prev as int) + " to "@ + int_text(
            ts as int,
        ) + "; source order was preserved"@,
{
    let mut out: Vec<char> = Vec::new();
    push_line_prefix(&mut out, line);
    push_str(&mut out, "timestampMs moved backwards from ");
    push_i64(&mut out, prev);
    push_str(&mut out, " to ");
    push_i64(&mut out, ts);
    push_str(&mut out, "; source order was preserved");
    assert(out@ =~= line_prefix(line) + "timestampMs moved backwards from "@ + int_text(prev as int) + " to "@
        + int_text(ts as int) + "; source order was preserved"@);
    string_of(out.as_slice())
}

impl TimelineTally {
    /// Adds an empty tally for a player not yet named.
    fn add_fresh(&mut self, id: u128, Ghost(level): Ghost<int>) -> (k: usize)
        requires
            old(self).inv(level),
            index_of(old(self).model().players, id) is None,
        ensures
            final(self).inv(level),
            final(self).model() == (TallyModel {
                players: old(self).model().players.push(fresh_player(id)),
                ..old(self).model()
            }),
            final(self).event_count == old(self).event_count,
            k < final(self).players@.len(),
            final(self).players@[k as int].player_id == id,
            index_of(final(self).model().players, id) == Some(k as int),
    {
        let ghost before = self.players@;
        let ghost m0 = self.model();
        proof {
            self.lemma_model_ids();
        }
        self.players.push(PlayerTally::fresh(id));
        let k: usize = self.players.len() - 1;
        proof {
            assert(exec_ids_distinct(self.players@)) by {
                assert forall|i: int, j: int| 0 <= i < j < self.players@.len() implies self.players@[i].player_id
                    != self.players@[j].player_id by {
                    if j == k {
                        assert(m0.players[i].id == before[i].player_id);
                    }
                }
            }
            assert forall|i: int| 0 <= i < self.players@.len() implies (#[trigger] self.players@[i]).bounded(level) by {
                if i == k {
                    lemma_bounded_grows(self.players@[i], 0, level);
                }
            }
            assert(player_models(self.players@) =~= m0.players.push(fresh_player(id)));
            self.lemma_model_ids();
            lemma_index_at(self.model().players, k as int);
        }
        k
    }

    /// The player's place, adding an empty tally (and, the first time, a
    /// warning) for a player not yet named.
    fn reference(&mut self, id: u128, line: u64, Ghost(level): Ghost<int>) -> (k: usize)
        requires
            old(self).inv(level),
        ensures
            final(self).inv(level),
            final(self).model() == referenced(old(self).model(), id, line),
            final(self).event_count == old(self).event_count,
            k < final(self).players@.len(),
            final(self).players@[k as int].player_id == id,
            index_of(final(self).model().players, id) == Some(k as int),
    {
        match self.find(id) {
            Some(k) => k,
            None => {
                let k = self.add_fresh(id, Ghost(level));
                let w = player_warning(line, "player ", id, " was referenced before player_joined");
                self.warn(w);
                k
            },
        }
    }
}

impl TimelineTally {
    fn on_damage(&mut self, victim: u128, attacker: Option<u128>, headshot: bool, line: u64, Ghost(level): Ghost<int>)
        requires
            old(self).inv(level),
            level < u64::MAX,
        ensures
            final(self).inv(level + 1),
            final(self).model() == damage_step(old(self).model(), victim, attacker, headshot, line),
            final(self).event_count == old(self).event_count,
    {
        self.reference(victim, line, Ghost(level));
        match attacker {
            None => {
                proof {
                    lemma_roster_grows(self.players@, level, level + 1);
                }
            },
            Some(a) => {
                let k = self.reference(a, line, Ghost(level));
                if headshot {
                    let ghost ps = self.players@;
                    let h: u64 = self.players[k].headshots;
                    assert(ps[k as int].bounded(level));
                    self.players[k].headshots = h + 1;
                    proof {
                        lemma_bounded_grows(ps[k as int], level, level + 1);
                        lemma_update_player(ps, k as int, self.players@[k as int], level);
                    }
                } else {
                    proof {
                        lemma_roster_grows(self.players@, level, level + 1);
                    }
                }
            },
        }
    }
}

fn clone_text(o: &Option<String>) -> (r: Option<String>)
    ensures
        opt_text(r) == opt_text(*o),
{
    match o {
        Some(t) => Some(t.clone()),
        None => None,
    }
}

impl TimelineTally {
    fn on_team_changed(&mut self, id: u128, team: String, line: u64, Ghost(level): Ghost<int>)
        requires
            old(self).inv(level),
            level < u64::MAX,
        ensures
            final(self).inv(level + 1),
            final(self).model() == team_changed_step(old(self).model(), id, team@, line),
            final(self).event_count == old(self).event_count,
    {
        let k = self.reference(id, line, Ghost(level));
        let ghost ps = self.players@;
        let ghost m1 = self.model();
        let ghost team_text = team@;
        let c: u64 = self.players[k].team_changes;
        assert(ps[k as int].bounded(level));
        self.players[k].current_team = Some(team);
        self.players[k].team_changes = c + 1;
        self.players[k].changed_team = true;
        proof {
            lemma_bounded_grows(ps[k as int], level, level + 1);
            lemma_update_player(ps, k as int, self.players@[k as int], level);
            let p = player_of(m1, id);
            assert(p == ps[k as int].model());
            assert(self.players@[k as int].model() == PlayerModel {
                current_team: Some(team_text),
                team_changes: p.team_changes + 1,
                changed_team: true,
                ..p
            });
            assert(self.model().players == m1.players.update(k as int, self.players@[k as int].model()));
            assert(self.model() == with_player(m1, self.players@[k as int].model()));
        }
    }

    fn on_left(&mut self, id: u128, ts: i64, line: u64, Ghost(level): Ghost<int>)
        requires
            old(self).inv(level),
            level < u64::MAX,
        ensures
            final(self).inv(level + 1),
            final(self).model() == left_step(old(self).model(), id, ts, line),
            final(self).event_count == old(self).event_count,
    {
        let k = self.reference(id, line, Ghost(level));
        let ghost ps = self.players@;
        let ghost m1 = self.model();
        let lc: u64 = self.players[k].left_count;
        let active: Option<i64> = self.players[k].active_since;
        let time: i64 = self.players[k].time_in_game_ms;
        assert(ps[k as int].bounded(level));
        let nt: i64 = match active {
            Some(j) => if ts >= j {
                let sum: i128 = time as i128 + (ts as i128 - j as i128);
                if sum > i64::MAX as i128 {
                    i64::MAX
                } else if sum < i64::MIN as i128 {
                    i64::MIN
                } else {
                    sum as i64
                }
            } else {
                time
            },
            None => time,
        };
        self.players[k].left_count = lc + 1;
        self.players[k].active_since = None;
        self.players[k].time_in_game_ms = nt;
        proof {
            lemma_bounded_grows(ps[k as int], level, level + 1);
            lemma_update_player(ps, k as int, self.players@[k as int], level);
            let p = player_of(m1, id);
            assert(p == ps[k as int].model());
            assert(self.players@[k as int].model() == PlayerModel {
                left_count: p.left_count + 1,
                active_since: None,
                time_in_game_ms: match p.active_since {
                    Some(j) => if ts >= j {
                        clamp_i64(p.time_in_game_ms + (ts - j))
                    } else {
                        p.time_in_game_ms
                    },
                    None => p.time_in_game_ms,
                },
                ..p
            });
            assert(self.model().players == m1.players.update(k as int, self.players@[k as int].model()));
            assert(self.model() == with_player(m1, self.players@[k as int].model()));
        }
        match active {
            Some(j) => {
                if ts < j {
                    let w = player_warning(line, "player_left for ", id, " precedes its player_joined");
                    self.warn(w);
                }
            },
            None => {
                let w = player_warning(line, "player_left for ", id, " has no open presence interval");
                self.warn(w);
            },
        }
    }

    fn on_joined(
        &mut self,
        id: u128,
        nickname: String,
        team: Option<String>,
        ts: i64,
        line: u64,
        Ghost(level): Ghost<int>,
    )
        requires
            old(self).inv(level),
            level < u64::MAX,
        ensures
            final(self).inv(level + 1),
            final(self).model() == joined_step(old(self).model(), id, nickname@, opt_text(team), ts, line),
            final(self).event_count == old(self).event_count,
    {
        let k = match self.find(id) {
            Some(k) => k,
            None => self.add_fresh(id, Ghost(level)),
        };
        if self.players[k].active_since.is_some() {
            let w = player_warning(line, "duplicate player_joined for ", id, "; existing interval was kept");
            self.warn(w);
            proof {
                lemma_roster_grows(self.players@, level, level + 1);
            }
            return;
        }
        let ghost ps = self.players@;
        let ghost m1 = self.model();
        let ghost nick_text = nickname@;
        let ghost team_text = opt_text(team);
        assert(ps[k as int].bounded(level));
        let new_initial: Option<String> = if self.players[k].initial_team.is_none() {
            clone_text(&team)
        } else {
            clone_text(&self.players[k].initial_team)
        };
        insert_text(&mut self.players[k].nicknames, nickname.as_str());
        self.players[k].nickname = Some(nickname);
        self.players[k].initial_team = new_initial;
        self.players[k].current_team = team;
        self.players[k].active_since = Some(ts);
        proof {
            lemma_bounded_grows(ps[k as int], level, level + 1);
            lemma_update_player(ps, k as int, self.players@[k as int], level);
            let p = player_of(m1, id);
            assert(p == ps[k as int].model());
            assert(self.players@[k as int].model() == PlayerModel {
                nicknames: p.nicknames.insert(nick_text),
                nickname: Some(nick_text),
                initial_team: if p.initial_team is None {
                    team_text
                } else {
                    p.initial_team
                },
                current_team: team_text,
                active_since: Some(ts),
                ..p
            });
            assert(self.model().players == m1.players.update(k as int, self.players@[k as int].model()));
            assert(self.model() == with_player(m1, self.players@[k as int].model()));
        }
    }
}

fn contains_id(v: &Vec<u128>, id: u128) -> (r: bool)
    ensures
        r == v@.contains(id),
{
    let n: usize = v.len();
    let mut i: usize = 0;
    while i < n
        invariant
            0 <= i <= n,
            n == v@.len(),
            forall|j: int| 0 <= j < i ==> v@[j] != id,
        decreases n - i,
    {
        if v[i] == id {
            assert(v@[i as int] == id);
            return true;
        }
        i = i + 1;
    }
    false
}

pub open spec fn team_of(m: TallyModel, id: u128) -> Option<Seq<char>> {
    match index_of(m.players, id) {
        Some(i) => valid_team_spec(m.players[i].current_team),
        None => None,
    }
}

impl TimelineTally {
    /// The player's team when it is a valid one.
    fn team_of(&self, id: u128) -> (r: Option<&str>)
        requires
            exec_ids_distinct(self.players@),
        ensures
            match r {
                Some(t) => team_of(self.model(), id) == Some(t@),
                None => team_of(self.model(), id) is None,
            },
    {
        proof {
            self.lemma_model_ids();
        }
        match self.find(id) {
            Some(k) => match &self.players[k].current_team {
                Some(t) => valid_team(Some(t.as_str())),
                None => valid_team(None),
            },
            None => None,
        }
    }

    fn relation(&self, a: u128, b: u128) -> (r: Option<bool>)
        requires
            exec_ids_distinct(self.players@),
        ensures
            r == team_relation(self.model(), a, b),
    {
        let ta = self.team_of(a);
        let tb = self.team_of(b);
        match (ta, tb) {
            (Some(x), Some(y)) => Some(str_equal(x, y)),
            _ => None,
        }
    }

    /// Whether two players' valid teams are the same, when both have one.
    pub fn team_relation(&self, a: u128, b: u128) -> (r: Option<bool>)
        requires
            self.wf(),
        ensures
            r == team_relation(self.model(), a, b),
    {
        self.relation(a, b)
    }

    /// Whether two players are in the same valid team.
    pub fn same_team(&self, a: u128, b: u128) -> (r: bool)
        requires
            self.wf(),
        ensures
            r == (team_relation(self.model(), a, b) == Some(true)),
    {
        match self.relation(a, b) {
            Some(x) => x,
            None => false,
        }
    }

    fn award_assists(&mut self, victim: u128, killer: u128, assistants: &Vec<u128>, Ghost(level): Ghost<int>)
        requires
            old(self).inv(level),
            level < u64::MAX,
        ensures
            final(self).inv(level + 1),
            final(self).model() == assists_awarded(old(self).model(), victim, killer, assistants@),
            final(self).event_count == old(self).event_count,
    {
        let ghost ps = self.players@;
        let ghost m0 = self.model();
        let ghost target = assists_awarded(m0, victim, killer, assistants@);
        let n: usize = self.players.len();
        let mut i: usize = 0;
        while i < n
            invariant
                0 <= i <= n,
                n == ps.len(),
                old(self).inv(level),
                level < u64::MAX,
                ps == old(self).players@,
                m0 == old(self).model(),
                target == assists_awarded(m0, victim, killer, assistants@),
                self.players@.len() == n,
                forall|j: int| 0 <= j < n ==> (#[trigger] self.players@[j]).player_id == ps[j].player_id,
                forall|j: int| 0 <= j < i ==> (#[trigger] self.players@[j]).bounded(level + 1),
                forall|j: int| i <= j < n ==> #[trigger] self.players@[j] == ps[j],
                forall|j: int| 0 <= j < i ==> (#[trigger] self.players@[j]).model() == target.players[j],
                self.expected_game_id == old(self).expected_game_id,
                self.map == old(self).map,
                self.start_timestamp_ms == old(self).start_timestamp_ms,
                self.end_timestamp_ms == old(self).end_timestamp_ms,
                self.winning_team == old(self).winning_team,
                self.fatal_vehicle_entities == old(self).fatal_vehicle_entities,
                self.destroyed_vehicle_entities == old(self).destroyed_vehicle_entities,
                self.event_count == old(self).event_count,
                self.event_counts == old(self).event_counts,
                self.previous_timestamp_ms == old(self).previous_timestamp_ms,
                self.warnings == old(self).warnings,
            decreases n - i,
        {
            let pid: u128 = self.players[i].player_id;
            assert(ps[i as int].bounded(level));
            proof {
                lemma_bounded_grows(ps[i as int], level, level + 1);
            }
            if contains_id(assistants, pid) && pid != killer && pid != victim {
                let a: u64 = self.players[i].assists;
                self.players[i].assists = a + 1;
            }
            assert(self.players@[i as int].model() == target.players[i as int]);
            i = i + 1;
        }
        proof {
            assert(player_models(self.players@) =~= target.players);
            assert(exec_ids_distinct(self.players@)) by {
                assert forall|a: int, b: int| 0 <= a < b < self.players@.len() implies self.players@[a].player_id
                    != self.players@[b].player_id by {
                    assert(ps[a].player_id != ps[b].player_id);
                }
            }
        }
    }

    fn on_death(
        &mut self,
        victim: u128,
        killer: Option<u128>,
        kind: &str,
        key: &str,
        assistants: &Vec<u128>,
        line: u64,
        Ghost(level): Ghost<int>,
    )
        requires
            old(self).inv(level),
            level + 3 <= u64::MAX,
        ensures
            final(self).inv(level + 3),
            final(self).model() == death_step(old(self).model(), victim, killer, kind@, key@, assistants@, line),
            final(self).event_count == old(self).event_count,
    {
        let kv = self.reference(victim, line, Ghost(level));
        let ghost ps = self.players@;
        let ghost m1 = self.model();
        assert(ps[kv as int].bounded(level));
        let self_inflicted: bool = match killer {
            None => true,
            Some(k) => k == victim,
        };
        let d: u64 = self.players[kv].deaths;
        let su: u64 = self.players[kv].suicides;
        let env: u64 = self.players[kv].environment_deaths;
        bump(&mut self.players[kv].deaths_by_source, kind, Ghost(level));
        self.players[kv].deaths = d + 1;
        if self_inflicted {
            self.players[kv].suicides = su + 1;
        }
        if killer.is_none() {
            self.players[kv].environment_deaths = env + 1;
        }
        proof {
            lemma_bounded_grows(ps[kv as int], level, level + 1);
            lemma_update_player(ps, kv as int, self.players@[kv as int], level);
            let v = player_of(m1, victim);
            assert(v == ps[kv as int].model());
            assert(self.model().players == m1.players.update(kv as int, self.players@[kv as int].model()));
            assert(self.model() == with_player(m1, self.players@[kv as int].model()));
        }
        match killer {
            Some(k) => {
                if k == victim {
                    proof {
                        lemma_roster_grows(self.players@, level + 1, level + 3);
                    }
                } else {
                    let kk = self.reference(k, line, Ghost(level + 1));
                    let ghost ps3 = self.players@;
                    let ghost m3 = self.model();
                    assert(ps3[kk as int].bounded(level + 1));
                    let same: bool = match self.relation(k, victim) {
                        Some(x) => x,
                        None => false,
                    };
                    if same {
                        let t: u64 = self.players[kk].teamkills;
                        self.players[kk].teamkills = t + 1;
                        proof {
                            lemma_bounded_grows(ps3[kk as int], level + 1, level + 2);
                            lemma_update_player(ps3, kk as int, self.players@[kk as int], level + 1);
                            assert(player_of(m3, k) == ps3[kk as int].model());
                            assert(self.model().players == m3.players.update(kk as int, self.players@[kk as int].model()));
                            assert(self.model() == with_player(m3, self.players@[kk as int].model()));
                            lemma_roster_grows(self.players@, level + 2, level + 3);
                        }
                    } else {
                        let c: u64 = self.players[kk].kills;
                        bump(&mut self.players[kk].kills_by_weapon, key, Ghost(level + 1));
                        self.players[kk].kills = c + 1;
                        proof {
                            lemma_bounded_grows(ps3[kk as int], level + 1, level + 2);
                            lemma_update_player(ps3, kk as int, self.players@[kk as int], level + 1);
                            assert(player_of(m3, k) == ps3[kk as int].model());
                            assert(self.model().players == m3.players.update(kk as int, self.players@[kk as int].model()));
                            assert(self.model() == with_player(m3, self.players@[kk as int].model()));
                        }
                        self.award_assists(victim, k, assistants, Ghost(level + 2));
                    }
                }
            },
            None => {
                proof {
                    lemma_roster_grows(self.players@, level + 1, level + 3);
                }
            },
        }
    }
}

impl TimelineTally {
    fn on_vehicle_damage(
        &mut self,
        entity: &str,
        attacker: Option<u128>,
        owner: Option<u128>,
        fatal: bool,
        line: u64,
        Ghost(level): Ghost<int>,
    )
        requires
            old(self).inv(level),
            level < u64::MAX,
        ensures
            final(self).inv(level + 1),
            final(self).model() == vehicle_damage_step(old(self).model(), entity@, attacker, owner, fatal, line),
            final(self).event_count == old(self).event_count,
    {
        match owner {
            Some(o) => {
                self.reference(o, line, Ghost(level));
            },
            None => {},
        }
        match attacker {
            None => {
                proof {
                    lemma_roster_grows(self.players@, level, level + 1);
                }
            },
            Some(a) => {
                let k = self.reference(a, line, Ghost(level));
                if fatal && !has_text(&self.fatal_vehicle_entities, entity) {
                    let ghost ps = self.players@;
                    let ghost m2 = self.model();
                    assert(ps[k as int].bounded(level));
                    insert_text(&mut self.fatal_vehicle_entities, entity);
                    let h: u64 = self.players[k].vehicle_final_hits;
                    self.players[k].vehicle_final_hits = h + 1;
                    proof {
                        lemma_bounded_grows(ps[k as int], level, level + 1);
                        lemma_update_player(ps, k as int, self.players@[k as int], level);
                        assert(player_of(m2, a) == ps[k as int].model());
                        assert(self.model().players == m2.players.update(k as int, self.players@[k as int].model()));
                        assert(self.model() == with_player(
                            TallyModel { fatal_vehicles: m2.fatal_vehicles.insert(entity@), ..m2 },
                            self.players@[k as int].model(),
                        ));
                    }
                } else {
                    proof {
                        lemma_roster_grows(self.players@, level, level + 1);
                    }
                }
            },
        }
    }

    fn on_vehicle_destroyed(
        &mut self,
        entity: &str,
        vehicle_type: &Option<String>,
        attacker: Option<u128>,
        owner: Option<u128>,
        key: &str,
        reported: bool,
        line: u64,
        Ghost(level): Ghost<int>,
    )
        requires
            old(self).inv(level),
            level + 2 <= u64::MAX,
        ensures
            final(self).inv(level + 2),
            final(self).model() == vehicle_destroyed_step(
                old(self).model(),
                entity@,
                opt_text(*vehicle_type),
                attacker,
                owner,
                key@,
                reported,
                line,
            ),
            final(self).event_count == old(self).event_count,
    {
        if has_text(&self.destroyed_vehicle_entities, entity) {
            let w = text_warning(line, "duplicate vehicle_destroyed for vehicleEntityId ", entity, " ignored");
            self.warn(w);
            proof {
                lemma_roster_grows(self.players@, level, level + 2);
            }
            return;
        }
        insert_text(&mut self.destroyed_vehicle_entities, entity);
        let vt: String = match vehicle_type {
            Some(t) => t.clone(),
            None => "UNKNOWN".to_string(),
        };
        proof {
            reveal_strlit("UNKNOWN");
        }
        if str_equal(vt.as_str(), "EMPTY") {
            proof {
                lemma_roster_grows(self.players@, level, level + 2);
            }
            return;
        }
        match owner {
            Some(o) => {
                let ko = self.reference(o, line, Ghost(level));
                let ghost ps = self.players@;
                let ghost ma = self.model();
                assert(ps[ko as int].bounded(level));
                let lost: u64 = self.players[ko].vehicles_lost;
                self.players[ko].vehicles_lost = lost + 1;
                proof {
                    lemma_bounded_grows(ps[ko as int], level, level + 1);
                    lemma_update_player(ps, ko as int, self.players@[ko as int], level);
                    assert(player_of(ma, o) == ps[ko as int].model());
                    assert(self.model().players == ma.players.update(ko as int, self.players@[ko as int].model()));
                    assert(self.model() == with_player(ma, self.players@[ko as int].model()));
                }
            },
            None => {
                proof {
                    lemma_roster_grows(self.players@, level, level + 1);
                }
            },
        }
        match attacker {
            None => {
                proof {
                    lemma_roster_grows(self.players@, level + 1, level + 2);
                }
            },
            Some(a) => {
                let ka = self.reference(a, line, Ghost(level + 1));
                let inferred: Option<bool> = match owner {
                    Some(o) => if o != a {
                        self.relation(a, o)
                    } else {
                        None
                    },
                    None => None,
                };
                match inferred {
                    Some(x) => {
                        if x != reported {
                            let w = flag_warning(line, reported, x);
                            self.warn(w);
                        }
                    },
                    None => {},
                }
                let teamkill: bool = reported || match inferred {
                    Some(x) => x,
                    None => false,
                };
                let ghost ps = self.players@;
                let ghost m4 = self.model();
                assert(ps[ka as int].bounded(level + 1));
                if teamkill {
                    let t: u64 = self.players[ka].vehicle_teamkills;
                    self.players[ka].vehicle_teamkills = t + 1;
                } else {
                    let d: u64 = self.players[ka].vehicle_destructions;
                    bump(&mut self.players[ka].vehicle_kills_by_type, vt.as_str(), Ghost(level + 1));
                    bump(&mut self.players[ka].vehicle_kills_by_weapon, key, Ghost(level + 1));
                    self.players[ka].vehicle_destructions = d + 1;
                }
                proof {
                    lemma_bounded_grows(ps[ka as int], level + 1, level + 2);
                    lemma_update_player(ps, ka as int, self.players@[ka as int], level + 1);
                    assert(player_of(m4, a) == ps[ka as int].model());
                    assert(self.model().players == m4.players.update(ka as int, self.players@[ka as int].model()));
                    assert(self.model() == with_player(m4, self.players@[ka as int].model()));
                }
            },
        }
    }
}

impl TimelineTally {
    fn count_event(&mut self, e: &TallyEvent, line: u64)
        requires
            old(self).wf(),
            old(self).event_count < MAX_EVENTS,
        ensures
            final(self).inv(3 * old(self).event_count),
            final(self).event_count == old(self).event_count + 1,
            final(self).model() == counted_step(old(self).model(), *e, line),
    {
        let ghost m0 = self.model();
        let ghost ec = self.event_count as int;
        bump(&mut self.event_counts, e.event_type(), Ghost(ec));
        self.event_count = self.event_count + 1;
        let ghost m1 = self.model();
        assert(m1 == TallyModel {
            event_count: m0.event_count + 1,
            event_counts: bumped(m0.event_counts, e.kind_name()),
            ..m0
        });
        match e.timestamp_ms() {
            None => {},
            Some(ts) => {
                match self.previous_timestamp_ms {
                    Some(prev) => {
                        if ts < prev {
                            let w = backwards_warning(line, prev, ts);
                            self.warn(w);
                        }
                    },
                    None => {},
                }
                self.previous_timestamp_ms = Some(ts);
                match self.end_timestamp_ms {
                    Some(end) => {
                        if ts > end {
                            let w = text_warning(line, "event ", e.event_type(), " occurs after game_ended");
                            self.warn(w);
                        }
                    },
                    None => {},
                }
            },
        }
    }

    /// Applies one timeline event. A game id other than the expected one,
    /// and a second start or end, refuse the timeline.
    pub fn apply(&mut self, event: TallyEvent, line: u64) -> (r: Result<(), AggregationError>)
        requires
            old(self).wf(),
            old(self).model().event_count < MAX_EVENTS,
        ensures
            final(self).wf(),
            (final(self).model(), r) == apply_spec(old(self).model(), event, line),
    {
        let ghost level = 3 * self.event_count as int;
        let ghost e = event;
        self.count_event(&event, line);
        proof {
            assert(3 * self.event_count as int == level + 3);
        }
        match event {
            TallyEvent::GameStarted { timestamp_ms, game_id, map } => {
                proof {
                    lemma_roster_grows(self.players@, level, level + 3);
                }
                if game_id != self.expected_game_id {
                    return Err(AggregationError::GameIdMismatch { expected: self.expected_game_id, actual: game_id });
                }
                if self.start_timestamp_ms.is_some() {
                    return Err(AggregationError::DuplicateGameStarted);
                }
                self.start_timestamp_ms = Some(timestamp_ms);
                self.map = Some(map);
                Ok(())
            },
            TallyEvent::GameEnded { timestamp_ms, game_id, winning_team } => {
                proof {
                    lemma_roster_grows(self.players@, level, level + 3);
                }
                if game_id != self.expected_game_id {
                    return Err(AggregationError::GameIdMismatch { expected: self.expected_game_id, actual: game_id });
                }
                if self.end_timestamp_ms.is_some() {
                    return Err(AggregationError::DuplicateGameEnded);
                }
                self.end_timestamp_ms = Some(timestamp_ms);
                self.winning_team = winning_team;
                Ok(())
            },
            TallyEvent::PlayerJoined { timestamp_ms, player_id, nickname, team } => {
                self.on_joined(player_id, nickname, team, timestamp_ms, line, Ghost(level));
                proof {
                    lemma_roster_grows(self.players@, level + 1, level + 3);
                }
                Ok(())
            },
            TallyEvent::PlayerLeft { timestamp_ms, player_id } => {
                self.on_left(player_id, timestamp_ms, line, Ghost(level));
                proof {
                    lemma_roster_grows(self.players@, level + 1, level + 3);
                }
                Ok(())
            },
            TallyEvent::PlayerTeamChanged { player_id, new_team, .. } => {
                self.on_team_changed(player_id, new_team, line, Ghost(level));
                proof {
                    lemma_roster_grows(self.players@, level + 1, level + 3);
                }
                Ok(())
            },
            TallyEvent::PlayerDamage { victim_id, attacker_id, headshot, .. } => {
                self.on_damage(victim_id, attacker_id, headshot, line, Ghost(level));
                proof {
                    lemma_roster_grows(self.players@, level + 1, level + 3);
                }
                Ok(())
            },
            TallyEvent::PlayerDeath { victim_id, killer_id, source_kind, breakdown_key, assistants, .. } => {
                self.on_death(
                    victim_id,
                    killer_id,
                    source_kind.as_str(),
                    breakdown_key.as_str(),
                    &assistants,
                    line,
                    Ghost(level),
                );
                Ok(())
            },
            TallyEvent::VehicleDamage { vehicle_entity_id, attacker_id, vehicle_owner_id, is_fatal, .. } => {
                self.on_vehicle_damage(
                    vehicle_entity_id.as_str(),
                    attacker_id,
                    vehicle_owner_id,
                    is_fatal,
                    line,
                    Ghost(level),
                );
                proof {
                    lemma_roster_grows(self.players@, level + 1, level + 3);
                }
                Ok(())
            },
            TallyEvent::VehicleDestroyed {
                vehicle_entity_id,
                vehicle_type,
                attacker_id,
                vehicle_owner_id,
                breakdown_key,
                is_team_kill,
                ..
            } => {
                self.on_vehicle_destroyed(
                    vehicle_entity_id.as_str(),
                    &vehicle_type,
                    attacker_id,
                    vehicle_owner_id,
                    breakdown_key.as_str(),
                    is_team_kill,
                    line,
                    Ghost(level),
                );
                proof {
                    lemma_roster_grows(self.players@, level + 2, level + 3);
                }
                Ok(())
            },
            TallyEvent::Ignored { event_type, known, .. } => {
                if !known {
                    let w = text_warning(line, "unknown event type `", event_type.as_str(), "` ignored");
                    self.warn(w);
                }
                proof {
                    lemma_roster_grows(self.players@, level, level + 3);
                }
                Ok(())
            },
        }
    }
}

// ---------------------------------------------------------------------------
// Finishing.
// ---------------------------------------------------------------------------

/// At the end of the game every open presence closes.
pub open spec fn closed_player(p: PlayerModel, end: i64) -> PlayerModel {
    match p.active_since {
        Some(j) => PlayerModel {
            active_since: None,
            time_in_game_ms: if end >= j {
                clamp_i64(p.time_in_game_ms + (end - j))
            } else {
                p.time_in_game_ms
            },
            ..p
        },
        None => p,
    }
}

/// Players whose open presence starts after the end of the game.
pub open spec fn late_count(ps: Seq<PlayerModel>, end: i64) -> nat
    decreases ps.len(),
{
    if ps.len() == 0 {
        0
    } else {
        late_count(ps.drop_last(), end) + match ps.last().active_since {
            Some(j) => if end < j {
                1nat
            } else {
                0nat
            },
            None => 0nat,
        }
    }
}

/// One warning per late presence, while there is room.
pub open spec fn late_warnings(w: Seq<Seq<char>>, late: nat) -> Seq<Seq<char>> {
    let room: int = if w.len() < 500 {
        500 - w.len()
    } else {
        0
    };
    let k: int = if late < room {
        late as int
    } else {
        room
    };
    w + Seq::new(k as nat, |i: int| "active player interval starts after game_ended"@)
}

/// The model once presences are closed, or the missing end warned of.
pub open spec fn closed_model(m: TallyModel) -> TallyModel {
    match m.end {
        Some(e) => TallyModel {
            players: m.players.map_values(|p: PlayerModel| closed_player(p, e)),
            warnings: late_warnings(m.warnings, late_count(m.players, e)),
            ..m
        },
        None => with_warning(
            m,
            "game_ended is missing; active presence intervals remain open and the match is excluded from leaderboards"@,
        ),
    }
}

/// Why a tally cannot be finished, if it cannot.
pub open spec fn finish_error(m: TallyModel) -> Option<AggregationError> {
    match m.start {
        None => Some(AggregationError::MissingGameStarted),
        Some(start) => if m.end is Some && m.end->0 < start {
            Some(AggregationError::EndBeforeStart)
        } else if m.players.len() == 0 {
            Some(AggregationError::NoPlayers)
        } else {
            None
        },
    }
}

/// A player's place in the result.
#[derive(Clone, Debug)]
pub struct FinishedPlayer {
    /// The tally with presences closed and nicknames sorted.
    pub tally: PlayerTally,
    /// The last nickname, or one made from the id.
    pub nickname: String,
    pub matches_played: u64,
    pub wins: u64,
    pub losses: u64,
}

/// The match once every event is in.
#[derive(Clone, Debug)]
pub struct MatchTally {
    pub game_id: u128,
    pub map: String,
    pub start_timestamp_ms: i64,
    pub end_timestamp_ms: Option<i64>,
    pub winning_team: Option<String>,
    pub completed: bool,
    pub event_count: u64,
    pub event_counts: Vec<(String, u64)>,
    pub warnings: Vec<String>,
    /// Ordered by id.
    pub players: Vec<FinishedPlayer>,
}

impl MatchTally {
    /// `completed` or `incomplete`.
    pub fn status(&self) -> (r: &'static str)
        ensures
            r@ == (if self.completed {
                "completed"@
            } else {
                "incomplete"@
            }),
    {
        if self.completed {
            "completed"
        } else {
            "incomplete"
        }
    }

    /// How long the game lasted, when it ended.
    pub fn duration_ms(&self) -> (r: Option<i64>)
        ensures
            match self.end_timestamp_ms {
                Some(end) => r == Some(clamp_i64(end - self.start_timestamp_ms) as i64),
                None => r is None,
            },
    {
        match self.end_timestamp_ms {
            Some(end) => {
                let d: i128 = end as i128 - self.start_timestamp_ms as i128;
                Some(
                    if d > i64::MAX as i128 {
                        i64::MAX
                    } else if d < i64::MIN as i128 {
                        i64::MIN
                    } else {
                        d as i64
                    },
                )
            },
            None => None,
        }
    }
}

/// What a finished player is, given its closed model.
pub open spec fn finished_player_is(fp: FinishedPlayer, p: PlayerModel, completed: bool, winner: Option<Seq<char>>) -> bool {
    &&& fp.tally.model() == p
    &&& strictly_sorted(fp.tally.nicknames@)
    &&& keys_sorted(fp.tally.kills_by_weapon@)
    &&& keys_sorted(fp.tally.deaths_by_source@)
    &&& keys_sorted(fp.tally.vehicle_kills_by_type@)
    &&& keys_sorted(fp.tally.vehicle_kills_by_weapon@)
    &&& fp.nickname@ == match p.nickname {
        Some(n) => n,
        None => fallback_nickname_spec(p.id),
    }
    &&& fp.matches_played == (if completed {
        1u64
    } else {
        0u64
    })
    &&& match (winner, valid_team_spec(p.current_team)) {
        (Some(w), Some(t)) => if completed {
            if w == t {
                fp.wins == 1 && fp.losses == 0
            } else {
                fp.wins == 0 && fp.losses == 1
            }
        } else {
            fp.wins == 0 && fp.losses == 0
        },
        _ => fp.wins == 0 && fp.losses == 0,
    }
}

/// The finished player stands for one of the players `lo..hi` of the model.
pub open spec fn placed(
    fp: FinishedPlayer,
    ps: Seq<PlayerModel>,
    lo: int,
    hi: int,
    completed: bool,
    winner: Option<Seq<char>>,
) -> bool {
    exists|j: int| lo <= j < hi && #[trigger] finished_player_is(fp, ps[j], completed, winner)
}

/// What a finished match is, given the closed model.
pub open spec fn finished_match_is(t: MatchTally, m: TallyModel) -> bool {
    let c = closed_model(m);
    let completed = m.end is Some;
    &&& t.game_id == m.expected_game_id
    &&& t.map@ == match m.map {
        Some(x) => x,
        None => "unknown"@,
    }
    &&& Some(t.start_timestamp_ms) == m.start
    &&& t.end_timestamp_ms == m.end
    &&& opt_text(t.winning_team) == m.winning_team
    &&& t.completed == completed
    &&& t.event_count == m.event_count
    &&& count_map(t.event_counts@) == m.event_counts
    &&& keys_sorted(t.event_counts@)
    &&& warning_texts(t.warnings@) == c.warnings
    &&& t.players@.len() == c.players.len()
    &&& forall|a: int, b: int|
        0 <= a < b < t.players@.len() ==> t.players@[a].tally.player_id < t.players@[b].tally.player_id
    &&& forall|a: int|
        0 <= a < t.players@.len() ==> placed(#[trigger] t.players@[a], c.players, 0, c.players.len() as int, completed, m.winning_team)
}

proof fn lemma_late_count_step(ps: Seq<PlayerModel>, i: int, end: i64)
    requires
        0 <= i < ps.len(),
    ensures
        late_count(ps.take(i + 1), end) == late_count(ps.take(i), end) + match ps[i].active_since {
            Some(j) => if end < j {
                1nat
            } else {
                0nat
            },
            None => 0nat,
        },
{
    assert(ps.take(i + 1).drop_last() =~= ps.take(i));
}

impl TimelineTally {
    fn close_presences(&mut self, end: i64)
        requires
            old(self).wf(),
        ensures
            final(self).wf(),
            final(self).model() == (TallyModel {
                players: old(self).model().players.map_values(|p: PlayerModel| closed_player(p, end)),
                warnings: late_warnings(old(self).model().warnings, late_count(old(self).model().players, end)),
                ..old(self).model()
            }),
    {
        let ghost ps = self.players@;
        let ghost m0 = self.model();
        let ghost w0 = m0.warnings;
        let ghost level = 3 * self.event_count as int;
        let n: usize = self.players.len();
        let mut i: usize = 0;
        while i < n
            invariant
                0 <= i <= n,
                n == ps.len(),
                old(self).wf(),
                ps == old(self).players@,
                m0 == old(self).model(),
                w0 == m0.warnings,
                level == 3 * old(self).event_count as int,
                self.players@.len() == n,
                forall|a: int| 0 <= a < n ==> (#[trigger] self.players@[a]).player_id == ps[a].player_id,
                forall|a: int| 0 <= a < n ==> (#[trigger] self.players@[a]).bounded(level),
                forall|a: int| 0 <= a < i ==> (#[trigger] self.players@[a]).model() == closed_player(ps[a].model(), end),
                forall|a: int| i <= a < n ==> #[trigger] self.players@[a] == ps[a],
                warning_texts(self.warnings@) == late_warnings(w0, late_count(m0.players.take(i as int), end)),
                self.expected_game_id == old(self).expected_game_id,
                self.map == old(self).map,
                self.start_timestamp_ms == old(self).start_timestamp_ms,
                self.end_timestamp_ms == old(self).end_timestamp_ms,
                self.winning_team == old(self).winning_team,
                self.fatal_vehicle_entities == old(self).fatal_vehicle_entities,
                self.destroyed_vehicle_entities == old(self).destroyed_vehicle_entities,
                self.event_count == old(self).event_count,
                self.event_counts == old(self).event_counts,
                self.previous_timestamp_ms == old(self).previous_timestamp_ms,
            decreases n - i,
        {
            let ghost wbefore = self.warnings@;
            proof {
                lemma_late_count_step(m0.players, i as int, end);
                assert(m0.players[i as int] == ps[i as int].model());
            }
            let active: Option<i64> = self.players[i].active_since;
            let time: i64 = self.players[i].time_in_game_ms;
            match active {
                Some(j) => {
                    self.players[i].active_since = None;
                    if end >= j {
                        let sum: i128 = time as i128 + (end as i128 - j as i128);
                        let nt: i64 = if sum > i64::MAX as i128 {
                            i64::MAX
                        } else if sum < i64::MIN as i128 {
                            i64::MIN
                        } else {
                            sum as i64
                        };
                        self.players[i].time_in_game_ms = nt;
                    } else if self.warnings.len() < 500 {
                        self.warnings.push("active player interval starts after game_ended".to_string());
                    }
                },
                None => {},
            }
            proof {
                let late_i = late_count(m0.players.take(i as int), end);
                let late_n = late_count(m0.players.take(i + 1), end);
                let room: int = if w0.len() < 500 {
                    500 - w0.len()
                } else {
                    0
                };
                let k: int = if late_i < room {
                    late_i as int
                } else {
                    room
                };
                let text = "active player interval starts after game_ended"@;
                assert(warning_texts(wbefore) == late_warnings(w0, late_i));
                assert(warning_texts(wbefore).len() == wbefore.len());
                assert(late_warnings(w0, late_i).len() == w0.len() + k);
                assert(wbefore.len() == w0.len() + k);
                if late_n == late_i {
                    assert(self.warnings@ == wbefore);
                } else if wbefore.len() < 500 {
                    assert(late_i < room);
                    assert(self.warnings@.len() == wbefore.len() + 1);
                    assert(self.warnings@[wbefore.len() as int]@ == text);
                    let lhs = warning_texts(self.warnings@);
                    let rhs = late_warnings(w0, late_n);
                    assert(rhs.len() == lhs.len());
                    assert forall|x: int| 0 <= x < lhs.len() implies lhs[x] == rhs[x] by {
                        if x < wbefore.len() {
                            assert(self.warnings@[x] == wbefore[x]);
                            assert(lhs[x] == warning_texts(wbefore)[x]);
                            assert(warning_texts(wbefore)[x] == late_warnings(w0, late_i)[x]);
                            if x < w0.len() {
                                assert(rhs[x] == w0[x]);
                            } else {
                                assert(rhs[x] == text);
                            }
                        } else {
                            assert(rhs[x] == text);
                        }
                    }
                    assert(lhs =~= rhs);
                } else {
                    assert(self.warnings@ == wbefore);
                    assert(k == room);
                    assert(warning_texts(self.warnings@) =~= late_warnings(w0, late_n));
                }
            }
            i = i + 1;
        }
        proof {
            assert(m0.players.take(n as int) =~= m0.players);
            assert(player_models(self.players@) =~= m0.players.map_values(|p: PlayerModel| closed_player(p, end)));
            assert(exec_ids_distinct(self.players@)) by {
                assert forall|a: int, b: int| 0 <= a < b < self.players@.len() implies self.players@[a].player_id
                    != self.players@[b].player_id by {
                    assert(ps[a].player_id != ps[b].player_id);
                }
            }
        }
    }
}

/// Each count list of a player names each key once.
pub open spec fn count_keys_distinct(p: PlayerTally) -> bool {
    &&& keys_distinct(p.kills_by_weapon@)
    &&& keys_distinct(p.deaths_by_source@)
    &&& keys_distinct(p.vehicle_kills_by_type@)
    &&& keys_distinct(p.vehicle_kills_by_weapon@)
}

fn finished_player(p: PlayerTally, completed: bool, winner: &Option<String>) -> (fp: FinishedPlayer)
    requires
        count_keys_distinct(p),
    ensures
        finished_player_is(fp, p.model(), completed, opt_text(*winner)),
{
    let ghost m = p.model();
    let mut p = p;
    let mut names: Vec<String> = Vec::new();
    std::mem::swap(&mut names, &mut p.nicknames);
    let ghost before = names@;
    let sorted = sorted_weapon_keys(names);
    p.nicknames = sorted;
    proof {
        assert(text_set(p.nicknames@) =~= text_set(before)) by {
            assert forall|t: Seq<char>| text_set(p.nicknames@).contains(t) <==> text_set(before).contains(t) by {
                assert(crate::gunskins::has_text(p.nicknames@, t) <==> crate::gunskins::has_text(before, t));
                if text_set(p.nicknames@).contains(t) {
                    let i = choose|i: int| 0 <= i < p.nicknames@.len() && p.nicknames@[i]@ == t;
                    assert(crate::gunskins::has_text(p.nicknames@, t));
                }
                if crate::gunskins::has_text(before, t) {
                    let i = choose|i: int| 0 <= i < before.len() && (#[trigger] before[i])@ == t;
                    assert(text_set(before).contains(t));
                }
                if text_set(before).contains(t) {
                    let i = choose|i: int| 0 <= i < before.len() && before[i]@ == t;
                    assert(crate::gunskins::has_text(before, t));
                }
                if crate::gunskins::has_text(p.nicknames@, t) {
                    let i = choose|i: int| 0 <= i < p.nicknames@.len() && (#[trigger] p.nicknames@[i])@ == t;
                    assert(text_set(p.nicknames@).contains(t));
                }
            }
        }
        assert(p.model() == m);
    }
    p.kills_by_weapon = sorted_counts(&p.kills_by_weapon);
    p.deaths_by_source = sorted_counts(&p.deaths_by_source);
    p.vehicle_kills_by_type = sorted_counts(&p.vehicle_kills_by_type);
    p.vehicle_kills_by_weapon = sorted_counts(&p.vehicle_kills_by_weapon);
    proof {
        assert(p.model() == m);
    }
    let nickname: String = match &p.nickname {
        Some(n) => n.clone(),
        None => fallback_nickname(p.player_id),
    };
    let team: Option<&str> = match &p.current_team {
        Some(t) => Some(t.as_str()),
        None => None,
    };
    let valid = valid_team(team);
    let mut wins: u64 = 0;
    let mut losses: u64 = 0;
    if completed {
        match (winner, valid) {
            (Some(w), Some(t)) => {
                if str_equal(w.as_str(), t) {
                    wins = 1;
                } else {
                    losses = 1;
                }
            },
            _ => {},
        }
    }
    FinishedPlayer { tally: p, nickname, matches_played: if completed { 1 } else { 0 }, wins, losses }
}

/// Inserts a player into a list ordered by id, where the id is not yet.
fn insert_by_id(out: &mut Vec<FinishedPlayer>, fp: FinishedPlayer)
    requires
        forall|a: int, b: int|
            0 <= a < b < old(out)@.len() ==> old(out)@[a].tally.player_id < old(out)@[b].tally.player_id,
        forall|a: int| 0 <= a < old(out)@.len() ==> (#[trigger] old(out)@[a]).tally.player_id != fp.tally.player_id,
    ensures
        forall|a: int, b: int|
            0 <= a < b < final(out)@.len() ==> final(out)@[a].tally.player_id < final(out)@[b].tally.player_id,
        exists|pos: int| 0 <= pos <= old(out)@.len() && final(out)@ == old(out)@.insert(pos, fp),
{
    let id = fp.tally.player_id;
    let n: usize = out.len();
    let mut pos: usize = 0;
    while pos < n && out[pos].tally.player_id < id
        invariant
            0 <= pos <= n,
            n == out@.len(),
            out@ == old(out)@,
            forall|a: int| 0 <= a < pos ==> (#[trigger] out@[a]).tally.player_id < id,
        decreases n - pos,
    {
        pos = pos + 1;
    }
    let ghost before = out@;
    out.insert(pos, fp);
    proof {
        assert forall|a: int, b: int| 0 <= a < b < out@.len() implies out@[a].tally.player_id
            < out@[b].tally.player_id by {
            if pos < n {
                assert(before[pos as int].tally.player_id > id);
            }
            if b < pos {
            } else if b == pos {
                assert(before[a].tally.player_id < id);
            } else if a < pos {
                if a < pos && b - 1 >= pos {
                    assert(before[pos as int].tally.player_id <= before[b - 1].tally.player_id);
                }
            } else if a == pos {
                assert(before[pos as int].tally.player_id <= before[b - 1].tally.player_id);
            } else {
            }
        }
    }
}

impl TimelineTally {
    /// Closes the tally: the match with its players ordered by id, every
    /// open presence closed at the end of the game (or the missing end
    /// warned of), and a win or a loss for each player in a valid team of
    /// a completed match with a winner.
    pub fn finish(self) -> (r: Result<MatchTally, AggregationError>)
        requires
            self.wf(),
        ensures
            match finish_error(self.model()) {
                Some(e) => r == Err::<MatchTally, AggregationError>(e),
                None => r matches Ok(t) && finished_match_is(t, self.model()),
            },
    {
        let ghost m = self.model();
        let mut this = self;
        let start: i64 = match this.start_timestamp_ms {
            Some(s) => s,
            None => {
                return Err(AggregationError::MissingGameStarted);
            },
        };
        match this.end_timestamp_ms {
            Some(end) => {
                if end < start {
                    return Err(AggregationError::EndBeforeStart);
                }
            },
            None => {},
        }
        if this.players.len() == 0 {
            return Err(AggregationError::NoPlayers);
        }
        match this.end_timestamp_ms {
            Some(end) => this.close_presences(end),
            None => {
                let w =
                    "game_ended is missing; active presence intervals remain open and the match is excluded from leaderboards".to_string();
                this.warn(w);
            },
        }
        let ghost c = this.model();
        assert(c == closed_model(m));
        let completed: bool = this.end_timestamp_ms.is_some();
        let mut players: Vec<PlayerTally> = Vec::new();
        std::mem::swap(&mut players, &mut this.players);
        let ghost cps = players@;
        proof {
            assert(exec_ids_distinct(cps));
            assert(c.players == player_models(cps));
            assert forall|k: int| 0 <= k < cps.len() implies count_keys_distinct(#[trigger] cps[k]) by {
                assert(cps[k].bounded(3 * this.event_count));
            }
        }
        let winner = clone_text(&this.winning_team);
        let mut out: Vec<FinishedPlayer> = Vec::new();
        let n: usize = players.len();
        let mut i: usize = n;
        while i > 0
            invariant
                0 <= i <= n,
                n == cps.len(),
                players@ == cps.take(i as int),
                exec_ids_distinct(cps),
                forall|k: int| 0 <= k < cps.len() ==> count_keys_distinct(#[trigger] cps[k]),
                c.players == player_models(cps),
                opt_text(winner) == m.winning_team,
                completed == (m.end is Some),
                out@.len() == n - i,
                forall|a: int, b: int|
                    0 <= a < b < out@.len() ==> out@[a].tally.player_id < out@[b].tally.player_id,
                forall|a: int|
                    0 <= a < out@.len() ==> placed(#[trigger] out@[a], c.players, i as int, n as int, completed, m.winning_team),
            decreases i,
        {
            let ghost before = out@;
            let p = match players.pop() {
                Some(p) => p,
                None => {
                    return Err(AggregationError::NoPlayers);
                },
            };
            i = i - 1;
            proof {
                assert(p == cps[i as int]);
                assert(players@ =~= cps.take(i as int));
            }
            let fp = finished_player(p, completed, &winner);
            proof {
                assert forall|a: int| 0 <= a < before.len() implies (#[trigger] before[a]).tally.player_id
                    != fp.tally.player_id by {
                    assert(placed(before[a], c.players, i + 1, n as int, completed, m.winning_team));
                    let j = choose|j: int|
                        i + 1 <= j < n && #[trigger] finished_player_is(before[a], c.players[j], completed, m.winning_team);
                    assert(before[a].tally.player_id == cps[j].player_id);
                    assert(cps[i as int].player_id != cps[j].player_id);
                }
            }
            insert_by_id(&mut out, fp);
            proof {
                let pos = choose|pos: int| 0 <= pos <= before.len() && out@ == before.insert(pos, fp);
                assert forall|a: int| 0 <= a < out@.len() implies placed(
                    #[trigger] out@[a],
                    c.players,
                    i as int,
                    n as int,
                    completed,
                    m.winning_team,
                ) by {
                    if a < pos {
                        assert(out@[a] == before[a]);
                        assert(placed(before[a], c.players, i + 1, n as int, completed, m.winning_team));
                        let j = choose|j: int|
                            i + 1 <= j < n && #[trigger] finished_player_is(before[a], c.players[j], completed, m.winning_team);
                        assert(finished_player_is(out@[a], c.players[j], completed, m.winning_team));
                    } else if a == pos {
                        assert(out@[a] == fp);
                        assert(finished_player_is(out@[a], c.players[i as int], completed, m.winning_team));
                    } else {
                        assert(out@[a] == before[a - 1]);
                        assert(placed(before[a - 1], c.players, i + 1, n as int, completed, m.winning_team));
                        let j = choose|j: int|
                            i + 1 <= j < n && #[trigger] finished_player_is(before[a - 1], c.players[j], completed, m.winning_team);
                        assert(finished_player_is(out@[a], c.players[j], completed, m.winning_team));
                    }
                }
            }
        }
        let map: String = match this.map {
            Some(x) => x,
            None => "unknown".to_string(),
        };
        proof {
            reveal_strlit("unknown");
        }
        let t = MatchTally {
                game_id: this.expected_game_id,
                map,
                start_timestamp_ms: start,
                end_timestamp_ms: this.end_timestamp_ms,
                winning_team: this.winning_team,
                completed,
                event_count: this.event_count,
                event_counts: sorted_counts(&this.event_counts),
                warnings: this.warnings,
                players: out,
            };
        proof {
            assert(t.game_id == m.expected_game_id);
            assert(Some(t.start_timestamp_ms) == m.start);
            assert(t.end_timestamp_ms == m.end);
            assert(opt_text(t.winning_team) == m.winning_team);
            assert(t.event_count == m.event_count);
            assert(count_map(t.event_counts@) == m.event_counts);
            assert(warning_texts(t.warnings@) == closed_model(m).warnings);
            assert(t.players@.len() == closed_model(m).players.len());
            assert(finish_error(m) is None);
        }
        Ok(t)
    }
}

// ---------------------------------------------------------------------------
// Laws.
// ---------------------------------------------------------------------------

/// Every applied event is counted once, under its type.
pub proof fn lemma_every_event_counted(m: TallyModel, e: TallyEvent, line: u64)
    ensures
        apply_spec(m, e, line).0.event_count == m.event_count + 1,
        apply_spec(m, e, line).0.event_counts == bumped(m.event_counts, e.kind_name()),
{
    let c = counted_step(m, e, line);
    assert(c.event_count == m.event_count + 1);
    assert(c.event_counts == bumped(m.event_counts, e.kind_name()));
    assert forall|x: TallyModel, id: u128| #[trigger] referenced(x, id, line).event_count == x.event_count
        && referenced(x, id, line).event_counts == x.event_counts by {
    }
    match e {
        TallyEvent::PlayerDeath { victim_id, killer_id, source_kind, breakdown_key, assistants, .. } => {
            let r = death_step(c, victim_id, killer_id, source_kind@, breakdown_key@, assistants@, line);
            assert(r.event_count == c.event_count && r.event_counts == c.event_counts);
        },
        TallyEvent::VehicleDestroyed {
            vehicle_entity_id,
            vehicle_type,
            attacker_id,
            vehicle_owner_id,
            breakdown_key,
            is_team_kill,
            ..
        } => {
            let r = vehicle_destroyed_step(
                c,
                vehicle_entity_id@,
                opt_text(vehicle_type),
                attacker_id,
                vehicle_owner_id,
                breakdown_key@,
                is_team_kill,
                line,
            );
            assert(r.event_count == c.event_count && r.event_counts == c.event_counts);
        },
        _ => {},
    }
}

proof fn lemma_warned_len(w: Seq<Seq<char>>, t: Seq<char>)
    requires
        w.len() <= 501,
    ensures
        warned(w, t).len() <= 501,
        warned(w, t).len() >= w.len(),
{
}

proof fn lemma_referenced_warnings(m: TallyModel, id: u128, line: u64)
    requires
        m.warnings.len() <= 501,
    ensures
        referenced(m, id, line).warnings.len() <= 501,
{
    lemma_warned_len(m.warnings, line_prefix(line) + "player "@ + uuid_hyphenated(id) + " was referenced before player_joined"@);
}

proof fn lemma_with_player_warnings(m: TallyModel, p: PlayerModel)
    ensures
        with_player(m, p).warnings == m.warnings,
{
}

/// However many events come, at most 500 warnings are kept, and one more
/// says that others were dropped.
#[verifier::rlimit(40)]
pub proof fn lemma_warnings_capped(m: TallyModel, e: TallyEvent, line: u64)
    requires
        m.warnings.len() <= 501,
    ensures
        apply_spec(m, e, line).0.warnings.len() <= 501,
{
    assert forall|w: Seq<Seq<char>>, t: Seq<char>| w.len() <= 501 implies #[trigger] warned(w, t).len() <= 501 by {
        lemma_warned_len(w, t);
    }
    assert forall|x: TallyModel, id: u128| x.warnings.len() <= 501 implies #[trigger] referenced(x, id, line).warnings.len()
        <= 501 by {
        lemma_referenced_warnings(x, id, line);
    }
    assert forall|x: TallyModel, p: PlayerModel| #[trigger] with_player(x, p).warnings == x.warnings by {
        lemma_with_player_warnings(x, p);
    }
    let c = counted_step(m, e, line);
    assert(c.warnings.len() <= 501);
    match e {
        TallyEvent::PlayerDeath { victim_id, killer_id, source_kind, breakdown_key, assistants, .. } => {
            let r = death_step(c, victim_id, killer_id, source_kind@, breakdown_key@, assistants@, line);
            assert(r.warnings.len() <= 501);
        },
        TallyEvent::VehicleDestroyed {
            vehicle_entity_id,
            vehicle_type,
            attacker_id,
            vehicle_owner_id,
            breakdown_key,
            is_team_kill,
            ..
        } => {
            let r = vehicle_destroyed_step(
                c,
                vehicle_entity_id@,
                opt_text(vehicle_type),
                attacker_id,
                vehicle_owner_id,
                breakdown_key@,
                is_team_kill,
                line,
            );
            assert(r.warnings.len() <= 501);
        },
        _ => {},
    }
}

/// A vehicle destroyed a second time is not counted again; only a warning
/// is added.
pub proof fn lemma_vehicle_destroyed_once(
    m: TallyModel,
    entity: Seq<char>,
    vehicle_type: Option<Seq<char>>,
    attacker: Option<u128>,
    owner: Option<u128>,
    key: Seq<char>,
    reported: bool,
    line: u64,
)
    requires
        m.destroyed_vehicles.contains(entity),
    ensures
        vehicle_destroyed_step(m, entity, vehicle_type, attacker, owner, key, reported, line) == with_warning(
            m,
            line_prefix(line) + "duplicate vehicle_destroyed for vehicleEntityId "@ + entity + " ignored"@,
        ),
{
}

/// An empty vehicle's destruction counts for nobody.
pub proof fn lemma_empty_vehicle_not_counted(
    m: TallyModel,
    entity: Seq<char>,
    attacker: Option<u128>,
    owner: Option<u128>,
    key: Seq<char>,
    reported: bool,
    line: u64,
)
    requires
        !m.destroyed_vehicles.contains(entity),
    ensures
        vehicle_destroyed_step(m, entity, Some("EMPTY"@), attacker, owner, key, reported, line).players == m.players,
{
}

/// A fatal hit on a vehicle already hit fatally is no final hit.
pub proof fn lemma_final_hit_once(
    m: TallyModel,
    entity: Seq<char>,
    attacker: Option<u128>,
    owner: Option<u128>,
    line: u64,
)
    requires
        m.fatal_vehicles.contains(entity),
    ensures
        vehicle_damage_step(m, entity, attacker, owner, true, line) == (match attacker {
            Some(a) => referenced(
                match owner {
                    Some(o) => referenced(m, o, line),
                    None => m,
                },
                a,
                line,
            ),
            None => match owner {
                Some(o) => referenced(m, o, line),
                None => m,
            },
        }),
{
    let m1 = match owner {
        Some(o) => referenced(m, o, line),
        None => m,
    };
    assert(m1.fatal_vehicles == m.fatal_vehicles);
    match attacker {
        Some(a) => {
            assert(referenced(m1, a, line).fatal_vehicles == m.fatal_vehicles);
        },
        None => {},
    }
}

/// A death with no killer is a suicide and an environment death of the
/// victim; one by the victim's own hand is a suicide only. Either way no
/// other player's counts change.
pub proof fn lemma_death_without_killer(
    m: TallyModel,
    victim: u128,
    killer: Option<u128>,
    kind: Seq<char>,
    key: Seq<char>,
    assistants: Seq<u128>,
    line: u64,
)
    requires
        ids_distinct(m.players),
        index_of(m.players, victim) is Some,
        killer is None || killer == Some(victim),
    ensures
        ({
            let r = death_step(m, victim, killer, kind, key, assistants, line);
            let before = player_of(m, victim);
            let after = player_of(r, victim);
            &&& r.players.len() == m.players.len()
            &&& after.deaths == before.deaths + 1
            &&& after.suicides == before.suicides + 1
            &&& after.environment_deaths == before.environment_deaths + (if killer is None {
                1int
            } else {
                0int
            })
            &&& after.kills == before.kills
            &&& forall|i: int| 0 <= i < m.players.len() && m.players[i].id != victim ==> r.players[i] == m.players[i]
        }),
{
    let k = index_of(m.players, victim)->0;
    lemma_index_at(m.players, k);
    let r = death_step(m, victim, killer, kind, key, assistants, line);
    let np = r.players[k];
    assert(r.players == m.players.update(k, np));
    assert(np.id == victim);
    let ps = r.players;
    assert(ids_distinct(ps)) by {
        assert forall|a: int, b: int| 0 <= a < b < ps.len() implies ps[a].id != ps[b].id by {
            assert(m.players[a].id != m.players[b].id);
        }
    }
    lemma_index_at(ps, k);
}

/// A kill by a teammate counts as a teamkill, never as a kill, and earns
/// no assists.
pub proof fn lemma_teamkill_is_no_kill(
    m: TallyModel,
    victim: u128,
    killer: u128,
    kind: Seq<char>,
    key: Seq<char>,
    assistants: Seq<u128>,
    line: u64,
)
    requires
        ids_distinct(m.players),
        index_of(m.players, victim) is Some,
        index_of(m.players, killer) is Some,
        killer != victim,
        team_relation(m, killer, victim) == Some(true),
    ensures
        ({
            let r = death_step(m, victim, Some(killer), kind, key, assistants, line);
            &&& player_of(r, killer).kills == player_of(m, killer).kills
            &&& player_of(r, killer).teamkills == player_of(m, killer).teamkills + 1
            &&& forall|i: int| 0 <= i < m.players.len() ==> #[trigger] r.players[i].assists == m.players[i].assists
        }),
{
    let kv = index_of(m.players, victim)->0;
    let kk = index_of(m.players, killer)->0;
    lemma_index_at(m.players, kv);
    lemma_index_at(m.players, kk);
    let m1 = referenced(m, victim, line);
    assert(m1 == m);
    let v = player_of(m1, victim);
    let self_inflicted = false;
    let m2 = death_step(m, victim, None, kind, key, assistants, line);
    let m2 = with_player(
        m1,
        PlayerModel {
            deaths: v.deaths + 1,
            deaths_by_source: bumped(v.deaths_by_source, kind),
            suicides: v.suicides,
            environment_deaths: v.environment_deaths,
            ..v
        },
    );
    assert(m2.players == m.players.update(kv, m2.players[kv]));
    assert(ids_distinct(m2.players)) by {
        assert forall|a: int, b: int| 0 <= a < b < m2.players.len() implies m2.players[a].id != m2.players[b].id by {
            assert(m.players[a].id != m.players[b].id);
        }
    }
    lemma_index_at(m2.players, kk);
    lemma_index_at(m2.players, kv);
    assert(referenced(m2, killer, line) == m2);
    assert(m2.players[kk] == m.players[kk]);
    assert(m2.players[kv].current_team == m.players[kv].current_team);
    assert(team_relation(m2, killer, victim) == team_relation(m, killer, victim));
    let kp = player_of(m2, killer);
    let r = with_player(m2, PlayerModel { teamkills: kp.teamkills + 1, ..kp });
    assert(r == death_step(m, victim, Some(killer), kind, key, assistants, line));
    assert(r.players == m2.players.update(kk, r.players[kk]));
    assert(ids_distinct(r.players)) by {
        assert forall|a: int, b: int| 0 <= a < b < r.players.len() implies r.players[a].id != r.players[b].id by {
            assert(m.players[a].id != m.players[b].id);
        }
    }
    lemma_index_at(r.players, kk);
}

/// A finished player has played the match only when it completed, and has
/// at most one result.
pub proof fn lemma_one_result_per_match(fp: FinishedPlayer, p: PlayerModel, completed: bool, winner: Option<Seq<char>>)
    requires
        finished_player_is(fp, p, completed, winner),
    ensures
        fp.matches_played == (if completed {
            1u64
        } else {
            0u64
        }),
        fp.wins + fp.losses <= fp.matches_played,
{
}

/// Finishing keeps the cap on warnings too.
pub proof fn lemma_finish_warnings_capped(m: TallyModel)
    requires
        m.warnings.len() <= 501,
    ensures
        closed_model(m).warnings.len() <= 501,
{
    match m.end {
        Some(e) => {},
        None => {
            lemma_warned_len(
                m.warnings,
                "game_ended is missing; active presence intervals remain open and the match is excluded from leaderboards"@,
            );
        },
    }
}

pub open spec fn times_non_negative(ps: Seq<PlayerModel>) -> bool {
    forall|i: int| 0 <= i < ps.len() ==> (#[trigger] ps[i]).time_in_game_ms >= 0
}

proof fn lemma_with_player_times(m: TallyModel, p: PlayerModel)
    requires
        times_non_negative(m.players),
        p.time_in_game_ms >= 0,
        index_of(m.players, p.id) is Some,
    ensures
        times_non_negative(with_player(m, p).players),
{
    let k = index_of(m.players, p.id)->0;
    assert(0 <= k < m.players.len());
    let ps = with_player(m, p).players;
    assert(ps == m.players.update(k, p));
    assert forall|i: int| 0 <= i < ps.len() implies (#[trigger] ps[i]).time_in_game_ms >= 0 by {
        if i != k {
            assert(ps[i] == m.players[i]);
        }
    }
}

proof fn lemma_referenced_times(m: TallyModel, id: u128, line: u64)
    requires
        times_non_negative(m.players),
    ensures
        times_non_negative(referenced(m, id, line).players),
        index_of(referenced(m, id, line).players, id) is Some,
        player_of(referenced(m, id, line), id).time_in_game_ms >= 0,
{
    let r = referenced(m, id, line);
    if index_of(m.players, id) is None {
        let k = m.players.len() as int;
        assert(r.players[k].id == id);
        assert(exists|i: int| 0 <= i < r.players.len() && r.players[i].id == id);
    }
    let i = choose|i: int| 0 <= i < r.players.len() && r.players[i].id == id;
    assert(r.players[i].time_in_game_ms >= 0);
}

/// Time in game never goes below zero: presences that close add their
/// length, and nothing else changes it.
pub proof fn lemma_time_in_game_never_negative(m: TallyModel, e: TallyEvent, line: u64)
    requires
        times_non_negative(m.players),
    ensures
        times_non_negative(apply_spec(m, e, line).0.players),
{
    let c = counted_step(m, e, line);
    assert(c.players == m.players);
    assert forall|x: TallyModel, id: u128| times_non_negative(x.players) implies #[trigger] times_non_negative(
        referenced(x, id, line).players,
    ) by {
        lemma_referenced_times(x, id, line);
    }
    match e {
        TallyEvent::PlayerJoined { timestamp_ms, player_id, nickname, team } => {
            let m1 = if index_of(c.players, player_id) is Some {
                c
            } else {
                TallyModel { players: c.players.push(fresh_player(player_id)), ..c }
            };
            assert(times_non_negative(m1.players));
            if index_of(m1.players, player_id) is None {
                assert(m1.players[c.players.len() as int].id == player_id);
            }
            let p = player_of(m1, player_id);
            assert(p.time_in_game_ms >= 0);
            if p.active_since is None {
                lemma_with_player_times(
                    m1,
                    PlayerModel {
                        nicknames: p.nicknames.insert(nickname@),
                        nickname: Some(nickname@),
                        initial_team: if p.initial_team is None {
                            opt_text(team)
                        } else {
                            p.initial_team
                        },
                        current_team: opt_text(team),
                        active_since: Some(timestamp_ms),
                        ..p
                    },
                );
            }
        },
        TallyEvent::PlayerLeft { timestamp_ms, player_id } => {
            let m1 = referenced(c, player_id, line);
            lemma_referenced_times(c, player_id, line);
            let p = player_of(m1, player_id);
            let t = match p.active_since {
                Some(j) => if timestamp_ms >= j {
                    clamp_i64(p.time_in_game_ms + (timestamp_ms - j))
                } else {
                    p.time_in_game_ms
                },
                None => p.time_in_game_ms,
            };
            assert(t >= 0);
            lemma_with_player_times(
                m1,
                PlayerModel { left_count: p.left_count + 1, active_since: None, time_in_game_ms: t, ..p },
            );
        },
        TallyEvent::PlayerTeamChanged { player_id, new_team, .. } => {
            lemma_referenced_times(c, player_id, line);
            let m1 = referenced(c, player_id, line);
            let p = player_of(m1, player_id);
            lemma_with_player_times(
                m1,
                PlayerModel { current_team: Some(new_team@), team_changes: p.team_changes + 1, changed_team: true, ..p },
            );
        },
        TallyEvent::PlayerDamage { victim_id, attacker_id, headshot, .. } => {
            lemma_referenced_times(c, victim_id, line);
            let m1 = referenced(c, victim_id, line);
            match attacker_id {
                Some(a) => {
                    lemma_referenced_times(m1, a, line);
                    let m2 = referenced(m1, a, line);
                    let p = player_of(m2, a);
                    lemma_with_player_times(m2, PlayerModel { headshots: p.headshots + 1, ..p });
                },
                None => {},
            }
        },
        TallyEvent::PlayerDeath { victim_id, killer_id, source_kind, breakdown_key, assistants, .. } => {
            lemma_referenced_times(c, victim_id, line);
            let m1 = referenced(c, victim_id, line);
            let v = player_of(m1, victim_id);
            let self_inflicted = match killer_id {
                None => true,
                Some(k) => k == victim_id,
            };
            let vp = PlayerModel {
                deaths: v.deaths + 1,
                deaths_by_source: bumped(v.deaths_by_source, source_kind@),
                suicides: if self_inflicted {
                    v.suicides + 1
                } else {
                    v.suicides
                },
                environment_deaths: if killer_id is None {
                    v.environment_deaths + 1
                } else {
                    v.environment_deaths
                },
                ..v
            };
            lemma_with_player_times(m1, vp);
            let m2 = with_player(m1, vp);
            match killer_id {
                Some(k) => {
                    if k != victim_id {
                        lemma_referenced_times(m2, k, line);
                        let m3 = referenced(m2, k, line);
                        let kp = player_of(m3, k);
                        lemma_with_player_times(m3, PlayerModel { teamkills: kp.teamkills + 1, ..kp });
                        let kp2 = PlayerModel {
                            kills: kp.kills + 1,
                            kills_by_weapon: bumped(kp.kills_by_weapon, breakdown_key@),
                            ..kp
                        };
                        lemma_with_player_times(m3, kp2);
                        let m4 = with_player(m3, kp2);
                        let r = assists_awarded(m4, victim_id, k, assistants@);
                        assert(times_non_negative(r.players)) by {
                            assert forall|i: int| 0 <= i < r.players.len() implies (#[trigger] r.players[i]).time_in_game_ms
                                >= 0 by {
                                assert(m4.players[i].time_in_game_ms >= 0);
                            }
                        }
                    }
                },
                None => {},
            }
        },
        TallyEvent::VehicleDamage { vehicle_entity_id, attacker_id, vehicle_owner_id, is_fatal, .. } => {
            let m1 = match vehicle_owner_id {
                Some(o) => referenced(c, o, line),
                None => c,
            };
            assert(times_non_negative(m1.players));
            match attacker_id {
                Some(a) => {
                    lemma_referenced_times(m1, a, line);
                    let m2 = referenced(m1, a, line);
                    let p = player_of(m2, a);
                    lemma_with_player_times(
                        TallyModel { fatal_vehicles: m2.fatal_vehicles.insert(vehicle_entity_id@), ..m2 },
                        PlayerModel { vehicle_final_hits: p.vehicle_final_hits + 1, ..p },
                    );
                },
                None => {},
            }
        },
        TallyEvent::VehicleDestroyed {
            vehicle_entity_id,
            vehicle_type,
            attacker_id,
            vehicle_owner_id,
            breakdown_key,
            is_team_kill,
            ..
        } => {
            let m1 = TallyModel { destroyed_vehicles: c.destroyed_vehicles.insert(vehicle_entity_id@), ..c };
            let vt = match opt_text(vehicle_type) {
                Some(t) => t,
                None => "UNKNOWN"@,
            };
            let m2 = match vehicle_owner_id {
                Some(o) => {
                    lemma_referenced_times(m1, o, line);
                    let ma = referenced(m1, o, line);
                    let op = player_of(ma, o);
                    lemma_with_player_times(ma, PlayerModel { vehicles_lost: op.vehicles_lost + 1, ..op });
                    with_player(ma, PlayerModel { vehicles_lost: op.vehicles_lost + 1, ..op })
                },
                None => m1,
            };
            assert(times_non_negative(m2.players));
            match attacker_id {
                Some(a) => {
                    lemma_referenced_times(m2, a, line);
                    let m3 = referenced(m2, a, line);
                    let inferred = match vehicle_owner_id {
                        Some(o) => if o != a {
                            team_relation(m3, a, o)
                        } else {
                            None
                        },
                        None => None,
                    };
                    let m4 = match inferred {
                        Some(x) => if x != is_team_kill {
                            with_warning(
                                m3,
                                line_prefix(line) + "vehicle teamkill flag ("@ + bool_text(is_team_kill)
                                    + ") differs from team state ("@ + bool_text(x) + ")"@,
                            )
                        } else {
                            m3
                        },
                        None => m3,
                    };
                    assert(m4.players == m3.players);
                    let ap = player_of(m4, a);
                    lemma_with_player_times(m4, PlayerModel { vehicle_teamkills: ap.vehicle_teamkills + 1, ..ap });
                    lemma_with_player_times(
                        m4,
                        PlayerModel {
                            vehicle_destructions: ap.vehicle_destructions + 1,
                            vehicle_kills_by_type: bumped(ap.vehicle_kills_by_type, vt),
                            vehicle_kills_by_weapon: bumped(ap.vehicle_kills_by_weapon, breakdown_key@),
                            ..ap
                        },
                    );
                },
                None => {},
            }
        },
        _ => {},
    }
}

} // verus!
