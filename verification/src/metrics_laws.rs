//! Laws of the match tally stated over whole events.
use vstd::prelude::*;
use crate::metrics_tally::{
    apply_spec, ids_distinct, index_of, lemma_index_at, opt_text, player_of, team_relation, PlayerModel,
    TallyEvent, TallyModel,
};

verus! {

/// Replacing a player by one with the same id keeps every player where it
/// stands.
proof fn lemma_update_keeps_places(ps: Seq<PlayerModel>, i: int, p: PlayerModel, k: int)
    requires
        ids_distinct(ps),
        0 <= i < ps.len(),
        0 <= k < ps.len(),
        p.id == ps[i].id,
    ensures
        ids_distinct(ps.update(i, p)),
        index_of(ps.update(i, p), ps[k].id) == Some(k),
{
    let qs = ps.update(i, p);
    assert forall|x: int, y: int| 0 <= x < y < qs.len() implies qs[x].id != qs[y].id by {
        assert(ps[x].id != ps[y].id);
    }
    assert(qs[k].id == ps[k].id);
    lemma_index_at(qs, k);
}

/// Where a named player stands.
proof fn lemma_place_of(ps: Seq<PlayerModel>, id: u128) -> (k: int)
    requires
        ids_distinct(ps),
        index_of(ps, id) is Some,
    ensures
        0 <= k < ps.len(),
        ps[k].id == id,
        index_of(ps, id) == Some(k),
{
    let k = choose|i: int| 0 <= i < ps.len() && ps[i].id == id;
    k
}

/// A vehicle destroyed for the first time by a player, neither flagged as a
/// teamkill nor destroyed by a teammate of its owner, counts once for the
/// attacker: one destruction more, and one more under the weapon that
/// destroyed it (the count of every other weapon stays as it was) and under
/// the vehicle's type (`UNKNOWN` when none is given).
pub proof fn lemma_vehicle_kill_counted_under_weapon(
    m: TallyModel,
    timestamp_ms: i64,
    entity: String,
    vehicle_type: Option<String>,
    attacker: u128,
    owner: Option<u128>,
    weapon: String,
    line: u64,
)
    requires
        ids_distinct(m.players),
        !m.destroyed_vehicles.contains(entity@),
        opt_text(vehicle_type) != Some("EMPTY"@),
        index_of(m.players, attacker) is Some,
        owner matches Some(o) ==> o != attacker && index_of(m.players, o) is Some && team_relation(m, attacker, o)
            != Some(true),
    ensures
        ({
            let e = TallyEvent::VehicleDestroyed {
                timestamp_ms,
                vehicle_entity_id: entity,
                vehicle_type,
                attacker_id: Some(attacker),
                vehicle_owner_id: owner,
                breakdown_key: weapon,
                is_team_kill: false,
            };
            let before = player_of(m, attacker).vehicle_kills_by_weapon;
            let after = player_of(apply_spec(m, e, line).0, attacker).vehicle_kills_by_weapon;
            &&& after.contains_key(weapon@)
            &&& after[weapon@] == (if before.contains_key(weapon@) {
                before[weapon@]
            } else {
                0
            }) + 1
            &&& forall|k: Seq<char>|
                k != weapon@ ==> (after.contains_key(k) == before.contains_key(k) && (before.contains_key(k)
                    ==> after[k] == before[k]))
            &&& player_of(apply_spec(m, e, line).0, attacker).vehicle_destructions == player_of(m, attacker).vehicle_destructions + 1
            &&& player_of(apply_spec(m, e, line).0, attacker).vehicle_teamkills == player_of(m, attacker).vehicle_teamkills
            &&& {
                let t = match opt_text(vehicle_type) {
                    Some(x) => x,
                    None => "UNKNOWN"@,
                };
                let tb = player_of(m, attacker).vehicle_kills_by_type;
                let ta = player_of(apply_spec(m, e, line).0, attacker).vehicle_kills_by_type;
                ta.contains_key(t) && ta[t] == (if tb.contains_key(t) {
                    tb[t]
                } else {
                    0
                }) + 1
            }
        }),
{
    let e = TallyEvent::VehicleDestroyed {
        timestamp_ms,
        vehicle_entity_id: entity,
        vehicle_type,
        attacker_id: Some(attacker),
        vehicle_owner_id: owner,
        breakdown_key: weapon,
        is_team_kill: false,
    };
    let ps = m.players;
    let ka = lemma_place_of(ps, attacker);
    let c = crate::metrics_tally::counted_step(m, e, line);
    assert(c.players == ps && c.destroyed_vehicles == m.destroyed_vehicles);
    let m1 = TallyModel { destroyed_vehicles: c.destroyed_vehicles.insert(entity@), ..c };
    let ps2 = match owner {
        Some(o) => {
            let ko = lemma_place_of(ps, o);
            let op = ps[ko];
            let np = PlayerModel { vehicles_lost: op.vehicles_lost + 1, ..op };
            lemma_update_keeps_places(ps, ko, np, ka);
            lemma_update_keeps_places(ps, ko, np, ko);
            assert(team_relation(TallyModel { players: ps.update(ko, np), ..m1 }, attacker, o) == team_relation(m, attacker, o));
            ps.update(ko, np)
        },
        None => ps,
    };
    assert(ids_distinct(ps2));
    assert(index_of(ps2, attacker) == Some(ka));
    assert(ps2[ka] == ps[ka]);
    let ap = ps[ka];
    let np = PlayerModel {
        vehicle_destructions: ap.vehicle_destructions + 1,
        vehicle_kills_by_type: crate::metrics_tally::bumped(ap.vehicle_kills_by_type, match opt_text(vehicle_type) {
            Some(t) => t,
            None => "UNKNOWN"@,
        }),
        vehicle_kills_by_weapon: crate::metrics_tally::bumped(ap.vehicle_kills_by_weapon, weapon@),
        ..ap
    };
    lemma_update_keeps_places(ps2, ka, np, ka);
    let m2 = crate::metrics_tally::vehicle_destroyed_step(
        c,
        entity@,
        opt_text(vehicle_type),
        Some(attacker),
        owner,
        weapon@,
        false,
        line,
    );
    let ma = match owner {
        Some(o) => {
            assert(crate::metrics_tally::referenced(m1, o, line) == m1);
            let op = player_of(m1, o);
            crate::metrics_tally::with_player(m1, PlayerModel { vehicles_lost: op.vehicles_lost + 1, ..op })
        },
        None => m1,
    };
    assert(ma.players == ps2);
    assert(crate::metrics_tally::referenced(ma, attacker, line) == ma);
    assert(player_of(ma, attacker) == ap);
    let inferred = match owner {
        Some(o) => team_relation(ma, attacker, o),
        None => None,
    };
    assert(inferred != Some(true));
    reveal_strlit("UNKNOWN");
    reveal_strlit("EMPTY");
    assert("UNKNOWN"@[0] != "EMPTY"@[0]);
    let vt = match opt_text(vehicle_type) {
        Some(t) => t,
        None => "UNKNOWN"@,
    };
    assert(vt != "EMPTY"@);
    let r = apply_spec(m, e, line).0;
    assert(r == m2);
    assert(r.players == ps2.update(ka, np));
    assert(player_of(r, attacker) == np);
}

/// A kill of a player by a player who is not on its team counts once: the
/// killer has one kill more, under the weapon that made it (no other
/// weapon's count changes) and no teamkill; the victim one death more,
/// under the kind of source, and no suicide or environment death; each
/// other player named as an assistant one assist more, and every other
/// player's assists stay as they were.
pub proof fn lemma_kill_counted_once(
    m: TallyModel,
    timestamp_ms: i64,
    victim: u128,
    killer: u128,
    source_kind: String,
    weapon: String,
    assistants: Vec<u128>,
    line: u64,
    other: u128,
)
    requires
        ids_distinct(m.players),
        killer != victim,
        index_of(m.players, killer) is Some,
        index_of(m.players, victim) is Some,
        index_of(m.players, other) is Some,
        other != killer,
        other != victim,
        team_relation(m, killer, victim) != Some(true),
    ensures
        ({
            let e = TallyEvent::PlayerDeath {
                timestamp_ms,
                victim_id: victim,
                killer_id: Some(killer),
                source_kind,
                breakdown_key: weapon,
                assistants,
            };
            let r = apply_spec(m, e, line).0;
            let kb = player_of(m, killer);
            let ka = player_of(r, killer);
            let vb = player_of(m, victim);
            let va = player_of(r, victim);
            &&& ka.kills == kb.kills + 1
            &&& ka.teamkills == kb.teamkills
            &&& ka.kills_by_weapon.contains_key(weapon@)
            &&& ka.kills_by_weapon[weapon@] == (if kb.kills_by_weapon.contains_key(weapon@) {
                kb.kills_by_weapon[weapon@]
            } else {
                0
            }) + 1
            &&& forall|k: Seq<char>|
                k != weapon@ ==> (ka.kills_by_weapon.contains_key(k) == kb.kills_by_weapon.contains_key(k) && (
                kb.kills_by_weapon.contains_key(k) ==> ka.kills_by_weapon[k] == kb.kills_by_weapon[k]))
            &&& ka.assists == kb.assists
            &&& va.deaths == vb.deaths + 1
            &&& va.suicides == vb.suicides
            &&& va.environment_deaths == vb.environment_deaths
            &&& va.assists == vb.assists
            &&& va.deaths_by_source.contains_key(source_kind@)
            &&& va.deaths_by_source[source_kind@] == (if vb.deaths_by_source.contains_key(source_kind@) {
                vb.deaths_by_source[source_kind@]
            } else {
                0
            }) + 1
            &&& player_of(r, other).assists == player_of(m, other).assists + (if assistants@.contains(other) {
                1int
            } else {
                0int
            })
        }),
{
    let e = TallyEvent::PlayerDeath {
        timestamp_ms,
        victim_id: victim,
        killer_id: Some(killer),
        source_kind,
        breakdown_key: weapon,
        assistants,
    };
    let ps = m.players;
    let kk = lemma_place_of(ps, killer);
    let kv = lemma_place_of(ps, victim);
    let ko = lemma_place_of(ps, other);
    let c = crate::metrics_tally::counted_step(m, e, line);
    assert(c.players == ps);
    assert(crate::metrics_tally::referenced(c, victim, line) == c);
    let v = ps[kv];
    let nv = PlayerModel {
        deaths: v.deaths + 1,
        deaths_by_source: crate::metrics_tally::bumped(v.deaths_by_source, source_kind@),
        suicides: v.suicides,
        environment_deaths: v.environment_deaths,
        ..v
    };
    lemma_update_keeps_places(ps, kv, nv, kk);
    lemma_update_keeps_places(ps, kv, nv, kv);
    lemma_update_keeps_places(ps, kv, nv, ko);
    let ps2 = ps.update(kv, nv);
    let m2 = crate::metrics_tally::with_player(c, nv);
    assert(m2.players == ps2);
    assert(crate::metrics_tally::referenced(m2, killer, line) == m2);
    assert(team_relation(m2, killer, victim) == team_relation(m, killer, victim));
    let kp = ps2[kk];
    assert(kp == ps[kk]);
    let nk = PlayerModel {
        kills: kp.kills + 1,
        kills_by_weapon: crate::metrics_tally::bumped(kp.kills_by_weapon, weapon@),
        ..kp
    };
    lemma_update_keeps_places(ps2, kk, nk, kk);
    lemma_update_keeps_places(ps2, kk, nk, kv);
    lemma_update_keeps_places(ps2, kk, nk, ko);
    let ps3 = ps2.update(kk, nk);
    let m4 = crate::metrics_tally::with_player(m2, nk);
    assert(m4.players == ps3);
    let r = apply_spec(m, e, line).0;
    assert(r == crate::metrics_tally::assists_awarded(m4, victim, killer, assistants@));
    let ps4 = r.players;
    assert(ps4.len() == ps3.len());
    assert forall|x: int, y: int| 0 <= x < y < ps4.len() implies ps4[x].id != ps4[y].id by {
        assert(ps3[x].id != ps3[y].id);
    }
    assert(ps4[kk].id == killer && ps4[kv].id == victim && ps4[ko].id == other);
    lemma_index_at(ps4, kk);
    lemma_index_at(ps4, kv);
    lemma_index_at(ps4, ko);
    assert(player_of(r, killer) == nk);
    assert(player_of(r, victim) == nv);
}

} // verus!
