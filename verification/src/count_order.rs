//! Counted keys as a `BTreeMap` keeps them (increasing by key), and the
//! stored per-match counts merged into a player's totals.
use vstd::prelude::*;
use crate::gunskins::{lemma_text_lt_irreflexive, lemma_text_lt_total, lemma_text_lt_trans, text_less, text_lt};
use crate::metrics_tally::{count_map, counts_at_most, keys_distinct, lemma_count_map_at};
use crate::text::str_equal;

verus! {

/// Entries in increasing order of their keys, as a `BTreeMap` keeps them.
pub open spec fn keys_sorted(e: Seq<(String, u64)>) -> bool {
    forall|i: int, j: int| 0 <= i < j < e.len() ==> text_lt(#[trigger] e[i].0@, #[trigger] e[j].0@)
}

/// Some entry counts `v` for `k`.
pub open spec fn has_entry(b: Seq<(String, u64)>, k: Seq<char>, v: u64) -> bool {
    exists|j: int| 0 <= j < b.len() && b[j].0@ == k && b[j].1 == v
}

/// Every entry of `a` is an entry of `b`.
pub open spec fn entries_within(a: Seq<(String, u64)>, b: Seq<(String, u64)>) -> bool {
    forall|i: int| 0 <= i < a.len() ==> has_entry(b, (#[trigger] a[i]).0@, a[i].1)
}

proof fn lemma_sorted_distinct(e: Seq<(String, u64)>)
    requires
        keys_sorted(e),
    ensures
        keys_distinct(e),
{
    assert forall|i: int, j: int| 0 <= i < j < e.len() implies e[i].0@ != e[j].0@ by {
        assert(text_lt(e[i].0@, e[j].0@));
        lemma_text_lt_irreflexive(e[i].0@);
    }
}

/// Entries naming each key once, with the same entries, stand for the same
/// counts.
proof fn lemma_same_entries_same_counts(a: Seq<(String, u64)>, b: Seq<(String, u64)>)
    requires
        keys_distinct(a),
        keys_distinct(b),
        entries_within(a, b),
        entries_within(b, a),
    ensures
        count_map(a) == count_map(b),
{
    let ma = count_map(a);
    let mb = count_map(b);
    assert forall|k: Seq<char>| ma.contains_key(k) <==> mb.contains_key(k) by {
        if ma.contains_key(k) {
            let i = choose|i: int| 0 <= i < a.len() && a[i].0@ == k;
            assert(a[i].0@ == k);
            assert(has_entry(b, a[i].0@, a[i].1));
            let j = choose|j: int| 0 <= j < b.len() && b[j].0@ == a[i].0@ && b[j].1 == a[i].1;
            assert(b[j].0@ == k);
        }
        if mb.contains_key(k) {
            let j = choose|j: int| 0 <= j < b.len() && b[j].0@ == k;
            assert(b[j].0@ == k);
            assert(has_entry(a, b[j].0@, b[j].1));
            let i = choose|i: int| 0 <= i < a.len() && a[i].0@ == b[j].0@ && a[i].1 == b[j].1;
            assert(a[i].0@ == k);
        }
    }
    assert forall|k: Seq<char>| ma.contains_key(k) implies ma[k] == mb[k] by {
        let i = choose|i: int| 0 <= i < a.len() && a[i].0@ == k;
        assert(a[i].0@ == k);
        assert(has_entry(b, a[i].0@, a[i].1));
        let j = choose|j: int| 0 <= j < b.len() && b[j].0@ == a[i].0@ && b[j].1 == a[i].1;
        lemma_count_map_at(a, i);
        lemma_count_map_at(b, j);
    }
    assert(ma =~= mb);
}

proof fn lemma_sorted_insert(before: Seq<(String, u64)>, pos: int, x: (String, u64))
    requires
        keys_sorted(before),
        0 <= pos <= before.len(),
        forall|k: int| 0 <= k < pos ==> text_lt(#[trigger] before[k].0@, x.0@),
        pos < before.len() ==> text_lt(x.0@, before[pos].0@),
    ensures
        keys_sorted(before.insert(pos, x)),
{
    let after = before.insert(pos, x);
    assert forall|a: int, b: int| 0 <= a < b < after.len() implies text_lt(
        #[trigger] after[a].0@,
        #[trigger] after[b].0@,
    ) by {
        if b < pos {
            assert(after[a] == before[a] && after[b] == before[b]);
        } else if b == pos {
            assert(after[a] == before[a]);
        } else if a < pos {
            assert(after[a] == before[a] && after[b] == before[b - 1]);
            if b - 1 > pos {
                assert(text_lt(before[pos].0@, before[b - 1].0@));
                lemma_text_lt_trans(x.0@, before[pos].0@, before[b - 1].0@);
            }
            lemma_text_lt_trans(before[a].0@, x.0@, before[b - 1].0@);
        } else if a == pos {
            assert(after[b] == before[b - 1]);
            if b - 1 > pos {
                assert(text_lt(before[pos].0@, before[b - 1].0@));
                lemma_text_lt_trans(x.0@, before[pos].0@, before[b - 1].0@);
            }
        } else {
            assert(after[a] == before[a - 1] && after[b] == before[b - 1]);
        }
    }
}

proof fn lemma_insert_entries(
    before: Seq<(String, u64)>,
    taken: Seq<(String, u64)>,
    x: (String, u64),
    y: (String, u64),
    pos: int,
)
    requires
        entries_within(before, taken),
        entries_within(taken, before),
        0 <= pos <= before.len(),
        y.0@ == x.0@,
        y.1 == x.1,
    ensures
        entries_within(before.insert(pos, y), taken.push(x)),
        entries_within(taken.push(x), before.insert(pos, y)),
{
    let after = before.insert(pos, y);
    let taken2 = taken.push(x);
    assert forall|a: int| 0 <= a < after.len() implies has_entry(taken2, (#[trigger] after[a]).0@, after[a].1) by {
        if a == pos {
            assert(taken2[taken.len() as int] == x);
            assert(taken2[taken.len() as int].0@ == after[a].0@ && taken2[taken.len() as int].1 == after[a].1);
        } else {
            let k = if a < pos {
                a
            } else {
                a - 1
            };
            assert(after[a] == before[k]);
            assert(has_entry(taken, before[k].0@, before[k].1));
            let t = choose|t: int| 0 <= t < taken.len() && taken[t].0@ == before[k].0@ && taken[t].1 == before[k].1;
            assert(taken2[t] == taken[t]);
        }
    }
    assert forall|t: int| 0 <= t < taken2.len() implies has_entry(after, (#[trigger] taken2[t]).0@, taken2[t].1) by {
        if t == taken.len() {
            assert(after[pos] == y);
        } else {
            assert(taken2[t] == taken[t]);
            assert(has_entry(before, taken[t].0@, taken[t].1));
            let k = choose|k: int| 0 <= k < before.len() && before[k].0@ == taken[t].0@ && before[k].1 == taken[t].1;
            if k < pos {
                assert(after[k] == before[k]);
            } else {
                assert(after[k + 1] == before[k]);
            }
        }
    }
}

/// The same counts, with the keys in increasing order.
pub fn sorted_counts(entries: &Vec<(String, u64)>) -> (r: Vec<(String, u64)>)
    requires
        keys_distinct(entries@),
    ensures
        keys_sorted(r@),
        keys_distinct(r@),
        count_map(r@) == count_map(entries@),
        forall|b: int| counts_at_most(entries@, b) ==> counts_at_most(r@, b),
{
    let n: usize = entries.len();
    let mut out: Vec<(String, u64)> = Vec::new();
    let mut i: usize = 0;
    while i < n
        invariant
            0 <= i <= n,
            n == entries@.len(),
            keys_distinct(entries@),
            keys_sorted(out@),
            out@.len() == i,
            entries_within(out@, entries@.take(i as int)),
            entries_within(entries@.take(i as int), out@),
        decreases n - i,
    {
        let key = entries[i].0.clone();
        let v: u64 = entries[i].1;
        let m: usize = out.len();
        let mut pos: usize = 0;
        while pos < m && text_less(out[pos].0.as_str(), key.as_str())
            invariant
                0 <= pos <= m,
                m == out@.len(),
                forall|k: int| 0 <= k < pos ==> text_lt(#[trigger] out@[k].0@, key@),
            decreases m - pos,
        {
            pos = pos + 1;
        }
        let ghost before = out@;
        let ghost taken = entries@.take(i as int);
        proof {
            assert(key@ == entries@[i as int].0@);
            assert forall|j: int| 0 <= j < m implies (#[trigger] before[j]).0@ != key@ by {
                assert(has_entry(taken, before[j].0@, before[j].1));
                let t = choose|t: int| 0 <= t < taken.len() && taken[t].0@ == before[j].0@ && taken[t].1 == before[j].1;
                assert(taken[t] == entries@[t]);
            }
            if pos < m {
                lemma_text_lt_total(before[pos as int].0@, key@);
                assert(text_lt(key@, before[pos as int].0@));
            }
        }
        out.insert(pos, (key, v));
        proof {
            assert(entries@.take(i + 1) == taken.push(entries@[i as int]));
            lemma_sorted_insert(before, pos as int, out@[pos as int]);
            lemma_insert_entries(before, taken, entries@[i as int], out@[pos as int], pos as int);
        }
        i = i + 1;
    }
    proof {
        assert(entries@.take(n as int) =~= entries@);
        lemma_sorted_distinct(out@);
        lemma_same_entries_same_counts(out@, entries@);
        assert forall|b: int| counts_at_most(entries@, b) implies counts_at_most(out@, b) by {
            assert forall|a: int| 0 <= a < out@.len() implies #[trigger] out@[a].1 <= b by {
                assert(has_entry(entries@, out@[a].0@, out@[a].1));
                let t = choose|t: int| 0 <= t < entries@.len() && entries@[t].0@ == out@[a].0@ && entries@[t].1 == out@[a].1;
                assert(entries@[t].1 <= b);
            }
        }
    }
    out
}

// ---------------------------------------------------------------------------
// Stored counts merged into a player's summary.
// ---------------------------------------------------------------------------

/// Entries name each key once.
pub open spec fn totals_distinct(e: Seq<(String, i64)>) -> bool {
    forall|i: int, j: int| 0 <= i < j < e.len() ==> e[i].0@ != e[j].0@
}

/// The totals that entries stand for.
pub open spec fn totals_map(e: Seq<(String, i64)>) -> Map<Seq<char>, i64> {
    Map::new(
        |k: Seq<char>| exists|i: int| 0 <= i < e.len() && e[i].0@ == k,
        |k: Seq<char>| e[choose|i: int| 0 <= i < e.len() && e[i].0@ == k].1,
    )
}

proof fn lemma_totals_map_at(e: Seq<(String, i64)>, i: int)
    requires
        totals_distinct(e),
        0 <= i < e.len(),
    ensures
        totals_map(e).contains_key(e[i].0@),
        totals_map(e)[e[i].0@] == e[i].1,
{
    let k = e[i].0@;
    assert(exists|j: int| 0 <= j < e.len() && e[j].0@ == k);
    let c = choose|j: int| 0 <= j < e.len() && e[j].0@ == k;
    assert(c == i);
}

/// A total with `v` added, as the service's `+=` on `i64` adds in a
/// release build (wrapping on overflow).
pub open spec fn added(m: Map<Seq<char>, i64>, k: Seq<char>, v: i64) -> Map<Seq<char>, i64> {
    m.insert(
        k,
        if m.contains_key(k) {
            vstd::wrapping::i64_specs::wrapping_add(m[k], v)
        } else {
            v
        },
    )
}

/// Adds `v` to the total of `key`, starting it at zero.
fn add_total(entries: &mut Vec<(String, i64)>, key: &str, v: i64)
    requires
        totals_distinct(old(entries)@),
    ensures
        totals_distinct(final(entries)@),
        totals_map(final(entries)@) == added(totals_map(old(entries)@), key@, v),
{
    let ghost before = entries@;
    let n: usize = entries.len();
    let mut k: usize = 0;
    while k < n
        invariant
            0 <= k <= n,
            n == entries@.len(),
            entries@ == before,
            before == old(entries)@,
            totals_distinct(before),
            forall|i: int| 0 <= i < k ==> (#[trigger] before[i]).0@ != key@,
        decreases n - k,
    {
        if str_equal(entries[k].0.as_str(), key) {
            let name = entries[k].0.clone();
            let old_v: i64 = entries[k].1;
            let sum: i64 = old_v.wrapping_add(v);
            assert(sum == vstd::wrapping::i64_specs::wrapping_add(old_v, v));
            entries.set(k, (name, sum));
            proof {
                let after = entries@;
                assert(after == before.update(k as int, (after[k as int].0, sum)));
                assert(before[k as int].0@ == key@);
                assert(totals_distinct(after));
                lemma_totals_map_at(before, k as int);
                lemma_totals_map_at(after, k as int);
                let m0 = totals_map(before);
                let m1 = totals_map(after);
                let target = added(m0, key@, v);
                assert forall|s: Seq<char>| m1.contains_key(s) <==> target.contains_key(s) by {
                    if m1.contains_key(s) {
                        let j = choose|j: int| 0 <= j < after.len() && after[j].0@ == s;
                        assert(before[j].0@ == s);
                    }
                    if target.contains_key(s) && s != key@ {
                        let j = choose|j: int| 0 <= j < before.len() && before[j].0@ == s;
                        assert(after[j].0@ == s);
                    }
                }
                assert forall|s: Seq<char>| m1.contains_key(s) implies m1[s] == target[s] by {
                    let j = choose|j: int| 0 <= j < after.len() && after[j].0@ == s;
                    lemma_totals_map_at(after, j);
                    lemma_totals_map_at(before, j);
                    if j != k {
                        assert(after[j] == before[j]);
                        assert(s != key@);
                    } else {
                        assert(s == key@);
                        assert(m0[s] == old_v);
                        assert(m1[s] == sum);
                    }
                }
                assert(m1 =~= target);
            }
            return;
        }
        k = k + 1;
    }
    entries.push((key.to_string(), v));
    proof {
        let after = entries@;
        assert(after == before.push((after[n as int].0, v)));
        assert(totals_distinct(after));
        let m0 = totals_map(before);
        let m1 = totals_map(after);
        let target = added(m0, key@, v);
        assert(!m0.contains_key(key@)) by {
            if m0.contains_key(key@) {
                let j = choose|j: int| 0 <= j < before.len() && before[j].0@ == key@;
                assert(before[j].0@ != key@);
            }
        }
        lemma_totals_map_at(after, n as int);
        assert forall|s: Seq<char>| m1.contains_key(s) <==> target.contains_key(s) by {
            if m1.contains_key(s) && s != key@ {
                let j = choose|j: int| 0 <= j < after.len() && after[j].0@ == s;
                assert(before[j].0@ == s);
            }
            if target.contains_key(s) && s != key@ {
                let j = choose|j: int| 0 <= j < before.len() && before[j].0@ == s;
                assert(after[j].0@ == s);
            }
        }
        assert forall|s: Seq<char>| m1.contains_key(s) implies m1[s] == target[s] by {
            let j = choose|j: int| 0 <= j < after.len() && after[j].0@ == s;
            lemma_totals_map_at(after, j);
            if j < n {
                lemma_totals_map_at(before, j);
            }
        }
        assert(m1 =~= target);
    }
}

/// What `serde_json::from_str::<HashMap<String, i64>>` reads from a text,
/// as a map: `None` when the text is not an object of integers in range.
pub uninterp spec fn int_object_of(text: Seq<char>) -> Option<Map<Seq<char>, i64>>;

/// Reads a JSON object of integers with
/// `serde_json::from_str::<HashMap<String, i64>>` and hands out its entries
/// (each key once, as a `HashMap` holds them, in the map's order, which is
/// not stated); the map is named by `int_object_of`.
#[verifier::external_body]
fn parse_int_object(text: &str) -> (r: Option<Vec<(String, i64)>>)
    ensures
        match r {
            Some(e) => totals_distinct(e@) && int_object_of(text@) == Some(totals_map(e@)),
            None => int_object_of(text@) is None,
        },
{
    let m = serde_json::from_str::<std::collections::HashMap<String, i64>>(text).ok()?;
    Some(m.into_iter().collect())
}

/// The totals after adding, key by key, the counts of a stored JSON object
/// (nothing when the text is not such an object).
pub open spec fn merged_totals(target: Map<Seq<char>, i64>, text: Seq<char>) -> Map<Seq<char>, i64> {
    match int_object_of(text) {
        Some(m) => Map::new(
            |k: Seq<char>| target.contains_key(k) || m.contains_key(k),
            |k: Seq<char>|
                if m.contains_key(k) {
                    if target.contains_key(k) {
                        vstd::wrapping::i64_specs::wrapping_add(target[k], m[k])
                    } else {
                        m[k]
                    }
                } else {
                    target[k]
                },
        ),
        None => target,
    }
}

/// Adds the counts of a stored JSON object of integers to the totals.
pub fn merge_i64_map(target: &mut Vec<(String, i64)>, json: &str)
    requires
        totals_distinct(old(target)@),
    ensures
        totals_distinct(final(target)@),
        totals_map(final(target)@) == merged_totals(totals_map(old(target)@), json@),
{
    let ghost t0 = totals_map(target@);
    let values = match parse_int_object(json) {
        Some(v) => v,
        None => {
            return;
        },
    };
    let ghost m = totals_map(values@);
    let n: usize = values.len();
    let mut i: usize = 0;
    while i < n
        invariant
            0 <= i <= n,
            n == values@.len(),
            totals_distinct(values@),
            m == totals_map(values@),
            totals_distinct(target@),
            forall|k: Seq<char>| #[trigger] totals_map(target@).contains_key(k) <==> (t0.contains_key(k) || exists|j: int| 0 <= j < i && values@[j].0@ == k),
            forall|k: Seq<char>| totals_map(target@).contains_key(k) ==> #[trigger] totals_map(target@)[k] == if exists|j: int| 0 <= j < i && values@[j].0@ == k {
                if t0.contains_key(k) {
                    vstd::wrapping::i64_specs::wrapping_add(t0[k], m[k])
                } else {
                    m[k]
                }
            } else {
                t0[k]
            },
        decreases n - i,
    {
        let ghost before = totals_map(target@);
        let key = &values[i].0;
        let v: i64 = values[i].1;
        proof {
            lemma_totals_map_at(values@, i as int);
        }
        add_total(target, key.as_str(), v);
        proof {
            let after = totals_map(target@);
            let kk = values@[i as int].0@;
            assert forall|k: Seq<char>| after.contains_key(k) <==> (t0.contains_key(k) || exists|j: int| 0 <= j < i + 1 && values@[j].0@ == k) by {
                if k == kk {
                    assert(values@[i as int].0@ == k);
                } else {
                    if exists|j: int| 0 <= j < i + 1 && values@[j].0@ == k {
                        let j = choose|j: int| 0 <= j < i + 1 && values@[j].0@ == k;
                        assert(j != i);
                    }
                    if exists|j: int| 0 <= j < i && values@[j].0@ == k {
                        let j = choose|j: int| 0 <= j < i && values@[j].0@ == k;
                        assert(0 <= j < i + 1 && values@[j].0@ == k);
                    }
                }
            }
            assert forall|k: Seq<char>| after.contains_key(k) implies #[trigger] after[k] == if exists|j: int| 0 <= j < i + 1 && values@[j].0@ == k {
                if t0.contains_key(k) {
                    vstd::wrapping::i64_specs::wrapping_add(t0[k], m[k])
                } else {
                    m[k]
                }
            } else {
                t0[k]
            } by {
                if k == kk {
                    assert(values@[i as int].0@ == k);
                    assert(!(exists|j: int| 0 <= j < i && values@[j].0@ == k)) by {
                        if exists|j: int| 0 <= j < i && values@[j].0@ == k {
                            let j = choose|j: int| 0 <= j < i && values@[j].0@ == k;
                            assert(values@[j].0@ != values@[i as int].0@);
                        }
                    }
                } else {
                    if exists|j: int| 0 <= j < i + 1 && values@[j].0@ == k {
                        let j = choose|j: int| 0 <= j < i + 1 && values@[j].0@ == k;
                        assert(j != i);
                        assert(0 <= j < i && values@[j].0@ == k);
                    }
                    if exists|j: int| 0 <= j < i && values@[j].0@ == k {
                        let j = choose|j: int| 0 <= j < i && values@[j].0@ == k;
                        assert(0 <= j < i + 1 && values@[j].0@ == k);
                    }
                }
            }
        }
        i = i + 1;
    }
    proof {
        let fin = totals_map(target@);
        let goal = merged_totals(t0, json@);
        assert forall|k: Seq<char>| m.contains_key(k) <==> exists|j: int| 0 <= j < n && values@[j].0@ == k by {
            if m.contains_key(k) {
                let j = choose|j: int| 0 <= j < values@.len() && values@[j].0@ == k;
                assert(0 <= j < n && values@[j].0@ == k);
            }
        }
        assert forall|k: Seq<char>| fin.contains_key(k) <==> goal.contains_key(k) by {}
        assert forall|k: Seq<char>| fin.contains_key(k) implies fin[k] == goal[k] by {}
        assert(fin =~= goal);
    }
}

} // verus!
