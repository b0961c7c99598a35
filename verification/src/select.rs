//! Nearest-entity selection: the per-cycle scan of the table for the tracked
//! entity with the smallest resolved distance.
//!
//! The scan is seeded with a sentinel distance larger than any plausible real
//! one; an entity is selected only when its resolved distance is strictly
//! below the running best, so entities at or beyond the sentinel — and ones
//! whose position is still unresolved — are never selected. Ties are broken
//! deterministically in favour of the entity seen first (lowest row index).

use vstd::prelude::*;

use crate::table::{EntityTable, Identifier, TableEntry};

verus! {

/// Comparison seed for the scan, in thousandths of the tracker's distance
/// unit (400 whole units). It functions as "no entity within tracking range",
/// not as a physical bound.
pub const NEAREST_SENTINEL_MILLI: u64 = 400_000;

/// The resolved distance of a row, when it has one; rows whose distance is
/// still pending have none.
pub open spec fn row_distance(e: TableEntry) -> Option<u64> {
    e.state.distance_milli
}

/// Whether a row takes part in selection: its distance is resolved and lies
/// strictly below the sentinel.
pub open spec fn in_range(e: TableEntry) -> bool {
    match e.state.distance_milli {
        Some(d) => d < NEAREST_SENTINEL_MILLI,
        None => false,
    }
}

/// What the scan returns on the rows `s`, computed left to right: a row
/// replaces the running best only when its resolved distance is strictly
/// smaller, so the first row attaining the minimum wins.
pub open spec fn nearest_spec(s: Seq<TableEntry>) -> Option<(Identifier, u64)>
    decreases s.len(),
{
    if s.len() == 0 {
        None
    } else {
        let prev = nearest_spec(s.drop_last());
        let best = match prev {
            Some(p) => p.1,
            None => NEAREST_SENTINEL_MILLI,
        };
        match s.last().state.distance_milli {
            Some(d) => if d < best {
                Some((s.last().id, d))
            } else {
                prev
            },
            None => prev,
        }
    }
}

/// The selected row's distance is minimal among in-range rows, and every
/// earlier in-range row is strictly farther (first-seen tie-break).
pub open spec fn selected_at(s: Seq<TableEntry>, i: int, id: Identifier, d: u64) -> bool {
    &&& 0 <= i < s.len()
    &&& s[i].id == id
    &&& s[i].state.distance_milli == Some(d)
    &&& d < NEAREST_SENTINEL_MILLI
    &&& forall|j: int| 0 <= j < s.len() && in_range(s[j]) ==> d <= row_distance(s[j])->0
    &&& forall|j: int| 0 <= j < i && in_range(s[j]) ==> d < row_distance(s[j])->0
}

/// Scans every row and returns the nearest entity with a resolved in-range
/// distance, together with that distance; `None` when no row qualifies.
pub fn select_nearest(table: &EntityTable) -> (r: Option<(Identifier, u64)>)
    ensures
        r == nearest_spec(table@),
{
    let n = table.len();
    let mut running: Option<(Identifier, u64)> = None;
    let mut i: usize = 0;
    while i < n
        invariant
            n == table@.len(),
            i <= n,
            running == nearest_spec(table@.take(i as int)),
        decreases n - i,
    {
        let entry = table.entry_at(i);
        let best = match running {
            Some(p) => p.1,
            None => NEAREST_SENTINEL_MILLI,
        };
        if let Some(d) = entry.state.distance_milli {
            if d < best {
                running = Some((entry.id, d));
            }
        }
        proof {
            assert(table@.take(i + 1).drop_last() =~= table@.take(i as int));
            assert(table@.take(i + 1).last() == table@[i as int]);
        }
        i += 1;
    }
    proof {
        assert(table@.take(n as int) =~= table@);
    }
    running
}

/// Law: the scan returns nothing exactly when no row is in range.
pub proof fn lemma_nearest_none(s: Seq<TableEntry>)
    ensures
        nearest_spec(s) is None <==> (forall|j: int| 0 <= j < s.len() ==> !in_range(s[j])),
    decreases s.len(),
{
    if s.len() == 0 {
    } else {
        let pre = s.drop_last();
        let n = s.len() - 1;
        lemma_nearest_none(pre);
        assert(forall|j: int| 0 <= j < n ==> pre[j] == s[j]);
        assert(s.last() == s[n]);
        let prev = nearest_spec(pre);
        match prev {
            None => {
                assert(forall|j: int| 0 <= j < n ==> !in_range(s[j]));
                match s[n].state.distance_milli {
                    Some(d) => {
                        if d < NEAREST_SENTINEL_MILLI {
                            assert(in_range(s[n]));
                            assert(nearest_spec(s) == Some((s[n].id, d)));
                        } else {
                            assert(!in_range(s[n]));
                            assert(nearest_spec(s) is None);
                        }
                    },
                    None => {
                        assert(!in_range(s[n]));
                        assert(nearest_spec(s) is None);
                    },
                }
            },
            Some(p) => {
                let j = choose|j: int| 0 <= j < pre.len() && in_range(pre[j]);
                assert(in_range(s[j]));
                assert(nearest_spec(s) is Some);
            },
        }
    }
}

/// Law: a selected row is a real row holding the returned identifier, its
/// resolved distance is the returned one and is minimal among in-range rows,
/// and every earlier in-range row is strictly farther (first-seen tie-break).
pub proof fn lemma_nearest_selected(s: Seq<TableEntry>, id: Identifier, d: u64)
    requires
        nearest_spec(s) == Some((id, d)),
    ensures
        exists|i: int| selected_at(s, i, id, d),
    decreases s.len(),
{
    let pre = s.drop_last();
    let n = s.len() - 1;
    assert(forall|j: int| 0 <= j < n ==> pre[j] == s[j]);
    assert(s.last() == s[n]);
    let prev = nearest_spec(pre);
    match prev {
        None => {
            lemma_nearest_none(pre);
            assert(forall|j: int| 0 <= j < n ==> !in_range(s[j]));
            match s[n].state.distance_milli {
                Some(dl) => {
                    assert(dl < NEAREST_SENTINEL_MILLI && id == s[n].id && d == dl);
                    assert(selected_at(s, n, id, d));
                },
                None => {
                    assert(false);
                },
            }
        },
        Some(p) => {
            match s[n].state.distance_milli {
                Some(dl) => {
                    if dl < p.1 {
                        assert(id == s[n].id && d == dl);
                        lemma_nearest_selected(pre, p.0, p.1);
                        let i = choose|i: int| selected_at(pre, i, p.0, p.1);
                        assert(selected_at(pre, i, p.0, p.1));
                        assert(selected_at(s, n, id, d));
                    } else {
                        assert(p == (id, d));
                        lemma_nearest_selected(pre, id, d);
                        let i = choose|i: int| selected_at(pre, i, id, d);
                        assert(selected_at(pre, i, id, d));
                        assert(in_range(s[n]) ==> d <= row_distance(s[n])->0);
                        assert(selected_at(s, i, id, d));
                    }
                },
                None => {
                    assert(p == (id, d));
                    lemma_nearest_selected(pre, id, d);
                    let i = choose|i: int| selected_at(pre, i, id, d);
                    assert(selected_at(pre, i, id, d));
                    assert(!in_range(s[n]));
                    assert(selected_at(s, i, id, d));
                },
            }
        },
    }
}

/// Law: over an empty table nothing is selected.
pub proof fn lemma_select_empty(s: Seq<TableEntry>)
    requires
        s.len() == 0,
    ensures
        nearest_spec(s) is None,
{
}

/// Law: a table holding exactly one entity whose resolved distance lies below
/// the sentinel selects that entity with that distance.
pub proof fn lemma_select_singleton(e: TableEntry, d: u64)
    requires
        e.state.distance_milli == Some(d),
        d < NEAREST_SENTINEL_MILLI,
    ensures
        nearest_spec(seq![e]) == Some((e.id, d)),
{
    let s = seq![e];
    assert(s.drop_last() =~= Seq::<TableEntry>::empty());
    assert(nearest_spec(s.drop_last()) is None);
    assert(s.last() == e);
    assert(nearest_spec(s) == Some((e.id, d)));
}

/// Law: of two entities with resolved distances `da < db`, the nearer one is
/// selected with its distance, whichever order the table holds them in.
pub proof fn lemma_select_two(a: TableEntry, b: TableEntry, da: u64, db: u64)
    requires
        a.state.distance_milli == Some(da),
        b.state.distance_milli == Some(db),
        da < db,
        da < NEAREST_SENTINEL_MILLI,
    ensures
        nearest_spec(seq![a, b]) == Some((a.id, da)),
        nearest_spec(seq![b, a]) == Some((a.id, da)),
{
    lemma_select_singleton(a, da);
    let ab = seq![a, b];
    assert(ab.drop_last() =~= seq![a]);
    assert(nearest_spec(ab.drop_last()) == Some((a.id, da)));
    assert(ab.last() == b);
    assert(nearest_spec(ab) == Some((a.id, da)));
    let ba = seq![b, a];
    assert(ba.drop_last() =~= seq![b]);
    assert(ba.last() == a);
    assert(seq![b].drop_last() =~= Seq::<TableEntry>::empty());
    assert(nearest_spec(seq![b].drop_last()) is None);
    assert(seq![b].last() == b);
    if db < NEAREST_SENTINEL_MILLI {
        assert(nearest_spec(seq![b]) == Some((b.id, db)));
        assert(nearest_spec(ba) == Some((a.id, da)));
    } else {
        assert(nearest_spec(seq![b]) is None);
        assert(nearest_spec(ba) == Some((a.id, da)));
    }
}

} // verus!
