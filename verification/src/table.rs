//! The table of tracked entities: a mapping from identifier to tracked state.
//!
//! Keys are unique and entries are kept in first-seen order; that order is
//! what the selector's documented tie-break rests on. The table is only ever
//! grown or updated in place — this core never removes entries; staleness is
//! the external tracker's concern.

use vstd::prelude::*;

use crate::geo::Position;

verus! {

/// The fixed-width value that uniquely names a tracked entity (a 24-bit
/// address carried in each message).
pub type Identifier = u32;

/// What is currently known of one tracked entity: its resolved absolute
/// position and its distance from the reference location, each of which may
/// still be pending.
#[derive(Debug, Clone, Copy, PartialEq, Eq)]
pub struct EntityState {
    /// Resolved absolute position, once the tracker has one.
    pub position: Option<Position>,
    /// Distance from the reference location, in thousandths of the tracker's
    /// distance unit, once the tracker has resolved it.
    pub distance_milli: Option<u64>,
}

/// One row of the table: an identifier and what is known of that entity.
#[derive(Debug, Clone, Copy, PartialEq, Eq)]
pub struct TableEntry {
    pub id: Identifier,
    pub state: EntityState,
}

/// No two rows name the same entity.
pub open spec fn unique_ids(s: Seq<TableEntry>) -> bool {
    forall|i: int, j: int|
        0 <= i < s.len() && 0 <= j < s.len() && i != j ==> s[i].id != s[j].id
}

/// Whether some row names `id`.
pub open spec fn has_id(s: Seq<TableEntry>, id: Identifier) -> bool {
    exists|i: int| 0 <= i < s.len() && s[i].id == id
}

/// The index of the row naming `id`; meaningful only when `has_id` holds
/// (and then unique under `unique_ids`).
pub open spec fn id_index(s: Seq<TableEntry>, id: Identifier) -> int {
    choose|i: int| 0 <= i < s.len() && s[i].id == id
}

/// The state recorded for `id`, if any row names it.
pub open spec fn state_of(s: Seq<TableEntry>, id: Identifier) -> Option<EntityState> {
    if has_id(s, id) {
        Some(s[id_index(s, id)].state)
    } else {
        None
    }
}

/// What recording `state` under `id` does to the rows: an update in place
/// when the identifier is already present, an append otherwise.
pub open spec fn record_spec(s: Seq<TableEntry>, id: Identifier, state: EntityState) -> Seq<
    TableEntry,
> {
    if has_id(s, id) {
        s.update(id_index(s, id), TableEntry { id, state })
    } else {
        s.push(TableEntry { id, state })
    }
}

/// Mapping from identifier to tracked state, keys unique, entries in
/// first-seen order.
pub struct EntityTable {
    entries: Vec<TableEntry>,
}

impl View for EntityTable {
    type V = Seq<TableEntry>;

    /// The rows of the table, in first-seen order.
    closed spec fn view(&self) -> Seq<TableEntry> {
        self.entries@
    }
}

impl EntityTable {
    /// Keys are unique.
    pub open spec fn wf(&self) -> bool {
        unique_ids(self@)
    }

    /// A fresh, empty table.
    pub fn new() -> (r: EntityTable)
        ensures
            r.wf(),
            r@ == Seq::<TableEntry>::empty(),
    {
        EntityTable { entries: Vec::new() }
    }

    /// Number of tracked entities.
    pub fn len(&self) -> (r: usize)
        ensures
            r == self@.len(),
    {
        self.entries.len()
    }

    /// The row at a given position, in first-seen order.
    pub fn entry_at(&self, i: usize) -> (r: TableEntry)
        requires
            i < self@.len(),
        ensures
            r == self@[i as int],
    {
        self.entries[i]
    }

    /// Looks an identifier up and returns its recorded state, if any.
    pub fn get(&self, id: Identifier) -> (r: Option<EntityState>)
        requires
            self.wf(),
        ensures
            r == state_of(self@, id),
    {
        let n = self.entries.len();
        let mut i: usize = 0;
        while i < n
            invariant
                n == self@.len(),
                i <= n,
                self.wf(),
                forall|j: int| 0 <= j < i ==> self@[j].id != id,
            decreases n - i,
        {
            if self.entries[i].id == id {
                proof {
                    assert(has_id(self@, id));
                    let k = id_index(self@, id);
                    assert(0 <= k < self@.len() && self@[k].id == id);
                    assert(k == i);
                }
                return Some(self.entries[i].state);
            }
            i += 1;
        }
        proof {
            assert(!has_id(self@, id));
        }
        None
    }

    /// Records `state` under `id`: refreshes the entity's row if the
    /// identifier was seen before, appends a new row otherwise. Rows of other
    /// identifiers are untouched and keep their positions.
    pub fn record(&mut self, id: Identifier, state: EntityState)
        requires
            old(self).wf(),
        ensures
            final(self).wf(),
            final(self)@ == record_spec(old(self)@, id, state),
    {
        let n = self.entries.len();
        let mut i: usize = 0;
        while i < n
            invariant
                self@ == old(self)@,
                n == self@.len(),
                i <= n,
                self.wf(),
                forall|j: int| 0 <= j < i ==> self@[j].id != id,
            decreases n - i,
        {
            if self.entries[i].id == id {
                proof {
                    let s0 = old(self)@;
                    assert(has_id(s0, id));
                    let k = id_index(s0, id);
                    assert(0 <= k < s0.len() && s0[k].id == id);
                    assert(k == i);
                    lemma_record_preserves_unique_ids(s0, id, state);
                }
                self.entries.set(i, TableEntry { id, state });
                return ;
            }
            i += 1;
        }
        proof {
            assert(!has_id(old(self)@, id));
            lemma_record_preserves_unique_ids(old(self)@, id, state);
        }
        self.entries.push(TableEntry { id, state });
    }
}

/// Recording keeps the keys unique.
pub proof fn lemma_record_preserves_unique_ids(
    s: Seq<TableEntry>,
    id: Identifier,
    state: EntityState,
)
    requires
        unique_ids(s),
    ensures
        unique_ids(record_spec(s, id, state)),
{
    let t = record_spec(s, id, state);
    if has_id(s, id) {
        let k = id_index(s, id);
        assert(0 <= k < s.len() && s[k].id == id);
        assert forall|i: int| 0 <= i < t.len() implies t[i].id == s[i].id by {
            if i == k {
                assert(t[i].id == id);
            }
        }
    } else {
        assert forall|i: int, j: int|
            0 <= i < t.len() && 0 <= j < t.len() && i != j implies t[i].id != t[j].id by {
            if i < s.len() && j < s.len() {
                assert(s[i].id != s[j].id);
            } else if i < s.len() {
                assert(t[j].id == id);
                assert(!(s[i].id == id)) by {
                    assert(!has_id(s, id));
                }
            } else {
                assert(t[i].id == id);
                assert(!(s[j].id == id)) by {
                    assert(!has_id(s, id));
                }
            }
        }
    }
}

/// Law: after a state is recorded under an identifier, looking that
/// identifier up yields exactly the recorded state, every other identifier's
/// state is unchanged, and the keys stay unique.
pub proof fn lemma_record_then_get(s: Seq<TableEntry>, id: Identifier, state: EntityState)
    requires
        unique_ids(s),
    ensures
        state_of(record_spec(s, id, state), id) == Some(state),
        forall|other: Identifier|
            other != id ==> state_of(record_spec(s, id, state), other) == state_of(s, other),
        unique_ids(record_spec(s, id, state)),
{
    let t = record_spec(s, id, state);
    lemma_record_preserves_unique_ids(s, id, state);
    if has_id(s, id) {
        let k = id_index(s, id);
        assert(0 <= k < s.len() && s[k].id == id);
        assert(t[k].id == id && t[k].state == state);
        assert(has_id(t, id));
        let k2 = id_index(t, id);
        assert(0 <= k2 < t.len() && t[k2].id == id);
        assert(k2 == k);
        assert forall|other: Identifier| other != id implies state_of(t, other) == state_of(
            s,
            other,
        ) by {
            assert forall|i: int| 0 <= i < t.len() implies t[i].id == s[i].id by {
                if i == k {
                    assert(t[i].id == id);
                }
            }
            if has_id(s, other) {
                let j = id_index(s, other);
                assert(0 <= j < s.len() && s[j].id == other);
                assert(t[j].id == other);
                assert(has_id(t, other));
                let j2 = id_index(t, other);
                assert(0 <= j2 < t.len() && t[j2].id == other);
                assert(s[j2].id == other);
                assert(j2 == j);
                assert(j != k);
                assert(t[j] == s[j]);
            } else {
                if has_id(t, other) {
                    let j2 = id_index(t, other);
                    assert(0 <= j2 < t.len() && t[j2].id == other);
                    assert(s[j2].id == other);
                    assert(has_id(s, other));
                }
            }
        }
    } else {
        let n = s.len() as int;
        assert(t[n].id == id && t[n].state == state);
        assert(has_id(t, id));
        let k2 = id_index(t, id);
        assert(0 <= k2 < t.len() && t[k2].id == id);
        assert(k2 == n) by {
            if k2 < n {
                assert(s[k2].id == id);
                assert(has_id(s, id));
            }
        }
        assert forall|other: Identifier| other != id implies state_of(t, other) == state_of(
            s,
            other,
        ) by {
            if has_id(s, other) {
                let j = id_index(s, other);
                assert(0 <= j < s.len() && s[j].id == other);
                assert(t[j].id == other);
                assert(has_id(t, other));
                let j2 = id_index(t, other);
                assert(0 <= j2 < t.len() && t[j2].id == other);
                assert(j2 != n);
                assert(s[j2].id == other);
                assert(j2 == j);
                assert(t[j] == s[j]);
            } else {
                if has_id(t, other) {
                    let j2 = id_index(t, other);
                    assert(0 <= j2 < t.len() && t[j2].id == other);
                    assert(j2 != n);
                    assert(s[j2].id == other);
                    assert(has_id(s, other));
                }
            }
        }
    }
}

} // verus!
