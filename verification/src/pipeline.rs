//! The orchestration object: the long-lived state of the render loop and the
//! per-cycle decisions over it.
//!
//! One `Pipeline` is built at startup and owns the byte accumulator, the
//! entity table, and the fixed reference location. Each cycle the caller
//! feeds it the byte just read ([`Pipeline::on_byte`]); when that completes a
//! message window the window is decoded and the buffer cleared, win or lose
//! (frame resynchronization). The caller forwards decoded frames to the
//! external tracker, mirrors the tracker's findings back in
//! ([`Pipeline::update_entity`]), and asks for the cycle's render decision
//! ([`Pipeline::render_decision`]). Reads, tracking, and the render call
//! itself stay outside; every decision in between is made — and stated —
//! here.

use vstd::prelude::*;

use crate::accumulator::{complete_spec, Accumulator, MESSAGE_LEN};
use crate::frame::{decode, decode_ok, message_identifier, DecodeError, Message};
use crate::geo::{quadrant_of, quadrant_spec, Position, Quadrant, ReferenceLocation};
use crate::select::{nearest_spec, select_nearest};
use crate::table::{record_spec, state_of, unique_ids, EntityState, EntityTable, Identifier, TableEntry};

verus! {

/// What feeding one byte to the pipeline did.
pub struct ByteOutcome {
    /// The byte arrived while the buffer already held a complete window and
    /// was dropped (reported, non-fatal).
    pub dropped: bool,
    /// The decode attempt made this cycle, when the buffer reached a complete
    /// window; `None` while the window is still filling.
    pub decoded: Option<Result<Message, DecodeError>>,
}

/// What one cycle should render: the nearest in-range entity, its distance,
/// its resolved position, and that position's quadrant relative to the
/// reference location.
#[derive(Debug, Clone, Copy, PartialEq, Eq, Structural)]
pub struct RenderTarget {
    pub id: Identifier,
    /// Distance from the reference location, in thousandths of the tracker's
    /// distance unit.
    pub distance_milli: u64,
    pub position: Position,
    pub quadrant: Quadrant,
}

/// The render decision over given table rows: the nearest in-range entity,
/// provided its position is resolved; no decision — and so no render call,
/// the previous display state persisting — otherwise.
pub open spec fn render_decision_spec(
    entries: Seq<TableEntry>,
    reference: ReferenceLocation,
) -> Option<RenderTarget> {
    match nearest_spec(entries) {
        None => None,
        Some(p) => match state_of(entries, p.0) {
            None => None,
            Some(state) => match state.position {
                None => None,
                Some(pos) => Some(
                    RenderTarget {
                        id: p.0,
                        distance_milli: p.1,
                        position: pos,
                        quadrant: quadrant_spec(pos, reference),
                    },
                ),
            },
        },
    }
}

/// The long-lived state of the control loop: buffer, entity table, and the
/// fixed reference location.
pub struct Pipeline {
    accumulator: Accumulator,
    table: EntityTable,
    reference: ReferenceLocation,
}

impl Pipeline {
    /// The bytes of the window being accumulated.
    pub closed spec fn buffer(&self) -> Seq<u8> {
        self.accumulator@
    }

    /// The rows of the entity table, in first-seen order.
    pub closed spec fn entries(&self) -> Seq<TableEntry> {
        self.table@
    }

    /// The fixed reference location the pipeline was built with.
    pub closed spec fn reference_spec(&self) -> ReferenceLocation {
        self.reference
    }

    /// The buffer is within capacity and the table's keys are unique.
    pub closed spec fn wf(&self) -> bool {
        &&& self.accumulator.wf()
        &&& unique_ids(self.entries())
    }

    /// A fresh pipeline: empty buffer, empty table, the given reference.
    pub fn new(reference: ReferenceLocation) -> (r: Pipeline)
        ensures
            r.wf(),
            r.buffer() == Seq::<u8>::empty(),
            r.entries() == Seq::<TableEntry>::empty(),
            r.reference_spec() == reference,
    {
        Pipeline { accumulator: Accumulator::new(), table: EntityTable::new(), reference }
    }

    /// The reference location, for converting the tracker's findings.
    pub fn reference(&self) -> (r: ReferenceLocation)
        ensures
            r == self.reference_spec(),
    {
        self.reference
    }

    /// One cycle's framing step. The byte is appended unless the buffer was
    /// already full (then it is dropped and reported). If the buffer now
    /// holds a complete window, the window is decoded and the buffer cleared
    /// whatever the outcome, so accumulation resynchronizes on the next byte.
    /// The table and reference are untouched.
    pub fn on_byte(&mut self, byte: u8) -> (r: ByteOutcome)
        requires
            old(self).wf(),
        ensures
            final(self).wf(),
            final(self).entries() == old(self).entries(),
            final(self).reference_spec() == old(self).reference_spec(),
            r.dropped <==> old(self).buffer().len() >= MESSAGE_LEN,
            ({
                let filled = if old(self).buffer().len() < MESSAGE_LEN {
                    old(self).buffer().push(byte)
                } else {
                    old(self).buffer()
                };
                &&& (complete_spec(filled) ==> {
                    &&& final(self).buffer() == Seq::<u8>::empty()
                    &&& r.decoded is Some
                    &&& (r.decoded->0 is Ok <==> decode_ok(filled))
                    &&& (r.decoded->0 matches Ok(m) ==> m.identifier == message_identifier(
                        filled,
                    ))
                })
                &&& (!complete_spec(filled) ==> {
                    &&& final(self).buffer() == filled
                    &&& r.decoded is None
                })
            }),
    {
        let dropped = self.accumulator.push(byte).is_err();
        if self.accumulator.is_complete() {
            let result = decode(&self.accumulator);
            self.accumulator.clear();
            ByteOutcome { dropped, decoded: Some(result) }
        } else {
            ByteOutcome { dropped, decoded: None }
        }
    }

    /// Mirrors the external tracker's current knowledge of one entity into
    /// the table: an update in place for a known identifier, an appended row
    /// for a new one; other rows keep their place and state.
    pub fn update_entity(&mut self, id: Identifier, state: EntityState)
        requires
            old(self).wf(),
        ensures
            final(self).wf(),
            final(self).entries() == record_spec(old(self).entries(), id, state),
            final(self).buffer() == old(self).buffer(),
            final(self).reference_spec() == old(self).reference_spec(),
    {
        self.table.record(id, state);
    }

    /// The state recorded for an identifier, if it is tracked.
    pub fn entity(&self, id: Identifier) -> (r: Option<EntityState>)
        requires
            self.wf(),
        ensures
            r == state_of(self.entries(), id),
    {
        self.table.get(id)
    }

    /// The nearest in-range entity and its distance, recomputed from scratch;
    /// never persisted between cycles.
    pub fn nearest(&self) -> (r: Option<(Identifier, u64)>)
        ensures
            r == nearest_spec(self.entries()),
    {
        select_nearest(&self.table)
    }

    /// One cycle's render decision: the nearest in-range entity whose
    /// position is resolved, with that position's quadrant relative to the
    /// reference location; nothing when no entity qualifies, and then the
    /// cycle performs no rendering side effect.
    pub fn render_decision(&self) -> (r: Option<RenderTarget>)
        requires
            self.wf(),
        ensures
            r == render_decision_spec(self.entries(), self.reference_spec()),
    {
        match select_nearest(&self.table) {
            Some((id, d)) => match self.table.get(id) {
                Some(state) => match state.position {
                    Some(pos) => Some(
                        RenderTarget {
                            id,
                            distance_milli: d,
                            position: pos,
                            quadrant: quadrant_of(pos, self.reference),
                        },
                    ),
                    None => None,
                },
                None => None,
            },
            None => None,
        }
    }
}

} // verus!
