//! The shared server state: the one session table and the one connection
//! history that every handler and the administrative reader work on for the
//! life of the process. The surrounding program shares it by reference
//! counting and guards each half with its own lock; a handler never needs
//! both at once.

use vstd::prelude::*;

verus! {

use crate::history::{CircularLogBuffer, Log};
use crate::session::{SessionTable, SlotModel, StatusReport, active_count, total_read, total_written};

/// The process-wide state: the session slots and the history ring buffer,
/// created once at startup.
pub struct SharedState {
    pub sessions: SessionTable,
    pub history: CircularLogBuffer,
}

impl SharedState {
    /// Fresh state: `slot_count` free session slots and an empty history of
    /// capacity `history_capacity`.
    pub fn new(slot_count: usize, history_capacity: usize) -> (r: Self)
        requires
            1 <= history_capacity,
        ensures
            r.sessions@.len() == slot_count,
            forall|i: int|
                0 <= i < slot_count ==> r.sessions@[i] == (SlotModel {
                    occupant: Seq::<char>::empty(),
                    bytes_read: 0,
                    bytes_written: 0,
                }),
            r.history.wf(),
            r.history.capacity() == history_capacity,
            r.history@ == Seq::<Log>::empty(),
    {
        SharedState {
            sessions: SessionTable::new(slot_count),
            history: CircularLogBuffer::new(history_capacity),
        }
    }

    /// The administrative `status` query: the active session count and the
    /// aggregate byte totals over the occupied slots, read-only.
    pub fn status(&self) -> (r: StatusReport)
        ensures
            r.active_sessions == active_count(self.sessions@),
            r.total_bytes_read == total_read(self.sessions@),
            r.total_bytes_written == total_written(self.sessions@),
            r.occupants@.len() == self.sessions@.len(),
            forall|i: int|
                0 <= i < self.sessions@.len() ==> r.occupants@[i]@ == self.sessions@[i].occupant,
    {
        self.sessions.snapshot()
    }

    /// The administrative `history` query: a copy of the retained
    /// connection log, oldest first, read-only.
    pub fn history(&self) -> (r: Vec<Log>)
        requires
            self.history.wf(),
        ensures
            r@ == self.history@,
    {
        self.history.get_logs()
    }
}

} // verus!
