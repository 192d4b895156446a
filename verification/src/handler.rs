//! The per-connection handler lifecycle: Opening -> Active -> Closing ->
//! Terminated. A handler claims one session slot for its lifetime, feeds
//! traffic counts into its slot and into its own log entry, and on
//! termination hands the finished entry to the history and gives the slot
//! back.
//!
//! The transport work between these steps (receiving a request line,
//! sending the response) happens outside the crate; the handler is driven
//! with the byte counts and timestamps that the transport produced.

use vstd::prelude::*;

verus! {

use crate::history::Log;
use crate::session::{
    SessionTable, acquires_to, all_occupied, records_to, releases_to, slot_free,
};

/// Where a handler stands in its life.
pub enum HandlerPhase {
    /// Just created; no slot claimed yet.
    Opening,
    /// A slot is held and the request/response exchange is running.
    Active,
    /// The exchange has ended and the log entry is finalized; the slot is
    /// still held.
    Closing,
    /// The handler is done: either its slot was released, or admission was
    /// refused and it never held one.
    Terminated,
}

/// One connection's bookkeeping unit.
pub struct ConnectionHandler {
    phase: HandlerPhase,
    slot: usize,
    entry: Log,
}

impl ConnectionHandler {
    pub closed spec fn phase(&self) -> HandlerPhase {
        self.phase
    }

    /// The index of the slot the handler holds; meaningful from a
    /// successful registration until termination.
    pub closed spec fn slot(&self) -> int {
        self.slot as int
    }

    /// The connection's log entry as accumulated so far.
    pub closed spec fn entry(&self) -> Log {
        self.entry
    }

    /// A handler for a connection that has just been opened: no slot yet,
    /// and a log entry holding only the opening time.
    pub fn new(opened_at: i64) -> (h: Self)
        ensures
            h.phase() is Opening,
            h.entry() == (Log {
                when_opened: opened_at,
                when_closed: 0,
                no_of_bytes_sent: 0,
                no_of_bytes_received: 0,
            }),
    {
        ConnectionHandler {
            phase: HandlerPhase::Opening,
            slot: 0,
            entry: Log {
                when_opened: opened_at,
                when_closed: 0,
                no_of_bytes_sent: 0,
                no_of_bytes_received: 0,
            },
        }
    }

    /// Admission: claim a session slot for `identity`. With every slot
    /// occupied the connection is refused and the handler terminates at
    /// once, leaving no session or history trace — the refusal is not an
    /// error, only absent bookkeeping.
    pub fn register(&mut self, table: &mut SessionTable, identity: &str)
        requires
            old(self).phase() is Opening,
            identity@.len() > 0,
        ensures
            final(self).entry() == old(self).entry(),
            all_occupied(old(table)@) ==> final(self).phase() is Terminated && final(table)@
                == old(table)@,
            !all_occupied(old(table)@) ==> final(self).phase() is Active && acquires_to(
                old(table)@,
                final(table)@,
                identity@,
                final(self).slot(),
            ),
    {
        match table.acquire(identity) {
            Some(index) => {
                self.slot = index;
                self.phase = HandlerPhase::Active;
            },
            None => {
                self.phase = HandlerPhase::Terminated;
            },
        }
    }

    /// Whether the handler holds a slot and is exchanging requests.
    pub fn is_active(&self) -> (b: bool)
        ensures
            b == (self.phase() is Active),
    {
        match self.phase {
            HandlerPhase::Active => true,
            _ => false,
        }
    }

    /// One request/response round: add the exchanged byte counts to the
    /// connection's log entry and to its session slot.
    pub fn record_exchange(&mut self, table: &mut SessionTable, bytes_received: u64, bytes_sent: u64)
        requires
            old(self).phase() is Active,
            old(self).slot() < old(table)@.len(),
            !slot_free(old(table)@[old(self).slot()]),
            old(table)@[old(self).slot()].bytes_read + bytes_received <= u64::MAX,
            old(table)@[old(self).slot()].bytes_written + bytes_sent <= u64::MAX,
            old(self).entry().no_of_bytes_received + bytes_received <= u64::MAX,
            old(self).entry().no_of_bytes_sent + bytes_sent <= u64::MAX,
        ensures
            final(self).phase() is Active,
            final(self).slot() == old(self).slot(),
            records_to(old(table)@, final(table)@, old(self).slot(), bytes_received, bytes_sent),
            final(self).entry() == (Log {
                when_opened: old(self).entry().when_opened,
                when_closed: old(self).entry().when_closed,
                no_of_bytes_sent: (old(self).entry().no_of_bytes_sent + bytes_sent) as u64,
                no_of_bytes_received: (old(self).entry().no_of_bytes_received
                    + bytes_received) as u64,
            }),
    {
        table.record_traffic(self.slot, bytes_received, bytes_sent);
        self.entry = Log {
            when_opened: self.entry.when_opened,
            when_closed: self.entry.when_closed,
            no_of_bytes_sent: self.entry.no_of_bytes_sent + bytes_sent,
            no_of_bytes_received: self.entry.no_of_bytes_received + bytes_received,
        };
    }

    /// As `record_exchange`, but first checks that no counter would
    /// overflow; with `false` nothing is recorded. An unverified caller can
    /// use this without establishing the overflow bounds itself.
    pub fn record_exchange_checked(
        &mut self,
        table: &mut SessionTable,
        bytes_received: u64,
        bytes_sent: u64,
    ) -> (ok: bool)
        requires
            old(self).phase() is Active,
            old(self).slot() < old(table)@.len(),
            !slot_free(old(table)@[old(self).slot()]),
        ensures
            final(self).phase() is Active,
            final(self).slot() == old(self).slot(),
            ok == (old(table)@[old(self).slot()].bytes_read + bytes_received <= u64::MAX
                && old(table)@[old(self).slot()].bytes_written + bytes_sent <= u64::MAX
                && old(self).entry().no_of_bytes_received + bytes_received <= u64::MAX
                && old(self).entry().no_of_bytes_sent + bytes_sent <= u64::MAX),
            ok ==> records_to(
                old(table)@,
                final(table)@,
                old(self).slot(),
                bytes_received,
                bytes_sent,
            ) && final(self).entry() == (Log {
                when_opened: old(self).entry().when_opened,
                when_closed: old(self).entry().when_closed,
                no_of_bytes_sent: (old(self).entry().no_of_bytes_sent + bytes_sent) as u64,
                no_of_bytes_received: (old(self).entry().no_of_bytes_received
                    + bytes_received) as u64,
            }),
            !ok ==> final(table)@ == old(table)@ && final(self).entry() == old(self).entry(),
    {
        if !table.traffic_fits(self.slot, bytes_received, bytes_sent) {
            return false;
        }
        if bytes_received > u64::MAX - self.entry.no_of_bytes_received {
            return false;
        }
        if bytes_sent > u64::MAX - self.entry.no_of_bytes_sent {
            return false;
        }
        self.record_exchange(table, bytes_received, bytes_sent);
        true
    }

    /// End of the exchange: stamp the closing time onto the log entry,
    /// exactly once. The finished entry is returned for the caller to
    /// append to the history; it is never mutated again.
    pub fn finalize(&mut self, closed_at: i64) -> (log: Log)
        requires
            old(self).phase() is Active,
        ensures
            final(self).phase() is Closing,
            final(self).slot() == old(self).slot(),
            log == (Log {
                when_opened: old(self).entry().when_opened,
                when_closed: closed_at,
                no_of_bytes_sent: old(self).entry().no_of_bytes_sent,
                no_of_bytes_received: old(self).entry().no_of_bytes_received,
            }),
            final(self).entry() == log,
    {
        self.entry = Log {
            when_opened: self.entry.when_opened,
            when_closed: closed_at,
            no_of_bytes_sent: self.entry.no_of_bytes_sent,
            no_of_bytes_received: self.entry.no_of_bytes_received,
        };
        self.phase = HandlerPhase::Closing;
        self.entry
    }

    /// Cleanup on the way out: give the session slot back. The slot's
    /// counters stay as they are, to be reset on the next acquire.
    pub fn terminate(&mut self, table: &mut SessionTable)
        requires
            old(self).phase() is Closing,
            old(self).slot() < old(table)@.len(),
        ensures
            final(self).phase() is Terminated,
            releases_to(old(table)@, final(table)@, old(self).slot()),
    {
        table.release(self.slot);
        self.phase = HandlerPhase::Terminated;
    }
}

} // verus!
