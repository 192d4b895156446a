//! The connection history: a fixed-capacity ring buffer of finished
//! connections' log entries, overwriting the oldest entry once full.

use vstd::prelude::*;

verus! {

use vstd::pervasive::VecAdditionalExecFns;

/// One connection's record: when it opened and closed (monotonic millisecond
/// timestamps) and how many bytes went each way while it was active.
#[derive(Clone, Copy, PartialEq, Eq, Structural, Debug)]
pub struct Log {
    pub when_opened: i64,
    pub when_closed: i64,
    pub no_of_bytes_sent: u64,
    pub no_of_bytes_received: u64,
}

/// A fixed-capacity, overwrite-oldest store of connection logs.
///
/// Its view is the sequence of entries appended so far, oldest first, never
/// longer than the capacity chosen at construction.
pub struct CircularLogBuffer {
    log_entries: Vec<Log>,
    /// Index of the next write into `log_entries`.
    index: usize,
    /// How many of the backing entries have been written so far; stops
    /// growing once the buffer has wrapped.
    count: usize,
    /// Capacity of the buffer, fixed at construction.
    size: usize,
}

/// One append to a ring of capacity `cap`: the new entry goes on the end,
/// and the oldest entry is dropped once `cap` entries are held.
pub open spec fn ring_push(s: Seq<Log>, log: Log, cap: nat) -> Seq<Log> {
    if s.len() < cap {
        s.push(log)
    } else {
        s.drop_first().push(log)
    }
}

impl View for CircularLogBuffer {
    type V = Seq<Log>;

    closed spec fn view(&self) -> Seq<Log> {
        if self.count < self.size {
            self.log_entries@.subrange(0, self.count as int)
        } else {
            self.log_entries@.subrange(self.index as int, self.size as int)
                + self.log_entries@.subrange(0, self.index as int)
        }
    }
}

impl CircularLogBuffer {
    /// The representation invariant: a backing array of exactly `size`
    /// entries, the write cursor inside it, and, until the buffer first
    /// wraps, the cursor equal to the number of entries written.
    pub closed spec fn wf(&self) -> bool {
        &&& 1 <= self.size
        &&& self.log_entries@.len() == self.size
        &&& self.index < self.size
        &&& self.count <= self.size
        &&& (self.count < self.size ==> self.index == self.count)
    }

    /// The capacity the buffer was created with.
    pub closed spec fn capacity(&self) -> nat {
        self.size as nat
    }

    /// Create a buffer that can hold `size` entries.
    pub fn new(size: usize) -> (r: Self)
        requires
            1 <= size,
        ensures
            r.wf(),
            r.capacity() == size,
            r@ == Seq::<Log>::empty(),
    {
        let mut entries: Vec<Log> = Vec::new();
        let mut i: usize = 0;
        while i < size
            invariant
                i <= size,
                entries@.len() == i,
            decreases size - i,
        {
            entries.push(Log {
                when_opened: 0,
                when_closed: 0,
                no_of_bytes_sent: 0,
                no_of_bytes_received: 0,
            });
            i = i + 1;
        }
        let r = CircularLogBuffer { log_entries: entries, index: 0, count: 0, size };
        proof {
            assert(r@ =~= Seq::<Log>::empty());
        }
        r
    }

    /// Append a log entry, overwriting the oldest entry if the buffer is
    /// already full.
    pub fn add_log(&mut self, log: Log)
        requires
            old(self).wf(),
        ensures
            final(self).wf(),
            final(self).capacity() == old(self).capacity(),
            final(self)@ == ring_push(old(self)@, log, old(self).capacity()),
    {
        self.log_entries.set(self.index, log);
        if self.count < self.size {
            self.count = self.count + 1;
        }
        self.index = self.index + 1;
        if self.index == self.size {
            self.index = 0;
        }
        proof {
            assert(self@ =~= ring_push(old(self)@, log, old(self).capacity()));
        }
    }

    /// All entries appended so far, as a copy, oldest first.
    pub fn get_logs(&self) -> (r: Vec<Log>)
        requires
            self.wf(),
        ensures
            r@ == self@,
    {
        let mut r: Vec<Log> = Vec::new();
        if self.count < self.size {
            let mut k: usize = 0;
            while k < self.count
                invariant
                    self.wf(),
                    self.count < self.size,
                    k <= self.count,
                    r@ == self.log_entries@.subrange(0, k as int),
                decreases self.count - k,
            {
                r.push(self.log_entries[k]);
                proof {
                    assert(r@ =~= self.log_entries@.subrange(0, k + 1));
                }
                k = k + 1;
            }
        } else {
            let mut k: usize = self.index;
            while k < self.size
                invariant
                    self.wf(),
                    self.count == self.size,
                    self.index <= k <= self.size,
                    r@ == self.log_entries@.subrange(self.index as int, k as int),
                decreases self.size - k,
            {
                r.push(self.log_entries[k]);
                proof {
                    assert(r@ =~= self.log_entries@.subrange(self.index as int, k + 1));
                }
                k = k + 1;
            }
            let mut k2: usize = 0;
            while k2 < self.index
                invariant
                    self.wf(),
                    self.count == self.size,
                    k2 <= self.index,
                    r@ == self.log_entries@.subrange(self.index as int, self.size as int)
                        + self.log_entries@.subrange(0, k2 as int),
                decreases self.index - k2,
            {
                r.push(self.log_entries[k2]);
                proof {
                    assert(r@ =~= self.log_entries@.subrange(self.index as int, self.size as int)
                        + self.log_entries@.subrange(0, k2 + 1));
                }
                k2 = k2 + 1;
            }
        }
        proof {
            assert(r@ =~= self@);
        }
        r
    }
}

/// The contents of a ring of capacity `cap` after the entries of `entries`
/// have been appended to it in order, one by one.
pub open spec fn ring_push_all(s: Seq<Log>, entries: Seq<Log>, cap: nat) -> Seq<Log>
    decreases entries.len(),
{
    if entries.len() == 0 {
        s
    } else {
        ring_push_all(ring_push(s, entries[0], cap), entries.drop_first(), cap)
    }
}

/// A ring of capacity `cap` always holds the last `cap` entries pushed into
/// it, in push order: after any run of appends its contents are the tail of
/// everything it ever held.
pub proof fn lemma_ring_push_all_tail(s: Seq<Log>, entries: Seq<Log>, cap: nat)
    requires
        1 <= cap,
        s.len() <= cap,
    ensures
        ring_push_all(s, entries, cap) == (s + entries).skip(
            if s.len() + entries.len() <= cap {
                0
            } else {
                s.len() + entries.len() - cap
            },
        ),
    decreases entries.len(),
{
    if entries.len() == 0 {
        assert(s + entries =~= s);
        assert((s + entries).skip(0) =~= s);
    } else {
        let stepped = ring_push(s, entries[0], cap);
        lemma_ring_push_all_tail(stepped, entries.drop_first(), cap);
        if s.len() < cap {
            assert(stepped + entries.drop_first() =~= s + entries);
        } else {
            assert(stepped + entries.drop_first() =~= (s + entries).skip(1));
            let total = s.len() + entries.len();
            if stepped.len() + entries.drop_first().len() <= cap {
                assert((s + entries).skip(1).skip(0) =~= (s + entries).skip(1));
                assert(total - cap == 1);
                assert((s + entries).skip(1) =~= (s + entries).skip(total - cap));
            } else {
                assert((s + entries).skip(1).skip(total - cap - 1) =~= (s + entries).skip(
                    total - cap,
                ));
            }
        }
    }
}

/// Ring buffer bound: appending more than `cap` entries to a buffer of
/// capacity `cap` leaves exactly `cap` entries retained, equal to the last
/// `cap` appended, in append order.
pub proof fn lemma_ring_buffer_bound(s: Seq<Log>, entries: Seq<Log>, cap: nat)
    requires
        1 <= cap,
        s.len() <= cap,
        cap < entries.len(),
    ensures
        ring_push_all(s, entries, cap).len() == cap,
        ring_push_all(s, entries, cap) == entries.subrange(
            entries.len() - cap,
            entries.len() as int,
        ),
{
    lemma_ring_push_all_tail(s, entries, cap);
    assert((s + entries).skip(s.len() + entries.len() - cap) =~= entries.subrange(
        entries.len() - cap,
        entries.len() as int,
    ));
}

} // verus!
