//! The session table: a fixed array of slots, one per concurrently open
//! connection, with first-fit allocation, explicit admission control and
//! per-slot traffic counters.

use vstd::prelude::*;

verus! {

use vstd::pervasive::VecAdditionalExecFns;

/// One unit of session-tracking capacity: who holds it (an empty identity
/// means the slot is free) and the bytes exchanged on it so far. A free
/// slot's counters are stale and ignored; they are reset when the slot is
/// next claimed.
pub struct SessionSlot {
    pub occupant_identity: String,
    pub bytes_read: u64,
    pub bytes_written: u64,
}

/// The mathematical image of one slot: the occupant identity as a character
/// sequence, and the two counters.
pub struct SlotModel {
    pub occupant: Seq<char>,
    pub bytes_read: u64,
    pub bytes_written: u64,
}

pub open spec fn slot_model(s: SessionSlot) -> SlotModel {
    SlotModel {
        occupant: s.occupant_identity@,
        bytes_read: s.bytes_read,
        bytes_written: s.bytes_written,
    }
}

/// A slot is free exactly when no identity occupies it.
pub open spec fn slot_free(m: SlotModel) -> bool {
    m.occupant.len() == 0
}

/// Every slot of the table is occupied: the table is at capacity.
pub open spec fn all_occupied(slots: Seq<SlotModel>) -> bool {
    forall|i: int| 0 <= i < slots.len() ==> !slot_free(#[trigger] slots[i])
}

/// The successful-acquire relation: slot `i` was the first free slot, it is
/// now claimed for `id` with its counters reset, and every other slot is
/// untouched.
pub open spec fn acquires_to(
    pre: Seq<SlotModel>,
    post: Seq<SlotModel>,
    id: Seq<char>,
    i: int,
) -> bool {
    &&& 0 <= i < pre.len()
    &&& post.len() == pre.len()
    &&& slot_free(pre[i])
    &&& (forall|j: int| 0 <= j < i ==> !slot_free(#[trigger] pre[j]))
    &&& post[i] == (SlotModel { occupant: id, bytes_read: 0, bytes_written: 0 })
    &&& (forall|j: int| 0 <= j < pre.len() && j != i ==> post[j] == pre[j])
}

/// The release relation: slot `i` is now free, its counters are left as
/// they were, and every other slot is untouched. It does not ask that the
/// slot was occupied, so releasing an already-free slot is a no-op.
pub open spec fn releases_to(pre: Seq<SlotModel>, post: Seq<SlotModel>, i: int) -> bool {
    &&& 0 <= i < pre.len()
    &&& post.len() == pre.len()
    &&& post[i] == (SlotModel {
        occupant: Seq::<char>::empty(),
        bytes_read: pre[i].bytes_read,
        bytes_written: pre[i].bytes_written,
    })
    &&& (forall|j: int| 0 <= j < pre.len() && j != i ==> post[j] == pre[j])
}

/// The traffic-recording relation: both counters of slot `i` grew by the
/// given deltas, its occupant is unchanged, and every other slot is
/// untouched.
pub open spec fn records_to(
    pre: Seq<SlotModel>,
    post: Seq<SlotModel>,
    i: int,
    delta_read: u64,
    delta_written: u64,
) -> bool {
    &&& 0 <= i < pre.len()
    &&& post.len() == pre.len()
    &&& post[i] == (SlotModel {
        occupant: pre[i].occupant,
        bytes_read: (pre[i].bytes_read + delta_read) as u64,
        bytes_written: (pre[i].bytes_written + delta_written) as u64,
    })
    &&& (forall|j: int| 0 <= j < pre.len() && j != i ==> post[j] == pre[j])
}

/// What an occupied slot contributes to the aggregate bytes-read total; a
/// free slot's stale counters contribute nothing.
pub open spec fn slot_contrib_read(m: SlotModel) -> int {
    if slot_free(m) {
        0
    } else {
        m.bytes_read as int
    }
}

/// What an occupied slot contributes to the aggregate bytes-written total.
pub open spec fn slot_contrib_written(m: SlotModel) -> int {
    if slot_free(m) {
        0
    } else {
        m.bytes_written as int
    }
}

/// Aggregate bytes read across all occupied slots.
pub open spec fn total_read(slots: Seq<SlotModel>) -> int
    decreases slots.len(),
{
    if slots.len() == 0 {
        0
    } else {
        slot_contrib_read(slots[0]) + total_read(slots.drop_first())
    }
}

/// Aggregate bytes written across all occupied slots.
pub open spec fn total_written(slots: Seq<SlotModel>) -> int
    decreases slots.len(),
{
    if slots.len() == 0 {
        0
    } else {
        slot_contrib_written(slots[0]) + total_written(slots.drop_first())
    }
}

/// How many slots are occupied.
pub open spec fn active_count(slots: Seq<SlotModel>) -> int
    decreases slots.len(),
{
    if slots.len() == 0 {
        0
    } else {
        (if slot_free(slots[0]) {
            0int
        } else {
            1int
        }) + active_count(slots.drop_first())
    }
}

/// The fixed array of session slots. Its view is the sequence of slot
/// models, one per slot, in index order.
pub struct SessionTable {
    slots: Vec<SessionSlot>,
}

impl View for SessionTable {
    type V = Seq<SlotModel>;

    closed spec fn view(&self) -> Seq<SlotModel> {
        self.slots@.map(|i: int, s: SessionSlot| slot_model(s))
    }
}

impl SessionTable {
    /// A table of `slot_count` slots, all free.
    pub fn new(slot_count: usize) -> (r: Self)
        ensures
            r@.len() == slot_count,
            forall|i: int|
                0 <= i < slot_count ==> r@[i] == (SlotModel {
                    occupant: Seq::<char>::empty(),
                    bytes_read: 0,
                    bytes_written: 0,
                }),
    {
        let mut slots: Vec<SessionSlot> = Vec::new();
        let mut i: usize = 0;
        while i < slot_count
            invariant
                i <= slot_count,
                slots@.len() == i,
                forall|j: int|
                    0 <= j < i ==> slot_model(#[trigger] slots@[j]) == (SlotModel {
                        occupant: Seq::<char>::empty(),
                        bytes_read: 0,
                        bytes_written: 0,
                    }),
            decreases slot_count - i,
        {
            slots.push(SessionSlot { occupant_identity: String::new(), bytes_read: 0, bytes_written: 0 });
            i = i + 1;
        }
        SessionTable { slots }
    }

    /// The index of the first free slot, if any slot is free.
    fn find_free_slot(&self) -> (r: Option<usize>)
        ensures
            match r {
                Some(i) => {
                    &&& i < self@.len()
                    &&& slot_free(self@[i as int])
                    &&& (forall|j: int| 0 <= j < i ==> !slot_free(#[trigger] self@[j]))
                },
                None => all_occupied(self@),
            },
    {
        let n: usize = self.slots.len();
        let mut k: usize = 0;
        while k < n
            invariant
                n == self@.len(),
                k <= n,
                forall|j: int| 0 <= j < k ==> !slot_free(#[trigger] self@[j]),
            decreases n - k,
        {
            if self.slots[k].occupant_identity.as_str().is_empty() {
                return Some(k);
            }
            k = k + 1;
        }
        None
    }

    /// First-fit admission: claim the first free slot for `identity`,
    /// resetting its counters, or refuse with `None` when every slot is
    /// occupied, leaving the table unmodified. The caller must not proceed
    /// as though a slot exists when `None` comes back.
    pub fn acquire(&mut self, identity: &str) -> (r: Option<usize>)
        requires
            identity@.len() > 0,
        ensures
            match r {
                Some(i) => acquires_to(old(self)@, final(self)@, identity@, i as int),
                None => final(self)@ == old(self)@ && all_occupied(old(self)@),
            },
    {
        match self.find_free_slot() {
            Some(i) => {
                let claimed = SessionSlot {
                    occupant_identity: identity.to_owned(),
                    bytes_read: 0,
                    bytes_written: 0,
                };
                self.slots.set(i, claimed);
                proof {
                    assert(forall|j: int|
                        0 <= j < old(self)@.len() && j != i ==> self@[j] == old(self)@[j]);
                }
                Some(i)
            },
            None => None,
        }
    }

    /// Release a slot: clear its occupant and leave its counters untouched
    /// (they are overwritten on the next acquire). Idempotent on an
    /// already-free slot.
    pub fn release(&mut self, index: usize)
        requires
            index < old(self)@.len(),
        ensures
            releases_to(old(self)@, final(self)@, index as int),
    {
        let bytes_read: u64 = self.slots[index].bytes_read;
        let bytes_written: u64 = self.slots[index].bytes_written;
        self.slots.set(
            index,
            SessionSlot { occupant_identity: String::new(), bytes_read, bytes_written },
        );
    }

    /// Add the exchanged byte counts to one slot's counters. Only the
    /// handler owning the slot may call this, so the slot is occupied.
    pub fn record_traffic(&mut self, index: usize, delta_read: u64, delta_written: u64)
        requires
            index < old(self)@.len(),
            !slot_free(old(self)@[index as int]),
            old(self)@[index as int].bytes_read + delta_read <= u64::MAX,
            old(self)@[index as int].bytes_written + delta_written <= u64::MAX,
        ensures
            records_to(old(self)@, final(self)@, index as int, delta_read, delta_written),
    {
        let occupant_identity = self.slots[index].occupant_identity.clone();
        let bytes_read: u64 = self.slots[index].bytes_read + delta_read;
        let bytes_written: u64 = self.slots[index].bytes_written + delta_written;
        self.slots.set(index, SessionSlot { occupant_identity, bytes_read, bytes_written });
    }

    /// Whether `delta_read` and `delta_written` can still be added to slot
    /// `index`'s counters without overflowing them.
    pub fn traffic_fits(&self, index: usize, delta_read: u64, delta_written: u64) -> (b: bool)
        requires
            index < self@.len(),
        ensures
            b == (self@[index as int].bytes_read + delta_read <= u64::MAX
                && self@[index as int].bytes_written + delta_written <= u64::MAX),
    {
        delta_read <= u64::MAX - self.slots[index].bytes_read
            && delta_written <= u64::MAX - self.slots[index].bytes_written
    }

    /// A consistent, point-in-time copy of the table's aggregates: how many
    /// slots are occupied, the byte totals over the occupied slots, and a
    /// copy of every slot's occupant identity (empty for free slots). Never
    /// mutates the table; safe to format and print after the call.
    pub fn snapshot(&self) -> (r: StatusReport)
        ensures
            r.active_sessions == active_count(self@),
            r.total_bytes_read == total_read(self@),
            r.total_bytes_written == total_written(self@),
            r.occupants@.len() == self@.len(),
            forall|i: int| 0 <= i < self@.len() ==> r.occupants@[i]@ == self@[i].occupant,
    {
        let n: usize = self.slots.len();
        let mut active: usize = 0;
        let mut read_total: u128 = 0;
        let mut written_total: u128 = 0;
        let mut occupants: Vec<String> = Vec::new();
        let mut k: usize = 0;
        while k < n
            invariant
                n == self@.len(),
                k <= n,
                active <= k,
                active == active_count(self@.take(k as int)),
                read_total == total_read(self@.take(k as int)),
                written_total == total_written(self@.take(k as int)),
                occupants@.len() == k,
                forall|i: int| 0 <= i < k ==> occupants@[i]@ == self@[i].occupant,
            decreases n - k,
        {
            proof {
                lemma_totals_push(self@.take(k as int), self@[k as int]);
                lemma_totals_bound(self@.take(k as int));
                assert(self@.take(k + 1) =~= self@.take(k as int).push(self@[k as int]));
            }
            let slot_occupied = !self.slots[k].occupant_identity.as_str().is_empty();
            if slot_occupied {
                active = active + 1;
                read_total = read_total + self.slots[k].bytes_read as u128;
                written_total = written_total + self.slots[k].bytes_written as u128;
            }
            occupants.push(self.slots[k].occupant_identity.clone());
            k = k + 1;
        }
        proof {
            assert(self@.take(n as int) =~= self@);
        }
        StatusReport {
            active_sessions: active,
            total_bytes_read: read_total,
            total_bytes_written: written_total,
            occupants,
        }
    }
}

/// What the administrative `status` query reports: a display-ready copy of
/// the table's aggregates at one moment.
pub struct StatusReport {
    pub active_sessions: usize,
    pub total_bytes_read: u128,
    pub total_bytes_written: u128,
    pub occupants: Vec<String>,
}

/// Appending one slot to a table extends each aggregate by exactly that
/// slot's contribution.
proof fn lemma_totals_push(s: Seq<SlotModel>, m: SlotModel)
    ensures
        total_read(s.push(m)) == total_read(s) + slot_contrib_read(m),
        total_written(s.push(m)) == total_written(s) + slot_contrib_written(m),
        active_count(s.push(m)) == active_count(s) + if slot_free(m) {
            0int
        } else {
            1int
        },
    decreases s.len(),
{
    if s.len() == 0 {
        assert(s.push(m)[0] == m);
        assert(s.push(m).drop_first() =~= Seq::<SlotModel>::empty());
        assert(total_read(s.push(m)) == slot_contrib_read(m) + total_read(
            s.push(m).drop_first(),
        ));
        assert(total_written(s.push(m)) == slot_contrib_written(m) + total_written(
            s.push(m).drop_first(),
        ));
        assert(active_count(s.push(m)) == (if slot_free(m) {
            0int
        } else {
            1int
        }) + active_count(s.push(m).drop_first()));
    } else {
        lemma_totals_push(s.drop_first(), m);
        assert(s.push(m)[0] == s[0]);
        assert(s.push(m).drop_first() =~= s.drop_first().push(m));
        assert(total_read(s.push(m)) == slot_contrib_read(s[0]) + total_read(
            s.push(m).drop_first(),
        ));
        assert(total_written(s.push(m)) == slot_contrib_written(s[0]) + total_written(
            s.push(m).drop_first(),
        ));
        assert(active_count(s.push(m)) == (if slot_free(s[0]) {
            0int
        } else {
            1int
        }) + active_count(s.push(m).drop_first()));
    }
}

/// The aggregates are bounded by the slot count times the largest counter
/// value, so the `u128` totals of a snapshot cannot overflow.
proof fn lemma_totals_bound(s: Seq<SlotModel>)
    ensures
        0 <= total_read(s) <= s.len() * (u64::MAX as int),
        0 <= total_written(s) <= s.len() * (u64::MAX as int),
        0 <= active_count(s) <= s.len(),
    decreases s.len(),
{
    if s.len() != 0 {
        lemma_totals_bound(s.drop_first());
    }
}

/// Slot exclusivity: two acquisitions, one after the other with no release
/// in between, never return the same slot index — the first claim makes the
/// slot ineligible until it is released.
pub proof fn lemma_slot_exclusivity(
    s0: Seq<SlotModel>,
    s1: Seq<SlotModel>,
    s2: Seq<SlotModel>,
    id1: Seq<char>,
    id2: Seq<char>,
    i: int,
    j: int,
)
    requires
        id1.len() > 0,
        acquires_to(s0, s1, id1, i),
        acquires_to(s1, s2, id2, j),
    ensures
        i != j,
{
    assert(!slot_free(s1[i]));
}

/// Idempotent release: releasing the same slot a second time changes
/// nothing — the slot stays free with the same counters, and no other slot
/// is affected.
pub proof fn lemma_release_idempotent(
    s0: Seq<SlotModel>,
    s1: Seq<SlotModel>,
    s2: Seq<SlotModel>,
    i: int,
)
    requires
        releases_to(s0, s1, i),
        releases_to(s1, s2, i),
    ensures
        s2 == s1,
{
    assert(s2 =~= s1);
}

/// Traffic accounting: recording deltas on an occupied slot raises the
/// aggregate totals by exactly those deltas and changes no occupancy, so a
/// snapshot's totals equal the sum of all deltas recorded on the slots
/// occupied at that moment.
pub proof fn lemma_traffic_accounting(
    pre: Seq<SlotModel>,
    post: Seq<SlotModel>,
    i: int,
    delta_read: u64,
    delta_written: u64,
)
    requires
        records_to(pre, post, i, delta_read, delta_written),
        !slot_free(pre[i]),
        pre[i].bytes_read + delta_read <= u64::MAX,
        pre[i].bytes_written + delta_written <= u64::MAX,
    ensures
        total_read(post) == total_read(pre) + delta_read,
        total_written(post) == total_written(pre) + delta_written,
        active_count(post) == active_count(pre),
{
    assert(post =~= pre.update(i, post[i]));
    lemma_totals_update(pre, i, post[i]);
}

/// Replacing one slot shifts each aggregate by the difference of the old
/// and new contributions.
proof fn lemma_totals_update(s: Seq<SlotModel>, i: int, m: SlotModel)
    requires
        0 <= i < s.len(),
    ensures
        total_read(s.update(i, m)) == total_read(s) - slot_contrib_read(s[i])
            + slot_contrib_read(m),
        total_written(s.update(i, m)) == total_written(s) - slot_contrib_written(s[i])
            + slot_contrib_written(m),
        active_count(s.update(i, m)) == active_count(s) - (if slot_free(s[i]) {
            0int
        } else {
            1int
        }) + (if slot_free(m) {
            0int
        } else {
            1int
        }),
    decreases s.len(),
{
    if i == 0 {
        assert(s.update(0, m).drop_first() =~= s.drop_first());
    } else {
        lemma_totals_update(s.drop_first(), i - 1, m);
        assert(s.update(i, m).drop_first() =~= s.drop_first().update(i - 1, m));
    }
}

} // verus!
