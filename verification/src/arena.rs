//! Generation-checked storage for suspended task states.
//!
//! A suspended asynchronous export must be resumable from an opaque
//! integer the host round-trips. Rather than handing out an address, the
//! arena stores each parked [`TaskState`] in a slot and issues a handle
//! packing the slot index with the slot's generation; a slot's generation
//! moves on every time its occupant is taken, so a handle that has
//! already been consumed — or was never issued — is rejected as
//! [`ProtocolError::StaleTaskHandle`] instead of being dereferenced. At
//! most one stored task state is addressable by a given handle at any
//! time.

use vstd::prelude::*;

use crate::error::ProtocolError;
use crate::scheduler::TaskState;

verus! {

/// One slot of the index space.
#[derive(Debug)]
pub struct ArenaSlot {
    /// Moved on whenever the slot's occupant is taken, so that old
    /// handles to this slot go stale.
    pub generation: u32,
    /// The parked task state, if the slot is occupied.
    pub occupant: Option<TaskState>,
}

/// The arena of parked task states.
#[derive(Debug)]
pub struct TaskArena {
    slots: Vec<ArenaSlot>,
}

/// The slot index packed into a handle (its low half).
pub open spec fn handle_index(h: u64) -> int {
    h as int % 0x1_0000_0000
}

/// The generation packed into a handle (its high half).
pub open spec fn handle_generation(h: u64) -> int {
    h as int / 0x1_0000_0000
}

impl TaskArena {
    /// The slots, in index order.
    pub closed spec fn slots(&self) -> Seq<ArenaSlot> {
        self.slots@
    }

    /// Validity: the slot count stays within the index half of a handle,
    /// and every occupied slot's generation is below the limit, so a
    /// take can still move it on.
    pub open spec fn well_formed(&self) -> bool {
        &&& self.slots().len() <= 0xFFFF_FFFF
        &&& forall|i: int|
            0 <= i < self.slots().len() && self.slots()[i].occupant is Some
                ==> self.slots()[i].generation < u32::MAX
    }

    /// Whether `h` currently addresses a stored task state.
    pub open spec fn live(&self, h: u64) -> bool {
        &&& handle_index(h) < self.slots().len()
        &&& self.slots()[handle_index(h)].generation == handle_generation(h)
        &&& self.slots()[handle_index(h)].occupant is Some
    }

    /// The task state a live handle addresses.
    pub open spec fn stored(&self, h: u64) -> TaskState
        recommends
            self.live(h),
    {
        self.slots()[handle_index(h)].occupant->0
    }

    /// An empty arena.
    pub fn new() -> (a: TaskArena)
        ensures
            a.well_formed(),
            a.slots() == Seq::<ArenaSlot>::empty(),
    {
        TaskArena { slots: Vec::new() }
    }

    /// How many slots the arena holds.
    pub fn slot_count(&self) -> (n: usize)
        ensures
            n == self.slots().len(),
    {
        self.slots.len()
    }

    /// The parked task state in one slot, if the slot is occupied — for
    /// the embedding's root tracer, which must visit every suspended
    /// call's stacks on a collection cycle.
    pub fn stored_at(&self, ix: usize) -> (r: Option<&TaskState>)
        requires
            ix < self.slots().len(),
        ensures
            match r {
                Some(t) => self.slots()[ix as int].occupant == Some(*t),
                None => self.slots()[ix as int].occupant is None,
            },
    {
        self.slots[ix].occupant.as_ref()
    }

    /// Park a task state and issue the opaque handle the host will
    /// round-trip: not live before this call, live and addressing `state`
    /// after it, while every other handle's standing is untouched.
    pub fn insert(&mut self, state: TaskState) -> (r: Result<u64, ProtocolError>)
        requires
            old(self).well_formed(),
        ensures
            final(self).well_formed(),
            match r {
                Ok(h) => {
                    &&& !old(self).live(h)
                    &&& final(self).live(h)
                    &&& final(self).stored(h) == state
                    &&& forall|h2: u64|
                        handle_index(h2) != handle_index(h) ==> (final(self).live(h2) == old(
                            self,
                        ).live(h2) && (old(self).live(h2) ==> final(self).stored(h2) == old(
                            self,
                        ).stored(h2)))
                },
                Err(e) => {
                    &&& e == ProtocolError::TaskArenaFull
                    &&& final(self).slots() == old(self).slots()
                    &&& old(self).slots().len() == 0xFFFF_FFFF
                    &&& forall|j: int|
                        0 <= j < old(self).slots().len() ==> ((#[trigger] old(self).slots()[
                            j
                        ]).occupant is Some || old(self).slots()[j].generation == u32::MAX)
                },
            },
    {
        let ghost pre = self.slots@;
        let mut i: usize = 0;
        while i < self.slots.len()
            invariant
                self.slots@ == pre,
                old(self).slots@ == pre,
                pre.len() <= 0xFFFF_FFFF,
                forall|j: int|
                    0 <= j < pre.len() && pre[j].occupant is Some ==> pre[j].generation
                        < u32::MAX,
                forall|j: int|
                    0 <= j < i ==> ((#[trigger] pre[j]).occupant is Some || pre[j].generation
                        == u32::MAX),
                i <= pre.len(),
            decreases pre.len() - i,
        {
            let vacant = self.slots[i].occupant.is_none() && self.slots[i].generation < u32::MAX;
            if vacant {
                let g = self.slots[i].generation;
                self.slots[i] = ArenaSlot { generation: g, occupant: Some(state) };
                proof {
                    assert((g as u64) as int * 0x1_0000_0000 <= 0xFFFF_FFFE_0000_0000)
                        by (nonlinear_arith)
                        requires
                            (g as u64) <= 0xFFFF_FFFEu64,
                    ;
                }
                let h = (i as u64) + (g as u64) * 0x1_0000_0000;
                proof {
                    assert(handle_index(h) == i as int && handle_generation(h) == g as int)
                        by (nonlinear_arith)
                        requires
                            h as int == (i as u64) as int + (g as u64) as int * 0x1_0000_0000,
                            (i as u64) < 0x1_0000_0000,
                            (g as u64) < 0x1_0000_0000,
                    ;
                    assert forall|h2: u64| handle_index(h2) != handle_index(h) implies (self.live(
                        h2,
                    ) == old(self).live(h2) && (old(self).live(h2) ==> self.stored(h2) == old(
                        self,
                    ).stored(h2))) by {
                        if handle_index(h2) < pre.len() {
                            assert(self.slots()[handle_index(h2)] == pre[handle_index(h2)]);
                        }
                    }
                }
                return Ok(h);
            }
            i = i + 1;
        }
        if self.slots.len() < 0xFFFF_FFFFusize {
            let ix = self.slots.len();
            self.slots.push(ArenaSlot { generation: 0, occupant: Some(state) });
            let h = ix as u64;
            proof {
                assert(handle_index(h) == ix as int && handle_generation(h) == 0);
                assert forall|h2: u64| handle_index(h2) != handle_index(h) implies (self.live(h2)
                    == old(self).live(h2) && (old(self).live(h2) ==> self.stored(h2) == old(
                    self,
                ).stored(h2))) by {
                    if handle_index(h2) < pre.len() {
                        assert(self.slots()[handle_index(h2)] == pre[handle_index(h2)]);
                    }
                }
            }
            Ok(h)
        } else {
            Err(ProtocolError::TaskArenaFull)
        }
    }

    /// Reclaim the task state a handle addresses. The handle goes stale:
    /// the host must never round-trip it again, and if it does, the
    /// attempt is rejected rather than dereferenced. A handle that is
    /// stale or was never issued is a protocol violation and changes
    /// nothing.
    pub fn take(&mut self, h: u64) -> (r: Result<TaskState, ProtocolError>)
        requires
            old(self).well_formed(),
        ensures
            final(self).well_formed(),
            taken(*old(self), *final(self), h, r),
            r is Ok ==> forall|h2: u64|
                handle_index(h2) != handle_index(h) ==> (final(self).live(h2) == old(self).live(
                    h2,
                ) && (old(self).live(h2) ==> final(self).stored(h2) == old(self).stored(h2))),
    {
        let ix_u64 = h % 0x1_0000_0000;
        let gen_u64 = h / 0x1_0000_0000;
        proof {
            assert(ix_u64 as int == handle_index(h) && gen_u64 as int == handle_generation(h));
        }
        let ix = ix_u64 as usize;
        if ix >= self.slots.len() {
            return Err(ProtocolError::StaleTaskHandle);
        }
        let g = self.slots[ix].generation;
        if (g as u64) != gen_u64 {
            return Err(ProtocolError::StaleTaskHandle);
        }
        let occ = self.slots[ix].occupant.take();
        match occ {
            None => {
                proof {
                    assert(self.slots@ =~= old(self).slots@);
                }
                Err(ProtocolError::StaleTaskHandle)
            },
            Some(t) => {
                self.slots[ix] = ArenaSlot { generation: g + 1, occupant: None };
                proof {
                    assert forall|h2: u64| handle_index(h2) != handle_index(h) implies (self.live(
                        h2,
                    ) == old(self).live(h2) && (old(self).live(h2) ==> self.stored(h2) == old(
                        self,
                    ).stored(h2))) by {
                        if handle_index(h2) < old(self).slots().len() {
                            assert(self.slots()[handle_index(h2)] == old(self).slots()[handle_index(
                                h2,
                            )]);
                        }
                    }
                }
                Ok(t)
            },
        }
    }
}

/// The relation [`TaskArena::take`] establishes, named so laws can speak
/// of successive takes.
pub open spec fn taken(
    pre: TaskArena,
    post: TaskArena,
    h: u64,
    r: Result<TaskState, ProtocolError>,
) -> bool {
    match r {
        Ok(t) => pre.live(h) && t == pre.stored(h) && !post.live(h),
        Err(e) => e == ProtocolError::StaleTaskHandle && !pre.live(h) && post.slots()
            == pre.slots(),
    }
}

/// A consumed handle stays consumed: once a parked task state has been
/// taken through a handle, taking through the same handle again is a
/// detected protocol violation and changes nothing — the arena never
/// hands out the same task state twice.
pub proof fn lemma_taken_handle_goes_stale(
    a0: TaskArena,
    a1: TaskArena,
    a2: TaskArena,
    h: u64,
    r1: Result<TaskState, ProtocolError>,
    r2: Result<TaskState, ProtocolError>,
)
    requires
        taken(a0, a1, h, r1),
        r1 is Ok,
        taken(a1, a2, h, r2),
    ensures
        r2 == Err::<TaskState, ProtocolError>(ProtocolError::StaleTaskHandle),
        a2.slots() == a1.slots(),
{
}

} // verus!
