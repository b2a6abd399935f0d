//! The per-async-export task state machine.
//!
//! One [`TaskState`] exists per in-flight asynchronous export call. It
//! tracks the host-initiated import calls ("subtasks") the exported
//! script function is still waiting on, and an optional waitable-set
//! handle, absent until the call first suspends. The machine advances
//! only by explicit steps — [`TaskState::poll`] after the engine's job
//! queue has been drained, and [`TaskState::on_event`] when the host
//! delivers a subtask event — never by internal threads.
//!
//! Event kinds and subtask phases the interface world does not describe
//! are fatal protocol violations, reported and never silently ignored; in
//! particular the starting phase is consumed by lower layers and must
//! never reach this one, and a returned event for a subtask with no
//! pending entry (delivered twice, or never registered) is detected as
//! [`ProtocolError::UnknownSubtask`].

use vstd::prelude::*;

use crate::context::CallContext;
use crate::error::ProtocolError;
use crate::value::Value;

verus! {

/// Host event kind: no event delivered.
pub const EVENT_NONE: u32 = 0;

/// Host event kind: a subtask changed phase.
pub const EVENT_SUBTASK: u32 = 1;

/// Subtask phase: starting. Consumed below this layer; observing it here
/// is a protocol violation.
pub const SUBTASK_STARTING: u32 = 0;

/// Subtask phase: started. An acknowledgment; no state changes.
pub const SUBTASK_STARTED: u32 = 1;

/// Subtask phase: returned. The subtask's result is ready to be lifted.
pub const SUBTASK_RETURNED: u32 = 2;

/// Callback status: the exported call has fully settled.
pub const CALLBACK_CODE_EXIT: u32 = 0;

/// Callback status: suspend and resume on an event for the waitable set
/// packed into the upper bits.
pub const CALLBACK_CODE_WAIT: u32 = 2;

/// The largest waitable-set handle that fits beside the callback code.
pub const WAITABLE_SET_LIMIT: u32 = 0x1000_0000;

/// The encoded "wait" status for a waitable set below
/// [`WAITABLE_SET_LIMIT`]: the set handle packed above the four
/// status-code bits.
pub open spec fn wait_status(set: u32) -> u32
    recommends
        set < WAITABLE_SET_LIMIT,
{
    (CALLBACK_CODE_WAIT + set * 16) as u32
}

/// A host-initiated asynchronous import call still in flight: the state
/// parked while waiting for the host to deliver its returned event.
#[derive(Debug)]
pub struct PendingImport {
    /// The host-assigned subtask handle; the key events name.
    pub subtask: u32,
    /// The import's position in the dispatch table.
    pub import_index: u32,
    /// The captured marshalling state, kept alive (and registered as a
    /// GC root) until the subtask returns.
    pub context: CallContext,
    /// The address of the host-side buffer the result will be lifted
    /// from.
    pub buffer: usize,
    /// The engine function to invoke with the lifted value.
    pub resolve: Value,
    /// The engine function to invoke if the import fails.
    pub reject: Value,
}

/// What a [`TaskState::poll`] decided.
#[derive(Debug)]
pub enum PollOutcome {
    /// Nothing is pending: report exit to the host; the waitable set, if
    /// one was allocated, is released and must be dropped by the
    /// embedding.
    Exit {
        /// The waitable-set handle to drop, if one had been allocated.
        release_set: Option<u32>,
    },
    /// Subtasks are pending but no waitable set exists yet: the embedding
    /// must obtain one from the host, hand it to
    /// [`TaskState::provide_waitable_set`], and poll again.
    NeedWaitableSet,
    /// Subtasks are pending: report the encoded wait status to the host
    /// and suspend.
    Wait {
        /// The waitable set to wait on.
        set: u32,
        /// The status word handed back to the host:
        /// [`wait_status`]`(set)`.
        status: u32,
    },
}

/// What a [`TaskState::on_event`] decided.
#[derive(Debug)]
pub enum EventOutcome {
    /// Nothing to do (no event, or a started-phase acknowledgment);
    /// re-poll.
    Acknowledged,
    /// A subtask returned: its entry, removed from the pending map. The
    /// embedding must detach the subtask from the waitable set, drop the
    /// subtask handle, lift the import's result from the captured buffer
    /// into the captured context, and settle the stored callback.
    Returned {
        /// The pending entry, no longer tracked by the scheduler.
        entry: PendingImport,
    },
}

/// The task state machine for one in-flight asynchronous export call.
#[derive(Debug)]
pub struct TaskState {
    /// The waitable set handle, once the call has first suspended.
    waitable: Option<u32>,
    /// The in-flight import calls, keyed by subtask handle.
    pending: Vec<PendingImport>,
}

impl TaskState {
    /// The pending entries, in registration order.
    pub closed spec fn pending(&self) -> Seq<PendingImport> {
        self.pending@
    }

    /// The waitable-set handle, if one has been allocated.
    pub closed spec fn waitable(&self) -> Option<u32> {
        self.waitable
    }

    /// Whether some pending entry is keyed by subtask handle `h`.
    pub open spec fn has_subtask(&self, h: u32) -> bool {
        exists|i: int| 0 <= i < self.pending().len() && self.pending()[i].subtask == h
    }

    /// Validity: no two pending entries share a subtask handle.
    pub open spec fn well_formed(&self) -> bool {
        forall|i: int, j: int|
            0 <= i < j < self.pending().len() ==> self.pending()[i].subtask != self.pending()[
                j
            ].subtask
    }

    /// A fresh task state: nothing pending, no waitable set.
    pub fn new() -> (s: TaskState)
        ensures
            s.well_formed(),
            s.pending() == Seq::<PendingImport>::empty(),
            s.waitable() is None,
    {
        TaskState { waitable: None, pending: Vec::new() }
    }

    /// How many subtasks are pending.
    pub fn pending_count(&self) -> (n: usize)
        ensures
            n == self.pending().len(),
    {
        self.pending.len()
    }

    /// The pending subtask handles, in registration order — the handles
    /// the embedding joins to the waitable set.
    pub fn subtask_handles(&self) -> (r: Vec<u32>)
        ensures
            r@.len() == self.pending().len(),
            forall|i: int| 0 <= i < r@.len() ==> r@[i] == self.pending()[i].subtask,
    {
        let mut r: Vec<u32> = Vec::new();
        let mut i: usize = 0;
        while i < self.pending.len()
            invariant
                i <= self.pending@.len(),
                r@.len() == i,
                forall|j: int| 0 <= j < i ==> r@[j] == self.pending@[j].subtask,
            decreases self.pending@.len() - i,
        {
            r.push(self.pending[i].subtask);
            i = i + 1;
        }
        r
    }

    /// The captured context of one pending entry — for the embedding's
    /// root tracer, which must visit every parked stack on a collection
    /// cycle.
    pub fn pending_context(&self, i: usize) -> (c: &CallContext)
        requires
            i < self.pending().len(),
        ensures
            *c == self.pending()[i as int].context,
    {
        &self.pending[i].context
    }

    /// Hand the machine the waitable set the host allocated, after a
    /// [`PollOutcome::NeedWaitableSet`].
    pub fn provide_waitable_set(&mut self, set: u32)
        requires
            old(self).waitable() is None,
        ensures
            final(self).waitable() == Some(set),
            final(self).pending() == old(self).pending(),
            old(self).well_formed() ==> final(self).well_formed(),
    {
        self.waitable = Some(set);
    }

    /// Register a pending entry for an asynchronous import the host
    /// reported as not synchronously complete. A subtask handle already
    /// in use is a protocol violation and changes nothing.
    pub fn add_pending(&mut self, entry: PendingImport) -> (r: Result<(), ProtocolError>)
        requires
            old(self).well_formed(),
        ensures
            final(self).well_formed(),
            final(self).waitable() == old(self).waitable(),
            match r {
                Ok(()) => {
                    &&& !old(self).has_subtask(entry.subtask)
                    &&& final(self).pending() == old(self).pending().push(entry)
                },
                Err(e) => {
                    &&& e == ProtocolError::DuplicateSubtask
                    &&& old(self).has_subtask(entry.subtask)
                    &&& final(self).pending() == old(self).pending()
                },
            },
    {
        let ghost pre = self.pending@;
        let mut i: usize = 0;
        while i < self.pending.len()
            invariant
                self.pending@ == pre,
                self.waitable == old(self).waitable,
                old(self).pending@ == pre,
                i <= pre.len(),
                forall|j: int| 0 <= j < i ==> pre[j].subtask != entry.subtask,
                forall|p: int, q: int|
                    0 <= p < q < pre.len() ==> pre[p].subtask != pre[q].subtask,
            decreases pre.len() - i,
        {
            if self.pending[i].subtask == entry.subtask {
                return Err(ProtocolError::DuplicateSubtask);
            }
            i = i + 1;
        }
        self.pending.push(entry);
        proof {
            assert forall|p: int, q: int|
                0 <= p < q < self.pending@.len() implies self.pending@[p].subtask
                != self.pending@[q].subtask by {
                if q + 1 == self.pending@.len() {
                    assert(self.pending@[p] == old(self).pending()[p]);
                }
            }
        }
        Ok(())
    }

    /// Decide what to report to the host after the job queue has been
    /// drained: exit when nothing is pending (releasing the waitable
    /// set), otherwise suspend on the waitable set, which the embedding
    /// must first allocate if this is the first suspension.
    pub fn poll(&mut self) -> (r: Result<PollOutcome, ProtocolError>)
        requires
            old(self).well_formed(),
        ensures
            final(self).well_formed(),
            polled(*old(self), *final(self), r),
    {
        if self.pending.len() == 0 {
            let release = self.waitable.take();
            Ok(PollOutcome::Exit { release_set: release })
        } else {
            match self.waitable {
                None => Ok(PollOutcome::NeedWaitableSet),
                Some(set) => {
                    if set < WAITABLE_SET_LIMIT {
                        let status = CALLBACK_CODE_WAIT | (set << 4);
                        proof {
                            assert(2u32 | (set << 4u32) == (2 + set * 16) as u32)
                                by (bit_vector)
                                requires
                                    set < 0x1000_0000u32,
                            ;
                        }
                        Ok(PollOutcome::Wait { set, status })
                    } else {
                        Err(ProtocolError::WaitableSetOutOfRange)
                    }
                },
            }
        }
    }

    /// Consume a host-delivered event triple. Phases and kinds outside
    /// the protocol — and a returned event for a handle with no pending
    /// entry, such as a second delivery — are protocol violations and
    /// change nothing.
    pub fn on_event(&mut self, event0: u32, event1: u32, event2: u32) -> (r: Result<
        EventOutcome,
        ProtocolError,
    >)
        requires
            old(self).well_formed(),
        ensures
            final(self).well_formed(),
            event_handled(*old(self), *final(self), event0, event1, event2, r),
    {
        if event0 == EVENT_NONE {
            return Ok(EventOutcome::Acknowledged);
        }
        if event0 != EVENT_SUBTASK {
            return Err(ProtocolError::UnknownEventKind);
        }
        if event2 == SUBTASK_STARTING {
            return Err(ProtocolError::StartingPhaseObserved);
        }
        if event2 == SUBTASK_STARTED {
            return Ok(EventOutcome::Acknowledged);
        }
        if event2 != SUBTASK_RETURNED {
            return Err(ProtocolError::UnknownSubtaskPhase);
        }
        let ghost pre = self.pending@;
        let mut i: usize = 0;
        while i < self.pending.len()
            invariant
                event0 == EVENT_SUBTASK,
                event2 == SUBTASK_RETURNED,
                self.pending@ == pre,
                self.waitable == old(self).waitable,
                old(self).pending@ == pre,
                i <= pre.len(),
                forall|j: int| 0 <= j < i ==> pre[j].subtask != event1,
                forall|p: int, q: int|
                    0 <= p < q < pre.len() ==> pre[p].subtask != pre[q].subtask,
            decreases pre.len() - i,
        {
            if self.pending[i].subtask == event1 {
                let ghost wi = i as int;
                let entry = self.pending.remove(i);
                proof {
                    assert(pre[wi] == entry);
                    assert(self.pending@ == pre.remove(wi));
                    assert(exists|j: int|
                        0 <= j < pre.len() && pre[j] == entry && self.pending@ == pre.remove(j));
                    assert forall|j: int|
                        0 <= j < self.pending@.len() implies self.pending@[j].subtask
                        != event1 by {
                        if j < i {
                            assert(self.pending@[j] == pre[j]);
                        } else {
                            assert(self.pending@[j] == pre[j + 1]);
                        }
                    }
                    assert forall|p: int, q: int|
                        0 <= p < q < self.pending@.len() implies self.pending@[p].subtask
                        != self.pending@[q].subtask by {
                        let p0: int = if p < i { p } else { p + 1 };
                        let q0: int = if q < i { q } else { q + 1 };
                        assert(self.pending@[p] == pre[p0]);
                        assert(self.pending@[q] == pre[q0]);
                    }
                }
                return Ok(EventOutcome::Returned { entry });
            }
            i = i + 1;
        }
        Err(ProtocolError::UnknownSubtask)
    }
}

/// The complete relation [`TaskState::poll`] establishes between the
/// state before, the state after, and its outcome.
pub open spec fn polled(
    pre: TaskState,
    post: TaskState,
    r: Result<PollOutcome, ProtocolError>,
) -> bool {
    match r {
        Ok(out) => if pre.pending().len() == 0 {
            &&& (out matches PollOutcome::Exit { release_set } && release_set == pre.waitable())
            &&& post.pending() == pre.pending()
            &&& post.waitable() is None
        } else if pre.waitable() is None {
            &&& out is NeedWaitableSet
            &&& post.pending() == pre.pending()
            &&& post.waitable() == pre.waitable()
        } else {
            &&& (pre.waitable() matches Some(s) && s < WAITABLE_SET_LIMIT
                && (out matches PollOutcome::Wait { set, status } && set == s
                    && status == wait_status(s)))
            &&& post.pending() == pre.pending()
            &&& post.waitable() == pre.waitable()
        },
        Err(e) => {
            &&& e == ProtocolError::WaitableSetOutOfRange
            &&& pre.pending().len() > 0
            &&& (pre.waitable() matches Some(s) && s >= WAITABLE_SET_LIMIT)
            &&& post.pending() == pre.pending()
            &&& post.waitable() == pre.waitable()
        },
    }
}

/// The complete relation [`TaskState::on_event`] establishes between the
/// state before, the state after, the event triple, and its outcome.
pub open spec fn event_handled(
    pre: TaskState,
    post: TaskState,
    event0: u32,
    event1: u32,
    event2: u32,
    r: Result<EventOutcome, ProtocolError>,
) -> bool {
    match r {
        Ok(out) => match out {
            EventOutcome::Acknowledged => {
                &&& (event0 == EVENT_NONE || (event0 == EVENT_SUBTASK && event2
                    == SUBTASK_STARTED))
                &&& post.pending() == pre.pending()
                &&& post.waitable() == pre.waitable()
            },
            EventOutcome::Returned { entry } => {
                &&& event0 == EVENT_SUBTASK
                &&& event2 == SUBTASK_RETURNED
                &&& entry.subtask == event1
                &&& exists|i: int|
                    0 <= i < pre.pending().len() && pre.pending()[i] == entry
                        && post.pending() == pre.pending().remove(i)
                &&& !post.has_subtask(event1)
                &&& post.waitable() == pre.waitable()
            },
        },
        Err(e) => {
            &&& post.pending() == pre.pending()
            &&& post.waitable() == pre.waitable()
            &&& if event0 != EVENT_NONE && event0 != EVENT_SUBTASK {
                e == ProtocolError::UnknownEventKind
            } else if event0 == EVENT_SUBTASK && event2 == SUBTASK_STARTING {
                e == ProtocolError::StartingPhaseObserved
            } else if event0 == EVENT_SUBTASK && event2 != SUBTASK_STARTED && event2
                != SUBTASK_RETURNED {
                e == ProtocolError::UnknownSubtaskPhase
            } else {
                &&& event0 == EVENT_SUBTASK
                &&& event2 == SUBTASK_RETURNED
                &&& !pre.has_subtask(event1)
                &&& e == ProtocolError::UnknownSubtask
            }
        },
    }
}

/// An asynchronous export whose script body never awaited an
/// asynchronous import polls straight to exit: with nothing pending and
/// no waitable set ever allocated, the very first poll reports exit and
/// releases nothing.
pub proof fn lemma_poll_exits_promptly(
    pre: TaskState,
    post: TaskState,
    r: Result<PollOutcome, ProtocolError>,
)
    requires
        pre.pending().len() == 0,
        pre.waitable() is None,
        polled(pre, post, r),
    ensures
        r matches Ok(out) && (out matches PollOutcome::Exit { release_set } && release_set
            is None),
        post.pending() == pre.pending(),
{
}

/// One returned event settles a subtask exactly once: after a returned
/// event for handle `h` has been consumed, a second returned event for
/// `h` is detected as a protocol violation and changes nothing.
pub proof fn lemma_second_returned_detected(
    s0: TaskState,
    s1: TaskState,
    s2: TaskState,
    h: u32,
    r1: Result<EventOutcome, ProtocolError>,
    r2: Result<EventOutcome, ProtocolError>,
)
    requires
        event_handled(s0, s1, EVENT_SUBTASK, h, SUBTASK_RETURNED, r1),
        r1 matches Ok(out) && out is Returned,
        event_handled(s1, s2, EVENT_SUBTASK, h, SUBTASK_RETURNED, r2),
    ensures
        r2 == Err::<EventOutcome, ProtocolError>(ProtocolError::UnknownSubtask),
        s2.pending() == s1.pending(),
{
    assert(!s1.has_subtask(h));
}

} // verus!
