//! The GC root registry.
//!
//! The engine's collector discovers values that are "in flight" across the
//! boundary through a tracing callback which must visit every live call
//! context's value stack — with no omissions (an omission is a
//! use-after-free for the engine) and no duplicate visits. The registry is
//! the ground truth for that callback: it holds the identity of every
//! currently live call-context stack, keyed by an identifier issued at
//! registration, unique for the registry's whole lifetime.
//!
//! A call context is registered on construction and deregistered exactly
//! once on destruction; a deregistration of an identifier that is not
//! present is a detected protocol violation, never ignored.

use vstd::prelude::*;

use crate::error::ProtocolError;

verus! {

/// The process-wide set of live call-context stack identities.
pub struct RootRegistry {
    /// Identifiers of the live stacks, in registration order, no
    /// duplicates.
    ids: Vec<u64>,
    /// The next identifier to issue; larger than every identifier issued
    /// so far.
    next_id: u64,
}

impl RootRegistry {
    /// The registered identifiers, in registration order.
    pub closed spec fn view(&self) -> Seq<u64> {
        self.ids@
    }

    /// How many identifiers this registry has issued over its lifetime.
    /// Registration is possible while this is below [`u64::MAX`]; one
    /// identifier is issued per call context, so the bound is never
    /// reached in practice.
    pub closed spec fn issued(&self) -> u64 {
        self.next_id
    }

    /// Validity: no identifier registered twice, and every registered
    /// identifier below the issue counter.
    pub closed spec fn well_formed(&self) -> bool {
        &&& forall|i: int, j: int|
            0 <= i < j < self.ids@.len() ==> self.ids@[i] != self.ids@[j]
        &&& forall|i: int| 0 <= i < self.ids@.len() ==> self.ids@[i] < self.next_id
    }

    /// An empty registry: no live stacks.
    pub fn new() -> (r: RootRegistry)
        ensures
            r.well_formed(),
            r@ == Seq::<u64>::empty(),
            r.issued() == 0,
    {
        RootRegistry { ids: Vec::new(), next_id: 0 }
    }

    /// The number of live stacks.
    pub fn len(&self) -> (n: usize)
        ensures
            n == self@.len(),
    {
        self.ids.len()
    }

    /// Whether another identifier can still be issued. One identifier is
    /// spent per call context, so in practice the answer is always yes;
    /// the embedding tests it before creating a context.
    pub fn can_issue(&self) -> (b: bool)
        ensures
            b == (self.issued() < u64::MAX),
    {
        self.next_id < u64::MAX
    }

    /// The identifier registered at position `i`, in registration order —
    /// for checking a tracer's visit plan against the registry.
    pub fn id_at(&self, i: usize) -> (id: u64)
        requires
            i < self@.len(),
        ensures
            id == self@[i as int],
    {
        self.ids[i]
    }

    /// Whether `id` names a live stack.
    pub fn contains(&self, id: u64) -> (r: bool)
        ensures
            r == self@.contains(id),
    {
        let mut i: usize = 0;
        while i < self.ids.len()
            invariant
                i <= self.ids@.len(),
                forall|j: int| 0 <= j < i ==> self.ids@[j] != id,
            decreases self.ids@.len() - i,
        {
            if self.ids[i] == id {
                return true;
            }
            i = i + 1;
        }
        false
    }

    /// Register a new stack and issue its identifier, fresh among all
    /// identifiers this registry has ever issued.
    pub fn register(&mut self) -> (id: u64)
        requires
            old(self).well_formed(),
            old(self).issued() < u64::MAX,
        ensures
            final(self).well_formed(),
            final(self).issued() == old(self).issued() + 1,
            registered(*old(self), *final(self), id),
    {
        let id = self.next_id;
        self.next_id = self.next_id + 1;
        self.ids.push(id);
        id
    }

    /// Deregister a stack. Exactly the live identifiers are accepted; a
    /// missing identifier (a double deregistration, or one never issued)
    /// is a detected protocol violation and leaves the registry unchanged.
    pub fn deregister(&mut self, id: u64) -> (r: Result<(), ProtocolError>)
        requires
            old(self).well_formed(),
        ensures
            final(self).well_formed(),
            final(self).issued() == old(self).issued(),
            match r {
                Ok(()) => deregistered(*old(self), *final(self), id),
                Err(e) => {
                    &&& e == ProtocolError::RootRegistryMismatch
                    &&& !old(self)@.contains(id)
                    &&& final(self)@ == old(self)@
                },
            },
    {
        let ghost pre = self.ids@;
        let ghost pre_next = self.next_id;
        let mut i: usize = 0;
        while i < self.ids.len()
            invariant
                self.ids@ == pre,
                self.next_id == pre_next,
                old(self).ids@ == pre,
                old(self).next_id == pre_next,
                i <= pre.len(),
                forall|j: int| 0 <= j < i ==> pre[j] != id,
                forall|p: int, q: int| 0 <= p < q < pre.len() ==> pre[p] != pre[q],
                forall|p: int| 0 <= p < pre.len() ==> pre[p] < pre_next,
            decreases pre.len() - i,
        {
            if self.ids[i] == id {
                self.ids.remove(i);
                proof {
                    lemma_unique_remove(pre, i as int, id, self.ids@);
                    assert forall|j: int| 0 <= j < self.ids@.len() implies self.ids@[j]
                        < self.next_id by {
                        let k = choose|k: int|
                            0 <= k < pre.len() && pre[k] == self.ids@[j];
                    }
                }
                return Ok(());
            }
            i = i + 1;
        }
        Err(ProtocolError::RootRegistryMismatch)
    }
}

/// The relation a successful registration establishes: the issued
/// identifier was not live before and is appended to the live set.
pub open spec fn registered(pre: RootRegistry, post: RootRegistry, id: u64) -> bool {
    &&& !pre@.contains(id)
    &&& post@ == pre@.push(id)
}

/// The relation a successful deregistration establishes: the identifier
/// was live, exactly one entry is gone, and every other identifier's
/// membership is untouched.
pub open spec fn deregistered(pre: RootRegistry, post: RootRegistry, id: u64) -> bool {
    &&& pre@.contains(id)
    &&& post@.len() + 1 == pre@.len()
    &&& !post@.contains(id)
    &&& forall|x: u64| x != id ==> (post@.contains(x) <==> pre@.contains(x))
}

/// Removing position `i` (holding `id`) from a duplicate-free sequence
/// removes exactly that membership and keeps every other one.
proof fn lemma_unique_remove(pre: Seq<u64>, i: int, id: u64, post: Seq<u64>)
    requires
        0 <= i < pre.len(),
        pre[i] == id,
        forall|p: int, q: int| 0 <= p < q < pre.len() ==> pre[p] != pre[q],
        post == pre.remove(i),
    ensures
        post.len() + 1 == pre.len(),
        !post.contains(id),
        forall|x: u64| x != id ==> (post.contains(x) <==> pre.contains(x)),
        forall|p: int, q: int| 0 <= p < q < post.len() ==> post[p] != post[q],
        forall|j: int| 0 <= j < post.len() ==> pre.contains(post[j]),
    decreases pre.len(),
{
    assert forall|j: int| 0 <= j < post.len() implies pre.contains(post[j]) by {
        if j < i {
            assert(post[j] == pre[j]);
        } else {
            assert(post[j] == pre[j + 1]);
        }
    }
    assert forall|j: int| 0 <= j < post.len() implies post[j] != id by {
        if j < i {
            assert(post[j] == pre[j]);
        } else {
            assert(post[j] == pre[j + 1]);
        }
    }
    assert forall|x: u64| x != id && pre.contains(x) implies post.contains(x) by {
        let j = choose|j: int| 0 <= j < pre.len() && pre[j] == x;
        if j < i {
            assert(post[j] == x);
        } else {
            assert(post[j - 1] == x);
        }
    }
    assert forall|x: u64| x != id && post.contains(x) implies pre.contains(x) by {
        let j = choose|j: int| 0 <= j < post.len() && post[j] == x;
        if j < i {
            assert(pre[j] == x);
        } else {
            assert(pre[j + 1] == x);
        }
    }
    assert forall|p: int, q: int| 0 <= p < q < post.len() implies post[p] != post[q] by {
        let p0: int = if p < i { p } else { p + 1 };
        let q0: int = if q < i { q } else { q + 1 };
        assert(post[p] == pre[p0]);
        assert(post[q] == pre[q0]);
    }
}

/// No leak and no double-remove: whatever happens to a registry between a
/// registration and the matching deregistration, as long as the
/// intervening steps leave the live set alone, the registry afterwards
/// holds exactly the identifiers it held before.
pub proof fn lemma_register_then_deregister_restores(
    r0: RootRegistry,
    r1: RootRegistry,
    r2: RootRegistry,
    id: u64,
)
    requires
        registered(r0, r1, id),
        deregistered(r1, r2, id),
    ensures
        r2@.len() == r0@.len(),
        forall|x: u64| r2@.contains(x) <==> r0@.contains(x),
{
    assert forall|x: u64| r2@.contains(x) implies r0@.contains(x) by {
        assert(x != id);
        assert(r1@.contains(x));
        let j = choose|j: int| 0 <= j < r1@.len() && r1@[j] == x;
        assert(j < r0@.len());
        assert(r0@[j] == x);
    }
    assert forall|x: u64| r0@.contains(x) implies r2@.contains(x) by {
        let j = choose|j: int| 0 <= j < r0@.len() && r0@[j] == x;
        assert(r1@[j] == x);
        assert(x != id);
    }
}

} // verus!
