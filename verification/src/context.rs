//! Per-invocation marshalling state.
//!
//! A [`CallContext`] carries one in-flight export or import invocation
//! across the boundary: an ordered stack of engine-native values
//! (arguments pushed by the caller in parameter order are consumed in
//! reverse; results pushed by the callee are consumed in declared order),
//! a list of deferred raw-buffer deallocations, the resource handles
//! touched during the call, the string buffers retained for the call's
//! duration, and a stack of in-progress list traversals.
//!
//! Every typed pop removes the top stack value and converts it to the
//! requested kind; a value of any other kind is a protocol violation
//! ([`ProtocolError::KindMismatch`]) — the host and the shims are
//! co-generated from the same interface description, so a mismatch is a
//! bridge defect, reported and never guessed around. A failed operation
//! leaves the context exactly as it was.
//!
//! On construction a context registers its stack in the
//! [`RootRegistry`](crate::roots::RootRegistry); [`CallContext::destroy`]
//! deregisters it exactly once and hands back the deferred deallocations
//! for the embedding to perform.

use vstd::prelude::*;

use crate::error::ProtocolError;
use crate::roots::{RootRegistry, registered, deregistered};
use crate::value::{Value, is_markable};

verus! {

/// A raw buffer whose deallocation is deferred to the end of the call, so
/// that it outlives every view lowering code takes into it.
#[derive(Clone, Copy, Debug, PartialEq, Eq, Structural)]
pub struct DeferredFree {
    /// The buffer's address.
    pub addr: usize,
    /// The layout's size in bytes.
    pub size: usize,
    /// The layout's alignment in bytes.
    pub align: usize,
}

/// One in-progress list traversal: the elements not yet handed out, in
/// order.
#[derive(Debug)]
pub struct IterFrame {
    /// The elements still to be consumed.
    pub remaining: Vec<Value>,
}

/// Marshalling state for one in-flight invocation.
#[derive(Debug)]
pub struct CallContext {
    /// This context's identity in the root registry.
    id: u64,
    /// The ordered value stack.
    stack: Vec<Value>,
    /// In-progress nested list traversals, innermost last.
    iters: Vec<IterFrame>,
    /// Buffers to free when the call ends, never earlier.
    deferred: Vec<DeferredFree>,
    /// Strings kept alive for the call's duration on behalf of borrowed
    /// views handed across the boundary.
    strings: Vec<String>,
    /// Borrowed resource handles touched during the call.
    borrows: Vec<u32>,
    /// Owned resource handles touched during the call.
    owns: Vec<u32>,
}

impl CallContext {
    /// The value stack, bottom first.
    pub closed spec fn view(&self) -> Seq<Value> {
        self.stack@
    }

    /// The identity under which this context's stack is registered.
    pub closed spec fn spec_id(&self) -> u64 {
        self.id
    }

    /// The in-progress list traversals, innermost last.
    pub closed spec fn iter_frames(&self) -> Seq<IterFrame> {
        self.iters@
    }

    /// The deferred deallocations recorded so far, in registration order.
    pub closed spec fn deferred_frees(&self) -> Seq<DeferredFree> {
        self.deferred@
    }

    /// The strings retained for the call's duration, in retention order.
    pub closed spec fn retained(&self) -> Seq<String> {
        self.strings@
    }

    /// The borrowed resource handles touched during the call.
    pub closed spec fn borrow_handles(&self) -> Seq<u32> {
        self.borrows@
    }

    /// The owned resource handles touched during the call.
    pub closed spec fn own_handles(&self) -> Seq<u32> {
        self.owns@
    }

    /// Create a context for a new invocation and register its stack as a
    /// GC root. The context is empty in every part.
    pub fn new(reg: &mut RootRegistry) -> (c: CallContext)
        requires
            old(reg).well_formed(),
            old(reg).issued() < u64::MAX,
        ensures
            final(reg).well_formed(),
            final(reg).issued() == old(reg).issued() + 1,
            registered(*old(reg), *final(reg), c.spec_id()),
            c@ == Seq::<Value>::empty(),
            c.iter_frames() == Seq::<IterFrame>::empty(),
            c.deferred_frees() == Seq::<DeferredFree>::empty(),
            c.retained() == Seq::<String>::empty(),
            c.borrow_handles() == Seq::<u32>::empty(),
            c.own_handles() == Seq::<u32>::empty(),
    {
        let id = reg.register();
        CallContext {
            id,
            stack: Vec::new(),
            iters: Vec::new(),
            deferred: Vec::new(),
            strings: Vec::new(),
            borrows: Vec::new(),
            owns: Vec::new(),
        }
    }

    /// End the invocation: deregister the stack from the root registry —
    /// exactly once; a context whose identity is not live in `reg` is a
    /// detected protocol violation — and hand back the deferred
    /// deallocations for the embedding to free, each exactly as recorded.
    pub fn destroy(self, reg: &mut RootRegistry) -> (r: Result<
        Vec<DeferredFree>,
        ProtocolError,
    >)
        requires
            old(reg).well_formed(),
        ensures
            final(reg).well_formed(),
            final(reg).issued() == old(reg).issued(),
            match r {
                Ok(frees) => {
                    &&& deregistered(*old(reg), *final(reg), self.spec_id())
                    &&& frees@ == self.deferred_frees()
                },
                Err(e) => {
                    &&& e == ProtocolError::RootRegistryMismatch
                    &&& !old(reg)@.contains(self.spec_id())
                    &&& final(reg)@ == old(reg)@
                },
            },
    {
        let CallContext { id, deferred, .. } = self;
        match reg.deregister(id) {
            Ok(()) => Ok(deferred),
            Err(e) => Err(e),
        }
    }

    /// How many values stand on the stack.
    pub fn stack_len(&self) -> (n: usize)
        ensures
            n == self@.len(),
    {
        self.stack.len()
    }

    /// The identity under which this context's stack is registered —
    /// for checking a tracer's visit plan against the registry.
    pub fn registry_id(&self) -> (id: u64)
        ensures
            id == self.spec_id(),
    {
        self.id
    }

    /// Remove every value from the stack and hand them back exactly in
    /// the order they were pushed — how an export call's captured
    /// arguments reach the script function in declared order.
    pub fn drain_values(&mut self) -> (r: Vec<Value>)
        ensures
            aux_preserved(*old(self), *final(self)),
            final(self)@ == Seq::<Value>::empty(),
            r@ == old(self)@,
    {
        let n = self.stack.len();
        let r = match self.gather(n) {
            Ok(v) => v,
            Err(_) => {
                proof {
                    assert(false);
                }
                Vec::new()
            },
        };
        proof {
            assert(self@ =~= Seq::<Value>::empty());
            assert(r@ =~= old(self)@);
        }
        r
    }

    /// One stack slot's value, read in place — for the embedding's root
    /// tracer, which visits the slots [`CallContext::markable_slots`]
    /// names.
    pub fn stack_value(&self, i: usize) -> (v: &Value)
        requires
            i < self@.len(),
        ensures
            *v == self@[i as int],
    {
        &self.stack[i]
    }

    /// Record a raw buffer to be freed when the call ends, never earlier.
    pub fn defer_deallocate(&mut self, addr: usize, size: usize, align: usize)
        ensures
            stack_only_preserved(*old(self), *final(self)),
            final(self)@ == old(self)@,
            final(self).deferred_frees() == old(self).deferred_frees().push(
                DeferredFree { addr, size, align },
            ),
    {
        self.deferred.push(DeferredFree { addr, size, align });
    }

    /// Remove and return the top stack value, whatever its kind.
    fn pop_any(&mut self) -> (r: Result<Value, ProtocolError>)
        ensures
            aux_preserved(*old(self), *final(self)),
            match r {
                Ok(v) => {
                    &&& old(self)@.len() > 0
                    &&& v == old(self)@.last()
                    &&& final(self)@ == old(self)@.drop_last()
                },
                Err(e) => {
                    &&& e == ProtocolError::StackUnderflow
                    &&& old(self)@.len() == 0
                    &&& final(self)@ == old(self)@
                },
            },
    {
        match self.stack.pop() {
            Some(v) => Ok(v),
            None => Err(ProtocolError::StackUnderflow),
        }
    }

    /// Put a value back on top (restores the stack after a kind check
    /// failed).
    fn unpop(&mut self, v: Value)
        ensures
            aux_preserved(*old(self), *final(self)),
            final(self)@ == old(self)@.push(v),
    {
        self.stack.push(v);
    }

    /// Remove and hand back the top stack value as it stands, whatever
    /// its kind: for results already in engine representation.
    pub fn pop_value(&mut self) -> (r: Result<Value, ProtocolError>)
        ensures
            aux_preserved(*old(self), *final(self)),
            match r {
                Ok(v) => {
                    &&& old(self)@.len() > 0
                    &&& v == old(self)@.last()
                    &&& final(self)@ == old(self)@.drop_last()
                },
                Err(e) => {
                    &&& e == ProtocolError::StackUnderflow
                    &&& old(self)@.len() == 0
                    &&& final(self)@ == old(self)@
                },
            },
    {
        self.pop_any()
    }

    /// Append an engine value as it stands, without conversion: for
    /// arguments and results that already live in engine representation.
    pub fn push_value(&mut self, v: Value)
        ensures
            aux_preserved(*old(self), *final(self)),
            final(self)@ == old(self)@.push(v),
    {
        self.stack.push(v);
    }

    /// Append an unsigned 32-bit integer in engine representation.
    pub fn push_u32(&mut self, v: u32)
        ensures
            aux_preserved(*old(self), *final(self)),
            final(self)@ == old(self)@.push(Value::U32(v)),
    {
        self.stack.push(Value::U32(v));
    }

    /// Remove the top stack value and convert it to an unsigned 32-bit
    /// integer. Any other kind on top is a protocol violation and leaves
    /// the context unchanged.
    pub fn pop_u32(&mut self) -> (r: Result<u32, ProtocolError>)
        ensures
            aux_preserved(*old(self), *final(self)),
            match r {
                Ok(v) => {
                    &&& old(self)@.len() > 0
                    &&& old(self)@.last() == Value::U32(v)
                    &&& final(self)@ == old(self)@.drop_last()
                },
                Err(e) => pop_failed(*old(self), *final(self), e, |v: Value| v is U32),
            },
    {
        let top = match self.pop_any() {
            Ok(v) => v,
            Err(e) => {
                return Err(e);
            },
        };
        match top {
            Value::U32(v) => Ok(v),
            other => {
                self.unpop(other);
                proof {
                    assert(self@ =~= old(self)@);
                }
                Err(ProtocolError::KindMismatch)
            },
        }
    }

    /// Append a boolean in engine representation.
    pub fn push_bool(&mut self, v: bool)
        ensures
            aux_preserved(*old(self), *final(self)),
            final(self)@ == old(self)@.push(Value::Bool(v)),
    {
        self.stack.push(Value::Bool(v));
    }

    /// Remove the top stack value and convert it to a boolean. Any other
    /// kind on top is a protocol violation and leaves the context
    /// unchanged.
    pub fn pop_bool(&mut self) -> (r: Result<bool, ProtocolError>)
        ensures
            aux_preserved(*old(self), *final(self)),
            match r {
                Ok(v) => {
                    &&& old(self)@.len() > 0
                    &&& old(self)@.last() == Value::Bool(v)
                    &&& final(self)@ == old(self)@.drop_last()
                },
                Err(e) => pop_failed(*old(self), *final(self), e, |v: Value| v is Bool),
            },
    {
        let top = match self.pop_any() {
            Ok(v) => v,
            Err(e) => {
                return Err(e);
            },
        };
        match top {
            Value::Bool(v) => Ok(v),
            other => {
                self.unpop(other);
                proof {
                    assert(self@ =~= old(self)@);
                }
                Err(ProtocolError::KindMismatch)
            },
        }
    }

    /// Append a Unicode scalar value in engine representation.
    pub fn push_char(&mut self, v: char)
        ensures
            aux_preserved(*old(self), *final(self)),
            final(self)@ == old(self)@.push(Value::Char(v)),
    {
        self.stack.push(Value::Char(v));
    }

    /// Remove the top stack value and convert it to a Unicode scalar value. Any other
    /// kind on top is a protocol violation and leaves the context
    /// unchanged.
    pub fn pop_char(&mut self) -> (r: Result<char, ProtocolError>)
        ensures
            aux_preserved(*old(self), *final(self)),
            match r {
                Ok(v) => {
                    &&& old(self)@.len() > 0
                    &&& old(self)@.last() == Value::Char(v)
                    &&& final(self)@ == old(self)@.drop_last()
                },
                Err(e) => pop_failed(*old(self), *final(self), e, |v: Value| v is Char),
            },
    {
        let top = match self.pop_any() {
            Ok(v) => v,
            Err(e) => {
                return Err(e);
            },
        };
        match top {
            Value::Char(v) => Ok(v),
            other => {
                self.unpop(other);
                proof {
                    assert(self@ =~= old(self)@);
                }
                Err(ProtocolError::KindMismatch)
            },
        }
    }

    /// Append a unsigned 8-bit integer in engine representation.
    pub fn push_u8(&mut self, v: u8)
        ensures
            aux_preserved(*old(self), *final(self)),
            final(self)@ == old(self)@.push(Value::U8(v)),
    {
        self.stack.push(Value::U8(v));
    }

    /// Remove the top stack value and convert it to a unsigned 8-bit integer. Any other
    /// kind on top is a protocol violation and leaves the context
    /// unchanged.
    pub fn pop_u8(&mut self) -> (r: Result<u8, ProtocolError>)
        ensures
            aux_preserved(*old(self), *final(self)),
            match r {
                Ok(v) => {
                    &&& old(self)@.len() > 0
                    &&& old(self)@.last() == Value::U8(v)
                    &&& final(self)@ == old(self)@.drop_last()
                },
                Err(e) => pop_failed(*old(self), *final(self), e, |v: Value| v is U8),
            },
    {
        let top = match self.pop_any() {
            Ok(v) => v,
            Err(e) => {
                return Err(e);
            },
        };
        match top {
            Value::U8(v) => Ok(v),
            other => {
                self.unpop(other);
                proof {
                    assert(self@ =~= old(self)@);
                }
                Err(ProtocolError::KindMismatch)
            },
        }
    }

    /// Append a signed 8-bit integer in engine representation.
    pub fn push_s8(&mut self, v: i8)
        ensures
            aux_preserved(*old(self), *final(self)),
            final(self)@ == old(self)@.push(Value::S8(v)),
    {
        self.stack.push(Value::S8(v));
    }

    /// Remove the top stack value and convert it to a signed 8-bit integer. Any other
    /// kind on top is a protocol violation and leaves the context
    /// unchanged.
    pub fn pop_s8(&mut self) -> (r: Result<i8, ProtocolError>)
        ensures
            aux_preserved(*old(self), *final(self)),
            match r {
                Ok(v) => {
                    &&& old(self)@.len() > 0
                    &&& old(self)@.last() == Value::S8(v)
                    &&& final(self)@ == old(self)@.drop_last()
                },
                Err(e) => pop_failed(*old(self), *final(self), e, |v: Value| v is S8),
            },
    {
        let top = match self.pop_any() {
            Ok(v) => v,
            Err(e) => {
                return Err(e);
            },
        };
        match top {
            Value::S8(v) => Ok(v),
            other => {
                self.unpop(other);
                proof {
                    assert(self@ =~= old(self)@);
                }
                Err(ProtocolError::KindMismatch)
            },
        }
    }

    /// Append a unsigned 16-bit integer in engine representation.
    pub fn push_u16(&mut self, v: u16)
        ensures
            aux_preserved(*old(self), *final(self)),
            final(self)@ == old(self)@.push(Value::U16(v)),
    {
        self.stack.push(Value::U16(v));
    }

    /// Remove the top stack value and convert it to a unsigned 16-bit integer. Any other
    /// kind on top is a protocol violation and leaves the context
    /// unchanged.
    pub fn pop_u16(&mut self) -> (r: Result<u16, ProtocolError>)
        ensures
            aux_preserved(*old(self), *final(self)),
            match r {
                Ok(v) => {
                    &&& old(self)@.len() > 0
                    &&& old(self)@.last() == Value::U16(v)
                    &&& final(self)@ == old(self)@.drop_last()
                },
                Err(e) => pop_failed(*old(self), *final(self), e, |v: Value| v is U16),
            },
    {
        let top = match self.pop_any() {
            Ok(v) => v,
            Err(e) => {
                return Err(e);
            },
        };
        match top {
            Value::U16(v) => Ok(v),
            other => {
                self.unpop(other);
                proof {
                    assert(self@ =~= old(self)@);
                }
                Err(ProtocolError::KindMismatch)
            },
        }
    }

    /// Append a signed 16-bit integer in engine representation.
    pub fn push_s16(&mut self, v: i16)
        ensures
            aux_preserved(*old(self), *final(self)),
            final(self)@ == old(self)@.push(Value::S16(v)),
    {
        self.stack.push(Value::S16(v));
    }

    /// Remove the top stack value and convert it to a signed 16-bit integer. Any other
    /// kind on top is a protocol violation and leaves the context
    /// unchanged.
    pub fn pop_s16(&mut self) -> (r: Result<i16, ProtocolError>)
        ensures
            aux_preserved(*old(self), *final(self)),
            match r {
                Ok(v) => {
                    &&& old(self)@.len() > 0
                    &&& old(self)@.last() == Value::S16(v)
                    &&& final(self)@ == old(self)@.drop_last()
                },
                Err(e) => pop_failed(*old(self), *final(self), e, |v: Value| v is S16),
            },
    {
        let top = match self.pop_any() {
            Ok(v) => v,
            Err(e) => {
                return Err(e);
            },
        };
        match top {
            Value::S16(v) => Ok(v),
            other => {
                self.unpop(other);
                proof {
                    assert(self@ =~= old(self)@);
                }
                Err(ProtocolError::KindMismatch)
            },
        }
    }

    /// Append a signed 32-bit integer in engine representation.
    pub fn push_s32(&mut self, v: i32)
        ensures
            aux_preserved(*old(self), *final(self)),
            final(self)@ == old(self)@.push(Value::S32(v)),
    {
        self.stack.push(Value::S32(v));
    }

    /// Remove the top stack value and convert it to a signed 32-bit integer. Any other
    /// kind on top is a protocol violation and leaves the context
    /// unchanged.
    pub fn pop_s32(&mut self) -> (r: Result<i32, ProtocolError>)
        ensures
            aux_preserved(*old(self), *final(self)),
            match r {
                Ok(v) => {
                    &&& old(self)@.len() > 0
                    &&& old(self)@.last() == Value::S32(v)
                    &&& final(self)@ == old(self)@.drop_last()
                },
                Err(e) => pop_failed(*old(self), *final(self), e, |v: Value| v is S32),
            },
    {
        let top = match self.pop_any() {
            Ok(v) => v,
            Err(e) => {
                return Err(e);
            },
        };
        match top {
            Value::S32(v) => Ok(v),
            other => {
                self.unpop(other);
                proof {
                    assert(self@ =~= old(self)@);
                }
                Err(ProtocolError::KindMismatch)
            },
        }
    }

    /// Append a unsigned 64-bit integer in engine representation.
    pub fn push_u64(&mut self, v: u64)
        ensures
            aux_preserved(*old(self), *final(self)),
            final(self)@ == old(self)@.push(Value::U64(v)),
    {
        self.stack.push(Value::U64(v));
    }

    /// Remove the top stack value and convert it to a unsigned 64-bit integer. Any other
    /// kind on top is a protocol violation and leaves the context
    /// unchanged.
    pub fn pop_u64(&mut self) -> (r: Result<u64, ProtocolError>)
        ensures
            aux_preserved(*old(self), *final(self)),
            match r {
                Ok(v) => {
                    &&& old(self)@.len() > 0
                    &&& old(self)@.last() == Value::U64(v)
                    &&& final(self)@ == old(self)@.drop_last()
                },
                Err(e) => pop_failed(*old(self), *final(self), e, |v: Value| v is U64),
            },
    {
        let top = match self.pop_any() {
            Ok(v) => v,
            Err(e) => {
                return Err(e);
            },
        };
        match top {
            Value::U64(v) => Ok(v),
            other => {
                self.unpop(other);
                proof {
                    assert(self@ =~= old(self)@);
                }
                Err(ProtocolError::KindMismatch)
            },
        }
    }

    /// Append a signed 64-bit integer in engine representation.
    pub fn push_s64(&mut self, v: i64)
        ensures
            aux_preserved(*old(self), *final(self)),
            final(self)@ == old(self)@.push(Value::S64(v)),
    {
        self.stack.push(Value::S64(v));
    }

    /// Remove the top stack value and convert it to a signed 64-bit integer. Any other
    /// kind on top is a protocol violation and leaves the context
    /// unchanged.
    pub fn pop_s64(&mut self) -> (r: Result<i64, ProtocolError>)
        ensures
            aux_preserved(*old(self), *final(self)),
            match r {
                Ok(v) => {
                    &&& old(self)@.len() > 0
                    &&& old(self)@.last() == Value::S64(v)
                    &&& final(self)@ == old(self)@.drop_last()
                },
                Err(e) => pop_failed(*old(self), *final(self), e, |v: Value| v is S64),
            },
    {
        let top = match self.pop_any() {
            Ok(v) => v,
            Err(e) => {
                return Err(e);
            },
        };
        match top {
            Value::S64(v) => Ok(v),
            other => {
                self.unpop(other);
                proof {
                    assert(self@ =~= old(self)@);
                }
                Err(ProtocolError::KindMismatch)
            },
        }
    }

    /// Append a 32-bit float bit pattern in engine representation.
    pub fn push_f32_bits(&mut self, v: u32)
        ensures
            aux_preserved(*old(self), *final(self)),
            final(self)@ == old(self)@.push(Value::F32Bits(v)),
    {
        self.stack.push(Value::F32Bits(v));
    }

    /// Remove the top stack value and convert it to a 32-bit float bit pattern. Any other
    /// kind on top is a protocol violation and leaves the context
    /// unchanged.
    pub fn pop_f32_bits(&mut self) -> (r: Result<u32, ProtocolError>)
        ensures
            aux_preserved(*old(self), *final(self)),
            match r {
                Ok(v) => {
                    &&& old(self)@.len() > 0
                    &&& old(self)@.last() == Value::F32Bits(v)
                    &&& final(self)@ == old(self)@.drop_last()
                },
                Err(e) => pop_failed(*old(self), *final(self), e, |v: Value| v is F32Bits),
            },
    {
        let top = match self.pop_any() {
            Ok(v) => v,
            Err(e) => {
                return Err(e);
            },
        };
        match top {
            Value::F32Bits(v) => Ok(v),
            other => {
                self.unpop(other);
                proof {
                    assert(self@ =~= old(self)@);
                }
                Err(ProtocolError::KindMismatch)
            },
        }
    }

    /// Append a 64-bit float bit pattern in engine representation.
    pub fn push_f64_bits(&mut self, v: u64)
        ensures
            aux_preserved(*old(self), *final(self)),
            final(self)@ == old(self)@.push(Value::F64Bits(v)),
    {
        self.stack.push(Value::F64Bits(v));
    }

    /// Remove the top stack value and convert it to a 64-bit float bit pattern. Any other
    /// kind on top is a protocol violation and leaves the context
    /// unchanged.
    pub fn pop_f64_bits(&mut self) -> (r: Result<u64, ProtocolError>)
        ensures
            aux_preserved(*old(self), *final(self)),
            match r {
                Ok(v) => {
                    &&& old(self)@.len() > 0
                    &&& old(self)@.last() == Value::F64Bits(v)
                    &&& final(self)@ == old(self)@.drop_last()
                },
                Err(e) => pop_failed(*old(self), *final(self), e, |v: Value| v is F64Bits),
            },
    {
        let top = match self.pop_any() {
            Ok(v) => v,
            Err(e) => {
                return Err(e);
            },
        };
        match top {
            Value::F64Bits(v) => Ok(v),
            other => {
                self.unpop(other);
                proof {
                    assert(self@ =~= old(self)@);
                }
                Err(ProtocolError::KindMismatch)
            },
        }
    }

    /// Append a enumeration case discriminant in engine representation.
    pub fn push_enum_discriminant(&mut self, v: u32)
        ensures
            aux_preserved(*old(self), *final(self)),
            final(self)@ == old(self)@.push(Value::EnumVal(v)),
    {
        self.stack.push(Value::EnumVal(v));
    }

    /// Remove the top stack value and convert it to a enumeration case discriminant. Any other
    /// kind on top is a protocol violation and leaves the context
    /// unchanged.
    pub fn pop_enum_discriminant(&mut self) -> (r: Result<u32, ProtocolError>)
        ensures
            aux_preserved(*old(self), *final(self)),
            match r {
                Ok(v) => {
                    &&& old(self)@.len() > 0
                    &&& old(self)@.last() == Value::EnumVal(v)
                    &&& final(self)@ == old(self)@.drop_last()
                },
                Err(e) => pop_failed(*old(self), *final(self), e, |v: Value| v is EnumVal),
            },
    {
        let top = match self.pop_any() {
            Ok(v) => v,
            Err(e) => {
                return Err(e);
            },
        };
        match top {
            Value::EnumVal(v) => Ok(v),
            other => {
                self.unpop(other);
                proof {
                    assert(self@ =~= old(self)@);
                }
                Err(ProtocolError::KindMismatch)
            },
        }
    }

    /// Append a flags value in engine representation.
    pub fn push_flags(&mut self, v: u32)
        ensures
            aux_preserved(*old(self), *final(self)),
            final(self)@ == old(self)@.push(Value::FlagsVal(v)),
    {
        self.stack.push(Value::FlagsVal(v));
    }

    /// Remove the top stack value and convert it to a flags value. Any other
    /// kind on top is a protocol violation and leaves the context
    /// unchanged.
    pub fn pop_flags(&mut self) -> (r: Result<u32, ProtocolError>)
        ensures
            aux_preserved(*old(self), *final(self)),
            match r {
                Ok(v) => {
                    &&& old(self)@.len() > 0
                    &&& old(self)@.last() == Value::FlagsVal(v)
                    &&& final(self)@ == old(self)@.drop_last()
                },
                Err(e) => pop_failed(*old(self), *final(self), e, |v: Value| v is FlagsVal),
            },
    {
        let top = match self.pop_any() {
            Ok(v) => v,
            Err(e) => {
                return Err(e);
            },
        };
        match top {
            Value::FlagsVal(v) => Ok(v),
            other => {
                self.unpop(other);
                proof {
                    assert(self@ =~= old(self)@);
                }
                Err(ProtocolError::KindMismatch)
            },
        }
    }

    /// Append a future handle in engine representation.
    pub fn push_future(&mut self, v: u32)
        ensures
            aux_preserved(*old(self), *final(self)),
            final(self)@ == old(self)@.push(Value::FutureVal(v)),
    {
        self.stack.push(Value::FutureVal(v));
    }

    /// Remove the top stack value and convert it to a future handle. Any other
    /// kind on top is a protocol violation and leaves the context
    /// unchanged.
    pub fn pop_future(&mut self) -> (r: Result<u32, ProtocolError>)
        ensures
            aux_preserved(*old(self), *final(self)),
            match r {
                Ok(v) => {
                    &&& old(self)@.len() > 0
                    &&& old(self)@.last() == Value::FutureVal(v)
                    &&& final(self)@ == old(self)@.drop_last()
                },
                Err(e) => pop_failed(*old(self), *final(self), e, |v: Value| v is FutureVal),
            },
    {
        let top = match self.pop_any() {
            Ok(v) => v,
            Err(e) => {
                return Err(e);
            },
        };
        match top {
            Value::FutureVal(v) => Ok(v),
            other => {
                self.unpop(other);
                proof {
                    assert(self@ =~= old(self)@);
                }
                Err(ProtocolError::KindMismatch)
            },
        }
    }

    /// Append a stream handle in engine representation.
    pub fn push_stream(&mut self, v: u32)
        ensures
            aux_preserved(*old(self), *final(self)),
            final(self)@ == old(self)@.push(Value::StreamVal(v)),
    {
        self.stack.push(Value::StreamVal(v));
    }

    /// Remove the top stack value and convert it to a stream handle. Any other
    /// kind on top is a protocol violation and leaves the context
    /// unchanged.
    pub fn pop_stream(&mut self) -> (r: Result<u32, ProtocolError>)
        ensures
            aux_preserved(*old(self), *final(self)),
            match r {
                Ok(v) => {
                    &&& old(self)@.len() > 0
                    &&& old(self)@.last() == Value::StreamVal(v)
                    &&& final(self)@ == old(self)@.drop_last()
                },
                Err(e) => pop_failed(*old(self), *final(self), e, |v: Value| v is StreamVal),
            },
    {
        let top = match self.pop_any() {
            Ok(v) => v,
            Err(e) => {
                return Err(e);
            },
        };
        match top {
            Value::StreamVal(v) => Ok(v),
            other => {
                self.unpop(other);
                proof {
                    assert(self@ =~= old(self)@);
                }
                Err(ProtocolError::KindMismatch)
            },
        }
    }

    /// Append a string in engine representation.
    pub fn push_string(&mut self, v: String)
        ensures
            aux_preserved(*old(self), *final(self)),
            final(self)@ == old(self)@.push(Value::Text(v)),
    {
        self.stack.push(Value::Text(v));
    }

    /// Remove the top stack value, a string, and retain it for the call's
    /// duration, so that borrowed views of its bytes stay alive until the
    /// context is destroyed. Returns the retained string's index.
    pub fn pop_string(&mut self) -> (r: Result<usize, ProtocolError>)
        ensures
            final(self).spec_id() == old(self).spec_id(),
            final(self).iter_frames() == old(self).iter_frames(),
            final(self).deferred_frees() == old(self).deferred_frees(),
            final(self).borrow_handles() == old(self).borrow_handles(),
            final(self).own_handles() == old(self).own_handles(),
            match r {
                Ok(ix) => {
                    &&& old(self)@.len() > 0
                    &&& old(self)@.last() matches Value::Text(t)
                        && final(self).retained() == old(self).retained().push(t)
                    &&& ix == old(self).retained().len()
                    &&& final(self)@ == old(self)@.drop_last()
                },
                Err(e) => {
                    &&& final(self).retained() == old(self).retained()
                    &&& pop_failed(*old(self), *final(self), e, |v: Value| v is Text)
                },
            },
    {
        let top = match self.pop_any() {
            Ok(v) => v,
            Err(e) => {
                return Err(e);
            },
        };
        match top {
            Value::Text(t) => {
                let ix = self.strings.len();
                self.strings.push(t);
                Ok(ix)
            },
            other => {
                self.unpop(other);
                proof {
                    assert(self@ =~= old(self)@);
                }
                Err(ProtocolError::KindMismatch)
            },
        }
    }

    /// A string retained by an earlier [`CallContext::pop_string`].
    pub fn retained_string(&self, ix: usize) -> (s: &String)
        requires
            ix < self.retained().len(),
        ensures
            s == self.retained()[ix as int],
    {
        &self.strings[ix]
    }

    /// Append a borrowed resource handle in engine representation.
    pub fn push_borrow(&mut self, handle: u32)
        ensures
            aux_preserved(*old(self), *final(self)),
            final(self)@ == old(self)@.push(Value::Borrowed(handle)),
    {
        self.stack.push(Value::Borrowed(handle));
    }

    /// Remove the top stack value, a borrowed resource handle, recording
    /// it among the borrows touched during the call.
    pub fn pop_borrow(&mut self) -> (r: Result<u32, ProtocolError>)
        ensures
            final(self).spec_id() == old(self).spec_id(),
            final(self).iter_frames() == old(self).iter_frames(),
            final(self).deferred_frees() == old(self).deferred_frees(),
            final(self).retained() == old(self).retained(),
            final(self).own_handles() == old(self).own_handles(),
            match r {
                Ok(h) => {
                    &&& old(self)@.len() > 0
                    &&& old(self)@.last() == Value::Borrowed(h)
                    &&& final(self)@ == old(self)@.drop_last()
                    &&& final(self).borrow_handles() == old(self).borrow_handles().push(h)
                },
                Err(e) => {
                    &&& final(self).borrow_handles() == old(self).borrow_handles()
                    &&& pop_failed(*old(self), *final(self), e, |v: Value| v is Borrowed)
                },
            },
    {
        let top = match self.pop_any() {
            Ok(v) => v,
            Err(e) => {
                return Err(e);
            },
        };
        match top {
            Value::Borrowed(h) => {
                self.borrows.push(h);
                Ok(h)
            },
            other => {
                self.unpop(other);
                proof {
                    assert(self@ =~= old(self)@);
                }
                Err(ProtocolError::KindMismatch)
            },
        }
    }

    /// Append an owned resource handle in engine representation.
    pub fn push_own(&mut self, handle: u32)
        ensures
            aux_preserved(*old(self), *final(self)),
            final(self)@ == old(self)@.push(Value::Owned(handle)),
    {
        self.stack.push(Value::Owned(handle));
    }

    /// Remove the top stack value, an owned resource handle, recording it
    /// among the owned handles touched during the call.
    pub fn pop_own(&mut self) -> (r: Result<u32, ProtocolError>)
        ensures
            final(self).spec_id() == old(self).spec_id(),
            final(self).iter_frames() == old(self).iter_frames(),
            final(self).deferred_frees() == old(self).deferred_frees(),
            final(self).retained() == old(self).retained(),
            final(self).borrow_handles() == old(self).borrow_handles(),
            match r {
                Ok(h) => {
                    &&& old(self)@.len() > 0
                    &&& old(self)@.last() == Value::Owned(h)
                    &&& final(self)@ == old(self)@.drop_last()
                    &&& final(self).own_handles() == old(self).own_handles().push(h)
                },
                Err(e) => {
                    &&& final(self).own_handles() == old(self).own_handles()
                    &&& pop_failed(*old(self), *final(self), e, |v: Value| v is Owned)
                },
            },
    {
        let top = match self.pop_any() {
            Ok(v) => v,
            Err(e) => {
                return Err(e);
            },
        };
        match top {
            Value::Owned(h) => {
                self.owns.push(h);
                Ok(h)
            },
            other => {
                self.unpop(other);
                proof {
                    assert(self@ =~= old(self)@);
                }
                Err(ProtocolError::KindMismatch)
            },
        }
    }

    /// Append a variant value with the given case discriminant. If the
    /// case carries a payload, the payload is taken from the top of the
    /// stack; with an empty stack that is a protocol violation.
    pub fn push_variant(&mut self, discriminant: u32, has_payload: bool) -> (r: Result<
        (),
        ProtocolError,
    >)
        ensures
            aux_preserved(*old(self), *final(self)),
            match r {
                Ok(()) => if has_payload {
                    &&& old(self)@.len() > 0
                    &&& final(self)@.len() == old(self)@.len()
                    &&& final(self)@.drop_last() == old(self)@.drop_last()
                    &&& (final(self)@.last() matches Value::Variant { discriminant: d, payload }
                        && d == discriminant
                        && (payload matches Some(p) && *p == old(self)@.last()))
                } else {
                    &&& final(self)@.len() == old(self)@.len() + 1
                    &&& final(self)@.drop_last() == old(self)@
                    &&& (final(self)@.last() matches Value::Variant { discriminant: d, payload }
                        && d == discriminant && payload is None)
                },
                Err(e) => {
                    &&& e == ProtocolError::StackUnderflow
                    &&& has_payload
                    &&& old(self)@.len() == 0
                    &&& final(self)@ == old(self)@
                },
            },
    {
        if has_payload {
            let v = match self.pop_any() {
                Ok(v) => v,
                Err(e) => {
                    return Err(e);
                },
            };
            self.stack.push(Value::Variant { discriminant, payload: Some(Box::new(v)) });
        } else {
            self.stack.push(Value::Variant { discriminant, payload: None });
        }
        Ok(())
    }

    /// Remove the top stack value, a variant; its payload, if the case
    /// carries one, is left on top of the stack in its place. Returns the
    /// case discriminant.
    pub fn pop_variant(&mut self) -> (r: Result<u32, ProtocolError>)
        ensures
            aux_preserved(*old(self), *final(self)),
            match r {
                Ok(d) => {
                    &&& old(self)@.len() > 0
                    &&& (old(self)@.last() matches Value::Variant { discriminant, payload }
                        && d == discriminant
                        && (payload matches Some(p) ==> final(self)@ == old(self)@.drop_last().push(
                            *p,
                        ))
                        && (payload is None ==> final(self)@ == old(self)@.drop_last()))
                },
                Err(e) => pop_failed(
                    *old(self),
                    *final(self),
                    e,
                    |v: Value| v matches Value::Variant { .. },
                ),
            },
    {
        let top = match self.pop_any() {
            Ok(v) => v,
            Err(e) => {
                return Err(e);
            },
        };
        match top {
            Value::Variant { discriminant, payload } => {
                match payload {
                    Some(b) => {
                        self.stack.push(*b);
                    },
                    None => {},
                }
                Ok(discriminant)
            },
            other => {
                self.unpop(other);
                proof {
                    assert(self@ =~= old(self)@);
                }
                Err(ProtocolError::KindMismatch)
            },
        }
    }

    /// Append an option value. For the some case the payload is taken
    /// from the top of the stack; with an empty stack that is a protocol
    /// violation.
    pub fn push_option(&mut self, is_some: bool) -> (r: Result<(), ProtocolError>)
        ensures
            aux_preserved(*old(self), *final(self)),
            match r {
                Ok(()) => if is_some {
                    &&& old(self)@.len() > 0
                    &&& final(self)@.len() == old(self)@.len()
                    &&& final(self)@.drop_last() == old(self)@.drop_last()
                    &&& (final(self)@.last() matches Value::OptionVal(Some(p))
                        && *p == old(self)@.last())
                } else {
                    &&& final(self)@ == old(self)@.push(Value::OptionVal(None))
                },
                Err(e) => {
                    &&& e == ProtocolError::StackUnderflow
                    &&& is_some
                    &&& old(self)@.len() == 0
                    &&& final(self)@ == old(self)@
                },
            },
    {
        if is_some {
            let v = match self.pop_any() {
                Ok(v) => v,
                Err(e) => {
                    return Err(e);
                },
            };
            self.stack.push(Value::OptionVal(Some(Box::new(v))));
        } else {
            self.stack.push(Value::OptionVal(None));
        }
        Ok(())
    }

    /// Remove the top stack value, an option; a some payload is left on
    /// top of the stack in its place. Returns the case discriminant: 1
    /// for some, 0 for none.
    pub fn pop_option(&mut self) -> (r: Result<u32, ProtocolError>)
        ensures
            aux_preserved(*old(self), *final(self)),
            match r {
                Ok(d) => {
                    &&& old(self)@.len() > 0
                    &&& (old(self)@.last() matches Value::OptionVal(payload)
                        && (payload matches Some(p) ==> d == 1 && final(self)@ == old(
                            self,
                        )@.drop_last().push(*p))
                        && (payload is None ==> d == 0 && final(self)@ == old(
                            self,
                        )@.drop_last()))
                },
                Err(e) => pop_failed(
                    *old(self),
                    *final(self),
                    e,
                    |v: Value| v matches Value::OptionVal(_),
                ),
            },
    {
        let top = match self.pop_any() {
            Ok(v) => v,
            Err(e) => {
                return Err(e);
            },
        };
        match top {
            Value::OptionVal(Some(b)) => {
                self.stack.push(*b);
                Ok(1)
            },
            Value::OptionVal(None) => Ok(0),
            other => {
                self.unpop(other);
                proof {
                    assert(self@ =~= old(self)@);
                }
                Err(ProtocolError::KindMismatch)
            },
        }
    }

    /// Append a result value. If the carried type is not empty the
    /// payload is taken from the top of the stack; with an empty stack
    /// that is a protocol violation.
    pub fn push_result(&mut self, is_err: bool, has_payload: bool) -> (r: Result<
        (),
        ProtocolError,
    >)
        ensures
            aux_preserved(*old(self), *final(self)),
            match r {
                Ok(()) => if has_payload {
                    &&& old(self)@.len() > 0
                    &&& final(self)@.len() == old(self)@.len()
                    &&& final(self)@.drop_last() == old(self)@.drop_last()
                    &&& (final(self)@.last() matches Value::ResultVal { is_err: b, payload }
                        && b == is_err && (payload matches Some(p) && *p == old(self)@.last()))
                } else {
                    &&& final(self)@.len() == old(self)@.len() + 1
                    &&& final(self)@.drop_last() == old(self)@
                    &&& (final(self)@.last() matches Value::ResultVal { is_err: b, payload }
                        && b == is_err && payload is None)
                },
                Err(e) => {
                    &&& e == ProtocolError::StackUnderflow
                    &&& has_payload
                    &&& old(self)@.len() == 0
                    &&& final(self)@ == old(self)@
                },
            },
    {
        if has_payload {
            let v = match self.pop_any() {
                Ok(v) => v,
                Err(e) => {
                    return Err(e);
                },
            };
            self.stack.push(Value::ResultVal { is_err, payload: Some(Box::new(v)) });
        } else {
            self.stack.push(Value::ResultVal { is_err, payload: None });
        }
        Ok(())
    }

    /// Remove the top stack value, a result; its payload, if present, is
    /// left on top of the stack in its place. Returns the case
    /// discriminant: 1 for the error case, 0 for the ok case.
    pub fn pop_result(&mut self) -> (r: Result<u32, ProtocolError>)
        ensures
            aux_preserved(*old(self), *final(self)),
            match r {
                Ok(d) => {
                    &&& old(self)@.len() > 0
                    &&& (old(self)@.last() matches Value::ResultVal { is_err, payload }
                        && d == (if is_err { 1u32 } else { 0u32 })
                        && (payload matches Some(p) ==> final(self)@ == old(self)@.drop_last().push(
                            *p,
                        ))
                        && (payload is None ==> final(self)@ == old(self)@.drop_last()))
                },
                Err(e) => pop_failed(
                    *old(self),
                    *final(self),
                    e,
                    |v: Value| v matches Value::ResultVal { .. },
                ),
            },
    {
        let top = match self.pop_any() {
            Ok(v) => v,
            Err(e) => {
                return Err(e);
            },
        };
        match top {
            Value::ResultVal { is_err, payload } => {
                match payload {
                    Some(b) => {
                        self.stack.push(*b);
                    },
                    None => {},
                }
                Ok(if is_err {
                    1
                } else {
                    0
                })
            },
            other => {
                self.unpop(other);
                proof {
                    assert(self@ =~= old(self)@);
                }
                Err(ProtocolError::KindMismatch)
            },
        }
    }

    /// Bundle the top `n` stack values into a record whose fields, in
    /// declared order, are the values in the order they were pushed. The
    /// record replaces them on top of the stack.
    pub fn push_record(&mut self, n: usize) -> (r: Result<(), ProtocolError>)
        ensures
            aux_preserved(*old(self), *final(self)),
            match r {
                Ok(()) => {
                    &&& old(self)@.len() >= n
                    &&& final(self)@.len() == old(self)@.len() - n + 1
                    &&& final(self)@.drop_last() == old(self)@.take(old(self)@.len() - n)
                    &&& (final(self)@.last() matches Value::Record(f) && f@ == old(
                        self,
                    )@.subrange(old(self)@.len() - n, old(self)@.len() as int))
                },
                Err(e) => {
                    &&& e == ProtocolError::StackUnderflow
                    &&& old(self)@.len() < n
                    &&& final(self)@ == old(self)@
                },
            },
    {
        let fields = match self.gather(n) {
            Ok(f) => f,
            Err(e) => {
                return Err(e);
            },
        };
        self.stack.push(Value::Record(fields));
        Ok(())
    }

    /// Remove the top stack value, a record, leaving its fields on the
    /// stack in their place so that successive pops yield them in
    /// declared order. Returns the field count.
    pub fn pop_record(&mut self) -> (r: Result<usize, ProtocolError>)
        ensures
            aux_preserved(*old(self), *final(self)),
            match r {
                Ok(n) => {
                    &&& old(self)@.len() > 0
                    &&& (old(self)@.last() matches Value::Record(f) && n == f@.len()
                        && final(self)@ == old(self)@.drop_last() + f@.reverse())
                },
                Err(e) => pop_failed(
                    *old(self),
                    *final(self),
                    e,
                    |v: Value| v matches Value::Record(_),
                ),
            },
    {
        let top = match self.pop_any() {
            Ok(v) => v,
            Err(e) => {
                return Err(e);
            },
        };
        match top {
            Value::Record(f) => Ok(self.spread(f)),
            other => {
                self.unpop(other);
                proof {
                    assert(self@ =~= old(self)@);
                }
                Err(ProtocolError::KindMismatch)
            },
        }
    }

    /// Bundle the top `n` stack values into a tuple whose members, in
    /// declared order, are the values in the order they were pushed. The
    /// tuple replaces them on top of the stack.
    pub fn push_tuple(&mut self, n: usize) -> (r: Result<(), ProtocolError>)
        ensures
            aux_preserved(*old(self), *final(self)),
            match r {
                Ok(()) => {
                    &&& old(self)@.len() >= n
                    &&& final(self)@.len() == old(self)@.len() - n + 1
                    &&& final(self)@.drop_last() == old(self)@.take(old(self)@.len() - n)
                    &&& (final(self)@.last() matches Value::Tuple(f) && f@ == old(
                        self,
                    )@.subrange(old(self)@.len() - n, old(self)@.len() as int))
                },
                Err(e) => {
                    &&& e == ProtocolError::StackUnderflow
                    &&& old(self)@.len() < n
                    &&& final(self)@ == old(self)@
                },
            },
    {
        let fields = match self.gather(n) {
            Ok(f) => f,
            Err(e) => {
                return Err(e);
            },
        };
        self.stack.push(Value::Tuple(fields));
        Ok(())
    }

    /// Remove the top stack value, a tuple, leaving its members on the
    /// stack in their place so that successive pops yield them in
    /// declared order. Returns the member count.
    pub fn pop_tuple(&mut self) -> (r: Result<usize, ProtocolError>)
        ensures
            aux_preserved(*old(self), *final(self)),
            match r {
                Ok(n) => {
                    &&& old(self)@.len() > 0
                    &&& (old(self)@.last() matches Value::Tuple(f) && n == f@.len()
                        && final(self)@ == old(self)@.drop_last() + f@.reverse())
                },
                Err(e) => pop_failed(
                    *old(self),
                    *final(self),
                    e,
                    |v: Value| v matches Value::Tuple(_),
                ),
            },
    {
        let top = match self.pop_any() {
            Ok(v) => v,
            Err(e) => {
                return Err(e);
            },
        };
        match top {
            Value::Tuple(f) => Ok(self.spread(f)),
            other => {
                self.unpop(other);
                proof {
                    assert(self@ =~= old(self)@);
                }
                Err(ProtocolError::KindMismatch)
            },
        }
    }

    /// Pop the top `n` values into a vector holding them in the order
    /// they were pushed (bottom of the popped run first).
    fn gather(&mut self, n: usize) -> (r: Result<Vec<Value>, ProtocolError>)
        ensures
            aux_preserved(*old(self), *final(self)),
            match r {
                Ok(f) => {
                    &&& old(self)@.len() >= n
                    &&& final(self)@ == old(self)@.take(old(self)@.len() - n)
                    &&& f@ == old(self)@.subrange(old(self)@.len() - n, old(self)@.len() as int)
                },
                Err(e) => {
                    &&& e == ProtocolError::StackUnderflow
                    &&& old(self)@.len() < n
                    &&& final(self)@ == old(self)@
                },
            },
    {
        if self.stack.len() < n {
            return Err(ProtocolError::StackUnderflow);
        }
        let ghost pre = self.stack@;
        let mut fields: Vec<Value> = Vec::new();
        let mut i: usize = 0;
        while i < n
            invariant
                aux_preserved(*old(self), *self),
                old(self)@ == pre,
                i <= n <= pre.len(),
                self.stack@ == pre.take(pre.len() - i),
                fields@ == pre.subrange(pre.len() - i, pre.len() as int),
            decreases n - i,
        {
            let v = match self.stack.pop() {
                Some(v) => v,
                None => {
                    proof {
                        assert(false);
                    }
                    return Err(ProtocolError::StackUnderflow);
                },
            };
            fields.insert(0, v);
            i = i + 1;
            proof {
                assert(self.stack@ =~= pre.take(pre.len() - i));
                assert(fields@ =~= pre.subrange(pre.len() - i, pre.len() as int));
            }
        }
        Ok(fields)
    }

    /// Push the elements of `f` in reverse, so that successive pops
    /// yield them front first. Returns the element count.
    fn spread(&mut self, f: Vec<Value>) -> (n: usize)
        ensures
            aux_preserved(*old(self), *final(self)),
            n == f@.len(),
            final(self)@ == old(self)@ + f@.reverse(),
    {
        let ghost orig = f@;
        let ghost base = self.stack@;
        let n = f.len();
        let mut rest = f;
        proof {
            assert(rest@ =~= orig.take(rest@.len() as int));
            assert(self.stack@ =~= base + orig.skip(rest@.len() as int).reverse());
        }
        while rest.len() > 0
            invariant
                aux_preserved(*old(self), *self),
                old(self)@ == base,
                rest@.len() <= orig.len(),
                rest@ == orig.take(rest@.len() as int),
                self.stack@ == base + orig.skip(rest@.len() as int).reverse(),
            decreases rest@.len(),
        {
            let v = match rest.pop() {
                Some(v) => v,
                None => {
                    proof {
                        assert(false);
                    }
                    Value::Undefined
                },
            };
            self.stack.push(v);
            proof {
                assert(self.stack@ =~= base + orig.skip(rest@.len() as int).reverse());
            }
        }
        proof {
            assert(orig.skip(0) =~= orig);
            assert(self.stack@ =~= base + orig.reverse());
        }
        n
    }

    /// Begin producing a list: an empty list value is pushed, to be
    /// filled by [`CallContext::list_append`]. The capacity is a size
    /// hint for the engine representation.
    pub fn push_list(&mut self, capacity: usize)
        ensures
            aux_preserved(*old(self), *final(self)),
            final(self)@.len() == old(self)@.len() + 1,
            final(self)@.drop_last() == old(self)@,
            (final(self)@.last() matches Value::List(items) && items@ == Seq::<Value>::empty()),
    {
        self.stack.push(Value::List(Vec::with_capacity(capacity)));
        proof {
            assert(final(self)@.drop_last() =~= old(self)@);
        }
    }

    /// Append the top stack value to the list directly beneath it, which
    /// stays on the stack.
    pub fn list_append(&mut self) -> (r: Result<(), ProtocolError>)
        ensures
            aux_preserved(*old(self), *final(self)),
            match r {
                Ok(()) => {
                    &&& old(self)@.len() >= 2
                    &&& (old(self)@[old(self)@.len() - 2] matches Value::List(items)
                        && final(self)@.len() == old(self)@.len() - 1
                        && final(self)@.drop_last() == old(self)@.take(old(self)@.len() - 2)
                        && (final(self)@.last() matches Value::List(items2)
                            && items2@ == items@.push(old(self)@.last())))
                },
                Err(e) => {
                    &&& final(self)@ == old(self)@
                    &&& if old(self)@.len() < 2 {
                        e == ProtocolError::StackUnderflow
                    } else {
                        &&& !(old(self)@[old(self)@.len() - 2] matches Value::List(_))
                        &&& e == ProtocolError::KindMismatch
                    }
                },
            },
    {
        let elem = match self.pop_any() {
            Ok(v) => v,
            Err(e) => {
                return Err(e);
            },
        };
        let below = match self.pop_any() {
            Ok(v) => v,
            Err(e) => {
                self.unpop(elem);
                proof {
                    assert(self@ =~= old(self)@);
                }
                return Err(e);
            },
        };
        match below {
            Value::List(mut items) => {
                items.push(elem);
                self.stack.push(Value::List(items));
                proof {
                    assert(final(self)@.drop_last() =~= old(self)@.take(old(self)@.len() - 2));
                }
                Ok(())
            },
            other => {
                self.unpop(other);
                self.unpop(elem);
                proof {
                    assert(self@ =~= old(self)@);
                }
                Err(ProtocolError::KindMismatch)
            },
        }
    }

    /// Begin consuming the list on top of the stack: the list is removed
    /// and a traversal frame over its elements is opened. Returns the
    /// element count.
    pub fn pop_list(&mut self) -> (r: Result<usize, ProtocolError>)
        ensures
            final(self).spec_id() == old(self).spec_id(),
            final(self).deferred_frees() == old(self).deferred_frees(),
            final(self).retained() == old(self).retained(),
            final(self).borrow_handles() == old(self).borrow_handles(),
            final(self).own_handles() == old(self).own_handles(),
            match r {
                Ok(n) => {
                    &&& old(self)@.len() > 0
                    &&& (old(self)@.last() matches Value::List(items) && n == items@.len()
                        && final(self).iter_frames().len() == old(self).iter_frames().len() + 1
                        && final(self).iter_frames().drop_last() == old(self).iter_frames()
                        && final(self).iter_frames().last().remaining@ == items@)
                    &&& final(self)@ == old(self)@.drop_last()
                },
                Err(e) => {
                    &&& final(self).iter_frames() == old(self).iter_frames()
                    &&& pop_failed(
                        *old(self),
                        *final(self),
                        e,
                        |v: Value| v matches Value::List(_),
                    )
                },
            },
    {
        let top = match self.pop_any() {
            Ok(v) => v,
            Err(e) => {
                return Err(e);
            },
        };
        match top {
            Value::List(items) => {
                let n = items.len();
                self.iters.push(IterFrame { remaining: items });
                proof {
                    assert(final(self).iter_frames().drop_last() =~= old(self).iter_frames());
                }
                Ok(n)
            },
            other => {
                self.unpop(other);
                proof {
                    assert(self@ =~= old(self)@);
                }
                Err(ProtocolError::KindMismatch)
            },
        }
    }

    /// Hand out the next element of the innermost list traversal by
    /// pushing it onto the value stack. A call with no traversal open, or
    /// past the last element, is a protocol violation.
    pub fn pop_iter_next(&mut self) -> (r: Result<(), ProtocolError>)
        ensures
            final(self).spec_id() == old(self).spec_id(),
            final(self).deferred_frees() == old(self).deferred_frees(),
            final(self).retained() == old(self).retained(),
            final(self).borrow_handles() == old(self).borrow_handles(),
            final(self).own_handles() == old(self).own_handles(),
            match r {
                Ok(()) => {
                    &&& old(self).iter_frames().len() > 0
                    &&& old(self).iter_frames().last().remaining@.len() > 0
                    &&& final(self)@ == old(self)@.push(
                        old(self).iter_frames().last().remaining@.first(),
                    )
                    &&& final(self).iter_frames().len() == old(self).iter_frames().len()
                    &&& final(self).iter_frames().drop_last() == old(
                        self,
                    ).iter_frames().drop_last()
                    &&& final(self).iter_frames().last().remaining@ == old(
                        self,
                    ).iter_frames().last().remaining@.drop_first()
                },
                Err(e) => {
                    &&& e == ProtocolError::IterationMismatch
                    &&& final(self)@ == old(self)@
                    &&& final(self).iter_frames() == old(self).iter_frames()
                    &&& (old(self).iter_frames().len() == 0 || old(
                        self,
                    ).iter_frames().last().remaining@.len() == 0)
                },
            },
    {
        let mut frame = match self.iters.pop() {
            Some(f) => f,
            None => {
                return Err(ProtocolError::IterationMismatch);
            },
        };
        if frame.remaining.len() == 0 {
            self.iters.push(frame);
            proof {
                assert(self.iters@ =~= old(self).iters@);
            }
            return Err(ProtocolError::IterationMismatch);
        }
        let v = frame.remaining.remove(0);
        self.stack.push(v);
        self.iters.push(frame);
        proof {
            assert(final(self).iter_frames().drop_last() =~= old(self).iter_frames().drop_last());
            assert(final(self).iter_frames().last().remaining@ =~= old(
                self,
            ).iter_frames().last().remaining@.drop_first());
        }
        Ok(())
    }

    /// Close the innermost list traversal. Closing before every element
    /// has been handed out, or with no traversal open, is a protocol
    /// violation.
    pub fn pop_iter_end(&mut self) -> (r: Result<(), ProtocolError>)
        ensures
            final(self).spec_id() == old(self).spec_id(),
            final(self)@ == old(self)@,
            final(self).deferred_frees() == old(self).deferred_frees(),
            final(self).retained() == old(self).retained(),
            final(self).borrow_handles() == old(self).borrow_handles(),
            final(self).own_handles() == old(self).own_handles(),
            match r {
                Ok(()) => {
                    &&& old(self).iter_frames().len() > 0
                    &&& old(self).iter_frames().last().remaining@.len() == 0
                    &&& final(self).iter_frames() == old(self).iter_frames().drop_last()
                },
                Err(e) => {
                    &&& e == ProtocolError::IterationMismatch
                    &&& final(self).iter_frames() == old(self).iter_frames()
                    &&& (old(self).iter_frames().len() == 0 || old(
                        self,
                    ).iter_frames().last().remaining@.len() > 0)
                },
            },
    {
        let frame = match self.iters.pop() {
            Some(f) => f,
            None => {
                return Err(ProtocolError::IterationMismatch);
            },
        };
        if frame.remaining.len() > 0 {
            self.iters.push(frame);
            proof {
                assert(self.iters@ =~= old(self).iters@);
            }
            return Err(ProtocolError::IterationMismatch);
        }
        Ok(())
    }

    /// The stack slots the collector must visit, in increasing order:
    /// exactly the positions holding heap-backed values, each once — an
    /// omission would let the engine reclaim a live value, a duplicate
    /// would double-mark.
    pub fn markable_slots(&self) -> (r: Vec<usize>)
        ensures
            marks_exactly(*self, r@),
    {
        let mut r: Vec<usize> = Vec::new();
        let mut i: usize = 0;
        while i < self.stack.len()
            invariant
                i <= self.stack@.len(),
                self@ == self.stack@,
                forall|j: int|
                    0 <= j < r@.len() ==> r@[j] < i && is_markable(self.stack@[r@[j] as int]),
                forall|p: int, q: int| 0 <= p < q < r@.len() ==> r@[p] < r@[q],
                forall|k: int|
                    0 <= k < i && is_markable(self.stack@[k]) ==> r@.contains(k as usize),
            decreases self.stack@.len() - i,
        {
            if self.stack[i].markable() {
                let ghost prev = r@;
                r.push(i);
                proof {
                    assert forall|k: int|
                        0 <= k < i + 1 && is_markable(self.stack@[k]) implies r@.contains(
                        k as usize,
                    ) by {
                        if k < i {
                            assert(prev.contains(k as usize));
                            let j = choose|j: int| 0 <= j < prev.len() && prev[j] == k as usize;
                            assert(r@[j] == k as usize);
                        } else {
                            assert(r@.last() == i as usize);
                        }
                    }
                }
            }
            i = i + 1;
        }
        r
    }
}

/// What a correct visit list for one stack is: exactly the positions
/// holding heap-backed values, ascending — so each markable value is
/// visited once, and nothing else is.
pub open spec fn marks_exactly(c: CallContext, slots: Seq<usize>) -> bool {
    &&& forall|j: int|
        0 <= j < slots.len() ==> slots[j] < c@.len() && is_markable(c@[slots[j] as int])
    &&& forall|p: int, q: int| 0 <= p < q < slots.len() ==> slots[p] < slots[q]
    &&& forall|i: int| 0 <= i < c@.len() && is_markable(c@[i]) ==> slots.contains(i as usize)
}

/// Whether the supplied stacks are exactly the registered ones: one per
/// registered identifier, in registration order.
pub open spec fn covers_registry(reg: RootRegistry, stacks: Seq<&CallContext>) -> bool {
    &&& stacks.len() == reg@.len()
    &&& forall|k: int| 0 <= k < stacks.len() ==> stacks[k].spec_id() == reg@[k]
}

/// The collector's visit plan for one collection cycle. Given every live
/// call context — which must be exactly the stacks the root registry
/// holds, in registration order — the plan lists, per stack, exactly the
/// slots the tracer must visit ([`marks_exactly`]): no omission, no
/// duplicate, nothing outside the registry. A supplied set that does not
/// match the registry — a stack missing, foreign, or out of order — is a
/// detected protocol violation, never an incomplete plan.
pub fn trace_plan(reg: &RootRegistry, stacks: &Vec<&CallContext>) -> (r: Result<
    Vec<Vec<usize>>,
    ProtocolError,
>)
    ensures
        match r {
            Ok(plan) => {
                &&& covers_registry(*reg, stacks@)
                &&& plan@.len() == stacks@.len()
                &&& forall|k: int|
                    0 <= k < plan@.len() ==> marks_exactly(*stacks@[k], plan@[k]@)
            },
            Err(e) => {
                &&& e == ProtocolError::RootRegistryMismatch
                &&& !covers_registry(*reg, stacks@)
            },
        },
{
    if stacks.len() != reg.len() {
        return Err(ProtocolError::RootRegistryMismatch);
    }
    let mut k: usize = 0;
    while k < stacks.len()
        invariant
            stacks@.len() == reg@.len(),
            k <= stacks@.len(),
            forall|j: int| 0 <= j < k ==> stacks@[j].spec_id() == reg@[j],
        decreases stacks@.len() - k,
    {
        if stacks[k].registry_id() != reg.id_at(k) {
            return Err(ProtocolError::RootRegistryMismatch);
        }
        k = k + 1;
    }
    let mut plan: Vec<Vec<usize>> = Vec::new();
    let mut k2: usize = 0;
    while k2 < stacks.len()
        invariant
            k2 <= stacks@.len(),
            plan@.len() == k2,
            forall|j: int| 0 <= j < k2 ==> marks_exactly(*stacks@[j], plan@[j]@),
        decreases stacks@.len() - k2,
    {
        let slots = stacks[k2].markable_slots();
        plan.push(slots);
        k2 = k2 + 1;
    }
    Ok(plan)
}

/// The common failure shape of every typed pop: an empty stack is an
/// underflow; a top value outside the accepted kinds (`wanted`) is a kind
/// mismatch; either way the context is exactly as it was.
pub open spec fn pop_failed(
    pre: CallContext,
    post: CallContext,
    e: ProtocolError,
    wanted: spec_fn(Value) -> bool,
) -> bool {
    &&& post@ == pre@
    &&& aux_preserved(pre, post)
    &&& if pre@.len() == 0 {
        e == ProtocolError::StackUnderflow
    } else {
        &&& !wanted(pre@.last())
        &&& e == ProtocolError::KindMismatch
    }
}

/// Round trip: a [`CallContext::push_u32`] of `v` followed immediately by
/// a [`CallContext::pop_u32`] — that is, any two successive steps related
/// by those operations' contracts — returns exactly `Ok(v)` and leaves
/// the whole context as it started.
pub proof fn lemma_push_then_pop_u32(
    c0: CallContext,
    c1: CallContext,
    c2: CallContext,
    v: u32,
    r: Result<u32, ProtocolError>,
)
    requires
        aux_preserved(c0, c1),
        c1@ == c0@.push(Value::U32(v)),
        aux_preserved(c1, c2),
        match r {
            Ok(u) => {
                &&& c1@.len() > 0
                &&& c1@.last() == Value::U32(u)
                &&& c2@ == c1@.drop_last()
            },
            Err(e) => pop_failed(c1, c2, e, |w: Value| w is U32),
        },
    ensures
        r == Ok::<u32, ProtocolError>(v),
        c2@ == c0@,
        aux_preserved(c0, c2),
{
    assert(c1@.last() == Value::U32(v));
    assert(c1@.drop_last() =~= c0@);
}

/// Everything outside the value stack is untouched: identity, iteration
/// frames, deferred deallocations, retained strings, handle lists.
pub open spec fn aux_preserved(pre: CallContext, post: CallContext) -> bool {
    &&& post.spec_id() == pre.spec_id()
    &&& post.iter_frames() == pre.iter_frames()
    &&& post.deferred_frees() == pre.deferred_frees()
    &&& post.retained() == pre.retained()
    &&& post.borrow_handles() == pre.borrow_handles()
    &&& post.own_handles() == pre.own_handles()
}

/// Everything outside the deferred-deallocation list is untouched, the
/// value stack included.
pub open spec fn stack_only_preserved(pre: CallContext, post: CallContext) -> bool {
    &&& post.spec_id() == pre.spec_id()
    &&& post.iter_frames() == pre.iter_frames()
    &&& post.retained() == pre.retained()
    &&& post.borrow_handles() == pre.borrow_handles()
    &&& post.own_handles() == pre.own_handles()
}

} // verus!
