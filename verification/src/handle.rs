//! The scoped native handle: unique ownership of one opaque handle value,
//! with its destruction performed exactly once.
//!
//! A wrapper is only ever created around a confirmed-valid handle; checking
//! the creation status happens before wrapping.  Reading the value is valid
//! while the wrapper is alive and changes nothing.  Releasing the wrapper
//! hands the value out exactly once so the caller can run the native destroy
//! call; a second release yields nothing.  Ownership is move-only: the type
//! is neither `Copy` nor `Clone`, so responsibility to destroy is never
//! duplicated.

use vstd::prelude::*;

verus! {

/// Unique ownership of one copyable opaque handle value.
pub struct VkOwned<A: Copy> {
    value: A,
    alive: bool,
}

impl<A: Copy> VkOwned<A> {
    /// The wrapped handle value.
    pub closed spec fn value(self) -> A {
        self.value
    }

    /// Whether the wrapper still owns the handle, that is, whether its
    /// destruction is still owed.
    pub closed spec fn is_alive(self) -> bool {
        self.alive
    }

    /// Take ownership of a handle whose creation call succeeded.
    pub fn new(value: A) -> (w: VkOwned<A>)
        ensures
            w.is_alive(),
            w.value() == value,
    {
        VkOwned { value, alive: true }
    }

    /// Read the wrapped value, valid while the wrapper is alive.
    pub fn get(&self) -> (a: A)
        requires
            self.is_alive(),
        ensures
            a == self.value(),
    {
        self.value
    }

    /// End ownership: hand the value out for destruction.  The first release
    /// of a live wrapper yields the value, every later one yields nothing,
    /// so the destroy call runs at most once per handle.
    pub fn release(&mut self) -> (r: Option<A>)
        ensures
            old(self).is_alive() ==> r == Some(old(self).value()),
            !old(self).is_alive() ==> r is None,
            !final(self).is_alive(),
            final(self).value() == old(self).value(),
    {
        if self.alive {
            self.alive = false;
            Some(self.value)
        } else {
            None
        }
    }
}

/// One step of a wrapper's life, as the destruction count model sees it:
/// a read of the value, or a release.
pub enum HandleOp {
    Read,
    Release,
}

/// How one operation changes whether destruction is still owed: a read
/// changes nothing, a release ends ownership.
pub open spec fn op_leaves_alive(alive: bool, op: HandleOp) -> bool {
    match op {
        HandleOp::Read => alive,
        HandleOp::Release => false,
    }
}

/// How many destroy calls a run of operations hands out, starting from a
/// wrapper that is alive iff `alive`: a release of a live wrapper hands out
/// one, everything else hands out none.
pub open spec fn destroy_count(alive: bool, ops: Seq<HandleOp>) -> nat
    decreases ops.len(),
{
    if ops.len() == 0 {
        0
    } else {
        (match ops[0] {
            HandleOp::Read => 0nat,
            HandleOp::Release => if alive {
                1nat
            } else {
                0nat
            },
        }) + destroy_count(op_leaves_alive(alive, ops[0]), ops.drop_first())
    }
}

/// The run that reads the value `n` times and then releases once.
pub open spec fn reads_then_release(n: nat) -> Seq<HandleOp> {
    Seq::new(n, |i: int| HandleOp::Read).push(HandleOp::Release)
}

/// However a wrapper is used, its destructor runs at most once: no run of
/// reads and releases hands out more than one destroy call, and none at all
/// if the wrapper was already released.
pub proof fn lemma_destroy_at_most_once(alive: bool, ops: Seq<HandleOp>)
    ensures
        destroy_count(alive, ops) <= 1,
        !alive ==> destroy_count(alive, ops) == 0,
    decreases ops.len(),
{
    if ops.len() > 0 {
        lemma_destroy_at_most_once(op_leaves_alive(alive, ops[0]), ops.drop_first());
    }
}

/// Constructing a wrapper, reading its value any number of times, and then
/// destroying it invokes the destructor exactly once, however many reads
/// there were.
pub proof fn lemma_destroy_exactly_once(n: nat)
    ensures
        destroy_count(true, reads_then_release(n)) == 1,
    decreases n,
{
    let ops = reads_then_release(n);
    if n == 0 {
        assert(ops[0] is Release);
        assert(ops.drop_first() =~= Seq::<HandleOp>::empty());
        assert(destroy_count(false, ops.drop_first()) == 0);
        assert(destroy_count(true, ops) == 1);
    } else {
        assert(ops[0] is Read);
        assert(ops.drop_first() =~= reads_then_release((n - 1) as nat));
        lemma_destroy_exactly_once((n - 1) as nat);
        assert(destroy_count(true, ops) == destroy_count(true, ops.drop_first()));
    }
}

} // verus!
