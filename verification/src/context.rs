//! The reference-counted bridge that carries the server's request handler
//! across the native callback boundary.
//!
//! The native message-port framework shares ownership of the handler with
//! this process: it calls a retain shim whenever it stores another
//! reference and a release shim when it drops one, and the object must be
//! deallocated exactly when the last reference — the framework's or this
//! process's — is gone. Releasing more often than retaining frees the
//! handler while the framework still holds it; releasing less often leaks
//! it permanently. [`CallbackContext`] models that bookkeeping: it counts
//! live owners, records the trace of operations, and its contracts allow
//! an operation only while at least one owner is left. The trace lemmas
//! state the global consequences: releases never outnumber retains plus
//! the creation reference, and a context whose owners are gone accepts no
//! further operation, so it is freed exactly once.

use vstd::prelude::*;

verus! {

/// One ownership operation performed on the context, by this process or
/// by the native framework.
#[derive(Clone, Copy, Debug, PartialEq, Eq, Structural)]
pub enum ContextOp {
    Retain,
    Release,
}

/// The number of live owners after a trace of operations has been applied
/// to a freshly created context, whose creator is the one initial owner.
pub open spec fn count_after(ops: Seq<ContextOp>) -> int
    decreases ops.len(),
{
    if ops.len() == 0 {
        1
    } else {
        count_after(ops.drop_last()) + (if ops.last() is Retain {
            1int
        } else {
            -1int
        })
    }
}

/// How many retains a trace holds.
pub open spec fn retain_count(ops: Seq<ContextOp>) -> int
    decreases ops.len(),
{
    if ops.len() == 0 {
        0
    } else {
        retain_count(ops.drop_last()) + (if ops.last() is Retain {
            1int
        } else {
            0int
        })
    }
}

/// How many releases a trace holds.
pub open spec fn release_count(ops: Seq<ContextOp>) -> int
    decreases ops.len(),
{
    if ops.len() == 0 {
        0
    } else {
        release_count(ops.drop_last()) + (if ops.last() is Release {
            1int
        } else {
            0int
        })
    }
}

/// A trace the context can actually have seen: every operation in it was
/// applied while the context still had at least one owner.
pub open spec fn valid_trace(ops: Seq<ContextOp>) -> bool {
    forall|i: int| 0 <= i < ops.len() ==> count_after(#[trigger] ops.take(i)) >= 1
}

proof fn lemma_count_decomposition(ops: Seq<ContextOp>)
    ensures
        count_after(ops) == 1 + retain_count(ops) - release_count(ops),
    decreases ops.len(),
{
    if ops.len() > 0 {
        lemma_count_decomposition(ops.drop_last());
    }
}

proof fn lemma_trace_push(ops: Seq<ContextOp>, op: ContextOp)
    requires
        valid_trace(ops),
        count_after(ops) >= 1,
    ensures
        valid_trace(ops.push(op)),
        count_after(ops.push(op)) == count_after(ops) + (if op is Retain {
            1int
        } else {
            -1int
        }),
{
    let pushed = ops.push(op);
    assert(pushed.drop_last() =~= ops);
    assert forall|i: int| 0 <= i < pushed.len() implies count_after(#[trigger] pushed.take(i))
        >= 1 by {
        if i < ops.len() {
            assert(pushed.take(i) =~= ops.take(i));
        } else {
            assert(pushed.take(i) =~= ops);
        }
    }
}

/// The refcount floor: in any trace the context can have seen, releases
/// never outnumber retains plus the initial creation reference, and the
/// context's owners are gone exactly when the two sides balance.
pub proof fn lemma_refcount_floor(ops: Seq<ContextOp>)
    requires
        valid_trace(ops),
    ensures
        release_count(ops) <= retain_count(ops) + 1,
        (count_after(ops) == 0) <==> (release_count(ops) == retain_count(ops) + 1),
{
    lemma_count_decomposition(ops);
    if ops.len() > 0 {
        assert(count_after(ops.take(ops.len() - 1)) >= 1);
        assert(ops.drop_last() =~= ops.take(ops.len() - 1));
    }
}

/// No use after free: once a trace has balanced its last owner away, no
/// further retain or release is a trace the context can see, so the
/// deallocation at balance happens exactly once.
pub proof fn lemma_no_use_after_free(ops: Seq<ContextOp>, op: ContextOp)
    requires
        valid_trace(ops),
        count_after(ops) == 0,
    ensures
        !valid_trace(ops.push(op)),
{
    let pushed = ops.push(op);
    assert(pushed.take(ops.len() as int) =~= ops);
    if valid_trace(pushed) {
        assert(count_after(pushed.take(ops.len() as int)) >= 1);
        assert(false);
    }
}

/// The shared-ownership wrapper around the server's request handler. The
/// creator starts as the one owner; the framework's retain and release
/// calls add and remove owners; the operation that removes the last owner
/// deallocates the handler.
pub struct CallbackContext {
    count: u64,
    trace: Ghost<Seq<ContextOp>>,
}

impl CallbackContext {
    /// The operations the context has seen since its creation.
    pub closed spec fn history(&self) -> Seq<ContextOp> {
        self.trace@
    }

    /// The number of owners still holding the context.
    pub closed spec fn owner_count(&self) -> int {
        self.count as int
    }

    /// The bookkeeping is consistent: the recorded trace is one the
    /// context can have seen, and the owner count is what the trace says.
    pub closed spec fn wf(&self) -> bool {
        &&& valid_trace(self.history())
        &&& self.owner_count() == count_after(self.history())
    }

    /// What well-formedness gives a caller: the recorded history is a
    /// trace the context can have seen and its count is the owner count,
    /// so the trace lemmas above apply to a live context's own history.
    pub proof fn lemma_wf_history(&self)
        requires
            self.wf(),
        ensures
            valid_trace(self.history()),
            count_after(self.history()) == self.owner_count(),
    {
    }

    /// Wraps a freshly created handler; its creator holds the one
    /// reference.
    pub fn new() -> (c: CallbackContext)
        ensures
            c.wf(),
            c.owner_count() == 1,
            c.history() == Seq::<ContextOp>::empty(),
    {
        CallbackContext { count: 1, trace: Ghost(Seq::empty()) }
    }

    /// The retain shim: the framework stored one more reference, which it
    /// must answer with exactly one release. Only a live context can be
    /// retained.
    pub fn retain(&mut self)
        requires
            old(self).wf(),
            old(self).owner_count() >= 1,
            old(self).owner_count() < u64::MAX,
        ensures
            final(self).wf(),
            final(self).history() == old(self).history().push(ContextOp::Retain),
            final(self).owner_count() == old(self).owner_count() + 1,
    {
        proof {
            lemma_trace_push(self.trace@, ContextOp::Retain);
        }
        self.count = self.count + 1;
        self.trace = Ghost(self.trace@.push(ContextOp::Retain));
    }

    /// The release shim: one owner is gone. Reports whether that was the
    /// last one, in which case the handler is deallocated now and the
    /// context must never be touched again. Only a live context can be
    /// released.
    pub fn release(&mut self) -> (freed: bool)
        requires
            old(self).wf(),
            old(self).owner_count() >= 1,
        ensures
            final(self).wf(),
            final(self).history() == old(self).history().push(ContextOp::Release),
            final(self).owner_count() == old(self).owner_count() - 1,
            freed == (final(self).owner_count() == 0),
    {
        proof {
            lemma_trace_push(self.trace@, ContextOp::Release);
        }
        self.count = self.count - 1;
        self.trace = Ghost(self.trace@.push(ContextOp::Release));
        self.count == 0
    }

    /// How many owners hold the context now.
    pub fn owners(&self) -> (r: u64)
        ensures
            r as int == self.owner_count(),
    {
        self.count
    }
}

} // verus!
