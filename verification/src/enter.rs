//! Execution-context-local bookkeeping.
//!
//! Both pieces of per-context state live here: the count of gates alive in
//! this context, and the admission set — the pool ids for which the current
//! call tree already holds a token. The context is threaded explicitly
//! through every admission call; it must never be shared across concurrent
//! execution contexts, and independent (non-nested) operations each get a
//! context of their own — sharing one would let a sibling slip past the keeper on
//! a token it does not hold.

use vstd::prelude::*;

verus! {

/// Per-execution-context state: how many gates this context has entered, and
/// which pools the current call tree is already admitted to.
pub struct ExecContext {
    entered: usize,
    admitted: Vec<u64>,
}

impl ExecContext {
    /// How many gates are alive in this context.
    pub closed spec fn entered_count(self) -> nat {
        self.entered as nat
    }

    /// The pool ids the current call tree holds a token for.
    pub closed spec fn admitted_ids(self) -> Seq<u64> {
        self.admitted@
    }

    /// Whether this call tree already holds a token for the pool `id`.
    pub open spec fn holds(self, id: u64) -> bool {
        self.admitted_ids().contains(id)
    }

    /// The admission set holds each pool id at most once.
    pub open spec fn wf(self) -> bool {
        forall|i: int, j: int|
            0 <= i < j < self.admitted_ids().len() ==> self.admitted_ids()[i]
                != self.admitted_ids()[j]
    }

    pub fn new() -> (ctx: ExecContext)
        ensures
            ctx.wf(),
            ctx.entered_count() == 0,
            ctx.admitted_ids() == Seq::<u64>::empty(),
            forall|id: u64| !ctx.holds(id),
    {
        ExecContext { entered: 0, admitted: Vec::new() }
    }

    /// Whether this call tree already holds a token for the pool `id`.
    pub fn contains(&self, id: u64) -> (r: bool)
        ensures
            r == self.holds(id),
    {
        let mut i: usize = 0;
        while i < self.admitted.len()
            invariant
                i <= self.admitted.len(),
                forall|k: int| 0 <= k < i ==> self.admitted@[k] != id,
            decreases self.admitted.len() - i,
        {
            if self.admitted[i] == id {
                return true;
            }
            i = i + 1;
        }
        false
    }

    /// Record that this call tree now holds a token for the pool `id`.
    pub fn insert(&mut self, id: u64)
        requires
            old(self).wf(),
            !old(self).holds(id),
        ensures
            final (self).wf(),
            final (self).holds(id),
            forall|j: u64| j != id ==> final (self).holds(j) == old(self).holds(j),
            final (self).entered_count() == old(self).entered_count(),
    {
        self.admitted.push(id);
        proof {
            let s0 = old(self).admitted@;
            let s1 = self.admitted@;
            assert(s1 == s0.push(id));
            assert(s1[s1.len() - 1] == id);
            assert(self.wf()) by {
                assert forall|a: int, b: int| 0 <= a < b < s1.len() implies s1[a] != s1[b] by {
                    if b == s1.len() - 1 {
                        assert(s1[a] == s0[a]);
                        assert(s0[a] != id) by {
                            if s0[a] == id {
                                assert(old(self).holds(id));
                            }
                        }
                    } else {
                        assert(s1[a] == s0[a] && s1[b] == s0[b]);
                    }
                }
            }
            assert forall|j: u64| j != id implies self.holds(j) == old(self).holds(j) by {
                if self.holds(j) {
                    let k = choose|k: int| 0 <= k < s1.len() && s1[k] == j;
                    assert(s0[k] == j);
                }
                if old(self).holds(j) {
                    let k = choose|k: int| 0 <= k < s0.len() && s0[k] == j;
                    assert(s1[k] == j);
                }
            }
        }
    }

    /// Forget that this call tree holds a token for the pool `id`.
    pub fn remove(&mut self, id: u64)
        requires
            old(self).wf(),
        ensures
            final (self).wf(),
            !final (self).holds(id),
            forall|j: u64| j != id ==> final (self).holds(j) == old(self).holds(j),
            final (self).entered_count() == old(self).entered_count(),
    {
        let mut i: usize = 0;
        while i < self.admitted.len()
            invariant
                old(self).wf(),
                i <= self.admitted.len(),
                self.admitted == old(self).admitted,
                self.entered == old(self).entered,
                forall|k: int| 0 <= k < i ==> self.admitted@[k] != id,
            decreases self.admitted.len() - i,
        {
            if self.admitted[i] == id {
                proof {
                    assert(old(self).admitted@[i as int] == id);
                }
                self.admitted.remove(i);
                proof {
                    let s0 = old(self).admitted@;
                    let s1 = self.admitted@;
                    let iv = i as int;
                    s0.remove_ensures(iv);
                    assert(s1 == s0.remove(iv));
                    assert(self.wf()) by {
                        assert forall|a: int, b: int| 0 <= a < b < s1.len() implies s1[a]
                            != s1[b] by {
                            let a0: int = if a < iv {
                                a
                            } else {
                                a + 1
                            };
                            let b0: int = if b < iv {
                                b
                            } else {
                                b + 1
                            };
                            assert(s0.remove(iv)[a] == s0[a0]);
                            assert(s0.remove(iv)[b] == s0[b0]);
                            assert(0 <= a0 < b0 < s0.len());
                            assert(old(self).admitted_ids()[a0] != old(self).admitted_ids()[b0]);
                        }
                    }
                    assert forall|j: u64| self.holds(j) implies old(self).holds(j) by {
                        let k = choose|k: int| 0 <= k < s1.len() && s1[k] == j;
                        if k < iv {
                            assert(s0[k] == j);
                        } else {
                            assert(s0[k + 1] == j);
                        }
                    }
                    assert forall|j: u64| j != id && old(self).holds(j) implies self.holds(
                        j,
                    ) by {
                        let k = choose|k: int| 0 <= k < s0.len() && s0[k] == j;
                        if k < iv {
                            assert(s1[k] == j);
                        } else {
                            assert(s0[iv] == id);
                            assert(k != iv);
                            assert(s1[k - 1] == j);
                        }
                    }
                    assert(!self.holds(id)) by {
                        if self.holds(id) {
                            let k = choose|k: int| 0 <= k < s1.len() && s1[k] == id;
                            if k < iv {
                                assert(s0[k] == id);
                                assert(s0[iv] == id);
                            } else {
                                assert(s0[k + 1] == id);
                                assert(s0[iv] == id);
                            }
                        }
                    }
                }
                return ;
            }
            i = i + 1;
        }
    }
}

/// Note that a gate has come alive in this execution context.
pub fn arrive(ctx: &mut ExecContext)
    requires
        old(ctx).entered_count() < usize::MAX,
    ensures
        final (ctx).entered_count() == old(ctx).entered_count() + 1,
        final (ctx).admitted_ids() == old(ctx).admitted_ids(),
{
    ctx.entered = ctx.entered + 1;
}

/// Note that a gate of this execution context has gone away.
pub fn depart(ctx: &mut ExecContext)
    requires
        old(ctx).entered_count() > 0,
    ensures
        final (ctx).entered_count() == old(ctx).entered_count() - 1,
        final (ctx).admitted_ids() == old(ctx).admitted_ids(),
{
    ctx.entered = ctx.entered - 1;
}

/// Whether any gate is alive in this execution context.
pub fn test(ctx: &ExecContext) -> (r: bool)
    ensures
        r == (ctx.entered_count() > 0),
{
    ctx.entered > 0
}

} // verus!
