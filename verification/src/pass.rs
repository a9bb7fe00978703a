//! The admission state machines.
//!
//! A `Ticket` drives one gated operation: it asks the pool for a token,
//! consults the execution context's admission set so a nested admission
//! against the same pool never requests a second token, and — depending on
//! who owns the operation — either hands out a `TicketStub` that keeps the
//! token for the operation's whole lifetime (preemptive policy) or polls the
//! operation itself and returns the token at every suspension (cooperative
//! policy). A `Permit` is the older, simpler gate around a single resumption
//! step.
//!
//! The driver advances these machines one transition at a time: it performs
//! the wake-ups, back-off waits and operation polls that the transitions
//! hand back as values, and calls `render_token` when a ticket or stub is
//! dropped.

use vstd::prelude::*;

use crate::enter::ExecContext;
use crate::inner::{granted_one, returned_one, InnerPool};
use crate::SpinPolicy;

verus! {

/// What one admission poll of a `Ticket` decided.
pub enum TicketStep {
    /// Admitted under the preemptive policy: the stub now carries the token
    /// (if one was taken) and returns it when it is dropped, after the
    /// operation has run to completion.
    Issued(TicketStub),
    /// Admitted under the cooperative policy: the driver polls the
    /// operation once, then reports back through `op_pending` or drops the
    /// ticket.
    Run,
    /// No token is available: the waiter handle is registered and the
    /// ticket suspends until woken.
    Waiting,
}

/// How long the driver should hold off before the next poll.
pub enum Backoff {
    NoDelay,
    Yield,
    SleepMicros(u64),
}

/// The outcome of one `Permit` gate entry.
pub enum GateEntry {
    /// Passed through: run one step of the operation, then leave
    /// through `poll_exit`.
    Entered,
    /// No token is available; the caller retries once one is returned.
    Blocked,
}

/// The lightweight successor of an admitted preemptive `Ticket`: it holds
/// the token (if the ticket took one) until it is dropped.
pub struct TicketStub {
    pub pool_id: u64,
    pub owns_token: bool,
}

impl TicketStub {
    /// Give the stub's token back, exactly once: the pool is credited and
    /// the admission-set entry cleared the first time, and nothing moves on
    /// any later call. The driver calls this when the stub is dropped.
    pub fn render_token(&mut self, pool: &mut InnerPool, ctx: &mut ExecContext) -> (woken: Option<
        u64,
    >)
        requires
            old(ctx).wf(),
            old(self).owns_token && old(pool).flavor is Static && old(pool).deficit == 0 ==> old(pool).token_counts < usize::MAX,
        ensures
            final (ctx).wf(),
            !final (self).owns_token,
            final (self).pool_id == old(self).pool_id,
            old(self).owns_token ==> returned_one(*old(pool), *final (pool), woken) && !final (ctx).holds(old(self).pool_id) && (forall|j: u64|
                j != old(self).pool_id ==> final (ctx).holds(j) == old(ctx).holds(j)) && final (ctx).entered_count() == old(ctx).entered_count(),
            !old(self).owns_token ==> *final (pool) == *old(pool) && *final (ctx) == *old(ctx)
                && woken is None,
            old(pool).wf() && (old(pool).accounted@ ==> old(pool).checked_out@ > 0) ==> final (pool).wf(),
    {
        if self.owns_token {
            let woken = pool.return_token();
            ctx.remove(self.pool_id);
            self.owns_token = false;
            woken
        } else {
            None
        }
    }
}

/// The per-admission state machine.
pub struct Ticket {
    /// The id of the pool this ticket took its token from; zero until a
    /// token is first obtained.
    pub pool_id: u64,
    /// Consecutive suspensions without progress, for back-off escalation.
    pub pending_count: usize,
    /// Whether this ticket currently holds a token it took itself.
    pub token_obtained: bool,
    /// Whether the ticket still owns its pool reference; issuing a stub
    /// hands the reference (and the token) over.
    pub has_pool: bool,
    /// Whether the ticket owns the wrapped operation (cooperative policy)
    /// or leaves it with the caller (preemptive policy).
    pub owns_op: bool,
    pub spin_policy: SpinPolicy,
}

impl Ticket {
    pub fn new(owns_op: bool) -> (t: Ticket)
        ensures
            t.pool_id == 0,
            t.pending_count == 0,
            !t.token_obtained,
            t.has_pool,
            t.owns_op == owns_op,
            t.spin_policy is InplaceWait,
    {
        Ticket {
            pool_id: 0,
            pending_count: 0,
            token_obtained: false,
            has_pool: true,
            owns_op,
            spin_policy: SpinPolicy::InplaceWait,
        }
    }

    pub fn set_spin_policy(&mut self, spin: SpinPolicy)
        ensures
            final (self).spin_policy == spin,
            final (self).pool_id == old(self).pool_id,
            final (self).pending_count == old(self).pending_count,
            final (self).token_obtained == old(self).token_obtained,
            final (self).has_pool == old(self).has_pool,
            final (self).owns_op == old(self).owns_op,
    {
        self.spin_policy = spin;
    }

    /// Ask the pool for a token; on success, mark the admission set and
    /// remember the pool id.
    fn request_token(&mut self, pool: &mut InnerPool, ctx: &mut ExecContext) -> (granted: bool)
        requires
            !old(self).token_obtained,
            old(self).has_pool,
            old(ctx).wf(),
            !old(ctx).holds(old(pool).pool_id),
        ensures
            final (ctx).wf(),
            granted == (old(pool).token_counts > 0),
            granted ==> granted_one(*old(pool), *final (pool)) && final (self).token_obtained
                && final (self).pool_id == old(pool).pool_id && final (ctx).holds(
                old(pool).pool_id,
            ) && (forall|j: u64|
                j != old(pool).pool_id ==> final (ctx).holds(j) == old(ctx).holds(j)) && final (ctx).entered_count() == old(ctx).entered_count(),
            !granted ==> *final (pool) == *old(pool) && *final (ctx) == *old(ctx) && *final (self)
                == *old(self),
            final (self).pending_count == old(self).pending_count,
            final (self).has_pool == old(self).has_pool,
            final (self).owns_op == old(self).owns_op,
            final (self).spin_policy == old(self).spin_policy,
            old(pool).wf() ==> final (pool).wf(),
    {
        if pool.request_token(true) {
            let pool_id = pool.get_id();
            ctx.insert(pool_id);
            self.pool_id = pool_id;
            self.token_obtained = true;
            true
        } else {
            false
        }
    }

    /// Hand the token (and the pool reference) over to a stub; the ticket
    /// itself no longer owes anything on drop.
    fn make_stub(&mut self) -> (stub: TicketStub)
        requires
            old(self).has_pool,
        ensures
            !final (self).has_pool,
            !final (self).token_obtained,
            stub.pool_id == old(self).pool_id,
            stub.owns_token == old(self).token_obtained,
            final (self).pool_id == old(self).pool_id,
            final (self).pending_count == old(self).pending_count,
            final (self).owns_op == old(self).owns_op,
            final (self).spin_policy == old(self).spin_policy,
    {
        let owns_token = self.token_obtained;
        self.token_obtained = false;
        self.has_pool = false;
        TicketStub { pool_id: self.pool_id, owns_token }
    }

    /// One admission poll. If this call tree is already admitted to the
    /// pool, no second token is requested — the nested admission proceeds
    /// at once on the token already held, which is what makes nesting
    /// deadlock-free. Otherwise a token is requested; if none is available
    /// the waiter handle is registered and the ticket keeps waiting, with
    /// the pool untouched.
    pub fn poll_admission(&mut self, pool: &mut InnerPool, ctx: &mut ExecContext, waiter: u64) -> (
    step: TicketStep)
        requires
            old(self).has_pool,
            !old(self).token_obtained,
            old(ctx).wf(),
        ensures
            final (ctx).wf(),
            final (ctx).entered_count() == old(ctx).entered_count(),
            old(pool).wf() ==> final (pool).wf(),
            // already admitted in this call tree: proceed without touching the pool
            old(ctx).holds(old(pool).pool_id) ==> *final (pool) == *old(pool) && *final (ctx)
                == *old(ctx) && !final (self).token_obtained && (old(self).owns_op ==> step is Run
                && final (self).has_pool) && (!old(self).owns_op ==> (step matches
            TicketStep::Issued(s) && !s.owns_token && !final (self).has_pool)),
            // fresh admission: exactly one token is taken and the set marked
            !old(ctx).holds(old(pool).pool_id) && old(pool).token_counts > 0 ==> granted_one(
                *old(pool),
                *final (pool),
            ) && final (ctx).holds(old(pool).pool_id) && (forall|j: u64|
                j != old(pool).pool_id ==> final (ctx).holds(j) == old(ctx).holds(j)) && (old(self).owns_op ==> step is Run && final (self).has_pool && final (self).token_obtained
                && final (self).pool_id == old(pool).pool_id) && (!old(self).owns_op ==> (step
                matches TicketStep::Issued(s) && s.owns_token && s.pool_id == old(pool).pool_id
                && !final (self).has_pool && !final (self).token_obtained)),
            // no token: register the waiter and stay put
            !old(ctx).holds(old(pool).pool_id) && old(pool).token_counts == 0 ==> step is Waiting
                && *final (self) == *old(self) && *final (ctx) == *old(ctx) && final (pool).waiting() == old(pool).waiting().push(waiter) && final (pool).token_counts == old(pool).token_counts && final (pool).deficit == old(pool).deficit && final (pool).checked_out == old(pool).checked_out && final (pool).closed == old(pool).closed
                && final (pool).flavor == old(pool).flavor && final (pool).accounted == old(pool).accounted && final (pool).pool_id == old(pool).pool_id,
            final (self).owns_op == old(self).owns_op,
            final (self).spin_policy == old(self).spin_policy,
            final (self).pending_count == old(self).pending_count,
    {
        let id = pool.get_id();
        let need_token = !ctx.contains(id);
        if !need_token || self.request_token(pool, ctx) {
            if self.owns_op {
                TicketStep::Run
            } else {
                TicketStep::Issued(self.make_stub())
            }
        } else {
            pool.enqueue(waiter);
            TicketStep::Waiting
        }
    }

    /// The cooperative policy's step after the operation reported another
    /// suspension: a token this ticket took itself goes back at once (and
    /// the admission-set entry is cleared), the suspend streak is counted,
    /// and past the threshold the driver is told to yield or to sleep for
    /// an exponentially growing number of microseconds.
    pub fn op_pending(&mut self, pool: &mut InnerPool, ctx: &mut ExecContext) -> (r: (
        Backoff,
        Option<u64>,
    ))
        requires
            old(self).has_pool,
            old(self).owns_op,
            old(self).pending_count <= 10,
            old(ctx).wf(),
            old(self).token_obtained && old(pool).flavor is Static && old(pool).deficit == 0
                ==> old(pool).token_counts < usize::MAX,
        ensures
            final (ctx).wf(),
            final (ctx).entered_count() == old(ctx).entered_count(),
            final (self).pending_count <= 10,
            !final (self).token_obtained,
            final (self).has_pool,
            final (self).owns_op,
            final (self).spin_policy == old(self).spin_policy,
            final (self).pool_id == old(self).pool_id,
            // the token taken for this step goes back before the next retry
            old(self).token_obtained ==> returned_one(*old(pool), *final (pool), r.1) && !final (ctx).holds(old(self).pool_id) && (forall|j: u64|
                j != old(self).pool_id ==> final (ctx).holds(j) == old(ctx).holds(j)),
            !old(self).token_obtained ==> *final (pool) == *old(pool) && *final (ctx) == *old(ctx)
                && r.1 is None,
            old(pool).wf() && (old(pool).accounted@ ==> old(pool).checked_out@ > 0) ==> final (pool).wf(),
            // suspend-streak bookkeeping and the back-off decision
            ({
                let spin = !(old(self).spin_policy is NoSpin);
                let pc1: int = if old(self).token_obtained && spin {
                    old(self).pending_count + 1
                } else {
                    old(self).pending_count as int
                };
                &&& final (self).pending_count == (if spin && pc1 >= 10 {
                    4int
                } else {
                    pc1
                })
                &&& (!(spin && pc1 >= 4) ==> r.0 is NoDelay)
                &&& (spin && pc1 >= 4 && old(self).spin_policy is Yield ==> r.0 is Yield)
                &&& (spin && pc1 >= 4 && old(self).spin_policy is InplaceWait ==> (r.0 matches
                Backoff::SleepMicros(us) && us == 1u64 << pc1 as u64))
            }),
    {
        let mut woken: Option<u64> = None;
        let spin = self.spin_policy != SpinPolicy::NoSpin;
        if self.token_obtained {
            woken = self.render_token(pool, ctx);
            if spin {
                self.pending_count = self.pending_count + 1;
            }
        }
        let backoff = if self.pending_count >= 4 && spin {
            let b = if self.spin_policy == SpinPolicy::Yield {
                Backoff::Yield
            } else {
                Backoff::SleepMicros(1u64 << (self.pending_count as u64))
            };
            if self.pending_count >= 10 {
                self.pending_count = 4;
            }
            b
        } else {
            Backoff::NoDelay
        };
        (backoff, woken)
    }

    /// Give a held token back, exactly once: the pool is credited and the
    /// admission-set entry cleared if and only if this ticket still owns
    /// both its pool reference and a token; nothing moves otherwise. This
    /// is both the cooperative release and the drop-time safety net against
    /// leaks from cancellation.
    pub fn render_token(&mut self, pool: &mut InnerPool, ctx: &mut ExecContext) -> (woken: Option<
        u64,
    >)
        requires
            old(ctx).wf(),
            old(self).has_pool && old(self).token_obtained && old(pool).flavor is Static && old(pool).deficit == 0 ==> old(pool).token_counts < usize::MAX,
        ensures
            final (ctx).wf(),
            final (ctx).entered_count() == old(ctx).entered_count(),
            final (self).token_obtained == (old(self).token_obtained && !old(self).has_pool),
            // a held token is returned exactly once, and the set entry cleared
            old(self).has_pool && old(self).token_obtained ==> returned_one(
                *old(pool),
                *final (pool),
                woken,
            ) && !final (ctx).holds(old(self).pool_id) && (forall|j: u64|
                j != old(self).pool_id ==> final (ctx).holds(j) == old(ctx).holds(j)),
            // a ticket holding nothing returns nothing
            !(old(self).has_pool && old(self).token_obtained) ==> *final (pool) == *old(pool)
                && *final (ctx) == *old(ctx) && woken is None,
            final (self).pool_id == old(self).pool_id,
            final (self).pending_count == old(self).pending_count,
            final (self).has_pool == old(self).has_pool,
            final (self).owns_op == old(self).owns_op,
            final (self).spin_policy == old(self).spin_policy,
            old(pool).wf() && (old(pool).accounted@ ==> old(pool).checked_out@ > 0) ==> final (pool).wf(),
    {
        if self.has_pool && self.token_obtained {
            let woken = pool.return_token();
            ctx.remove(self.pool_id);
            self.token_obtained = false;
            woken
        } else {
            None
        }
    }
}

/// A ticket or stub that still holds a token when dropped gives exactly one
/// token back: the drop path (`render_token`) leaves the pool with one
/// fewer token checked out, and a second call moves nothing — no leak, no
/// double return.
pub proof fn lemma_drop_returns_exactly_one(pre: InnerPool, post: InnerPool, woken: Option<u64>)
    requires
        returned_one(pre, post, woken),
        pre.flavor is Static,
        pre.checked_out@ > 0,
    ensures
        post.checked_out@ == pre.checked_out@ - 1,
{
}

/// The older gate around a single resumption step: enter (taking a token
/// unless this call tree already holds one), run the step, leave (returning
/// the token taken at entry).
pub struct Permit {
    /// Whether the current entry took a token of its own.
    pub holding: bool,
}

impl Permit {
    pub fn new() -> (p: Permit)
        ensures
            !p.holding,
    {
        Permit { holding: false }
    }

    /// Try to pass for one resumption step. Reentrant entries pass
    /// for free; a fresh entry takes a token if one is available, and is
    /// otherwise blocked until the driver sees a token returned.
    pub fn poll_enter(&mut self, pool: &mut InnerPool, ctx: &mut ExecContext) -> (r: GateEntry)
        requires
            !old(self).holding,
            old(ctx).wf(),
        ensures
            final (ctx).wf(),
            final (ctx).entered_count() == old(ctx).entered_count(),
            old(pool).wf() ==> final (pool).wf(),
            // already admitted in this call tree: pass without a token
            old(ctx).holds(old(pool).pool_id) ==> r is Entered && !final (self).holding && *final (pool) == *old(pool) && *final (ctx) == *old(ctx),
            // fresh entry with a token available: take it
            !old(ctx).holds(old(pool).pool_id) && old(pool).token_counts > 0 ==> r is Entered
                && final (self).holding && granted_one(*old(pool), *final (pool)) && final (ctx).holds(old(pool).pool_id) && (forall|j: u64|
                j != old(pool).pool_id ==> final (ctx).holds(j) == old(ctx).holds(j)),
            // no token: blocked, nothing moves
            !old(ctx).holds(old(pool).pool_id) && old(pool).token_counts == 0 ==> r is Blocked
                && !final (self).holding && *final (pool) == *old(pool) && *final (ctx) == *old(ctx),
    {
        let id = pool.get_id();
        if ctx.contains(id) {
            GateEntry::Entered
        } else if pool.request_token(false) {
            ctx.insert(id);
            self.holding = true;
            GateEntry::Entered
        } else {
            GateEntry::Blocked
        }
    }

    /// Leave after the step: a token taken at entry goes back and
    /// its admission-set entry is cleared; an inherited entry leaves
    /// nothing behind.
    pub fn poll_exit(&mut self, pool: &mut InnerPool, ctx: &mut ExecContext) -> (woken: Option<
        u64,
    >)
        requires
            old(ctx).wf(),
            old(self).holding && old(pool).flavor is Static && old(pool).deficit == 0 ==> old(pool).token_counts < usize::MAX,
        ensures
            final (ctx).wf(),
            final (ctx).entered_count() == old(ctx).entered_count(),
            !final (self).holding,
            old(self).holding ==> returned_one(*old(pool), *final (pool), woken) && !final (ctx).holds(old(pool).pool_id) && (forall|j: u64|
                j != old(pool).pool_id ==> final (ctx).holds(j) == old(ctx).holds(j)),
            !old(self).holding ==> *final (pool) == *old(pool) && *final (ctx) == *old(ctx)
                && woken is None,
            old(pool).wf() && (old(pool).accounted@ ==> old(pool).checked_out@ > 0) ==> final (pool).wf(),
    {
        if self.holding {
            let id = pool.get_id();
            ctx.remove(id);
            self.holding = false;
            pool.return_token()
        } else {
            None
        }
    }
}

} // verus!
