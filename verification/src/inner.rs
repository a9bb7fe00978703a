//! The token pool: the counters every admission goes through.
//!
//! `token_counts` holds the admission slots currently available, `deficit`
//! the slots owed back after a capacity shrink, and `waiting_list` the
//! handles of callers suspended for want of a token. The ghost field
//! `checked_out` counts the tokens currently held by admitted operations;
//! with it the static-capacity account reads
//! `token_counts + checked_out == capacity + deficit`, which every operation
//! below preserves while `accounted` holds. Rate-based capacity does not
//! track checkouts: a flavor change away from static
//! accounting drops the account.
//!
//! Operations that wake waiters hand the woken handles back to the caller;
//! the driver owning the pool performs the actual wake-ups.

use vstd::prelude::*;

use crate::threads_queue::{waiting_view, WaitingList};
use crate::RatioType;

verus! {

/// How many waiters a wake-up of `count` tokens reaches: one per token,
/// bounded by how many are waiting.
pub open spec fn woken_count(count: nat, waiting: Seq<u64>) -> int {
    if count <= waiting.len() {
        count as int
    } else {
        waiting.len() as int
    }
}

/// The exact effect of granting one token: the counter drops by one, the
/// checked-out count grows by one, and nothing else moves.
pub open spec fn granted_one(pre: InnerPool, post: InnerPool) -> bool {
    &&& pre.token_counts > 0
    &&& post.token_counts == pre.token_counts - 1
    &&& post.checked_out@ == pre.checked_out@ + 1
    &&& post.pool_id == pre.pool_id
    &&& post.closed == pre.closed
    &&& post.deficit == pre.deficit
    &&& post.flavor == pre.flavor
    &&& post.waiting() == pre.waiting()
    &&& post.accounted == pre.accounted
}

/// The exact effect of returning one token. Under a static flavor an
/// outstanding deficit is paid down first; once the debt is clear the
/// counter is credited and the front waiter handed back. Under a rate
/// flavor the return is a no-op.
pub open spec fn returned_one(pre: InnerPool, post: InnerPool, woken: Option<u64>) -> bool {
    &&& post.pool_id == pre.pool_id
    &&& post.closed == pre.closed
    &&& post.flavor == pre.flavor
    &&& post.accounted == pre.accounted
    &&& post.checked_out@ == (if pre.flavor is Static && pre.checked_out@ > 0 {
        (pre.checked_out@ - 1) as nat
    } else {
        pre.checked_out@
    })
    &&& if !(pre.flavor is Static) {
        &&& post.token_counts == pre.token_counts
        &&& post.deficit == pre.deficit
        &&& post.waiting() == pre.waiting()
        &&& woken is None
    } else if pre.deficit > 0 {
        &&& post.deficit == pre.deficit - 1
        &&& post.token_counts == pre.token_counts
        &&& post.waiting() == pre.waiting()
        &&& woken is None
    } else {
        &&& post.token_counts == pre.token_counts + 1
        &&& post.deficit == 0
        &&& match woken {
            Some(w) => pre.waiting().len() > 0 && w == pre.waiting()[0] && post.waiting()
                == pre.waiting().skip(1),
            None => pre.waiting().len() == 0 && post.waiting() == pre.waiting(),
        }
    }
}

pub struct InnerPool {
    pub pool_id: u64,
    pub closed: bool,
    pub token_counts: usize,
    pub deficit: usize,
    pub waiting_list: WaitingList,
    pub flavor: RatioType,
    /// Tokens currently held by admitted operations.
    pub checked_out: Ghost<nat>,
    /// Whether the static-capacity account has been maintained since the
    /// pool was created or last left a static flavor.
    pub accounted: Ghost<bool>,
}

impl InnerPool {
    /// The handles waiting for a token, front first.
    pub open spec fn waiting(self) -> Seq<u64> {
        waiting_view(self.waiting_list)
    }

    /// The static-capacity account: while it is kept, available plus
    /// checked-out tokens equal the static capacity plus the deficit.
    pub open spec fn wf(self) -> bool {
        self.accounted@ ==> self.flavor is Static && self.token_counts + self.checked_out@
            == self.flavor.cap() + self.deficit
    }

    pub fn new(size: usize, flavor: RatioType, pool_id: u64) -> (p: InnerPool)
        ensures
            p.pool_id == pool_id,
            !p.closed,
            p.token_counts == size,
            p.deficit == 0,
            p.waiting() == Seq::<u64>::empty(),
            p.flavor == flavor,
            p.checked_out@ == 0,
            p.accounted@ == (flavor is Static && flavor.cap() == size),
            p.wf(),
    {
        let ghost acc = flavor is Static && flavor.cap() == size;
        InnerPool {
            pool_id,
            closed: false,
            token_counts: size,
            deficit: 0,
            waiting_list: WaitingList::new(),
            flavor,
            checked_out: Ghost(0),
            accounted: Ghost(acc),
        }
    }

    pub fn get_id(&self) -> (id: u64)
        ensures
            id == self.pool_id,
    {
        self.pool_id
    }

    /// Mark the pool closed and drain the wait queue; every previously
    /// queued handle is handed back to be woken, so no waiter is left
    /// parked forever.
    pub fn close(&mut self) -> (woken: Vec<u64>)
        ensures
            final (self).closed,
            final (self).waiting() == Seq::<u64>::empty(),
            woken@ == old(self).waiting(),
            final (self).pool_id == old(self).pool_id,
            final (self).token_counts == old(self).token_counts,
            final (self).deficit == old(self).deficit,
            final (self).flavor == old(self).flavor,
            final (self).checked_out == old(self).checked_out,
            final (self).accounted == old(self).accounted,
            old(self).wf() ==> final (self).wf(),
    {
        self.closed = true;
        let mut woken: Vec<u64> = Vec::new();
        loop
            invariant
                woken@ + self.waiting() == old(self).waiting(),
                self.closed,
                self.pool_id == old(self).pool_id,
                self.token_counts == old(self).token_counts,
                self.deficit == old(self).deficit,
                self.flavor == old(self).flavor,
                self.checked_out == old(self).checked_out,
                self.accounted == old(self).accounted,
            ensures
                self.waiting().len() == 0,
                woken@ + self.waiting() == old(self).waiting(),
                self.closed,
                self.pool_id == old(self).pool_id,
                self.token_counts == old(self).token_counts,
                self.deficit == old(self).deficit,
                self.flavor == old(self).flavor,
                self.checked_out == old(self).checked_out,
                self.accounted == old(self).accounted,
            decreases self.waiting().len(),
        {
            let ghost pre_waiting = self.waiting();
            let ghost pre_woken = woken@;
            match self.waiting_list.dequeue() {
                Some(w) => {
                    woken.push(w);
                    proof {
                        assert(pre_waiting =~= seq![w] + self.waiting());
                        assert(pre_woken.push(w) + self.waiting() =~= pre_woken + pre_waiting);
                    }
                },
                None => { break ; },
            }
        }
        proof {
            assert(woken@ =~= woken@ + self.waiting());
        }
        woken
    }

    pub fn is_closed(&self) -> (r: bool)
        ensures
            r == self.closed,
    {
        self.closed
    }

    pub fn get_flavor(&self) -> (f: RatioType)
        ensures
            f == self.flavor,
    {
        self.flavor
    }

    /// Install a new capacity descriptor. The token and deficit counters are
    /// not touched here: a static-to-static change is rebalanced by
    /// `static_rebalance`, and any change through a rate flavor drops the
    /// static account.
    pub fn set_flavor(&mut self, flavor: RatioType)
        ensures
            final (self).flavor == flavor,
            final (self).accounted@ == (old(self).accounted@ && old(self).flavor is Static
                && flavor is Static),
            final (self).pool_id == old(self).pool_id,
            final (self).closed == old(self).closed,
            final (self).token_counts == old(self).token_counts,
            final (self).deficit == old(self).deficit,
            final (self).waiting() == old(self).waiting(),
            final (self).checked_out == old(self).checked_out,
    {
        let ghost acc = self.accounted@ && self.flavor is Static && flavor is Static;
        self.accounted = Ghost(acc);
        self.flavor = flavor;
    }

    /// Reset the counter to `count`, waking one handle per token made
    /// available. This is the rate regenerator's interval step; rate-based
    /// capacity is governed entirely by these resets.
    pub fn set_tokens(&mut self, count: usize) -> (woken: Vec<u64>)
        requires
            old(self).flavor is FixedRate,
        ensures
            final (self).token_counts == count,
            woken@ == old(self).waiting().take(woken_count(count as nat, old(self).waiting())),
            final (self).waiting() == old(self).waiting().skip(
                woken_count(count as nat, old(self).waiting()),
            ),
            final (self).pool_id == old(self).pool_id,
            final (self).closed == old(self).closed,
            final (self).deficit == old(self).deficit,
            final (self).flavor == old(self).flavor,
            final (self).checked_out == old(self).checked_out,
            final (self).accounted == old(self).accounted,
            old(self).wf() ==> final (self).wf(),
    {
        self.token_counts = count;
        if count > 0 {
            self.wake_up_many(count)
        } else {
            proof {
                assert(self.waiting() =~= old(self).waiting().skip(0));
                assert(Seq::<u64>::empty() =~= old(self).waiting().take(0));
            }
            Vec::new()
        }
    }

    /// Rebalance the counters for a static capacity change from `from` to
    /// `to`: a growth credits the difference at once (waking as many
    /// waiters), a shrink adds the difference to the deficit, to be absorbed
    /// as holders return their tokens — outstanding tokens are never
    /// revoked.
    pub fn static_rebalance(&mut self, from: usize, to: usize) -> (woken: Vec<u64>)
        requires
            from < to ==> to - from <= usize::MAX - old(self).token_counts,
            from > to ==> from - to <= usize::MAX - old(self).deficit,
        ensures
            from < to ==> final (self).token_counts == old(self).token_counts + (to - from)
                && final (self).deficit == old(self).deficit,
            from > to ==> final (self).deficit == old(self).deficit + (from - to) && final (self).token_counts == old(self).token_counts,
            from == to ==> final (self).token_counts == old(self).token_counts && final (self).deficit == old(self).deficit,
            woken@ == (if from < to {
                old(self).waiting().take(
                    woken_count((to - from) as nat, old(self).waiting()),
                )
            } else {
                Seq::<u64>::empty()
            }),
            final (self).waiting() == (if from < to {
                old(self).waiting().skip(woken_count((to - from) as nat, old(self).waiting()))
            } else {
                old(self).waiting()
            }),
            final (self).pool_id == old(self).pool_id,
            final (self).closed == old(self).closed,
            final (self).flavor == old(self).flavor,
            final (self).checked_out == old(self).checked_out,
            final (self).accounted == old(self).accounted,
    {
        if from < to {
            self.add_token(to - from)
        } else {
            if from > to {
                self.deficit = self.deficit + (from - to);
            }
            Vec::new()
        }
    }

    /// Credit one returned token and wake the front waiter, if any.
    fn recover_one(&mut self) -> (woken: Option<u64>)
        requires
            old(self).token_counts < usize::MAX,
        ensures
            final (self).token_counts == old(self).token_counts + 1,
            (match woken {
                Some(w) => old(self).waiting().len() > 0 && w == old(self).waiting()[0] && final (self).waiting() == old(self).waiting().skip(1),
                None => old(self).waiting().len() == 0 && final (self).waiting() == old(self).waiting(),
            }),
            final (self).pool_id == old(self).pool_id,
            final (self).closed == old(self).closed,
            final (self).deficit == old(self).deficit,
            final (self).flavor == old(self).flavor,
            final (self).checked_out == old(self).checked_out,
            final (self).accounted == old(self).accounted,
    {
        self.token_counts = self.token_counts + 1;
        let r = self.waiting_list.dequeue();
        proof {
            if r is Some {
                assert(self.waiting() =~= old(self).waiting().skip(1));
            }
        }
        r
    }

    /// Dequeue and hand back up to `count` waiting handles, in FIFO order.
    fn wake_up_many(&mut self, count: usize) -> (woken: Vec<u64>)
        requires
            count > 0,
        ensures
            woken@ == old(self).waiting().take(woken_count(count as nat, old(self).waiting())),
            final (self).waiting() == old(self).waiting().skip(
                woken_count(count as nat, old(self).waiting()),
            ),
            final (self).pool_id == old(self).pool_id,
            final (self).closed == old(self).closed,
            final (self).token_counts == old(self).token_counts,
            final (self).deficit == old(self).deficit,
            final (self).flavor == old(self).flavor,
            final (self).checked_out == old(self).checked_out,
            final (self).accounted == old(self).accounted,
    {
        let mut woken: Vec<u64> = Vec::new();
        let mut remainder: usize = count;
        proof {
            assert(woken@ =~= old(self).waiting().take(0));
            assert(self.waiting() =~= old(self).waiting().skip(0));
        }
        loop
            invariant_except_break
                remainder > 0,
            invariant
                remainder <= count,
                woken@.len() == count - remainder,
                woken@.len() <= old(self).waiting().len(),
                woken@ == old(self).waiting().take(woken@.len() as int),
                self.waiting() == old(self).waiting().skip(woken@.len() as int),
                self.pool_id == old(self).pool_id,
                self.closed == old(self).closed,
                self.token_counts == old(self).token_counts,
                self.deficit == old(self).deficit,
                self.flavor == old(self).flavor,
                self.checked_out == old(self).checked_out,
                self.accounted == old(self).accounted,
            ensures
                woken@ == old(self).waiting().take(
                    woken_count(count as nat, old(self).waiting()),
                ),
                self.waiting() == old(self).waiting().skip(
                    woken_count(count as nat, old(self).waiting()),
                ),
                self.pool_id == old(self).pool_id,
                self.closed == old(self).closed,
                self.token_counts == old(self).token_counts,
                self.deficit == old(self).deficit,
                self.flavor == old(self).flavor,
                self.checked_out == old(self).checked_out,
                self.accounted == old(self).accounted,
            decreases remainder,
        {
            let ghost pre_woken: Seq<u64> = woken@;
            let ghost pre_waiting: Seq<u64> = self.waiting();
            match self.waiting_list.dequeue() {
                Some(w) => {
                    woken.push(w);
                    proof {
                        let full = old(self).waiting();
                        let k = pre_woken.len() as int;
                        assert(pre_waiting == full.skip(k));
                        assert(pre_waiting.len() == full.len() - k);
                        assert(pre_waiting[0] == full[k]);
                        assert(woken@ =~= full.take(k + 1));
                        assert(self.waiting() =~= full.skip(k + 1));
                    }
                    remainder = remainder - 1;
                    if remainder == 0 {
                        proof {
                            let full = old(self).waiting();
                            assert(woken@.len() == count);
                            assert(woken_count(count as nat, full) == count as int);
                        }
                        break ;
                    }
                },
                None => {
                    proof {
                        let full = old(self).waiting();
                        assert(pre_waiting.len() == 0);
                        assert(full.len() == woken@.len());
                        assert(woken_count(count as nat, full) == woken@.len() as int);
                        assert(woken@ =~= full.take(full.len() as int));
                        assert(self.waiting() =~= full.skip(full.len() as int));
                    }
                    break ;
                },
            }
        }
        woken
    }

    /// Credit `count` fresh tokens (a capacity increase or regeneration) and
    /// wake one waiter per added token, in FIFO order.
    pub fn add_token(&mut self, count: usize) -> (woken: Vec<u64>)
        requires
            count <= usize::MAX - old(self).token_counts,
        ensures
            final (self).token_counts == old(self).token_counts + count,
            woken@ == old(self).waiting().take(woken_count(count as nat, old(self).waiting())),
            final (self).waiting() == old(self).waiting().skip(
                woken_count(count as nat, old(self).waiting()),
            ),
            final (self).pool_id == old(self).pool_id,
            final (self).closed == old(self).closed,
            final (self).deficit == old(self).deficit,
            final (self).flavor == old(self).flavor,
            final (self).checked_out == old(self).checked_out,
            final (self).accounted == old(self).accounted,
    {
        if count == 0 {
            proof {
                assert(self.waiting() =~= old(self).waiting().skip(0));
                assert(Seq::<u64>::empty() =~= old(self).waiting().take(0));
            }
            return Vec::new();
        }
        self.token_counts = self.token_counts + count;
        self.wake_up_many(count)
    }

    /// Try to take one token. Grants exactly when a token is available; on
    /// refusal the pool is untouched and the caller either retries at once
    /// (`immediate_or_cancel` false) or registers in the wait queue and
    /// suspends — this function never parks by itself.
    pub fn request_token(&mut self, immediate_or_cancel: bool) -> (granted: bool)
        ensures
            granted == (old(self).token_counts > 0),
            granted ==> granted_one(*old(self), *final (self)),
            !granted ==> *final (self) == *old(self),
            old(self).wf() ==> final (self).wf(),
    {
        let _ = immediate_or_cancel;
        if self.token_counts > 0 {
            self.token_counts = self.token_counts - 1;
            proof {
                self.checked_out@ = self.checked_out@ + 1;
            }
            true
        } else {
            false
        }
    }

    /// Give one token back. Under a static flavor an outstanding deficit is
    /// paid down first; only once the debt is clear is the counter credited
    /// and the front waiter woken. Under a rate flavor returns are not
    /// re-credited: capacity is governed by the periodic resets alone.
    pub fn return_token(&mut self) -> (woken: Option<u64>)
        requires
            old(self).flavor is Static && old(self).deficit == 0 ==> old(self).token_counts
                < usize::MAX,
        ensures
            returned_one(*old(self), *final (self), woken),
            old(self).wf() && (old(self).accounted@ ==> old(self).checked_out@ > 0) ==> final (self).wf(),
    {
        if !self.flavor.is_static_ratio() {
            return None;
        }
        proof {
            if self.checked_out@ > 0 {
                self.checked_out@ = (self.checked_out@ - 1) as nat;
            }
        }
        if self.deficit > 0 {
            self.deficit = self.deficit - 1;
            None
        } else {
            self.recover_one()
        }
    }

    /// Register a suspended caller's handle at the back of the wait queue.
    pub fn enqueue(&mut self, waiter: u64)
        ensures
            final (self).waiting() == old(self).waiting().push(waiter),
            final (self).pool_id == old(self).pool_id,
            final (self).closed == old(self).closed,
            final (self).token_counts == old(self).token_counts,
            final (self).deficit == old(self).deficit,
            final (self).flavor == old(self).flavor,
            final (self).checked_out == old(self).checked_out,
            final (self).accounted == old(self).accounted,
            old(self).wf() ==> final (self).wf(),
    {
        self.waiting_list.enqueue(waiter);
    }
}

/// One admission completing: an operation that held a token gives it back
/// (`return_token`, with whatever waiter that wakes).
pub open spec fn completed_one(pre: InnerPool, post: InnerPool) -> bool {
    &&& pre.checked_out@ > 0
    &&& exists|woken: Option<u64>| returned_one(pre, post, woken)
}

/// One step of admission traffic: an operation is admitted or a previously
/// admitted one completes.
pub open spec fn admitted_or_completed(pre: InnerPool, post: InnerPool) -> bool {
    granted_one(pre, post) || completed_one(pre, post)
}

/// A sequence of pool states linked by admission traffic alone — no
/// capacity changes, closes or rate resets between them.
pub open spec fn admission_trace(states: Seq<InnerPool>) -> bool {
    forall|i: int|
        #![trigger states[i]]
        0 <= i < states.len() - 1 ==> admitted_or_completed(states[i], states[i + 1])
}

/// Admission traffic keeps the static account: each step preserves
/// well-formedness, the accounting flag, and the flavor, and never grows
/// the deficit.
pub proof fn lemma_step_preserves_account(pre: InnerPool, post: InnerPool)
    requires
        pre.wf(),
        pre.accounted@,
        admitted_or_completed(pre, post),
    ensures
        post.wf(),
        post.accounted@,
        post.deficit <= pre.deficit,
        post.flavor == pre.flavor,
{
    if !granted_one(pre, post) {
        let woken = choose|w: Option<u64>| returned_one(pre, post, w);
        assert(returned_one(pre, post, woken));
    }
}

/// Along any sequence of admit/complete steps the static account holds at
/// every state, with the deficit never above its starting value.
pub proof fn lemma_trace_keeps_account(states: Seq<InnerPool>)
    requires
        states.len() > 0,
        states[0].wf(),
        states[0].accounted@,
        admission_trace(states),
    ensures
        forall|i: int|
            0 <= i < states.len() ==> (#[trigger] states[i]).wf() && states[i].accounted@
                && states[i].deficit <= states[0].deficit && states[i].flavor
                == states[0].flavor,
    decreases states.len(),
{
    if states.len() > 1 {
        assert(admitted_or_completed(states[0], states[1]));
        lemma_step_preserves_account(states[0], states[1]);
        let sub = states.subrange(1, states.len() as int);
        assert(sub[0] == states[1]);
        assert(admission_trace(sub)) by {
            assert forall|i: int| 0 <= i < sub.len() - 1 implies #[trigger] admitted_or_completed(
                sub[i],
                sub[i + 1],
            ) by {
                assert(sub[i] == states[i + 1]);
                assert(sub[i + 1] == states[i + 2]);
                assert(admitted_or_completed(states[i + 1], states[i + 2]));
            }
        }
        lemma_trace_keeps_account(sub);
        assert forall|i: int| 0 <= i < states.len() implies (#[trigger] states[i]).wf()
            && states[i].accounted@ && states[i].deficit <= states[0].deficit && states[i].flavor
            == states[0].flavor by {
            if i > 0 {
                assert(states[i] == sub[i - 1]);
            }
        }
    }
}

/// For all sequences of admit/complete operations against a `Static(n)`
/// pool with no capacity changes, the number of concurrently admitted
/// (token-holding) operations never exceeds `n`.
pub proof fn lemma_trace_concurrency_bound(states: Seq<InnerPool>, n: nat)
    requires
        states.len() > 0,
        states[0].wf(),
        states[0].accounted@,
        states[0].deficit == 0,
        states[0].flavor.cap() == n,
        admission_trace(states),
    ensures
        forall|i: int| 0 <= i < states.len() ==> (#[trigger] states[i]).checked_out@ <= n,
{
    lemma_trace_keeps_account(states);
}

/// Through a static capacity change from `n` to `m`, every state the
/// admission traffic reaches afterwards keeps available plus checked-out
/// tokens within `max(n, m)`: the change leaves a deficit of at most
/// `n - m` (zero on growth), and admission traffic never grows it.
pub proof fn lemma_trace_transient_bound(states: Seq<InnerPool>, n: nat, m: nat)
    requires
        states.len() > 0,
        states[0].wf(),
        states[0].accounted@,
        states[0].flavor.cap() == m,
        n >= m ==> states[0].deficit <= n - m,
        n < m ==> states[0].deficit == 0,
        admission_trace(states),
    ensures
        forall|i: int|
            0 <= i < states.len() ==> (#[trigger] states[i]).token_counts + states[i].checked_out@
                <= (if n >= m {
                n
            } else {
                m
            }),
{
    lemma_trace_keeps_account(states);
}

/// While the static account is kept and no capacity shrink is outstanding,
/// the tokens checked out never exceed the static capacity: a `Static(n)`
/// pool admits at most `n` operations concurrently.
pub proof fn lemma_static_concurrency_bound(p: InnerPool)
    requires
        p.wf(),
        p.accounted@,
        p.deficit == 0,
    ensures
        p.checked_out@ <= p.flavor.cap(),
{
}

/// Once every pre-change holder has paid the deficit down, available plus
/// checked-out tokens equal the new static capacity exactly: steady-state
/// concurrency settles at the new cap.
pub proof fn lemma_capacity_settles(p: InnerPool)
    requires
        p.wf(),
        p.accounted@,
        p.deficit == 0,
    ensures
        p.token_counts + p.checked_out@ == p.flavor.cap(),
{
}

/// Through a static capacity change from `n` to the current cap `m`, the
/// transient total of available plus checked-out tokens never exceeds
/// `max(n, m)`: the change leaves a deficit of at most `n - m` (zero on
/// growth), and returns only shrink it.
pub proof fn lemma_rebalance_transient_bound(p: InnerPool, n: nat)
    requires
        p.wf(),
        p.accounted@,
        n >= p.flavor.cap() ==> p.deficit <= n - p.flavor.cap(),
        n < p.flavor.cap() ==> p.deficit == 0,
    ensures
        p.token_counts + p.checked_out@ <= (if n >= p.flavor.cap() {
            n
        } else {
            p.flavor.cap()
        }),
{
}

} // verus!
