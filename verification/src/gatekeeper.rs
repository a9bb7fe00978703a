//! The public façade: constructs pools, issues admissions, owns policy and
//! lifecycle.
//!
//! The keeper runs no thread of its own. For a rate-based pool the driver
//! runs a loop that calls `regenerate_tick` once per interval and wakes the
//! handles it returns, stopping as soon as the tick reports that the flavor
//! is no longer rate-based or the pool is gone. The keeper's drop path calls
//! `close` (and `enter::depart`), so no waiter is left parked after the keeper
//! goes out of scope.

use vstd::prelude::*;

use crate::enter::{arrive, ExecContext};
use crate::inner::{woken_count, InnerPool};
use crate::pass::{Permit, Ticket};
use crate::{RatioType, SpinPolicy, TokenPolicy};

verus! {

/// The disciplines applied to subsequently admitted operations.
pub struct KeeperPolicy {
    pub token: TokenPolicy,
    pub spin: SpinPolicy,
}

impl Default for KeeperPolicy {
    fn default() -> (d: Self)
        ensures
            d.token is Preemptive,
            d.spin is InplaceWait,
    {
        KeeperPolicy { token: TokenPolicy::Preemptive, spin: SpinPolicy::InplaceWait }
    }
}

/// Whether a capacity change's counter arithmetic fits the machine: a
/// static growth must fit the token counter, a static shrink the deficit
/// counter.
pub open spec fn rebalance_fits(p: InnerPool, ratio: RatioType) -> bool {
    match (p.flavor, ratio) {
        (RatioType::Static(from), RatioType::Static(to)) => {
            &&& from < to ==> to - from <= usize::MAX - p.token_counts
            &&& from > to ==> from - to <= usize::MAX - p.deficit
        },
        _ => true,
    }
}

pub struct GateKeeper {
    pub inner: InnerPool,
    pub policy: KeeperPolicy,
}

impl GateKeeper {
    /// A gate over a fixed-capacity pool of `size` tokens. The pool id must
    /// be unique among concurrently live pools; it only identifies the pool
    /// in the execution context's admission set.
    pub fn new(size: usize, pool_id: u64, ctx: &mut ExecContext) -> (g: GateKeeper)
        requires
            size > 0,
            old(ctx).entered_count() < usize::MAX,
        ensures
            g.inner.pool_id == pool_id,
            !g.inner.closed,
            g.inner.token_counts == size,
            g.inner.deficit == 0,
            g.inner.waiting() == Seq::<u64>::empty(),
            g.inner.flavor == RatioType::Static(size),
            g.inner.checked_out@ == 0,
            g.inner.accounted@,
            g.inner.wf(),
            g.policy.token is Preemptive,
            g.policy.spin is InplaceWait,
            final (ctx).entered_count() == old(ctx).entered_count() + 1,
            final (ctx).admitted_ids() == old(ctx).admitted_ids(),
    {
        arrive(ctx);
        GateKeeper {
            inner: InnerPool::new(size, RatioType::Static(size), pool_id),
            policy: Default::default(),
        }
    }

    /// A gate over a rate-based pool: `count_per_interval` tokens become
    /// available at the beginning of every interval of `interval_ms`
    /// milliseconds. The driver must run the regeneration loop
    /// (`regenerate_tick`) for the pool.
    pub fn with_rate(count_per_interval: usize, interval_ms: u64, pool_id: u64, ctx: &mut ExecContext) -> (g:
        GateKeeper)
        requires
            count_per_interval > 0,
            old(ctx).entered_count() < usize::MAX,
        ensures
            g.inner.pool_id == pool_id,
            !g.inner.closed,
            g.inner.token_counts == count_per_interval,
            g.inner.deficit == 0,
            g.inner.waiting() == Seq::<u64>::empty(),
            g.inner.flavor == RatioType::FixedRate(count_per_interval, interval_ms),
            g.inner.checked_out@ == 0,
            !g.inner.accounted@,
            g.inner.wf(),
            g.policy.token is Preemptive,
            g.policy.spin is InplaceWait,
            final (ctx).entered_count() == old(ctx).entered_count() + 1,
            final (ctx).admitted_ids() == old(ctx).admitted_ids(),
    {
        arrive(ctx);
        GateKeeper {
            inner: InnerPool::new(
                count_per_interval,
                RatioType::FixedRate(count_per_interval, interval_ms),
                pool_id,
            ),
            policy: Default::default(),
        }
    }

    /// Gate one operation behind the pool with a `Permit`, the older
    /// single-step gate. Refused exactly when the pool is closed.
    pub fn register(&self) -> (r: Option<Permit>)
        ensures
            (r is Some) == !self.inner.closed,
            r matches Some(p) ==> !p.holding,
    {
        if self.is_closed() {
            return None;
        }
        Some(Permit::new())
    }

    /// Admit one operation: the ticket handed back is driven by the caller
    /// and carries the configured policy. Refused exactly when the pool is
    /// closed.
    pub fn issue(&self) -> (r: Option<Ticket>)
        ensures
            (r is Some) == !self.inner.closed,
            r matches Some(t) ==> t.owns_op == (self.policy.token is Cooperative)
                && !t.token_obtained && t.has_pool && t.pool_id == 0 && t.pending_count == 0
                && t.spin_policy == self.policy.spin,
    {
        if self.is_closed() {
            return None;
        }
        let mut ticket = match self.policy.token {
            TokenPolicy::Cooperative => Ticket::new(true),
            TokenPolicy::Preemptive => Ticket::new(false),
        };
        if self.policy.spin != SpinPolicy::InplaceWait {
            ticket.set_spin_policy(self.policy.spin);
        }
        Some(ticket)
    }

    /// Admit one operation whose outcome the driver reports as a `Result`
    /// with `InterruptedReason` on cancellation. The ticket always runs
    /// under the preemptive discipline; dropping it before completion is
    /// the cancellation path, and its drop guarantee returns any held
    /// token. Refused exactly when the pool is closed.
    pub fn issue_interruptable(&self) -> (r: Option<Ticket>)
        ensures
            (r is Some) == !self.inner.closed,
            r matches Some(t) ==> !t.owns_op && !t.token_obtained && t.has_pool && t.pool_id == 0
                && t.pending_count == 0 && t.spin_policy is InplaceWait,
    {
        if self.is_closed() {
            return None;
        }
        Some(Ticket::new(false))
    }

    /// Close the pool: no further admission succeeds, and every queued
    /// waiter is handed back to be woken.
    pub fn close(&mut self) -> (woken: Vec<u64>)
        ensures
            final (self).inner.closed,
            final (self).inner.waiting() == Seq::<u64>::empty(),
            woken@ == old(self).inner.waiting(),
            final (self).inner.pool_id == old(self).inner.pool_id,
            final (self).inner.token_counts == old(self).inner.token_counts,
            final (self).inner.deficit == old(self).inner.deficit,
            final (self).inner.flavor == old(self).inner.flavor,
            final (self).inner.checked_out == old(self).inner.checked_out,
            final (self).inner.accounted == old(self).inner.accounted,
            final (self).policy == old(self).policy,
            old(self).inner.wf() ==> final (self).inner.wf(),
    {
        self.inner.close()
    }

    pub fn is_closed(&self) -> (r: bool)
        ensures
            r == self.inner.closed,
    {
        self.inner.is_closed()
    }

    /// Change the capacity descriptor at runtime. A no-op on a closed
    /// pool. Static-to-static changes are rebalanced: a growth credits the
    /// difference at once and wakes as many waiters, a shrink is absorbed
    /// lazily through the deficit — in-flight holders are never revoked.
    /// A change to a rate flavor leaves the counters to the regeneration
    /// loop, which the driver starts when it sees the new flavor.
    pub fn set_ratio(&mut self, ratio: RatioType) -> (woken: Vec<u64>)
        requires
            rebalance_fits(old(self).inner, ratio),
        ensures
            final (self).policy == old(self).policy,
            final (self).inner.pool_id == old(self).inner.pool_id,
            final (self).inner.closed == old(self).inner.closed,
            final (self).inner.checked_out == old(self).inner.checked_out,
            old(self).inner.closed ==> *final (self) == *old(self) && woken@ == Seq::<u64>::empty(),
            !old(self).inner.closed ==> final (self).inner.flavor == ratio,
            // static to static: rebalance the counters, waking one waiter
            // per credited token
            old(self).inner.flavor matches RatioType::Static(from) ==> (ratio matches
            RatioType::Static(to) ==> (!old(self).inner.closed ==> ({
                &&& final (self).inner.accounted == old(self).inner.accounted
                &&& from < to ==> final (self).inner.token_counts == old(self).inner.token_counts
                    + (to - from) && final (self).inner.deficit == old(self).inner.deficit
                    && woken@ == old(self).inner.waiting().take(
                    woken_count((to - from) as nat, old(self).inner.waiting()),
                ) && final (self).inner.waiting() == old(self).inner.waiting().skip(
                    woken_count((to - from) as nat, old(self).inner.waiting()),
                )
                &&& from > to ==> final (self).inner.deficit == old(self).inner.deficit + (from
                    - to) && final (self).inner.token_counts == old(self).inner.token_counts
                    && final (self).inner.waiting() == old(self).inner.waiting() && woken@
                    == Seq::<u64>::empty()
                &&& from == to ==> final (self).inner.token_counts == old(self).inner.token_counts
                    && final (self).inner.deficit == old(self).inner.deficit && final (self).inner.waiting() == old(self).inner.waiting() && woken@ == Seq::<u64>::empty()
            }))),
            // any change through a rate flavor: counters untouched, static
            // account dropped
            (!old(self).inner.closed && !(old(self).inner.flavor is Static && ratio is Static))
                ==> final (self).inner.token_counts == old(self).inner.token_counts && final (self).inner.deficit == old(self).inner.deficit && final (self).inner.waiting() == old(self).inner.waiting() && woken@ == Seq::<u64>::empty() && !final (self).inner.accounted@,
            old(self).inner.wf() ==> final (self).inner.wf(),
    {
        if self.inner.is_closed() {
            return Vec::new();
        }
        let flavor = self.inner.get_flavor();
        self.inner.set_flavor(ratio);
        match (flavor, ratio) {
            (RatioType::Static(from), RatioType::Static(to)) => self.inner.static_rebalance(
                from,
                to,
            ),
            _ => {
                // on a change to a rate flavor the driver sees it and
                // starts the regeneration loop
                Vec::new()
            },
        }
    }

    pub fn set_token_policy(&mut self, policy: TokenPolicy)
        ensures
            final (self).policy.token == policy,
            final (self).policy.spin == old(self).policy.spin,
            final (self).inner == old(self).inner,
    {
        self.policy.token = policy;
    }

    pub fn set_spin_policy(&mut self, spin: SpinPolicy)
        ensures
            final (self).policy.spin == spin,
            final (self).policy.token == old(self).policy.token,
            final (self).inner == old(self).inner,
    {
        self.policy.spin = spin;
    }
}

/// Runtime reconfiguration of a gate.
pub trait GateKeeperConfig {
    /// Whether a capacity change's counter arithmetic fits the machine.
    spec fn ratio_fits(&self, ratio: RatioType) -> bool;

    /// Change the capacity descriptor; hands back the handles to wake.
    fn set_ratio(&mut self, ratio: RatioType) -> Vec<u64>
        requires
            old(self).ratio_fits(ratio),
    ;

    /// Change the token-holding discipline for subsequent admissions.
    fn set_token_policy(&mut self, policy: TokenPolicy);

    /// Change the back-off discipline for subsequent admissions.
    fn set_spin_policy(&mut self, spin: SpinPolicy);
}

impl GateKeeperConfig for GateKeeper {
    open spec fn ratio_fits(&self, ratio: RatioType) -> bool {
        rebalance_fits(self.inner, ratio)
    }

    fn set_ratio(&mut self, ratio: RatioType) -> Vec<u64> {
        GateKeeper::set_ratio(self, ratio)
    }

    fn set_token_policy(&mut self, policy: TokenPolicy) {
        GateKeeper::set_token_policy(self, policy)
    }

    fn set_spin_policy(&mut self, spin: SpinPolicy) {
        GateKeeper::set_spin_policy(self, spin)
    }
}

/// One interval step of the rate regeneration loop: while the pool's flavor
/// is still rate-based, reset the counter to the configured rate and hand
/// back up to that many waiters to wake; otherwise report that the loop
/// should end. The loop also ends when the pool itself is gone.
pub fn regenerate_tick(pool: &mut InnerPool) -> (r: (bool, Vec<u64>))
    ensures
        r.0 == (old(pool).flavor is FixedRate),
        old(pool).flavor matches RatioType::FixedRate(count, interval) ==> final (pool).token_counts == count && r.1@ == old(pool).waiting().take(
            woken_count(count as nat, old(pool).waiting()),
        ) && final (pool).waiting() == old(pool).waiting().skip(
            woken_count(count as nat, old(pool).waiting()),
        ) && final (pool).deficit == old(pool).deficit && final (pool).closed == old(pool).closed
            && final (pool).flavor == old(pool).flavor && final (pool).pool_id == old(pool).pool_id && final (pool).checked_out == old(pool).checked_out && final (pool).accounted
            == old(pool).accounted,
        !(old(pool).flavor is FixedRate) ==> *final (pool) == *old(pool) && r.1@
            == Seq::<u64>::empty(),
        old(pool).wf() ==> final (pool).wf(),
{
    match pool.get_flavor() {
        RatioType::FixedRate(count, _) => {
            let woken = pool.set_tokens(count);
            (true, woken)
        },
        _ => (false, Vec::new()),
    }
}

} // verus!
