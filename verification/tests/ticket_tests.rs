//! The cooperative ticket cycle, back-off escalation, the permit gate, the
//! execution context, and the exclusive-access scenario.

use futures_rate::enter::{arrive, depart, ExecContext};
use futures_rate::gatekeeper::GateKeeper;
use futures_rate::pass::{Backoff, GateEntry, Permit, TicketStep};
use futures_rate::{InterruptedReason, SpinPolicy, TokenPolicy};

#[test]
fn cooperative_ticket_releases_on_every_suspension() {
    let mut ctx = ExecContext::new();
    let mut g = GateKeeper::new(1, 1, &mut ctx);
    g.set_token_policy(TokenPolicy::Cooperative);

    let mut t = g.issue().expect("pool is open");
    let step = t.poll_admission(&mut g.inner, &mut ctx, 10);
    assert!(matches!(step, TicketStep::Run));
    assert!(t.token_obtained);
    assert_eq!(g.inner.token_counts, 0);

    // the operation suspends: the token goes back at once
    let (backoff, _woken) = t.op_pending(&mut g.inner, &mut ctx);
    assert!(matches!(backoff, Backoff::NoDelay));
    assert!(!t.token_obtained);
    assert_eq!(g.inner.token_counts, 1);

    // the next resumption re-requests the token
    let step = t.poll_admission(&mut g.inner, &mut ctx, 10);
    assert!(matches!(step, TicketStep::Run));
    assert_eq!(g.inner.token_counts, 0);

    // the operation completes: the token is held until the ticket is
    // dropped, then rendered exactly once
    let woken = t.render_token(&mut g.inner, &mut ctx);
    assert_eq!(woken, None);
    assert_eq!(g.inner.token_counts, 1);
}

#[test]
fn backoff_escalates_after_four_fruitless_suspensions() {
    let mut ctx = ExecContext::new();
    let mut g = GateKeeper::new(1, 2, &mut ctx);
    g.set_token_policy(TokenPolicy::Cooperative);

    let mut t = g.issue().expect("pool is open");
    for round in 1..=4u32 {
        let step = t.poll_admission(&mut g.inner, &mut ctx, 20);
        assert!(matches!(step, TicketStep::Run));
        let (backoff, _) = t.op_pending(&mut g.inner, &mut ctx);
        if round < 4 {
            assert!(matches!(backoff, Backoff::NoDelay));
        } else {
            // the fourth consecutive suspension crosses the threshold:
            // an in-place wait of 2^4 microseconds
            assert!(matches!(backoff, Backoff::SleepMicros(16)));
        }
    }
    assert_eq!(t.pending_count, 4);
}

#[test]
fn yield_policy_yields_instead_of_sleeping() {
    let mut ctx = ExecContext::new();
    let mut g = GateKeeper::new(1, 3, &mut ctx);
    g.set_token_policy(TokenPolicy::Cooperative);
    g.set_spin_policy(SpinPolicy::Yield);

    let mut t = g.issue().expect("pool is open");
    for _ in 0..4 {
        let step = t.poll_admission(&mut g.inner, &mut ctx, 30);
        assert!(matches!(step, TicketStep::Run));
        let (backoff, _) = t.op_pending(&mut g.inner, &mut ctx);
        let _ = backoff;
    }
    let step = t.poll_admission(&mut g.inner, &mut ctx, 30);
    assert!(matches!(step, TicketStep::Run));
    let (backoff, _) = t.op_pending(&mut g.inner, &mut ctx);
    assert!(matches!(backoff, Backoff::Yield));
}

#[test]
fn no_spin_policy_never_waits_and_never_counts() {
    let mut ctx = ExecContext::new();
    let mut g = GateKeeper::new(1, 4, &mut ctx);
    g.set_token_policy(TokenPolicy::Cooperative);
    g.set_spin_policy(SpinPolicy::NoSpin);

    let mut t = g.issue().expect("pool is open");
    for _ in 0..12 {
        let step = t.poll_admission(&mut g.inner, &mut ctx, 40);
        assert!(matches!(step, TicketStep::Run));
        let (backoff, _) = t.op_pending(&mut g.inner, &mut ctx);
        assert!(matches!(backoff, Backoff::NoDelay));
    }
    assert_eq!(t.pending_count, 0);
}

#[test]
fn pending_count_wraps_back_to_four() {
    let mut ctx = ExecContext::new();
    let mut g = GateKeeper::new(1, 5, &mut ctx);
    g.set_token_policy(TokenPolicy::Cooperative);

    let mut t = g.issue().expect("pool is open");
    // ten consecutive fruitless suspensions reach the reset threshold
    for _ in 0..10 {
        let step = t.poll_admission(&mut g.inner, &mut ctx, 50);
        assert!(matches!(step, TicketStep::Run));
        let (_, _) = t.op_pending(&mut g.inner, &mut ctx);
    }
    // the tenth crossed the cap, so the streak winds back to four
    assert_eq!(t.pending_count, 4);
}

#[test]
fn permit_gates_one_step_and_returns_the_token() {
    let mut ctx = ExecContext::new();
    let mut g = GateKeeper::new(1, 6, &mut ctx);
    let mut p = g.register().expect("pool is open");

    let entry = p.poll_enter(&mut g.inner, &mut ctx);
    assert!(matches!(entry, GateEntry::Entered));
    assert!(p.holding);
    assert_eq!(g.inner.token_counts, 0);

    // while the permit is inside, a sibling permit is blocked
    let mut ctx2 = ExecContext::new();
    let mut p2 = g.register().expect("pool is open");
    let entry2 = p2.poll_enter(&mut g.inner, &mut ctx2);
    assert!(matches!(entry2, GateEntry::Blocked));

    // ... but a nested permit in the same call tree passes for free
    let mut p3 = g.register().expect("pool is open");
    let entry3 = p3.poll_enter(&mut g.inner, &mut ctx);
    assert!(matches!(entry3, GateEntry::Entered));
    assert!(!p3.holding);
    assert_eq!(p3.poll_exit(&mut g.inner, &mut ctx), None);

    let _ = p.poll_exit(&mut g.inner, &mut ctx);
    assert!(!p.holding);
    assert_eq!(g.inner.token_counts, 1);
}

#[test]
fn exclusive_access_under_a_pool_of_one() {
    // pool of size 1, two operations driven in alternating interleavings:
    // the shared flag is never seen held by both at once
    for trial in 0..10_000u32 {
        let mut ctx_a = ExecContext::new();
        let mut ctx_b = ExecContext::new();
        let mut g = GateKeeper::new(1, 1, &mut ctx_a);

        let mut in_critical_a = false;
        let mut in_critical_b = false;

        let mut ta = g.issue().expect("pool is open");
        let mut tb = g.issue().expect("pool is open");

        let a_first = trial % 2 == 0;
        let (first_step, second_step) = if a_first {
            let sa = ta.poll_admission(&mut g.inner, &mut ctx_a, 1);
            let sb = tb.poll_admission(&mut g.inner, &mut ctx_b, 2);
            (sa, sb)
        } else {
            let sb = tb.poll_admission(&mut g.inner, &mut ctx_b, 2);
            let sa = ta.poll_admission(&mut g.inner, &mut ctx_a, 1);
            (sb, sa)
        };

        let mut first_stub = match first_step {
            TicketStep::Issued(s) => s,
            _ => panic!("the first operation must be admitted"),
        };
        assert!(matches!(second_step, TicketStep::Waiting));

        // the admitted operation holds the critical section alone
        if a_first {
            in_critical_a = true;
        } else {
            in_critical_b = true;
        }
        assert!(!(in_critical_a && in_critical_b));

        // it finishes; the waiter is woken and takes its turn
        if a_first {
            in_critical_a = false;
            let woken = first_stub.render_token(&mut g.inner, &mut ctx_a);
            assert_eq!(woken, Some(2));
            let s = tb.poll_admission(&mut g.inner, &mut ctx_b, 2);
            let mut stub_b = match s {
                TicketStep::Issued(s) => s,
                _ => panic!("the woken operation must be admitted"),
            };
            in_critical_b = true;
            assert!(!(in_critical_a && in_critical_b));
            in_critical_b = false;
            let _ = stub_b.render_token(&mut g.inner, &mut ctx_b);
        } else {
            in_critical_b = false;
            let woken = first_stub.render_token(&mut g.inner, &mut ctx_b);
            assert_eq!(woken, Some(1));
            let s = ta.poll_admission(&mut g.inner, &mut ctx_a, 1);
            let mut stub_a = match s {
                TicketStep::Issued(s) => s,
                _ => panic!("the woken operation must be admitted"),
            };
            in_critical_a = true;
            assert!(!(in_critical_a && in_critical_b));
            in_critical_a = false;
            let _ = stub_a.render_token(&mut g.inner, &mut ctx_a);
        }
        assert_eq!(g.inner.token_counts, 1);
    }
}

#[test]
fn execution_context_counts_gates() {
    let mut ctx = ExecContext::new();
    assert!(!futures_rate::enter::test(&ctx));
    arrive(&mut ctx);
    assert!(futures_rate::enter::test(&ctx));
    arrive(&mut ctx);
    depart(&mut ctx);
    assert!(futures_rate::enter::test(&ctx));
    depart(&mut ctx);
    assert!(!futures_rate::enter::test(&ctx));
}

#[test]
fn interrupted_reason_is_cancelled() {
    // the interruptible variant's only distinguished outcome
    let reason = InterruptedReason::Cancelled;
    assert_eq!(reason, InterruptedReason::Cancelled);
}
