//! Admission behavior of the keeper: static pools, reentrancy, closing.

use futures_rate::enter::ExecContext;
use futures_rate::gatekeeper::{GateKeeper, GateKeeperConfig};
use futures_rate::pass::{Ticket, TicketStep, TicketStub};
use futures_rate::{RatioType, SpinPolicy, TokenPolicy};

fn issue_and_poll(g: &mut GateKeeper, ctx: &mut ExecContext, waiter: u64) -> (Ticket, TicketStep) {
    let mut t = g.issue().expect("pool is open");
    let step = t.poll_admission(&mut g.inner, ctx, waiter);
    (t, step)
}

fn stub_of(step: TicketStep) -> TicketStub {
    match step {
        TicketStep::Issued(s) => s,
        _ => panic!("expected an issued stub"),
    }
}

#[test]
fn static_pool_grants_up_to_capacity() {
    let mut ctx = ExecContext::new();
    let mut g = GateKeeper::new(2, 1, &mut ctx);
    assert!(!g.is_closed());
    assert_eq!(g.inner.token_counts, 2);

    let mut ctx_a = ExecContext::new();
    let mut ctx_b = ExecContext::new();
    let mut ctx_c = ExecContext::new();

    let (_ta, step_a) = issue_and_poll(&mut g, &mut ctx_a, 10);
    let mut stub_a = stub_of(step_a);
    assert!(stub_a.owns_token);
    assert_eq!(g.inner.token_counts, 1);

    let (_tb, step_b) = issue_and_poll(&mut g, &mut ctx_b, 11);
    let mut stub_b = stub_of(step_b);
    assert!(stub_b.owns_token);
    assert_eq!(g.inner.token_counts, 0);

    // the third operation exceeds the capacity and must wait
    let (mut tc, step_c) = issue_and_poll(&mut g, &mut ctx_c, 12);
    assert!(matches!(step_c, TicketStep::Waiting));

    // a returned token wakes the queued waiter, FIFO
    let woken = stub_a.render_token(&mut g.inner, &mut ctx_a);
    assert_eq!(woken, Some(12));
    let step_c2 = tc.poll_admission(&mut g.inner, &mut ctx_c, 12);
    let mut stub_c = stub_of(step_c2);
    assert!(stub_c.owns_token);
    assert_eq!(g.inner.token_counts, 0);

    let _ = stub_b.render_token(&mut g.inner, &mut ctx_b);
    let _ = stub_c.render_token(&mut g.inner, &mut ctx_c);
    assert_eq!(g.inner.token_counts, 2);
}

#[test]
fn nested_admission_uses_one_token() {
    let mut ctx = ExecContext::new();
    let mut g = GateKeeper::new(1, 5, &mut ctx);

    // the outer operation takes the only token
    let (_outer, outer_step) = issue_and_poll(&mut g, &mut ctx, 20);
    let mut outer_stub = stub_of(outer_step);
    assert!(outer_stub.owns_token);
    assert_eq!(g.inner.token_counts, 0);

    // a nested admission in the same call tree passes without a second
    // token and without deadlocking
    let (_inner, inner_step) = issue_and_poll(&mut g, &mut ctx, 21);
    let mut inner_stub = stub_of(inner_step);
    assert!(!inner_stub.owns_token);
    assert_eq!(g.inner.token_counts, 0);

    // the nested stub returns nothing; the outer stub returns the one token
    assert_eq!(inner_stub.render_token(&mut g.inner, &mut ctx), None);
    assert_eq!(g.inner.token_counts, 0);
    let _ = outer_stub.render_token(&mut g.inner, &mut ctx);
    assert_eq!(g.inner.token_counts, 1);
}

#[test]
fn drop_path_returns_exactly_once() {
    let mut ctx = ExecContext::new();
    let mut g = GateKeeper::new(1, 3, &mut ctx);
    let (_t, step) = issue_and_poll(&mut g, &mut ctx, 30);
    let mut stub = stub_of(step);
    assert_eq!(g.inner.token_counts, 0);

    // first render returns the token; a second render moves nothing
    let _ = stub.render_token(&mut g.inner, &mut ctx);
    assert_eq!(g.inner.token_counts, 1);
    assert!(!stub.owns_token);
    let _ = stub.render_token(&mut g.inner, &mut ctx);
    assert_eq!(g.inner.token_counts, 1);
}

#[test]
fn ticket_drop_before_admission_owes_nothing() {
    let mut ctx = ExecContext::new();
    let mut g = GateKeeper::new(1, 4, &mut ctx);
    let _ = g.inner.request_token(true);
    let mut t = g.issue().expect("pool is open");
    let step = t.poll_admission(&mut g.inner, &mut ctx, 40);
    assert!(matches!(step, TicketStep::Waiting));

    // dropping a waiting ticket releases nothing: it holds nothing
    assert_eq!(t.render_token(&mut g.inner, &mut ctx), None);
    assert_eq!(g.inner.token_counts, 0);
}

#[test]
fn close_refuses_admissions_and_wakes_all_waiters() {
    let mut ctx = ExecContext::new();
    let mut g = GateKeeper::new(1, 6, &mut ctx);
    let _ = g.inner.request_token(true);

    let mut ctx_a = ExecContext::new();
    let mut ctx_b = ExecContext::new();
    let (_ta, sa) = issue_and_poll(&mut g, &mut ctx_a, 50);
    let (_tb, sb) = issue_and_poll(&mut g, &mut ctx_b, 51);
    assert!(matches!(sa, TicketStep::Waiting));
    assert!(matches!(sb, TicketStep::Waiting));

    let woken = g.close();
    assert_eq!(woken, vec![50, 51]);
    assert!(g.is_closed());

    // every subsequent admission attempt is refused
    assert!(g.issue().is_none());
    assert!(g.issue_interruptable().is_none());
    assert!(g.register().is_none());

    // close is idempotent
    let woken_again = g.close();
    assert!(woken_again.is_empty());
}

#[test]
fn issue_carries_the_configured_policy() {
    let mut ctx = ExecContext::new();
    let mut g = GateKeeper::new(1, 8, &mut ctx);

    let t = g.issue().expect("pool is open");
    assert!(!t.owns_op);
    assert_eq!(t.spin_policy, SpinPolicy::InplaceWait);

    g.set_token_policy(TokenPolicy::Cooperative);
    g.set_spin_policy(SpinPolicy::Yield);
    let t2 = g.issue().expect("pool is open");
    assert!(t2.owns_op);
    assert_eq!(t2.spin_policy, SpinPolicy::Yield);

    let t3 = g.issue_interruptable().expect("pool is open");
    assert!(!t3.owns_op);
}

#[test]
fn set_ratio_on_closed_pool_is_a_no_op() {
    let mut ctx = ExecContext::new();
    let mut g = GateKeeper::new(2, 9, &mut ctx);
    let _ = g.close();
    let woken = GateKeeperConfig::set_ratio(&mut g, RatioType::Static(5));
    assert!(woken.is_empty());
    assert_eq!(g.inner.token_counts, 2);
    assert_eq!(g.inner.flavor, RatioType::Static(2));
}
