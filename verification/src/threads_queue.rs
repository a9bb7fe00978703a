//! The wait queue: an unbounded multi-producer/multi-consumer FIFO of
//! resumption handles, backed by `crossbeam_queue::SegQueue`.
//!
//! A handle is a plain `u64` chosen by the driver; the driver maps handles to
//! whatever wakes a suspended caller. The queue itself owns no tokens — it is
//! purely a notification channel, and a handle whose owner is gone is a
//! harmless no-op to wake.
//!
//! `SegQueue`'s operations take `&self` and mutate through interior
//! mutability, so no direct contract over its own type can speak of its
//! contents changing; the queue is therefore held in a field of an opaque
//! struct whose methods take `&mut self`.

use vstd::prelude::*;

verus! {

/// The handles of the callers waiting for a token, in arrival order.
#[verifier::external_body]
pub struct WaitingList {
    q: crossbeam_queue::SegQueue<u64>,
}

/// The handles a `WaitingList` holds, front first.
pub uninterp spec fn waiting_view(w: WaitingList) -> Seq<u64>;

impl WaitingList {
    /// Relies on `crossbeam_queue::SegQueue::new`: creates an empty queue.
    #[verifier::external_body]
    pub fn new() -> (w: WaitingList)
        ensures
            waiting_view(w) == Seq::<u64>::empty(),
    {
        WaitingList { q: crossbeam_queue::SegQueue::new() }
    }

    /// Relies on `crossbeam_queue::SegQueue::push`: appends the element at
    /// the tail of the queue.
    #[verifier::external_body]
    pub fn enqueue(&mut self, w: u64)
        ensures
            waiting_view(*final (self)) == waiting_view(*old(self)).push(w),
    {
        self.q.push(w);
    }

    /// Relies on `crossbeam_queue::SegQueue::pop`: removes and returns the
    /// head element, or `None` if the queue is empty.
    #[verifier::external_body]
    pub fn dequeue(&mut self) -> (r: Option<u64>)
        ensures
            (match r {
                Some(w) => waiting_view(*old(self)).len() > 0 && w == waiting_view(*old(self))[0]
                    && waiting_view(*final (self)) == waiting_view(*old(self)).subrange(
                    1,
                    waiting_view(*old(self)).len() as int,
                ),
                None => waiting_view(*old(self)).len() == 0 && waiting_view(*final (self))
                    == waiting_view(*old(self)),
            }),
    {
        self.q.pop()
    }
}

} // verus!
