//! An admission-control primitive for cooperatively scheduled work: a bounded
//! pool of tokens gates how many logical operations may be active at once,
//! either under a fixed cap or refilled at a fixed rate.
//!
//! The crate holds the token accounting and the admission state machines as
//! plain state-transition functions. A driver (an executor, a background
//! thread) owns the pool, advances tickets one step at a time, performs the
//! wake-ups and back-off waits that the transition functions hand back as
//! values, and runs the gated operations themselves.

use vstd::prelude::*;

pub mod enter;
pub mod gatekeeper;
pub mod inner;
pub mod pass;
pub mod threads_queue;

pub use gatekeeper::{GateKeeper, GateKeeperConfig};
pub use pass::Permit;

verus! {

/// How the pool's capacity is replenished.
#[derive(Debug, Copy, Clone, PartialEq, Eq, Structural)]
pub enum RatioType {
    /// A cap on the maximum number of tokens available at any given time.
    Static(usize),
    /// A fixed number of tokens that becomes available at the beginning of
    /// every interval (given in milliseconds). This number does *not* count
    /// or include tokens not yet returned by their holders.
    FixedRate(usize, u64),
}

impl RatioType {
    /// The number of tokens the capacity descriptor names.
    pub open spec fn cap(self) -> nat {
        match self {
            RatioType::Static(n) => n as nat,
            RatioType::FixedRate(n, _) => n as nat,
        }
    }

    pub fn is_static_ratio(&self) -> (r: bool)
        ensures
            r == (*self is Static),
    {
        match self {
            RatioType::Static(_) => true,
            RatioType::FixedRate(_, _) => false,
        }
    }
}

/// Why a gated operation ended without its own result.
#[derive(Debug, Copy, Clone, PartialEq, Eq, Structural)]
pub enum InterruptedReason {
    Cancelled,
}

/// The token-holding discipline of admitted operations.
#[derive(Debug, Copy, Clone, PartialEq, Eq, Structural)]
pub enum TokenPolicy {
    /// The owner holds the token until the operation has run to the end; the
    /// token is not returned when the operation merely suspends.
    Preemptive,
    /// The owner returns the token at its first chance, that is whenever the
    /// operation suspends, and re-requests one on the next resumption.
    Cooperative,
}

/// The back-off discipline while an admitted operation keeps suspending
/// without progress.
#[derive(Debug, Copy, Clone, PartialEq, Eq, Structural)]
pub enum SpinPolicy {
    /// Never wait: every resumption may poll again at once.
    NoSpin,
    /// Hand the processor over once the suspend streak grows long.
    Yield,
    /// Wait in place for an exponentially growing number of microseconds.
    InplaceWait,
}

} // verus!
