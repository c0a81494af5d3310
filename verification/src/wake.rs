//! Cross-thread wake gate: one side blocks with a bounded timeout, the other
//! side wakes it.
//!
//! A wake with nobody parked is not lost: it makes the next park return at
//! once.  Callers always re-check their condition after waking, so a
//! spurious wake is harmless and a missed wake costs at most one timeout.

use vstd::prelude::*;

verus! {

/// `crossbeam_utils::sync::Parker`, a single-token thread parking primitive;
/// opaque here, trusted through the specifications below.
#[verifier::external_type_specification]
#[verifier::external_body]
pub struct ExParker(crossbeam_utils::sync::Parker);

/// `crossbeam_utils::sync::Unparker`, the waking side of a `Parker`.
#[verifier::external_type_specification]
#[verifier::external_body]
pub struct ExUnparker(crossbeam_utils::sync::Unparker);

/// Relies on `crossbeam_utils::sync::Parker::new`: creates a parker whose
/// token is initially absent.
pub assume_specification[ crossbeam_utils::sync::Parker::new ]() -> crossbeam_utils::sync::Parker;

/// Relies on `crossbeam_utils::sync::Parker::park_timeout`: blocks the
/// calling thread until the token is made available, but never longer than
/// the given timeout, then consumes the token if present.
pub assume_specification[ crossbeam_utils::sync::Parker::park_timeout ](
    parker: &crossbeam_utils::sync::Parker,
    timeout: core::time::Duration,
);

/// Relies on `crossbeam_utils::sync::Parker::unparker`: returns the waking
/// side associated with this parker.
pub assume_specification[ crossbeam_utils::sync::Parker::unparker ](
    parker: &crossbeam_utils::sync::Parker,
) -> &crossbeam_utils::sync::Unparker;

/// Relies on `crossbeam_utils::sync::Unparker::unpark`: atomically makes the
/// token available, waking the parked thread if there is one; never blocks.
pub assume_specification[ crossbeam_utils::sync::Unparker::unpark ](
    unparker: &crossbeam_utils::sync::Unparker,
);

/// Relies on std's `Duration::from_nanos`: a span of exactly the given
/// number of nanoseconds.
#[verifier::external_body]
pub(crate) fn duration_from_nanos(nanos: u64) -> core::time::Duration {
    core::time::Duration::from_nanos(nanos)
}

/// The session-owned wake capability: the application thread parks on it,
/// the callback running on the pacer thread wakes it.
pub struct WakeGate {
    parker: crossbeam_utils::sync::Parker,
}

impl WakeGate {
    /// A fresh gate with no wake pending.
    pub fn new() -> WakeGate {
        WakeGate { parker: crossbeam_utils::sync::Parker::new() }
    }

    /// Block the calling thread for at most `nanos` nanoseconds, or less if
    /// a wake arrives first.  The caller must re-check its condition after
    /// this returns: a timeout and a wake are indistinguishable on purpose.
    pub fn park_nanos(&self, nanos: u64) {
        self.parker.park_timeout(duration_from_nanos(nanos));
    }

    /// Wake the parked thread, if any; otherwise make the next park return
    /// at once.  Never blocks, so it is safe on the pacer thread.
    pub fn wake(&self) {
        self.parker.unparker().unpark();
    }
}

} // verus!
