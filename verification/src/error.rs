//! Error kinds surfaced by sessions and the format catalog.

use vstd::prelude::*;

verus! {

/// What went wrong in a session operation or a format lookup.
///
/// `CreationFailure` is fatal (malformed configuration); `SizeMismatch` is a
/// caller bug; `NoFreeFrames`, `NoFrameAvailable` and `Timeout` are transient
/// backpressure, recoverable by waiting and retrying; `Busy` tells the engine
/// that a received frame must be dropped because the ring is saturated;
/// `OwnershipViolation` reports a slot tag inconsistent with the expected
/// protocol step, without ever unwinding into the pacer thread.
#[derive(Copy, Clone, Debug, PartialEq, Eq, Structural)]
pub enum SessionError {
    /// Session creation failed: malformed configuration, an unknown net
    /// device, or a session that was already created.
    CreationFailure,
    /// The operation was called on a session whose mode does not support it,
    /// or on a session that has not been created yet.
    InvalidHandle,
    /// The supplied buffer does not equal the computed frame size.
    SizeMismatch,
    /// No slot is tagged `Free`: the ring is saturated with frames the engine
    /// has not drained yet.
    NoFreeFrames,
    /// No frame is ready to be handed out.
    NoFrameAvailable,
    /// The receive ring is saturated; the incoming frame is dropped.
    Busy,
    /// A callback observed a slot tag inconsistent with the protocol step.
    OwnershipViolation,
    /// A blocking checkout from the engine-owned pool timed out.
    Timeout,
    /// The format tag is not in the catalog.
    UnsupportedFormat,
}

} // verus!
