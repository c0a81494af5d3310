//! Pixel-format conversion interface.
//!
//! Byte-layout conversion between the wire format and CPU-friendly frame
//! layouts is performed by the engine's own SIMD routines and is outside
//! this library; the trait records the interface a frame type offers.

use vstd::prelude::*;

verus! {

/// Conversion to and from the network (RFC 4175) byte layout.
pub trait ToRFC {
    /// Convert this layout to the network byte layout.
    fn to_rfc4175() -> () {
    }

    /// Convert the network byte layout to this layout.
    fn from_rfc4175() -> () {
    }
}

} // verus!
