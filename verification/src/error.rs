//! The closed set of failure kinds shared by every component of the layer.

use vstd::prelude::*;

verus! {

/// Why a command builder or a response parser refused its input.
///
/// Errors are surfaced verbatim to the caller; nothing in this layer
/// retries or recovers, and no partial frame is ever observable after a
/// failure.
#[derive(Clone, Copy, Debug, PartialEq, Eq, Structural)]
pub enum Error {
    /// A structurally invalid argument: an unsupported zone for an
    /// operation, a slot not eligible for the requested use, an address
    /// component outside the zone's legal range.
    BadParam,
    /// A payload or response buffer whose length does not match the size
    /// the protocol requires for that operation.
    InvalidSize,
    /// The operation is part of the chip's instruction set but not yet
    /// supported by this layer.
    Unimplemented,
}

} // verus!
