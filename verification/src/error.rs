use vstd::prelude::*;

use crate::driver::DriverOp;

verus! {

/// Everything a graphics operation can fail with.
#[derive(Clone, Debug, PartialEq, Eq)]
pub enum GraphicsError {
    /// The driver function table was never handed to the service, so no
    /// native call can be made.
    NotInitialized,
    /// The native call itself signaled failure; carries the failing operation.
    DriverCallFailed(DriverOp),
    /// A file load or decode failed and the driver supplied a readable
    /// message, surfaced as-is.
    ResourceDecodeFailed(String),
    /// A file load or decode produced a null result with no message at all:
    /// an internal-consistency fault kept distinct from the messaged case.
    ResourceDecodeFailedSilently,
    /// A path held an interior nul byte and cannot cross the native boundary.
    InvalidPath,
    /// A caller-supplied handle is null or no longer live; it is rejected
    /// before it can reach a native call.
    InvalidHandle,
    /// A bitmap-table lookup named an index the native strip does not hold;
    /// carries the index and the strip's own handle, so diagnostics name
    /// which table refused it.
    IndexOutOfRange { index: usize, table: usize },
}

} // verus!
