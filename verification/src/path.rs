//! Failures of turning a byte buffer into a path.

use vstd::prelude::*;

verus! {

/// Why a byte buffer was rejected as a path.
#[derive(Clone, Copy, Debug, PartialEq, Eq, Structural)]
pub enum Error {
    /// The buffer holds a byte outside ASCII.
    NotAscii,
    /// The buffer is not a NUL-terminated string.
    NotCStr,
    /// The buffer is longer than the engine can address.
    TooLarge,
}

} // verus!
