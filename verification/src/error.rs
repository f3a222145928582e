//! What can go wrong when the register block is set up or accessed.

use vstd::prelude::*;

verus! {

/// Failure of an operation on the register block.
#[derive(Clone, Copy, Debug, PartialEq, Eq, Structural)]
pub enum GpioError {
    /// The mapped region is not exactly one register block long.
    BadLength,
    /// The register to access lies outside the mapped block.
    OutOfBounds,
}

} // verus!
