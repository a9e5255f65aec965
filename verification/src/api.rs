//! The part of the application's vocabulary that the characteristic client takes as input.

use vstd::prelude::*;

verus! {

/// How a value is written to the peripheral.
#[derive(Clone, Copy, Debug, PartialEq, Eq, Structural)]
pub enum WriteType {
    /// The peripheral acknowledges the write.
    WithResponse,
    /// The write is sent and not acknowledged.
    WithoutResponse,
}

} // verus!
