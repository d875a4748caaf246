//! Seal for the bus interfaces of the magnetometer driver.
use vstd::prelude::*;

verus! {

/// Implemented only by the bus interfaces of this crate.
pub trait Sealed {}

} // verus!
