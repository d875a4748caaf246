//! Seal for the states of the pressure sensor driver.
use vstd::prelude::*;

verus! {

/// Implemented only by the driver states of this module.
pub trait Sealed {}

} // verus!
