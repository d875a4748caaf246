//! Marker types for the operating mode of the magnetometer driver.
use vstd::prelude::*;

verus! {

/// Marker type for magnetometer in one-shot (single) mode.
#[derive(Debug)]
pub struct OneShot;

/// Marker type for magnetometer in continuous mode.
#[derive(Debug)]
pub struct Continuous;

} // verus!
