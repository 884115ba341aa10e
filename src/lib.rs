//! A verified driver model for the region-descriptor memory protection unit
//! of a 32-bit microcontroller: the region table of one process, the
//! allocator that fills it, and the flush of that table into the register
//! block.

use vstd::prelude::*;

pub mod align;
pub mod registers;
pub mod region;
pub mod error;
pub mod config;
pub mod mpu;
pub mod writer;
pub mod laws;

verus! {

} // verus!
