//! Indices of general-purpose registers in a saved register file.
use vstd::prelude::*;

verus! {

pub const SP: usize = 2;

pub const A0: usize = 10;
pub const A1: usize = 11;
pub const A2: usize = 12;
pub const A3: usize = 13;
pub const A4: usize = 14;
pub const A5: usize = 15;
pub const A6: usize = 16;
pub const A7: usize = 17;

} // verus!
