//! Corner radii in pixels. Bubbly means generous.

use vstd::prelude::*;

verus! {

pub const INPUT: u8 = 10;
pub const BUTTON: u8 = 12;
pub const CARD: u8 = 14;
pub const WINDOW: u8 = 16;

} // verus!
