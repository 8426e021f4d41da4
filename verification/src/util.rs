//! The estimate of when a height is reached, under its short path.

use vstd::prelude::*;
use crate::helpers::estimate_text;

verus! {

/// Says when `block_height` will be reached, given the current `tip_height`:
/// in minutes up to five blocks, in hours and minutes up to a day, in days
/// and hours beyond, with nothing rounded up.
pub fn height_to_est(block_height: u32, tip_height: u32) -> (est: String)
    ensures
        est@ == estimate_text(block_height, tip_height),
{
    crate::helpers::height_to_est(block_height, tip_height)
}

} // verus!
