use vstd::prelude::*;

use crate::allowed_splits::AllowedSplits;
use crate::allowed_splits::ALL_MASK;
use crate::allowed_splits::BOTTOM_MASK;
use crate::allowed_splits::LEFT_MASK;
use crate::allowed_splits::LEFT_RIGHT_MASK;
use crate::allowed_splits::NONE_MASK;
use crate::allowed_splits::RIGHT_MASK;
use crate::allowed_splits::TOP_BOTTOM_MASK;
use crate::allowed_splits::TOP_MASK;

verus! {

/// Allow splits in any direction (horizontal and vertical).
pub fn all() -> (r: AllowedSplits)
    ensures
        r.bits() == ALL_MASK,
{
    AllowedSplits::from_u8(ALL_MASK)
}

/// Don't allow splits at all.
pub fn none() -> (r: AllowedSplits)
    ensures
        r.bits() == NONE_MASK,
{
    AllowedSplits::from_u8(NONE_MASK)
}

/// Allow splitting to the left.
pub fn left() -> (r: AllowedSplits)
    ensures
        r.bits() == LEFT_MASK,
{
    AllowedSplits::from_u8(LEFT_MASK)
}

/// Allow splitting to the right.
pub fn right() -> (r: AllowedSplits)
    ensures
        r.bits() == RIGHT_MASK,
{
    AllowedSplits::from_u8(RIGHT_MASK)
}

/// Allow splits in horizontal directions.
pub fn left_right() -> (r: AllowedSplits)
    ensures
        r.bits() == LEFT_RIGHT_MASK,
{
    AllowedSplits::from_u8(LEFT_RIGHT_MASK)
}

/// Allow splitting up.
pub fn top() -> (r: AllowedSplits)
    ensures
        r.bits() == TOP_MASK,
{
    AllowedSplits::from_u8(TOP_MASK)
}

/// Allow splitting down.
pub fn bottom() -> (r: AllowedSplits)
    ensures
        r.bits() == BOTTOM_MASK,
{
    AllowedSplits::from_u8(BOTTOM_MASK)
}

/// Allow splits in vertical directions.
pub fn top_bottom() -> (r: AllowedSplits)
    ensures
        r.bits() == TOP_BOTTOM_MASK,
{
    AllowedSplits::from_u8(TOP_BOTTOM_MASK)
}

} // verus!
