use vstd::prelude::*;

verus! {

/// Mask of the bit that records permission to split to the left.
pub const LEFT_MASK: u8 = 0b1000;

/// Mask of the bit that records permission to split to the right.
pub const RIGHT_MASK: u8 = 0b0100;

/// Mask of the bit that records permission to split above.
pub const TOP_MASK: u8 = 0b0010;

/// Mask of the bit that records permission to split below.
pub const BOTTOM_MASK: u8 = 0b0001;

/// Mask of both horizontal bits.
pub const LEFT_RIGHT_MASK: u8 = 0b1100;

/// Mask of both vertical bits.
pub const TOP_BOTTOM_MASK: u8 = 0b0011;

/// Mask with all four direction bits set.
pub const ALL_MASK: u8 = 0b1111;

/// Mask with no direction bit set.
pub const NONE_MASK: u8 = 0b0000;

/// A split direction: the side of a docking region on which a new panel may
/// be placed.
#[derive(Copy, Clone, Debug, PartialEq, Eq, Structural)]
pub enum Split {
    Left,
    Right,
    Above,
    Below,
}

/// The one failure of this crate: a raw value outside `[0, 15]` was offered
/// as a packed permission set.
#[derive(Copy, Clone, Debug, PartialEq, Eq, Structural)]
pub struct InvalidEncoding;

/// Which directions a docking region may be split in.
///
/// Four independent flags, one per split direction, packed into the low four
/// bits of a `u8`: left `0b1000`, right `0b0100`, top `0b0010`, bottom
/// `0b0001`.  The high four bits are always clear.
#[derive(Copy, Clone, Debug, PartialEq, Eq, Structural)]
#[verifier::ext_equal]
pub struct AllowedSplits(u8);

impl AllowedSplits {
    /// The packed flag value.
    pub closed spec fn bits(self) -> u8 {
        self.0
    }

    /// Every value of this type keeps its high four bits clear.
    #[verifier::type_invariant]
    pub open spec fn wf(self) -> bool {
        self.bits() <= ALL_MASK
    }

    /// Whether splitting to the left is allowed.
    pub open spec fn spec_left(self) -> bool {
        (self.bits() & LEFT_MASK) != 0
    }

    /// Whether splitting to the right is allowed.
    pub open spec fn spec_right(self) -> bool {
        (self.bits() & RIGHT_MASK) != 0
    }

    /// Whether splitting above is allowed.
    pub open spec fn spec_top(self) -> bool {
        (self.bits() & TOP_MASK) != 0
    }

    /// Whether splitting below is allowed.
    pub open spec fn spec_bottom(self) -> bool {
        (self.bits() & BOTTOM_MASK) != 0
    }

    /// Whether at least one horizontal direction is allowed.
    pub open spec fn spec_left_or_right(self) -> bool {
        self.spec_left() || self.spec_right()
    }

    /// Whether at least one vertical direction is allowed.
    pub open spec fn spec_top_or_bottom(self) -> bool {
        self.spec_top() || self.spec_bottom()
    }

    /// Whether no direction at all is allowed.
    pub open spec fn spec_none(self) -> bool {
        self.bits() == NONE_MASK
    }

    /// Whether every direction is allowed.
    pub open spec fn spec_all(self) -> bool {
        self.bits() == ALL_MASK
    }

    /// Whether the given split direction is allowed.
    pub open spec fn spec_allowed(self, split: Split) -> bool {
        match split {
            Split::Left => self.spec_left(),
            Split::Right => self.spec_right(),
            Split::Above => self.spec_top(),
            Split::Below => self.spec_bottom(),
        }
    }

    /// The set allowing a direction exactly when both operands allow it.
    pub closed spec fn spec_intersect(self, rhs: Self) -> Self {
        AllowedSplits(self.bits() & rhs.bits())
    }

    /// The set allowing a direction exactly when either operand allows it.
    pub closed spec fn spec_union(self, rhs: Self) -> Self {
        AllowedSplits(self.bits() | rhs.bits())
    }

    /// Two permission sets are equal exactly when their packed values are.
    pub proof fn lemma_eq_iff_bits(a: Self, b: Self)
        ensures
            (a == b) <==> (a.bits() == b.bits()),
    {
        if a.bits() == b.bits() {
            assert(a =~= b);
        }
    }

    /// The packed value of an intersection is the bitwise and of the
    /// operands' packed values.
    pub proof fn lemma_intersect_bits(a: Self, b: Self)
        ensures
            a.spec_intersect(b).bits() == (a.bits() & b.bits()),
    {
    }

    /// The packed value of a union is the bitwise or of the operands'
    /// packed values.
    pub proof fn lemma_union_bits(a: Self, b: Self)
        ensures
            a.spec_union(b).bits() == (a.bits() | b.bits()),
    {
    }

    /// Build a set from its packed bit value; the four high bits must be
    /// clear.
    pub fn from_u8(bits: u8) -> (r: Self)
        requires
            bits <= ALL_MASK,
        ensures
            r.bits() == bits,
    {
        Self(bits)
    }

    /// Build a set from a packed bit value of unknown origin: any value
    /// above `ALL_MASK` is an invalid encoding and is rejected.
    pub fn try_from_u8(bits: u8) -> (r: Result<Self, InvalidEncoding>)
        ensures
            r is Ok <==> bits <= ALL_MASK,
            r is Err <==> bits > ALL_MASK,
            r matches Ok(s) ==> s.bits() == bits,
    {
        if bits <= ALL_MASK {
            Ok(Self(bits))
        } else {
            Err(InvalidEncoding)
        }
    }

    /// Are we allowed to split above?
    pub fn top(&self) -> (r: bool)
        ensures
            r == self.spec_top(),
    {
        (self.0 & TOP_MASK) != 0
    }

    /// Are we allowed to split below?
    pub fn bottom(&self) -> (r: bool)
        ensures
            r == self.spec_bottom(),
    {
        (self.0 & BOTTOM_MASK) != 0
    }

    /// Are we allowed to split vertically?
    pub fn top_or_bottom(&self) -> (r: bool)
        ensures
            r == self.spec_top_or_bottom(),
    {
        proof {
            let b = self.0;
            assert(((b & TOP_BOTTOM_MASK) != 0) == (((b & TOP_MASK) != 0) || ((b & BOTTOM_MASK)
                != 0))) by (bit_vector);
        }
        (self.0 & TOP_BOTTOM_MASK) != 0
    }

    /// Are we allowed to split left?
    pub fn left(&self) -> (r: bool)
        ensures
            r == self.spec_left(),
    {
        (self.0 & LEFT_MASK) != 0
    }

    /// Are we allowed to split right?
    pub fn right(&self) -> (r: bool)
        ensures
            r == self.spec_right(),
    {
        (self.0 & RIGHT_MASK) != 0
    }

    /// Are we allowed to split horizontally?
    pub fn left_or_right(&self) -> (r: bool)
        ensures
            r == self.spec_left_or_right(),
    {
        proof {
            let b = self.0;
            assert(((b & LEFT_RIGHT_MASK) != 0) == (((b & LEFT_MASK) != 0) || ((b & RIGHT_MASK)
                != 0))) by (bit_vector);
        }
        (self.0 & LEFT_RIGHT_MASK) != 0
    }

    /// Are all splits disallowed?
    pub fn none(&self) -> (r: bool)
        ensures
            r == self.spec_none(),
            r == !(self.spec_left() || self.spec_right() || self.spec_top()
                || self.spec_bottom()),
    {
        proof {
            use_type_invariant(&*self);
            let b = self.0;
            assert((b == NONE_MASK) == !(((b & LEFT_MASK) != 0) || ((b & RIGHT_MASK) != 0) || ((b
                & TOP_MASK) != 0) || ((b & BOTTOM_MASK) != 0))) by (bit_vector)
                requires
                    b <= ALL_MASK,
            ;
        }
        self.0 == NONE_MASK
    }

    /// Are all splits allowed?
    pub fn all(&self) -> (r: bool)
        ensures
            r == self.spec_all(),
            r == (self.spec_left() && self.spec_right() && self.spec_top()
                && self.spec_bottom()),
    {
        proof {
            use_type_invariant(&*self);
            let b = self.0;
            assert((b == ALL_MASK) == (((b & LEFT_MASK) != 0) && ((b & RIGHT_MASK) != 0) && ((b
                & TOP_MASK) != 0) && ((b & BOTTOM_MASK) != 0))) by (bit_vector)
                requires
                    b <= ALL_MASK,
            ;
        }
        self.0 == ALL_MASK
    }

    /// Is the given split direction allowed?
    pub fn allowed(&self, tree_split: &Split) -> (r: bool)
        ensures
            r == self.spec_allowed(*tree_split),
    {
        match tree_split {
            Split::Left => self.left(),
            Split::Right => self.right(),
            Split::Above => self.top(),
            Split::Below => self.bottom(),
        }
    }

    /// The intersection of two permission sets: a direction is allowed in
    /// the result exactly when both operands allow it.
    pub fn intersect(self, rhs: Self) -> (r: Self)
        ensures
            r == self.spec_intersect(rhs),
            r.bits() == (self.bits() & rhs.bits()),
            r.spec_left() == (self.spec_left() && rhs.spec_left()),
            r.spec_right() == (self.spec_right() && rhs.spec_right()),
            r.spec_top() == (self.spec_top() && rhs.spec_top()),
            r.spec_bottom() == (self.spec_bottom() && rhs.spec_bottom()),
    {
        proof {
            use_type_invariant(&self);
            use_type_invariant(&rhs);
            let a = self.0;
            let b = rhs.0;
            assert((a & b) <= ALL_MASK) by (bit_vector)
                requires
                    a <= ALL_MASK,
            ;
            assert((((a & b) & LEFT_MASK) != 0) == (((a & LEFT_MASK) != 0) && ((b & LEFT_MASK)
                != 0)) && (((a & b) & RIGHT_MASK) != 0) == (((a & RIGHT_MASK) != 0) && ((b
                & RIGHT_MASK) != 0)) && (((a & b) & TOP_MASK) != 0) == (((a & TOP_MASK) != 0) && ((b
                & TOP_MASK) != 0)) && (((a & b) & BOTTOM_MASK) != 0) == (((a & BOTTOM_MASK) != 0)
                && ((b & BOTTOM_MASK) != 0))) by (bit_vector);
        }
        Self(self.0 & rhs.0)
    }

    /// The union of two permission sets: a direction is allowed in the
    /// result exactly when either operand allows it.
    pub fn union(self, rhs: Self) -> (r: Self)
        ensures
            r == self.spec_union(rhs),
            r.bits() == (self.bits() | rhs.bits()),
            r.spec_left() == (self.spec_left() || rhs.spec_left()),
            r.spec_right() == (self.spec_right() || rhs.spec_right()),
            r.spec_top() == (self.spec_top() || rhs.spec_top()),
            r.spec_bottom() == (self.spec_bottom() || rhs.spec_bottom()),
    {
        proof {
            use_type_invariant(&self);
            use_type_invariant(&rhs);
            let a = self.0;
            let b = rhs.0;
            assert((a | b) <= ALL_MASK) by (bit_vector)
                requires
                    a <= ALL_MASK && b <= ALL_MASK,
            ;
            assert((((a | b) & LEFT_MASK) != 0) == (((a & LEFT_MASK) != 0) || ((b & LEFT_MASK)
                != 0)) && (((a | b) & RIGHT_MASK) != 0) == (((a & RIGHT_MASK) != 0) || ((b
                & RIGHT_MASK) != 0)) && (((a | b) & TOP_MASK) != 0) == (((a & TOP_MASK) != 0) || ((b
                & TOP_MASK) != 0)) && (((a | b) & BOTTOM_MASK) != 0) == (((a & BOTTOM_MASK) != 0)
                || ((b & BOTTOM_MASK) != 0))) by (bit_vector);
        }
        Self(self.0 | rhs.0)
    }

    /// In-place intersection, with the same meaning as [`Self::intersect`].
    pub fn intersect_assign(&mut self, rhs: Self)
        ensures
            *final(self) == old(self).spec_intersect(rhs),
            final(self).bits() == (old(self).bits() & rhs.bits()),
    {
        let cur = *self;
        *self = cur.intersect(rhs);
    }

    /// In-place union, with the same meaning as [`Self::union`].
    pub fn union_assign(&mut self, rhs: Self)
        ensures
            *final(self) == old(self).spec_union(rhs),
            final(self).bits() == (old(self).bits() | rhs.bits()),
    {
        let cur = *self;
        *self = cur.union(rhs);
    }
}

impl Default for AllowedSplits {
    /// The default permission set allows every split direction.
    fn default() -> (r: Self)
        ensures
            r.bits() == ALL_MASK,
    {
        AllowedSplits(ALL_MASK)
    }
}

} // verus!
