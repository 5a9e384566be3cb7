use vstd::prelude::*;

use crate::allowed_splits::AllowedSplits;
use crate::allowed_splits::ALL_MASK;
use crate::allowed_splits::BOTTOM_MASK;
use crate::allowed_splits::LEFT_MASK;
use crate::allowed_splits::NONE_MASK;
use crate::allowed_splits::RIGHT_MASK;
use crate::allowed_splits::TOP_MASK;

verus! {

/// The packed value that encodes the four given direction flags.
pub open spec fn packed(left: bool, right: bool, top: bool, bottom: bool) -> u8 {
    (if left {
        LEFT_MASK
    } else {
        0
    }) | (if right {
        RIGHT_MASK
    } else {
        0
    }) | (if top {
        TOP_MASK
    } else {
        0
    }) | (if bottom {
        BOTTOM_MASK
    } else {
        0
    })
}

/// A permission set round-trips through its four direction predicates: they
/// exactly reconstruct the packed value it was built from.
pub proof fn lemma_predicates_determine_bits(s: AllowedSplits)
    requires
        s.wf(),
    ensures
        s.bits() == packed(s.spec_left(), s.spec_right(), s.spec_top(), s.spec_bottom()),
{
    let b = s.bits();
    assert(b == ((if (b & LEFT_MASK) != 0 {
        LEFT_MASK
    } else {
        0
    }) | (if (b & RIGHT_MASK) != 0 {
        RIGHT_MASK
    } else {
        0
    }) | (if (b & TOP_MASK) != 0 {
        TOP_MASK
    } else {
        0
    }) | (if (b & BOTTOM_MASK) != 0 {
        BOTTOM_MASK
    } else {
        0
    }))) by (bit_vector)
        requires
            b <= ALL_MASK,
    ;
}

/// Intersection is commutative.
pub proof fn lemma_intersect_comm(a: AllowedSplits, b: AllowedSplits)
    ensures
        a.spec_intersect(b) == b.spec_intersect(a),
{
    let x = a.bits();
    let y = b.bits();
    assert((x & y) == (y & x)) by (bit_vector);
    AllowedSplits::lemma_intersect_bits(a, b);
    AllowedSplits::lemma_intersect_bits(b, a);
    AllowedSplits::lemma_eq_iff_bits(a.spec_intersect(b), b.spec_intersect(a));
}

/// Union is commutative.
pub proof fn lemma_union_comm(a: AllowedSplits, b: AllowedSplits)
    ensures
        a.spec_union(b) == b.spec_union(a),
{
    let x = a.bits();
    let y = b.bits();
    assert((x | y) == (y | x)) by (bit_vector);
    AllowedSplits::lemma_union_bits(a, b);
    AllowedSplits::lemma_union_bits(b, a);
    AllowedSplits::lemma_eq_iff_bits(a.spec_union(b), b.spec_union(a));
}

/// Intersection is associative.
pub proof fn lemma_intersect_assoc(a: AllowedSplits, b: AllowedSplits, c: AllowedSplits)
    ensures
        a.spec_intersect(b).spec_intersect(c) == a.spec_intersect(b.spec_intersect(c)),
{
    let x = a.bits();
    let y = b.bits();
    let z = c.bits();
    assert(((x & y) & z) == (x & (y & z))) by (bit_vector);
    AllowedSplits::lemma_intersect_bits(a, b);
    AllowedSplits::lemma_intersect_bits(a.spec_intersect(b), c);
    AllowedSplits::lemma_intersect_bits(b, c);
    AllowedSplits::lemma_intersect_bits(a, b.spec_intersect(c));
    AllowedSplits::lemma_eq_iff_bits(
        a.spec_intersect(b).spec_intersect(c),
        a.spec_intersect(b.spec_intersect(c)),
    );
}

/// Union is associative.
pub proof fn lemma_union_assoc(a: AllowedSplits, b: AllowedSplits, c: AllowedSplits)
    ensures
        a.spec_union(b).spec_union(c) == a.spec_union(b.spec_union(c)),
{
    let x = a.bits();
    let y = b.bits();
    let z = c.bits();
    assert(((x | y) | z) == (x | (y | z))) by (bit_vector);
    AllowedSplits::lemma_union_bits(a, b);
    AllowedSplits::lemma_union_bits(a.spec_union(b), c);
    AllowedSplits::lemma_union_bits(b, c);
    AllowedSplits::lemma_union_bits(a, b.spec_union(c));
    AllowedSplits::lemma_eq_iff_bits(
        a.spec_union(b).spec_union(c),
        a.spec_union(b.spec_union(c)),
    );
}

/// Intersection is idempotent.
pub proof fn lemma_intersect_idem(a: AllowedSplits)
    ensures
        a.spec_intersect(a) == a,
{
    let x = a.bits();
    assert((x & x) == x) by (bit_vector);
    AllowedSplits::lemma_intersect_bits(a, a);
    AllowedSplits::lemma_eq_iff_bits(a.spec_intersect(a), a);
}

/// Union is idempotent.
pub proof fn lemma_union_idem(a: AllowedSplits)
    ensures
        a.spec_union(a) == a,
{
    let x = a.bits();
    assert((x | x) == x) by (bit_vector);
    AllowedSplits::lemma_union_bits(a, a);
    AllowedSplits::lemma_eq_iff_bits(a.spec_union(a), a);
}

/// The empty set is the identity of union.
pub proof fn lemma_union_identity(a: AllowedSplits, z: AllowedSplits)
    requires
        z.bits() == NONE_MASK,
    ensures
        a.spec_union(z) == a,
{
    let x = a.bits();
    assert((x | NONE_MASK) == x) by (bit_vector);
    AllowedSplits::lemma_union_bits(a, z);
    AllowedSplits::lemma_eq_iff_bits(a.spec_union(z), a);
}

/// The full set absorbs union.
pub proof fn lemma_union_absorbing(a: AllowedSplits, f: AllowedSplits)
    requires
        a.wf(),
        f.bits() == ALL_MASK,
    ensures
        a.spec_union(f) == f,
{
    let x = a.bits();
    assert((x | ALL_MASK) == ALL_MASK) by (bit_vector)
        requires
            x <= ALL_MASK,
    ;
    AllowedSplits::lemma_union_bits(a, f);
    AllowedSplits::lemma_eq_iff_bits(a.spec_union(f), f);
}

/// The full set is the identity of intersection.
pub proof fn lemma_intersect_identity(a: AllowedSplits, f: AllowedSplits)
    requires
        a.wf(),
        f.bits() == ALL_MASK,
    ensures
        a.spec_intersect(f) == a,
{
    let x = a.bits();
    assert((x & ALL_MASK) == x) by (bit_vector)
        requires
            x <= ALL_MASK,
    ;
    AllowedSplits::lemma_intersect_bits(a, f);
    AllowedSplits::lemma_eq_iff_bits(a.spec_intersect(f), a);
}

/// The empty set absorbs intersection.
pub proof fn lemma_intersect_absorbing(a: AllowedSplits, z: AllowedSplits)
    requires
        z.bits() == NONE_MASK,
    ensures
        a.spec_intersect(z) == z,
{
    let x = a.bits();
    assert((x & NONE_MASK) == NONE_MASK) by (bit_vector);
    AllowedSplits::lemma_intersect_bits(a, z);
    AllowedSplits::lemma_eq_iff_bits(a.spec_intersect(z), z);
}

} // verus!
