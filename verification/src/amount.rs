//! 256-bit unsigned amounts, held as four 64-bit limbs.

use vstd::prelude::*;

verus! {

/// A 256-bit unsigned integer, least significant limb first.
#[derive(Clone, Copy, Debug)]
pub struct U256 {
    pub limbs: [u64; 4],
}

/// 2 to the power 64.
pub open spec fn limb_base() -> int {
    0x1_0000_0000_0000_0000
}

/// The number that limbs `l0` (least significant) to `l3` denote.
pub open spec fn limbs_value(l0: u64, l1: u64, l2: u64, l3: u64) -> int {
    l0 + limb_base() * (l1 + limb_base() * (l2 + limb_base() * l3))
}

impl U256 {
    /// The number this value denotes.
    pub open spec fn value(self) -> int {
        limbs_value(self.limbs[0], self.limbs[1], self.limbs[2], self.limbs[3])
    }

    /// Whether `self` is less than `other`.
    pub fn lt(&self, other: &U256) -> (r: bool)
        ensures
            r == (self.value() < other.value()),
    {
        let a = self.limbs;
        let b = other.limbs;
        proof {
            lemma_limbs_order(a[0], a[1], a[2], a[3], b[0], b[1], b[2], b[3]);
        }
        if a[3] != b[3] {
            a[3] < b[3]
        } else if a[2] != b[2] {
            a[2] < b[2]
        } else if a[1] != b[1] {
            a[1] < b[1]
        } else {
            a[0] < b[0]
        }
    }
}

proof fn lemma_limb_step(lo_a: int, lo_b: int, hi_a: int, hi_b: int)
    requires
        0 <= lo_a < limb_base(),
        0 <= lo_b < limb_base(),
        0 <= hi_a,
        0 <= hi_b,
    ensures
        hi_a < hi_b ==> lo_a + limb_base() * hi_a < lo_b + limb_base() * hi_b,
        hi_a == hi_b ==> (lo_a + limb_base() * hi_a < lo_b + limb_base() * hi_b <==> lo_a < lo_b),
{
    if hi_a < hi_b {
        assert(limb_base() * hi_a + limb_base() <= limb_base() * hi_b) by (nonlinear_arith)
            requires
                hi_a < hi_b,
                limb_base() > 0,
        ;
    }
}

proof fn lemma_upper_value_nonneg(l1: u64, l2: u64, l3: u64)
    ensures
        0 <= l2 + limb_base() * l3,
        0 <= l1 + limb_base() * (l2 + limb_base() * l3),
{
    assert(0 <= limb_base() * l3) by (nonlinear_arith)
        requires
            limb_base() > 0,
    ;
    assert(0 <= limb_base() * (l2 + limb_base() * l3)) by (nonlinear_arith)
        requires
            limb_base() > 0,
            0 <= l2 + limb_base() * l3,
    ;
}

proof fn lemma_limbs_order(a0: u64, a1: u64, a2: u64, a3: u64, b0: u64, b1: u64, b2: u64, b3: u64)
    ensures
        a3 != b3 ==> (limbs_value(a0, a1, a2, a3) < limbs_value(b0, b1, b2, b3) <==> a3 < b3),
        a3 == b3 && a2 != b2 ==> (limbs_value(a0, a1, a2, a3) < limbs_value(b0, b1, b2, b3) <==> a2 < b2),
        a3 == b3 && a2 == b2 && a1 != b1 ==> (limbs_value(a0, a1, a2, a3) < limbs_value(b0, b1, b2, b3) <==> a1 < b1),
        a3 == b3 && a2 == b2 && a1 == b1 ==> (limbs_value(a0, a1, a2, a3) < limbs_value(b0, b1, b2, b3) <==> a0 < b0),
{
    lemma_upper_value_nonneg(a1, a2, a3);
    lemma_upper_value_nonneg(b1, b2, b3);
    // the top limb against the three below it
    let ua2 = a2 + limb_base() * a3;
    let ub2 = b2 + limb_base() * b3;
    lemma_limb_step(a2 as int, b2 as int, a3 as int, b3 as int);
    let ua1 = a1 + limb_base() * ua2;
    let ub1 = b1 + limb_base() * ub2;
    lemma_limb_step(a1 as int, b1 as int, ua2, ub2);
    lemma_limb_step(a0 as int, b0 as int, ua1, ub1);
}

} // verus!
