//! The integer side of masked mean pooling: how many token positions the
//! attention mask lets through, and the divisor that the mean uses.
use vstd::prelude::*;

verus! {

/// The sum of the attention-mask weights.
pub open spec fn mask_total(m: Seq<u32>) -> int
    decreases m.len(),
{
    if m.len() == 0 {
        0
    } else {
        mask_total(m.drop_last()) + m.last()
    }
}

/// The divisor of the mean: the mask's total, floored at one so that a fully
/// masked sequence divides by one and yields zeros.
pub open spec fn divisor_spec(m: Seq<u32>) -> int {
    if mask_total(m) < 1 {
        1
    } else {
        mask_total(m)
    }
}

/// A prefix of a mask never weighs more than the whole mask.
pub proof fn lemma_prefix_total_le(m: Seq<u32>, i: int)
    requires
        0 <= i <= m.len(),
    ensures
        mask_total(m.take(i)) <= mask_total(m),
    decreases m.len() - i,
{
    if i < m.len() {
        lemma_prefix_total_le(m, i + 1);
        assert(m.take(i + 1).drop_last() =~= m.take(i));
    } else {
        assert(m.take(i) =~= m);
    }
}

/// A mask with no weight: every position is masked out.
pub proof fn lemma_all_zero_divides_by_one(m: Seq<u32>)
    requires
        forall|i: int| 0 <= i < m.len() ==> m[i] == 0,
    ensures
        mask_total(m) == 0,
        divisor_spec(m) == 1,
    decreases m.len(),
{
    if m.len() > 0 {
        lemma_all_zero_divides_by_one(m.drop_last());
    }
}

/// The divisor that masked mean pooling uses for `mask`, or `None` when the
/// mask's total does not fit in a `u32`.
pub fn pooling_divisor(mask: &Vec<u32>) -> (r: Option<u32>)
    ensures
        r is Some <==> mask_total(mask@) <= u32::MAX,
        r matches Some(d) ==> d == divisor_spec(mask@),
{
    let mut acc: u64 = 0;
    let mut i: usize = 0;
    while i < mask.len()
        invariant
            0 <= i <= mask@.len(),
            acc == mask_total(mask@.take(i as int)),
            acc <= u32::MAX,
        decreases mask@.len() - i,
    {
        assert(mask@.take(i + 1).drop_last() =~= mask@.take(i as int));
        acc = acc + mask[i] as u64;
        i = i + 1;
        if acc > u32::MAX as u64 {
            proof {
                lemma_prefix_total_le(mask@, i as int);
            }
            return None;
        }
    }
    assert(mask@.take(i as int) =~= mask@);
    if acc == 0 {
        Some(1)
    } else {
        Some(acc as u32)
    }
}

} // verus!
