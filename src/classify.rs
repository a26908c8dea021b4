use vstd::prelude::*;

use crate::ranges::{cjk_ranges, in_range, lemma_table_separated, range_table, RANGE_COUNT};

verus! {

/// A code point is CJK when it lies within at least one range of the table.
pub open spec fn is_cjk_value(v: int) -> bool {
    exists|i: int| 0 <= i < cjk_ranges().len() && in_range(#[trigger] cjk_ranges()[i], v)
}

/// Classifies any 32-bit value, whether or not it is a valid Unicode scalar value:
/// true exactly when it lies within one of the CJK ranges.
pub fn code_point_is_cjk(v: u32) -> (r: bool)
    ensures
        r == is_cjk_value(v as int),
{
    let t = range_table();
    let mut i: usize = 0;
    while i < RANGE_COUNT
        invariant
            i <= RANGE_COUNT,
            t@ == cjk_ranges(),
            forall|j: int| 0 <= j < i ==> !in_range(#[trigger] cjk_ranges()[j], v as int),
        decreases RANGE_COUNT - i,
    {
        let (low, high) = t[i];
        if low <= v && v <= high {
            assert(t@[i as int] == (low, high));
            assert(in_range(cjk_ranges()[i as int], v as int));
            return true;
        }
        i += 1;
    }
    false
}

/// Whether the character belongs to the CJK scripts, symbols and compatibility forms.
pub fn is_cjk(c: char) -> (r: bool)
    ensures
        r == is_cjk_value(c as int),
{
    code_point_is_cjk(c as u32)
}

/// Both bounds of every range of the table are CJK, and the code points just below
/// its lower bound and just above its upper bound are not.
pub proof fn lemma_range_bounds_exact(i: int)
    requires
        0 <= i < cjk_ranges().len(),
    ensures
        is_cjk_value(cjk_ranges()[i].0 as int),
        is_cjk_value(cjk_ranges()[i].1 as int),
        !is_cjk_value(cjk_ranges()[i].0 - 1),
        !is_cjk_value(cjk_ranges()[i].1 + 1),
{
    let s = cjk_ranges();
    lemma_table_separated();
    assert(in_range(s[i], s[i].0 as int));
    assert(in_range(s[i], s[i].1 as int));
}

} // verus!
