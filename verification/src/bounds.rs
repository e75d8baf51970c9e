//! What the two bounds of a cell promise: they are leaves of the cell, and
//! the scores between them are the scores of the leaves of the cell.

use vstd::prelude::*;
use crate::index::{
    ancestor_at, digit_of, is_cell_index, is_leaf_descendant, is_leaf_index, low_mask,
    max_child_of, min_child_of, mode_of, base_cell_of, resolution_of, unused_bits, CELL_MODE,
    MAX_BASE_CELL, RESERVED_MASK,
};
use crate::score::score_of;

verus! {

/// The lowest bit of every digit.
pub const DIGIT_UNITS: u64 = 0x0000_0492_4924_9249;

/// No digit of `h` above its `k` lowest bits is 7: in no digit there are all
/// three bits set.
pub open spec fn no_seven_above(h: u64, k: u64) -> bool {
    (h & (h >> 1) & (h >> 2) & DIGIT_UNITS) >> k == 0
}

/// The digits that a cell index uses hold no 7, and those it does not use
/// are all 7, said of the bits as a whole.
pub proof fn lemma_cell_index_digits(h: u64)
    requires
        is_cell_index(h),
    ensures
        resolution_of(h) <= 15,
        no_seven_above(h, unused_bits(resolution_of(h))),
        h & low_mask(unused_bits(resolution_of(h))) == low_mask(unused_bits(resolution_of(h))),
{
    let r = resolution_of(h);
    let k = unused_bits(r);
    assert(r <= 15) by (bit_vector)
        requires
            r == (h >> 52) & 0xF,
    ;
    assert((1 <= r ==> digit_of(h, 1) <= 6) && (r < 1 ==> digit_of(h, 1) == 7));
    assert((2 <= r ==> digit_of(h, 2) <= 6) && (r < 2 ==> digit_of(h, 2) == 7));
    assert((3 <= r ==> digit_of(h, 3) <= 6) && (r < 3 ==> digit_of(h, 3) == 7));
    assert((4 <= r ==> digit_of(h, 4) <= 6) && (r < 4 ==> digit_of(h, 4) == 7));
    assert((5 <= r ==> digit_of(h, 5) <= 6) && (r < 5 ==> digit_of(h, 5) == 7));
    assert((6 <= r ==> digit_of(h, 6) <= 6) && (r < 6 ==> digit_of(h, 6) == 7));
    assert((7 <= r ==> digit_of(h, 7) <= 6) && (r < 7 ==> digit_of(h, 7) == 7));
    assert((8 <= r ==> digit_of(h, 8) <= 6) && (r < 8 ==> digit_of(h, 8) == 7));
    assert((9 <= r ==> digit_of(h, 9) <= 6) && (r < 9 ==> digit_of(h, 9) == 7));
    assert((10 <= r ==> digit_of(h, 10) <= 6) && (r < 10 ==> digit_of(h, 10) == 7));
    assert((11 <= r ==> digit_of(h, 11) <= 6) && (r < 11 ==> digit_of(h, 11) == 7));
    assert((12 <= r ==> digit_of(h, 12) <= 6) && (r < 12 ==> digit_of(h, 12) == 7));
    assert((13 <= r ==> digit_of(h, 13) <= 6) && (r < 13 ==> digit_of(h, 13) == 7));
    assert((14 <= r ==> digit_of(h, 14) <= 6) && (r < 14 ==> digit_of(h, 14) == 7));
    assert((15 <= r ==> digit_of(h, 15) <= 6) && (r < 15 ==> digit_of(h, 15) == 7));
    assert(no_seven_above(h, k) && h & low_mask(k) == low_mask(k)) by (bit_vector)
        requires
            r <= 15,
            k == unused_bits(r),
            (1 <= r ==> digit_of(h, 1) <= 6) && (r < 1 ==> digit_of(h, 1) == 7),
            (2 <= r ==> digit_of(h, 2) <= 6) && (r < 2 ==> digit_of(h, 2) == 7),
            (3 <= r ==> digit_of(h, 3) <= 6) && (r < 3 ==> digit_of(h, 3) == 7),
            (4 <= r ==> digit_of(h, 4) <= 6) && (r < 4 ==> digit_of(h, 4) == 7),
            (5 <= r ==> digit_of(h, 5) <= 6) && (r < 5 ==> digit_of(h, 5) == 7),
            (6 <= r ==> digit_of(h, 6) <= 6) && (r < 6 ==> digit_of(h, 6) == 7),
            (7 <= r ==> digit_of(h, 7) <= 6) && (r < 7 ==> digit_of(h, 7) == 7),
            (8 <= r ==> digit_of(h, 8) <= 6) && (r < 8 ==> digit_of(h, 8) == 7),
            (9 <= r ==> digit_of(h, 9) <= 6) && (r < 9 ==> digit_of(h, 9) == 7),
            (10 <= r ==> digit_of(h, 10) <= 6) && (r < 10 ==> digit_of(h, 10) == 7),
            (11 <= r ==> digit_of(h, 11) <= 6) && (r < 11 ==> digit_of(h, 11) == 7),
            (12 <= r ==> digit_of(h, 12) <= 6) && (r < 12 ==> digit_of(h, 12) == 7),
            (13 <= r ==> digit_of(h, 13) <= 6) && (r < 13 ==> digit_of(h, 13) == 7),
            (14 <= r ==> digit_of(h, 14) <= 6) && (r < 14 ==> digit_of(h, 14) == 7),
            (15 <= r ==> digit_of(h, 15) <= 6) && (r < 15 ==> digit_of(h, 15) == 7),
    ;
}

/// The score of every leaf of a cell lies between the scores of the cell's
/// two bounds.
pub proof fn lemma_bounds_contain_descendants(idx: u64, d: u64)
    requires
        is_cell_index(idx),
        is_leaf_descendant(d, idx),
    ensures
        score_of(min_child_of(idx)) <= score_of(d) <= score_of(max_child_of(idx)),
{
    lemma_cell_index_digits(d);
    let r = resolution_of(idx);
    assert(r <= 15) by (bit_vector)
        requires
            r == (idx >> 52) & 0xF,
    ;
    assert(score_of(min_child_of(idx)) <= score_of(d) && score_of(d) <= score_of(
        max_child_of(idx),
    )) by (bit_vector)
        requires
            r == resolution_of(idx),
            r <= 15,
            resolution_of(d) == 15,
            no_seven_above(d, 0),
            ancestor_at(d, r as u8) == idx,
    ;
}

/// The digits of the two bounds of a cell: down to the resolution of the
/// cell they are the digits of the cell, and below it they are all 0 in the
/// lower bound and all 6 in the upper bound.
pub proof fn lemma_bound_digits(idx: u64, level: u64)
    requires
        1 <= level <= 15,
    ensures
        level <= resolution_of(idx) ==> digit_of(min_child_of(idx), level) == digit_of(idx, level)
            && digit_of(max_child_of(idx), level) == digit_of(idx, level),
        level > resolution_of(idx) ==> digit_of(min_child_of(idx), level) == 0 && digit_of(
            max_child_of(idx),
            level,
        ) == 6,
{
    let r = resolution_of(idx);
    let lo = min_child_of(idx);
    let hi = max_child_of(idx);
    assert((level <= r ==> digit_of(lo, level) == digit_of(idx, level) && digit_of(hi, level)
        == digit_of(idx, level)) && (level > r ==> digit_of(lo, level) == 0 && digit_of(hi, level)
        == 6)) by (bit_vector)
        requires
            1 <= level <= 15,
            r == resolution_of(idx),
            lo == min_child_of(idx),
            hi == max_child_of(idx),
    ;
}

/// Both bounds of a cell are leaves of that cell: the cell is their ancestor
/// at its own resolution.
pub proof fn lemma_bounds_are_descendants(idx: u64)
    requires
        is_cell_index(idx),
    ensures
        is_leaf_descendant(min_child_of(idx), idx),
        is_leaf_descendant(max_child_of(idx), idx),
{
    lemma_cell_index_digits(idx);
    let r = resolution_of(idx);
    let k = unused_bits(r);
    let lo = min_child_of(idx);
    let hi = max_child_of(idx);
    assert(lo & RESERVED_MASK == 0 && mode_of(lo) == CELL_MODE && base_cell_of(lo) <= MAX_BASE_CELL
        && resolution_of(lo) == 15 && ancestor_at(lo, r as u8) == idx) by (bit_vector)
        requires
            r == resolution_of(idx),
            r <= 15,
            k == unused_bits(r),
            lo == min_child_of(idx),
            idx & RESERVED_MASK == 0,
            mode_of(idx) == CELL_MODE,
            base_cell_of(idx) <= MAX_BASE_CELL,
            idx & low_mask(k) == low_mask(k),
    ;
    assert(hi & RESERVED_MASK == 0 && mode_of(hi) == CELL_MODE && base_cell_of(hi) <= MAX_BASE_CELL
        && resolution_of(hi) == 15 && ancestor_at(hi, r as u8) == idx) by (bit_vector)
        requires
            r == resolution_of(idx),
            r <= 15,
            k == unused_bits(r),
            hi == max_child_of(idx),
            idx & RESERVED_MASK == 0,
            mode_of(idx) == CELL_MODE,
            base_cell_of(idx) <= MAX_BASE_CELL,
            idx & low_mask(k) == low_mask(k),
    ;
    assert forall|level: u64| 1 <= level <= 15 implies #[trigger] digit_of(lo, level) <= 6 by {
        assert(digit_of(lo, level) <= 6) by (bit_vector)
            requires
                1 <= level <= 15,
                r == resolution_of(idx),
                r <= 15,
                k == unused_bits(r),
                lo == min_child_of(idx),
                no_seven_above(idx, k),
        ;
    }
    assert forall|level: u64| 1 <= level <= 15 implies #[trigger] digit_of(hi, level) <= 6 by {
        assert(digit_of(hi, level) <= 6) by (bit_vector)
            requires
                1 <= level <= 15,
                r == resolution_of(idx),
                r <= 15,
                k == unused_bits(r),
                hi == max_child_of(idx),
                no_seven_above(idx, k),
        ;
    }
}

/// A leaf whose score lies between the scores of a cell's two bounds is a
/// leaf of that cell.
pub proof fn lemma_bounds_hold_only_descendants(idx: u64, d: u64)
    requires
        is_cell_index(idx),
        is_leaf_index(d),
        score_of(min_child_of(idx)) <= score_of(d) <= score_of(max_child_of(idx)),
    ensures
        is_leaf_descendant(d, idx),
{
    lemma_cell_index_digits(idx);
    let r = resolution_of(idx);
    let k = unused_bits(r);
    assert(ancestor_at(d, r as u8) == idx) by (bit_vector)
        requires
            r == resolution_of(idx),
            r <= 15,
            k == unused_bits(r),
            idx & RESERVED_MASK == 0,
            mode_of(idx) == CELL_MODE,
            idx & low_mask(k) == low_mask(k),
            d & RESERVED_MASK == 0,
            mode_of(d) == CELL_MODE,
            resolution_of(d) == 15,
            score_of(min_child_of(idx)) <= score_of(d),
            score_of(d) <= score_of(max_child_of(idx)),
    ;
}

/// A leaf is its own two bounds.
pub proof fn lemma_leaf_is_its_own_bounds(idx: u64)
    requires
        resolution_of(idx) == 15,
    ensures
        min_child_of(idx) == idx,
        max_child_of(idx) == idx,
{
}

} // verus!
