//! The score codec: a leaf index is stored as the number held in its low 52
//! bits, and read back by restoring the header of a leaf.
//!
//! The store keeps a score as a double-precision number. Every score made
//! here is a whole number below 2^52, which such a number holds exactly, so
//! the codec works on the whole number itself.

use vstd::prelude::*;
use crate::index::{
    index_max_child, index_min_child, max_child_of, min_child_of, mode_of, resolution_of,
    CELL_MODE, RESERVED_MASK,
};

verus! {

/// The low 52 bits of an index: base cell and digits.
pub const LOW52_MASK: u64 = 0x000F_FFFF_FFFF_FFFF;

/// The header of every stored index: cell mode and the finest resolution.
pub const HIGH12_BITS: u64 = 0x08F0_0000_0000_0000;

/// The score that stands for the index `h3ll`.
pub open spec fn score_of(h3ll: u64) -> u64 {
    h3ll & LOW52_MASK
}

/// The index that the score `score` stands for.
pub open spec fn index_of_score(score: u64) -> u64 {
    score | HIGH12_BITS
}

/// `h` has the header of a stored index: reserved bits clear, cell mode,
/// finest resolution.
pub open spec fn has_leaf_header(h: u64) -> bool {
    &&& h & RESERVED_MASK == 0
    &&& mode_of(h) == CELL_MODE
    &&& resolution_of(h) == 15
}

/// Encodes an index as a score by clearing its twelve header bits.
pub fn h3ll_to_score(h3ll: u64) -> (score: u64)
    ensures
        score == score_of(h3ll),
        score <= LOW52_MASK,
{
    let score: u64 = h3ll & LOW52_MASK;
    assert(score <= 0x000F_FFFF_FFFF_FFFF) by (bit_vector)
        requires
            score == h3ll & 0x000F_FFFF_FFFF_FFFF,
    ;
    score
}

/// Decodes a score into an index by setting the header of a leaf.
pub fn score_to_h3ll(score: u64) -> (h3ll: u64)
    ensures
        h3ll == index_of_score(score),
        score <= LOW52_MASK ==> has_leaf_header(h3ll) && score_of(h3ll) == score,
{
    let h3ll: u64 = score | HIGH12_BITS;
    assert(score <= 0x000F_FFFF_FFFF_FFFF ==> h3ll & 0x8700_0000_0000_0000 == 0 && (h3ll >> 59)
        & 0xF == 1 && (h3ll >> 52) & 0xF == 15 && h3ll & 0x000F_FFFF_FFFF_FFFF == score)
        by (bit_vector)
        requires
            h3ll == score | 0x08F0_0000_0000_0000,
    ;
    h3ll
}

/// Decoding the score of an index with a leaf header gives the index back.
pub proof fn lemma_score_round_trip(i: u64)
    requires
        has_leaf_header(i),
    ensures
        index_of_score(score_of(i)) == i,
{
    assert((i & 0x000F_FFFF_FFFF_FFFF) | 0x08F0_0000_0000_0000 == i) by (bit_vector)
        requires
            i & 0x8700_0000_0000_0000 == 0,
            (i >> 59) & 0xF == 1,
            (i >> 52) & 0xF == 15,
    ;
}

/// Scores order stored indices as the indices themselves are ordered.
pub proof fn lemma_score_keeps_order(a: u64, b: u64)
    requires
        has_leaf_header(a),
        has_leaf_header(b),
    ensures
        a <= b <==> score_of(a) <= score_of(b),
{
    assert(a <= b <==> (a & 0x000F_FFFF_FFFF_FFFF) <= (b & 0x000F_FFFF_FFFF_FFFF)) by (bit_vector)
        requires
            a & 0x8700_0000_0000_0000 == 0,
            (a >> 59) & 0xF == 1,
            (a >> 52) & 0xF == 15,
            b & 0x8700_0000_0000_0000 == 0,
            (b >> 59) & 0xF == 1,
            (b >> 52) & 0xF == 15,
    ;
}

/// The inclusive range of scores that covers every leaf of the cell `h3ll`.
pub fn cell_score_range(h3ll: u64) -> (range: (u64, u64))
    ensures
        range.0 == score_of(min_child_of(h3ll)),
        range.1 == score_of(max_child_of(h3ll)),
{
    let min_score: u64 = h3ll_to_score(index_min_child(h3ll));
    let max_score: u64 = h3ll_to_score(index_max_child(h3ll));
    (min_score, max_score)
}

} // verus!
