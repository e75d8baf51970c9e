//! The bit layout of a 64-bit cell index and the finest-resolution bounds of
//! a cell.
//!
//! From the most significant bit down an index holds one reserved bit, four
//! bits of mode, three reserved bits, four bits of resolution, seven bits of
//! base cell and fifteen digits of three bits each, one for every resolution
//! level from 1 to 15.

use vstd::prelude::*;

verus! {

/// The coarsest resolution.
pub const MIN_RESOLUTION: u8 = 0;

/// The finest resolution; a cell at this resolution is a leaf.
pub const MAX_RESOLUTION: u8 = 15;

/// The mode of a cell index.
pub const CELL_MODE: u64 = 1;

/// The largest base cell number.
pub const MAX_BASE_CELL: u64 = 121;

/// Offset of the resolution field.
pub const H3_RES_OFFSET: u64 = 52;

/// The four bits of the resolution field.
pub const H3_RES_MASK: u64 = 0x00F0_0000_0000_0000;

/// Every bit but those of the resolution field.
pub const H3_RES_MASK_NEGATIVE: u64 = 0xFF0F_FFFF_FFFF_FFFF;

/// The four reserved bits.
pub const RESERVED_MASK: u64 = 0x8700_0000_0000_0000;

/// Every digit set to 6, the largest digit of a cell.
pub const ALL_SIXES: u64 = 0x0000_1B6D_B6DB_6DB6;

/// The resolution field of `h`.
pub open spec fn resolution_of(h: u64) -> u64 {
    (h >> 52) & 0xF
}

/// The mode field of `h`.
pub open spec fn mode_of(h: u64) -> u64 {
    (h >> 59) & 0xF
}

/// The base cell field of `h`.
pub open spec fn base_cell_of(h: u64) -> u64 {
    (h >> 45) & 0x7F
}

/// The digit of `h` at resolution level `level`, for levels 1 to 15.
pub open spec fn digit_of(h: u64, level: u64) -> u64
    recommends
        1 <= level <= 15,
{
    (h >> ((3 * (15 - level)) as u64)) & 7
}

/// Number of digit bits that a cell of resolution `res` leaves unused.
pub open spec fn unused_bits(res: u64) -> u64
    recommends
        res <= 15,
{
    (3 * (15 - res)) as u64
}

/// A mask of the `k` lowest bits, for `k` below 64.
pub open spec fn low_mask(k: u64) -> u64
    recommends
        k < 64,
{
    ((1u64 << k) - 1) as u64
}

/// `h` with its resolution field replaced by the low bits of `res`.
pub open spec fn with_resolution(h: u64, res: u8) -> u64 {
    (h & H3_RES_MASK_NEGATIVE) | ((res as u64) << 52)
}

/// `h` is a cell index: reserved bits clear, cell mode, a base cell that
/// exists, digits 0 to 6 down to its resolution and 7 below.
pub open spec fn is_cell_index(h: u64) -> bool {
    &&& h & RESERVED_MASK == 0
    &&& mode_of(h) == CELL_MODE
    &&& base_cell_of(h) <= MAX_BASE_CELL
    &&& forall|level: u64|
        1 <= level <= 15 ==> if level <= resolution_of(h) {
            #[trigger] digit_of(h, level) <= 6
        } else {
            digit_of(h, level) == 7
        }
}

/// `h` is a cell index of the finest resolution.
pub open spec fn is_leaf_index(h: u64) -> bool {
    is_cell_index(h) && resolution_of(h) == 15
}

/// The cell of resolution `res` that holds the leaf `d`: the resolution
/// field says `res` and every digit below that level is 7.
pub open spec fn ancestor_at(d: u64, res: u8) -> u64
    recommends
        res <= 15,
{
    with_resolution(d, res) | low_mask(unused_bits(res as u64))
}

/// `d` is a leaf that lies in the cell `idx`.
pub open spec fn is_leaf_descendant(d: u64, idx: u64) -> bool {
    is_leaf_index(d) && ancestor_at(d, resolution_of(idx) as u8) == idx
}

/// The leaf with the smallest bit pattern among those `h` holds: `h` itself
/// at the finest resolution, else `h` marked as a leaf with every unused
/// digit 0.
pub open spec fn min_child_of(h: u64) -> u64 {
    if resolution_of(h) == 15 {
        h
    } else {
        with_resolution(h, 15) & !low_mask(unused_bits(resolution_of(h)))
    }
}

/// The leaf with the largest bit pattern among those `h` holds: `h` itself
/// at the finest resolution, else `h` marked as a leaf with every unused
/// digit 6.
pub open spec fn max_child_of(h: u64) -> u64 {
    if resolution_of(h) == 15 {
        h
    } else {
        min_child_of(h) | (ALL_SIXES & low_mask(unused_bits(resolution_of(h))))
    }
}

/// Reads the resolution field.
pub fn get_resolution(h3ll: u64) -> (res: u8)
    ensures
        res == resolution_of(h3ll),
        res <= 15,
{
    let field: u64 = (h3ll & H3_RES_MASK) >> H3_RES_OFFSET;
    assert(field == (h3ll >> 52) & 0xF && field <= 15) by (bit_vector)
        requires
            field == (h3ll & 0x00F0_0000_0000_0000) >> 52,
    ;
    field as u8
}

/// Writes the resolution field and leaves every other field as it is.
pub fn set_resolution(h3ll: u64, new_res: u8) -> (out: u64)
    ensures
        out == with_resolution(h3ll, new_res),
        new_res <= 15 ==> resolution_of(out) == new_res && out & H3_RES_MASK_NEGATIVE == h3ll
            & H3_RES_MASK_NEGATIVE,
{
    let field: u64 = new_res as u64;
    let out: u64 = (h3ll & H3_RES_MASK_NEGATIVE) | field << H3_RES_OFFSET;
    assert(field <= 15 ==> (out >> 52) & 0xF == field && out & 0xFF0F_FFFF_FFFF_FFFF == h3ll
        & 0xFF0F_FFFF_FFFF_FFFF) by (bit_vector)
        requires
            out == (h3ll & 0xFF0F_FFFF_FFFF_FFFF) | field << 52,
    ;
    out
}

/// The lowest valued leaf of the cell `h3ll`.
pub fn index_min_child(h3ll: u64) -> (min_child: u64)
    ensures
        min_child == min_child_of(h3ll),
        resolution_of(h3ll) == 15 ==> min_child == h3ll,
{
    let res: u8 = get_resolution(h3ll);
    if res == 15 {
        return h3ll;
    }
    let mut min_child: u64 = set_resolution(h3ll, 15);
    let child_index_bit_length: u8 = (15 - res) * 3;
    let shift: u64 = child_index_bit_length as u64;
    let marked: u64 = min_child;
    min_child = min_child >> shift;
    min_child = min_child << shift;
    assert(min_child == marked & !(((1u64 << shift) - 1) as u64)) by (bit_vector)
        requires
            shift <= 45,
            min_child == (marked >> shift) << shift,
    ;
    min_child
}

/// The highest valued leaf of the cell `h3ll`.
pub fn index_max_child(h3ll: u64) -> (max_child: u64)
    ensures
        max_child == max_child_of(h3ll),
        resolution_of(h3ll) == 15 ==> max_child == h3ll,
{
    let res: u8 = get_resolution(h3ll);
    if res == 15 {
        return h3ll;
    }
    let mut max_child: u64 = index_min_child(h3ll);
    let ghost top: u64 = unused_bits(res as u64);
    let mut child_index_bits: u64 = 0;
    let mut next_res: u8 = res + 1;
    assert(ALL_SIXES & low_mask(top) & !low_mask(top) == 0) by (bit_vector);
    while next_res <= 15
        invariant
            res < next_res <= 16,
            top == 3 * (15 - res),
            child_index_bits == ALL_SIXES & low_mask(top) & !low_mask((3 * (16 - next_res)) as u64),
        decreases 16 - next_res,
    {
        let diff: u8 = 15 - next_res;
        let place: u64 = (3 * diff) as u64;
        let six: u64 = 6u64 << place;
        assert(child_index_bits + six == ALL_SIXES & low_mask(top) & !low_mask(place))
            by (bit_vector)
            requires
                place <= 42,
                place % 3 == 0,
                place + 3 <= top <= 45,
                six == 6u64 << place,
                child_index_bits == ALL_SIXES & low_mask(top) & !low_mask((place + 3) as u64),
        ;
        child_index_bits += six;
        next_res += 1;
    }
    assert(ALL_SIXES & low_mask(top) & !low_mask(0) == ALL_SIXES & low_mask(top)) by (bit_vector);
    max_child |= child_index_bits;
    max_child
}

} // verus!
