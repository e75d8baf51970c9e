use redis_h3::index::{
    get_resolution, index_max_child, index_min_child, set_resolution, MAX_RESOLUTION,
    MIN_RESOLUTION,
};
use redis_h3::score::h3ll_to_score;

const CELL_RES9: u64 = 0x0892_8308_280f_ffff;
const BASE_CELL_0: u64 = 0x0800_1fff_ffff_ffff;
const LEAF: u64 = 0x08f2_8308_280f_18f2;

/// The cell of resolution `res` that holds the leaf `leaf`.
fn ancestor(leaf: u64, res: u8) -> u64 {
    let unused = 3 * (15 - res as u64);
    set_resolution(leaf, res) | ((1u64 << unused) - 1)
}

#[test]
fn resolution_is_read_from_bits_52_to_55() {
    assert_eq!(get_resolution(CELL_RES9), 9);
    assert_eq!(get_resolution(BASE_CELL_0), 0);
    assert_eq!(get_resolution(LEAF), 15);
    assert_eq!(get_resolution(u64::MAX), 15);
    assert_eq!(get_resolution(0), 0);
    assert_eq!(MIN_RESOLUTION, 0);
    assert_eq!(MAX_RESOLUTION, 15);
}

#[test]
fn set_resolution_replaces_only_the_field() {
    assert_eq!(set_resolution(CELL_RES9, 15), 0x08f2_8308_280f_ffff);
    assert_eq!(set_resolution(LEAF, 0), 0x0802_8308_280f_18f2);
    assert_eq!(get_resolution(set_resolution(BASE_CELL_0, 7)), 7);
    for res in 0..=15u8 {
        let changed = set_resolution(CELL_RES9, res);
        assert_eq!(get_resolution(changed), res);
        assert_eq!(changed & 0xff0f_ffff_ffff_ffff, CELL_RES9 & 0xff0f_ffff_ffff_ffff);
    }
}

#[test]
fn min_child_clears_unused_digits() {
    assert_eq!(index_min_child(CELL_RES9), 0x08f2_8308_280c_0000);
    assert_eq!(index_min_child(BASE_CELL_0), 0x08f0_0000_0000_0000);
    assert_eq!(index_min_child(0x08e2_8308_280f_18f7), 0x08f2_8308_280f_18f0);
}

#[test]
fn max_child_sets_unused_digits_to_six() {
    assert_eq!(index_max_child(CELL_RES9), 0x08f2_8308_280f_6db6);
    assert_eq!(index_max_child(BASE_CELL_0), 0x08f0_1b6d_b6db_6db6);
    assert_eq!(index_max_child(0x08e2_8308_280f_18f7), 0x08f2_8308_280f_18f6);
}

#[test]
fn leaf_is_its_own_bounds() {
    assert_eq!(index_min_child(LEAF), LEAF);
    assert_eq!(index_max_child(LEAF), LEAF);
}

#[test]
fn bounds_are_leaves_of_the_cell() {
    for cell in [CELL_RES9, BASE_CELL_0, 0x08e2_8308_280f_18f7, ancestor(LEAF, 3)] {
        let res = get_resolution(cell);
        let lo = index_min_child(cell);
        let hi = index_max_child(cell);
        assert_eq!(get_resolution(lo), 15);
        assert_eq!(get_resolution(hi), 15);
        assert_eq!(ancestor(lo, res), cell);
        assert_eq!(ancestor(hi, res), cell);
    }
}

#[test]
fn scores_of_leaves_lie_between_the_bounds() {
    for res in 0..=15u8 {
        let cell = ancestor(LEAF, res);
        let lo = h3ll_to_score(index_min_child(cell));
        let hi = h3ll_to_score(index_max_child(cell));
        let score = h3ll_to_score(LEAF);
        assert!(lo <= score && score <= hi);
    }
}

#[test]
fn scores_of_other_leaves_lie_outside_the_bounds() {
    let lo = h3ll_to_score(index_min_child(CELL_RES9));
    let hi = h3ll_to_score(index_max_child(CELL_RES9));
    assert_eq!(lo, 707021008273408);
    assert_eq!(hi, 707021008498102);
    assert!(h3ll_to_score(0x08f2_8308_280b_6db6) < lo);
    assert!(h3ll_to_score(0x08f2_8308_2810_0000) > hi);
    assert!(h3ll_to_score(0x08f0_0000_0000_0001) < lo);
}
