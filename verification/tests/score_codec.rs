use redis_h3::score::{cell_score_range, h3ll_to_score, score_to_h3ll, HIGH12_BITS, LOW52_MASK};

#[test]
fn masks_are_bit_exact() {
    assert_eq!(LOW52_MASK, 0x000F_FFFF_FFFF_FFFF);
    assert_eq!(LOW52_MASK, 4503599627370495);
    assert_eq!(HIGH12_BITS, 0x08F0_0000_0000_0000);
    assert_eq!(HIGH12_BITS, 644014746713980928);
}

#[test]
fn encode_strips_the_header() {
    assert_eq!(h3ll_to_score(0x08f2_8308_280f_18f2), 707021008476402);
    assert_eq!(h3ll_to_score(0x08f0_0000_0000_0000), 0);
    assert_eq!(h3ll_to_score(u64::MAX), 4503599627370495);
}

#[test]
fn decode_restores_the_header() {
    assert_eq!(score_to_h3ll(707021008476402), 0x08f2_8308_280f_18f2);
    assert_eq!(score_to_h3ll(0), 0x08f0_0000_0000_0000);
    assert_eq!(score_to_h3ll(4503599627370495), 0x08ff_ffff_ffff_ffff);
}

#[test]
fn decode_of_encode_is_the_leaf() {
    for leaf in [
        0x08f2_8308_280f_18f2u64,
        0x08f2_8308_280c_0000,
        0x08f0_0000_0000_0000,
        0x08f0_1b6d_b6db_6db6,
        0x08ff_2b6d_b6db_6db6,
    ] {
        assert_eq!(score_to_h3ll(h3ll_to_score(leaf)), leaf);
    }
}

#[test]
fn scores_beyond_52_bits_collide_silently() {
    assert_eq!(score_to_h3ll(0x0010_0000_0000_0000), 0x08f0_0000_0000_0000);
    assert_eq!(score_to_h3ll(0x0800_0000_0000_0005), score_to_h3ll(5));
}

#[test]
fn scores_keep_the_order_of_leaves() {
    let a = 0x08f2_8308_280c_0000u64;
    let b = 0x08f2_8308_280f_18f2u64;
    assert!(a < b);
    assert!(h3ll_to_score(a) < h3ll_to_score(b));
}

#[test]
fn range_of_a_cell() {
    assert_eq!(cell_score_range(0x0892_8308_280f_ffff), (707021008273408, 707021008498102));
    assert_eq!(cell_score_range(0x0800_1fff_ffff_ffff), (0, 30158033218998));
    assert_eq!(cell_score_range(0x08f2_8308_280f_18f2), (707021008476402, 707021008476402));
}
