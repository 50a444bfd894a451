use dex_arbitrage::wide::Wide;

#[test]
fn product_of_small_numbers_stays_in_the_low_word() {
    assert_eq!(Wide::product(3, 4), Wide { hi: 0, lo: 12 });
    assert_eq!(Wide::product(0, u128::MAX), Wide { hi: 0, lo: 0 });
    assert_eq!(Wide::product(1, u128::MAX), Wide { hi: 0, lo: u128::MAX });
}

#[test]
fn product_carries_into_the_high_word() {
    assert_eq!(Wide::product(u128::MAX, 2), Wide { hi: 1, lo: u128::MAX - 1 });
    assert_eq!(Wide::product(1 << 64, 1 << 64), Wide { hi: 1, lo: 0 });
    assert_eq!(Wide::product(1 << 127, 4), Wide { hi: 2, lo: 0 });
}

#[test]
fn product_of_the_largest_words() {
    // (2^128 - 1)^2 = (2^128 - 2) * 2^128 + 1
    assert_eq!(
        Wide::product(u128::MAX, u128::MAX),
        Wide { hi: u128::MAX - 1, lo: 1 }
    );
}

#[test]
fn product_agrees_with_native_multiplication() {
    let pairs: [(u128, u128); 5] = [
        (20_000_000_000_000_000, 3_000_000_000),
        (500_000, 1_000_000_000_000_000_000),
        (0xdead_beef_0123_4567, 0xfeed_face_89ab_cdef),
        (u64::MAX as u128, u64::MAX as u128),
        (12_345_678_901_234_567_890, 98_765_432_109_876_543),
    ];
    for (a, b) in pairs {
        assert_eq!(Wide::product(a, b), Wide { hi: 0, lo: a * b });
    }
}

#[test]
fn product_is_symmetric() {
    let a = 0xffff_0000_ffff_0000_1234_5678_9abc_def0u128;
    let b = 0x0fed_cba9_8765_4321_ffff_ffff_0000_0001u128;
    assert_eq!(Wide::product(a, b), Wide::product(b, a));
}

#[test]
fn from_u128_has_an_empty_high_word() {
    assert_eq!(Wide::from_u128(0), Wide { hi: 0, lo: 0 });
    assert_eq!(Wide::from_u128(u128::MAX), Wide { hi: 0, lo: u128::MAX });
}

#[test]
fn exceeds_is_strict_and_compares_the_high_word_first() {
    let small = Wide { hi: 0, lo: u128::MAX };
    let large = Wide { hi: 1, lo: 0 };
    assert!(large.exceeds(&small));
    assert!(!small.exceeds(&large));
    assert!(!small.exceeds(&small));
    assert!(Wide { hi: 1, lo: 2 }.exceeds(&Wide { hi: 1, lo: 1 }));
    assert!(!Wide { hi: 1, lo: 1 }.exceeds(&Wide { hi: 1, lo: 2 }));
}

#[test]
fn abs_diff_borrows_from_the_high_word() {
    let a = Wide { hi: 1, lo: 0 };
    let b = Wide { hi: 0, lo: 1 };
    assert_eq!(a.abs_diff(&b), (Wide { hi: 0, lo: u128::MAX }, false));
    assert_eq!(b.abs_diff(&a), (Wide { hi: 0, lo: u128::MAX }, true));
}

#[test]
fn abs_diff_of_equal_numbers_is_zero_and_not_below() {
    let a = Wide { hi: 7, lo: 9 };
    assert_eq!(a.abs_diff(&a), (Wide { hi: 0, lo: 0 }, false));
}

#[test]
fn abs_diff_without_borrow() {
    let a = Wide { hi: 5, lo: 10 };
    let b = Wide { hi: 2, lo: 4 };
    assert_eq!(a.abs_diff(&b), (Wide { hi: 3, lo: 6 }, false));
    assert_eq!(b.abs_diff(&a), (Wide { hi: 3, lo: 6 }, true));
}
