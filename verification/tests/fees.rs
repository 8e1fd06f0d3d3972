use nft_marketplace::settlement::{
    checked_split_price, fee_within_price, split_price, FeeSplit, BASIS_POINTS,
};

fn wide_fee(price: u64, fee_bps: u16) -> u128 {
    (price as u128) * (fee_bps as u128) / 10000
}

#[test]
fn two_and_a_half_percent_of_one_billion() {
    let split = checked_split_price(1_000_000_000, 250);
    assert_eq!(
        split,
        Some(FeeSplit { fee_amount: 25_000_000, seller_amount: 975_000_000 })
    );
    assert_eq!(
        split_price(1_000_000_000, 250),
        FeeSplit { fee_amount: 25_000_000, seller_amount: 975_000_000 }
    );
}

#[test]
fn basis_points_denominator() {
    assert_eq!(BASIS_POINTS, 10000);
}

#[test]
fn fee_rounds_down() {
    assert_eq!(
        checked_split_price(9_999, 1),
        Some(FeeSplit { fee_amount: 0, seller_amount: 9_999 })
    );
    assert_eq!(
        checked_split_price(10_000, 1),
        Some(FeeSplit { fee_amount: 1, seller_amount: 9_999 })
    );
    assert_eq!(
        checked_split_price(19_999, 1),
        Some(FeeSplit { fee_amount: 1, seller_amount: 19_998 })
    );
    assert_eq!(
        checked_split_price(1, 9_999),
        Some(FeeSplit { fee_amount: 0, seller_amount: 1 })
    );
}

#[test]
fn zero_price_and_zero_rate() {
    assert_eq!(checked_split_price(0, 0), Some(FeeSplit { fee_amount: 0, seller_amount: 0 }));
    assert_eq!(checked_split_price(0, 10_000), Some(FeeSplit { fee_amount: 0, seller_amount: 0 }));
    assert_eq!(
        checked_split_price(123_456, 0),
        Some(FeeSplit { fee_amount: 0, seller_amount: 123_456 })
    );
}

#[test]
fn whole_rate_takes_the_whole_price() {
    assert_eq!(
        checked_split_price(u64::MAX, 10_000),
        Some(FeeSplit { fee_amount: u64::MAX, seller_amount: 0 })
    );
    assert_eq!(checked_split_price(77, 10_000), Some(FeeSplit { fee_amount: 77, seller_amount: 0 }));
}

#[test]
fn largest_price_does_not_overflow() {
    let split = checked_split_price(u64::MAX, 9_999).unwrap();
    assert_eq!(split.fee_amount, 18_444_899_399_302_180_659);
    assert_eq!(split.seller_amount, 1_844_674_407_370_956);
    assert_eq!(split.fee_amount as u128, wide_fee(u64::MAX, 9_999));
}

#[test]
fn split_adds_up_over_a_grid() {
    let prices = [
        0u64,
        1,
        2,
        9_999,
        10_000,
        10_001,
        1_000_000_007,
        u32::MAX as u64,
        u64::MAX / 3,
        u64::MAX - 1,
        u64::MAX,
    ];
    let rates = [0u16, 1, 2, 99, 100, 250, 3_333, 5_000, 9_999, 10_000];
    for price in prices {
        for rate in rates {
            assert!(fee_within_price(price, rate));
            let split = checked_split_price(price, rate).unwrap();
            assert_eq!(split.fee_amount as u128, wide_fee(price, rate));
            assert_eq!(split.fee_amount as u128 + split.seller_amount as u128, price as u128);
            assert_eq!(split_price(price, rate), split);
        }
    }
}

#[test]
fn rate_above_a_whole_has_no_split_once_the_fee_exceeds_the_price() {
    assert_eq!(checked_split_price(100, 20_000), None);
    assert!(!fee_within_price(100, 20_000));
    assert_eq!(checked_split_price(u64::MAX, u16::MAX), None);
    assert_eq!(checked_split_price(10_000, 10_001), None);
}

#[test]
fn rate_above_a_whole_still_splits_a_small_price() {
    assert!(fee_within_price(5, 10_001));
    assert_eq!(checked_split_price(5, 10_001), Some(FeeSplit { fee_amount: 5, seller_amount: 0 }));
    assert_eq!(checked_split_price(0, u16::MAX), Some(FeeSplit { fee_amount: 0, seller_amount: 0 }));
}
