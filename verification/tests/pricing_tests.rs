use brand_nft_marketplace::errors::ErrorCode;
use brand_nft_marketplace::pricing::{
    calculate_buy_price, calculate_new_price, calculate_nft_price, calculate_sell_price,
};

#[test]
fn buy_price_example() {
    // floor(1000 * (1_000_000 + 10_000) / 1_000_000) = 1010
    assert_eq!(calculate_buy_price(1000, 10_000, 1_000_000), Ok(1010));
}

#[test]
fn buy_price_rounds_down() {
    // floor(1000 * (1_000_000 + 999) / 1_000_000) = floor(1000.999) = 1000
    assert_eq!(calculate_buy_price(1000, 999, 1_000_000), Ok(1000));
}

#[test]
fn buy_price_overflow_on_supply_growth() {
    assert_eq!(
        calculate_buy_price(1, u64::MAX, u64::MAX),
        Err(ErrorCode::ArithmeticOverflow)
    );
}

#[test]
fn buy_price_overflow_on_quote() {
    // u64::MAX * (1 + 1) / 1 does not fit in 64 bits
    assert_eq!(
        calculate_buy_price(u64::MAX, 1, 1),
        Err(ErrorCode::ArithmeticOverflow)
    );
}

#[test]
fn sell_price_example() {
    // floor(1010 * (1_000_000 - 10_000) / 1_000_000) = floor(999.9 * 1000) = 999
    assert_eq!(calculate_sell_price(1010, 10_000, 1_000_000), Ok(999));
}

#[test]
fn sell_price_of_whole_supply_is_zero() {
    assert_eq!(calculate_sell_price(1000, 1_000_000, 1_000_000), Ok(0));
}

#[test]
fn sell_price_rejects_amount_above_supply() {
    assert_eq!(
        calculate_sell_price(1000, 1_000_001, 1_000_000),
        Err(ErrorCode::ArithmeticOverflow)
    );
    assert_eq!(
        calculate_sell_price(0, u64::MAX, 1),
        Err(ErrorCode::ArithmeticOverflow)
    );
}

#[test]
fn new_price_dispatches_on_direction() {
    assert_eq!(calculate_new_price(1000, 10_000, 1_000_000, true), Ok(1010));
    assert_eq!(calculate_new_price(1010, 10_000, 1_000_000, false), Ok(999));
}

#[test]
fn nft_price_example() {
    // floor(1010 * 1_000_000 * 105 / 100) = 1_060_500_000
    assert_eq!(calculate_nft_price(1010, 1_000_000), Ok(1_060_500_000));
}

#[test]
fn nft_price_rounds_down() {
    // 3 * 3 * 105 / 100 = 945 / 100 -> 9
    assert_eq!(calculate_nft_price(3, 3), Ok(9));
}

#[test]
fn nft_price_overflow_when_value_exceeds_u64() {
    assert_eq!(
        calculate_nft_price(u64::MAX, 2),
        Err(ErrorCode::ArithmeticOverflow)
    );
}

#[test]
fn nft_price_overflow_in_wide_domain() {
    // u64::MAX * u64::MAX * 105 does not even fit in 128 bits
    assert_eq!(
        calculate_nft_price(u64::MAX, u64::MAX),
        Err(ErrorCode::ArithmeticOverflow)
    );
}

#[test]
fn buy_then_sell_never_gains() {
    for &(price, amount, supply) in &[
        (1000u64, 10_000u64, 1_000_000u64),
        (1u64, 1u64, 1u64),
        (999u64, 7u64, 13u64),
        (123_456_789u64, 1u64, 2u64),
    ] {
        let bought = calculate_buy_price(price, amount, supply).unwrap();
        let back = calculate_sell_price(bought, amount, supply).unwrap();
        assert!(back <= price, "curve gained: {back} > {price}");
    }
}

#[test]
fn buyout_value_monotone_in_price_and_supply() {
    let base = calculate_nft_price(1000, 1_000_000).unwrap();
    assert!(calculate_nft_price(1001, 1_000_000).unwrap() >= base);
    assert!(calculate_nft_price(1000, 1_000_001).unwrap() >= base);
    assert!(calculate_nft_price(1001, 1_000_001).unwrap() >= base);
}
