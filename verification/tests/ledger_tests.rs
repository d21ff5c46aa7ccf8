use brand_nft_marketplace::errors::ErrorCode;
use brand_nft_marketplace::ledger::ShareLedger;
use brand_nft_marketplace::mediator::redeem_fractions;

fn total(l: &ShareLedger, holder_count: usize) -> u128 {
    let mut t = l.treasury as u128;
    for h in 0..holder_count {
        t += l.holder_balance(h) as u128;
    }
    t
}

#[test]
fn fresh_pool_holds_whole_supply_in_treasury() {
    let l = ShareLedger::new(1_000_000, 3);
    assert_eq!(l.treasury, 1_000_000);
    for h in 0..3 {
        assert_eq!(l.holder_balance(h), 0);
    }
}

#[test]
fn trades_conserve_total() {
    let mut l = ShareLedger::new(1_000_000, 3);
    l.buy_shares(0, 10_000).unwrap();
    l.buy_shares(1, 250_000).unwrap();
    l.sell_shares(0, 4_000).unwrap();
    l.buy_shares(2, 1).unwrap();
    l.sell_shares(1, 250_000).unwrap();
    assert_eq!(total(&l, 3), 1_000_000);
    assert_eq!(l.holder_balance(0), 6_000);
    assert_eq!(l.holder_balance(1), 0);
    assert_eq!(l.holder_balance(2), 1);
    assert_eq!(l.treasury, 993_999);
}

#[test]
fn failed_trades_move_nothing() {
    let mut l = ShareLedger::new(100, 2);
    l.buy_shares(0, 60).unwrap();
    // treasury holds 40: a buy of 41 fails whole
    assert_eq!(l.buy_shares(1, 41).unwrap_err(), ErrorCode::ArithmeticOverflow);
    // the holder has 0: an oversell fails whole
    assert_eq!(l.sell_shares(1, 1).unwrap_err(), ErrorCode::ArithmeticOverflow);
    assert_eq!(l.treasury, 40);
    assert_eq!(l.holder_balance(0), 60);
    assert_eq!(l.holder_balance(1), 0);
    assert_eq!(total(&l, 2), 100);
}

#[test]
fn redeem_twice_is_rejected_the_second_time() {
    let listing = brand_nft_marketplace::mediator::list_nft(
        [1u8; 32],
        [2u8; 32],
        [3u8; 32],
        [4u8; 32],
        1000,
        1_000_000,
        10,
    )
    .unwrap()
    .listing;
    let mut pool = ShareLedger::new(1_000_000, 1);
    pool.buy_shares(0, 500_000).unwrap();

    // first redemption: value the balance, then burn it
    let balance = pool.holder_balance(0);
    let paid = redeem_fractions(&listing, balance).unwrap();
    assert_eq!(paid, 500); // floor(1000 * 500_000 / 1_000_000)
    let burnt = pool.burn_all(0);
    assert_eq!(burnt, 500_000);

    // second redemption: the balance is now zero and the claim is rejected
    let balance = pool.holder_balance(0);
    assert_eq!(balance, 0);
    assert_eq!(
        redeem_fractions(&listing, balance).unwrap_err(),
        ErrorCode::InvalidAmount
    );
}

#[test]
fn burn_reduces_total_by_exactly_the_balance() {
    let mut l = ShareLedger::new(1_000, 2);
    l.buy_shares(0, 300).unwrap();
    l.buy_shares(1, 200).unwrap();
    assert_eq!(l.burn_all(0), 300);
    assert_eq!(l.holder_balance(0), 0);
    assert_eq!(l.holder_balance(1), 200);
    assert_eq!(total(&l, 2), 700);
}
