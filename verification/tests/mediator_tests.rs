use brand_nft_marketplace::errors::ErrorCode;
use brand_nft_marketplace::listing::AccountId;
use brand_nft_marketplace::mediator::{
    buy_fraction, buy_nft, initialize_marketplace, list_nft, redeem_fractions, sell_fraction,
};

fn id(tag: u8) -> AccountId {
    [tag; 32]
}

fn listed() -> brand_nft_marketplace::listing::ListedNFT {
    list_nft(id(1), id(2), id(3), id(4), 1000, 1_000_000, 10)
        .unwrap()
        .listing
}

#[test]
fn initialize_marketplace_keeps_identities() {
    let m = initialize_marketplace(id(9), id(8));
    assert_eq!(m.authority, id(9));
    assert_eq!(m.treasury, id(8));
}

#[test]
fn list_example_split() {
    // 1_000_000 shares at 10 percent reward: 900_000 to the lister,
    // 100_000 to the community, curve starting at 1000.
    let out = list_nft(id(1), id(2), id(3), id(4), 1000, 1_000_000, 10).unwrap();
    assert_eq!(out.owner_amount, 900_000);
    assert_eq!(out.community_amount, 100_000);
    assert_eq!(out.listing.current_price, 1000);
    assert_eq!(out.listing.initial_price, 1000);
    assert_eq!(out.listing.fraction_supply, 1_000_000);
    assert_eq!(out.listing.owner, id(1));
    assert_eq!(out.event.nft_mint, id(2));
    assert_eq!(out.event.fraction_supply, 1_000_000);
    assert_eq!(out.event.community_reward_percentage, 10);
}

#[test]
fn list_full_reward_goes_to_community() {
    let out = list_nft(id(1), id(2), id(3), id(4), 1, 12_345, 100).unwrap();
    assert_eq!(out.owner_amount, 0);
    assert_eq!(out.community_amount, 12_345);
}

#[test]
fn list_zero_reward_goes_to_lister() {
    let out = list_nft(id(1), id(2), id(3), id(4), 1, 12_345, 0).unwrap();
    assert_eq!(out.owner_amount, 12_345);
    assert_eq!(out.community_amount, 0);
}

#[test]
fn list_split_rounding_loses_at_most_one_share() {
    // 7 percent of 101: 93.93 to the lister, 7.07 to the community, both
    // floored -- one share of the declared supply is lost to rounding.
    let out = list_nft(id(1), id(2), id(3), id(4), 1, 101, 7).unwrap();
    assert_eq!(out.owner_amount, 93);
    assert_eq!(out.community_amount, 7);
    assert_eq!(out.owner_amount + out.community_amount, 100);
}

#[test]
fn list_rejects_bad_parameters() {
    assert_eq!(
        list_nft(id(1), id(2), id(3), id(4), 1000, 1_000_000, 101).unwrap_err(),
        ErrorCode::InvalidPercentage
    );
    assert_eq!(
        list_nft(id(1), id(2), id(3), id(4), 1000, 0, 10).unwrap_err(),
        ErrorCode::InvalidSupply
    );
    assert_eq!(
        list_nft(id(1), id(2), id(3), id(4), 0, 1_000_000, 10).unwrap_err(),
        ErrorCode::InvalidPrice
    );
    assert_eq!(
        list_nft(id(1), id(2), id(3), id(4), 1, u64::MAX, 10).unwrap_err(),
        ErrorCode::ArithmeticOverflow
    );
}

#[test]
fn buy_example_moves_price_to_quote() {
    let mut listing = listed();
    let out = buy_fraction(&mut listing, 10_000).unwrap();
    assert_eq!(out.price, 1010);
    assert_eq!(listing.current_price, 1010);
    assert_eq!(out.event.new_fraction_price, 1010);
    assert_eq!(out.event.new_nft_price, 1_060_500_000);
    assert_eq!(out.event.nft_mint, id(2));
    // everything but the price is untouched
    assert_eq!(listing.owner, id(1));
    assert_eq!(listing.initial_price, 1000);
    assert_eq!(listing.fraction_supply, 1_000_000);
}

#[test]
fn buy_rejects_zero_amount() {
    let mut listing = listed();
    assert_eq!(
        buy_fraction(&mut listing, 0).unwrap_err(),
        ErrorCode::InvalidAmount
    );
    assert_eq!(listing, listed());
}

#[test]
fn buy_overflow_changes_nothing() {
    let mut listing = listed();
    assert_eq!(
        buy_fraction(&mut listing, u64::MAX).unwrap_err(),
        ErrorCode::ArithmeticOverflow
    );
    assert_eq!(listing, listed());
}

#[test]
fn sell_moves_price_down() {
    let mut listing = listed();
    buy_fraction(&mut listing, 10_000).unwrap();
    let out = sell_fraction(&mut listing, 10_000).unwrap();
    // floor(1010 * 990_000 / 1_000_000) = 999: the round trip ends below 1000
    assert_eq!(out.price, 999);
    assert_eq!(listing.current_price, 999);
    assert_eq!(out.event.new_fraction_price, 999);
    assert!(listing.current_price <= 1000);
}

#[test]
fn sell_rejects_zero_amount_and_oversell() {
    let mut listing = listed();
    assert_eq!(
        sell_fraction(&mut listing, 0).unwrap_err(),
        ErrorCode::InvalidAmount
    );
    assert_eq!(
        sell_fraction(&mut listing, 1_000_001).unwrap_err(),
        ErrorCode::ArithmeticOverflow
    );
    assert_eq!(listing, listed());
}

#[test]
fn buyout_transfers_ownership_at_premium() {
    let mut listing = listed();
    buy_fraction(&mut listing, 10_000).unwrap();
    let out = buy_nft(&mut listing, id(7)).unwrap();
    assert_eq!(out.sale_price, 1_060_500_000);
    assert_eq!(listing.owner, id(7));
    assert_eq!(out.event.new_owner, id(7));
    assert_eq!(out.event.sale_price, 1_060_500_000);
    // the curve state is frozen, not cleared: redemption still settles
    assert_eq!(listing.current_price, 1010);
    assert_eq!(listing.fraction_supply, 1_000_000);
}

#[test]
fn buyout_overflow_changes_nothing() {
    let mut listing = listed();
    listing.current_price = u64::MAX;
    let before = listing;
    assert_eq!(
        buy_nft(&mut listing, id(7)).unwrap_err(),
        ErrorCode::ArithmeticOverflow
    );
    assert_eq!(listing, before);
}

#[test]
fn redeem_pays_pro_rata_floor() {
    let mut listing = listed();
    buy_fraction(&mut listing, 10_000).unwrap();
    // floor(1010 * 500_000 / 1_000_000) = 505
    assert_eq!(redeem_fractions(&listing, 500_000), Ok(505));
    // floor(1010 * 999 / 1_000_000) = floor(1.00899) = 1
    assert_eq!(redeem_fractions(&listing, 999), Ok(1));
}

#[test]
fn redeem_with_zero_balance_is_rejected() {
    // after a holder's shares are burnt, a second call holds balance zero
    // and is rejected rather than paid again
    let listing = listed();
    assert_eq!(
        redeem_fractions(&listing, 0).unwrap_err(),
        ErrorCode::InvalidAmount
    );
}
