use vstd::prelude::*;
use vstd::arithmetic::div_mod::{lemma_div_is_ordered, lemma_div_multiples_vanish};
use vstd::arithmetic::mul::lemma_mul_is_commutative;

use crate::errors::ErrorCode;
use crate::listing::{AccountId, ListedNFT, Marketplace, NFTListed, NFTSold, PriceUpdated};
use crate::pricing::{
    buy_fits, buy_quote, buyout_fits, buyout_fits_int, buyout_quote, calculate_buy_price,
    calculate_nft_price, calculate_sell_price, curve_quote, lemma_curve_quote_le_price,
    lemma_u64_mul_fits_u128, sell_quote,
};

verus! {

// ---------------------------------------------------------------------------
// The per-operation state transitions.
//
// Each operation validates, computes every fallible quantity, and only then
// commits its record update and reports the transfers the caller owes: the
// currency and share movements an outcome names are exactly the movements
// the custody layer must perform for that operation. A failed operation
// changes nothing and owes nothing.
// ---------------------------------------------------------------------------

/// The lister's part of a freshly minted supply:
/// `fraction_supply * (100 - pct) / 100`, rounded down.
pub open spec fn owner_share(fraction_supply: u64, pct: u8) -> int {
    fraction_supply * (100 - pct) / 100
}

/// The community destination's part of a freshly minted supply:
/// `fraction_supply * pct / 100`, rounded down.
pub open spec fn community_share(fraction_supply: u64, pct: u8) -> int {
    fraction_supply * pct / 100
}

/// Both listing-time split products stay representable in 64 bits.
pub open spec fn split_fits(fraction_supply: u64, pct: u8) -> bool {
    &&& fraction_supply * (100 - pct) <= u64::MAX
    &&& fraction_supply * pct <= u64::MAX
}

/// A holder's pro-rata claim on the listing's valuation:
/// `current_price * balance / fraction_supply`, rounded down.
pub open spec fn redemption_quote(current_price: u64, balance: u64, fraction_supply: u64) -> int {
    curve_quote(current_price as int, balance as int, fraction_supply as int)
}

/// Everything a successful listing hands back: the fresh record, how many
/// shares to mint to the lister and to the community destination, and the
/// notification to emit.
#[derive(Clone, Copy, Debug, PartialEq, Eq)]
pub struct ListingOutcome {
    pub listing: ListedNFT,
    pub owner_amount: u64,
    pub community_amount: u64,
    pub event: NFTListed,
}

/// Everything a successful trade hands back: the currency the trade moves
/// and the notification carrying the new curve state.
#[derive(Clone, Copy, Debug, PartialEq, Eq)]
pub struct TradeOutcome {
    pub price: u64,
    pub event: PriceUpdated,
}

/// Everything a successful buyout hands back: the currency the buyer owes
/// and the notification naming the new owner.
#[derive(Clone, Copy, Debug, PartialEq, Eq)]
pub struct BuyoutOutcome {
    pub sale_price: u64,
    pub event: NFTSold,
}

/// Creates the singleton marketplace configuration.
pub fn initialize_marketplace(authority: AccountId, treasury: AccountId) -> (m: Marketplace)
    ensures
        m.authority == authority,
        m.treasury == treasury,
{
    Marketplace { authority, treasury }
}

/// Opens a listing: validates the issuance parameters, fixes the curve at
/// `initial_price`, and splits the freshly minted supply between the lister
/// and the community destination by `community_reward_percentage` (each part
/// rounded down; up to one share of rounding loss is accepted).
///
/// Fails with the first applicable error — an out-of-range percentage, a
/// zero supply, a zero price, or an unrepresentable split — and succeeds on
/// every other input.
pub fn list_nft(
    owner: AccountId,
    nft_mint: AccountId,
    fraction_mint: AccountId,
    escrow_account: AccountId,
    initial_price: u64,
    fraction_supply: u64,
    community_reward_percentage: u8,
) -> (r: Result<ListingOutcome, ErrorCode>)
    ensures
        match r {
            Ok(out) => {
                &&& community_reward_percentage <= 100
                &&& fraction_supply > 0
                &&& initial_price > 0
                &&& split_fits(fraction_supply, community_reward_percentage)
                &&& out.listing == (ListedNFT {
                    owner,
                    nft_mint,
                    fraction_mint,
                    escrow_account,
                    initial_price,
                    current_price: initial_price,
                    fraction_supply,
                    community_reward_percentage,
                })
                &&& out.listing.wf()
                &&& out.owner_amount == owner_share(fraction_supply, community_reward_percentage)
                &&& out.community_amount == community_share(
                    fraction_supply,
                    community_reward_percentage,
                )
                &&& out.event == (NFTListed {
                    nft_mint,
                    owner,
                    initial_price,
                    fraction_supply,
                    community_reward_percentage,
                })
            },
            Err(e) => {
                ||| (e == ErrorCode::InvalidPercentage && community_reward_percentage > 100)
                ||| (e == ErrorCode::InvalidSupply && community_reward_percentage <= 100
                    && fraction_supply == 0)
                ||| (e == ErrorCode::InvalidPrice && community_reward_percentage <= 100
                    && fraction_supply > 0 && initial_price == 0)
                ||| (e == ErrorCode::ArithmeticOverflow && community_reward_percentage <= 100
                    && fraction_supply > 0 && initial_price > 0 && !split_fits(
                    fraction_supply,
                    community_reward_percentage,
                ))
            },
        },
{
    if community_reward_percentage > 100 {
        return Err(ErrorCode::InvalidPercentage);
    }
    if fraction_supply == 0 {
        return Err(ErrorCode::InvalidSupply);
    }
    if initial_price == 0 {
        return Err(ErrorCode::InvalidPrice);
    }
    let keep: u64 = 100 - community_reward_percentage as u64;
    let pct: u64 = community_reward_percentage as u64;
    proof {
        lemma_u64_mul_fits_u128(fraction_supply, keep);
        lemma_u64_mul_fits_u128(fraction_supply, pct);
    }
    let owner_wide: u128 = (fraction_supply as u128) * (keep as u128);
    let community_wide: u128 = (fraction_supply as u128) * (pct as u128);
    if owner_wide > u64::MAX as u128 || community_wide > u64::MAX as u128 {
        return Err(ErrorCode::ArithmeticOverflow);
    }
    proof {
        lemma_div_is_ordered(0, owner_wide as int, 100);
        lemma_div_is_ordered(owner_wide as int, u64::MAX as int, 100);
        lemma_div_is_ordered(0, community_wide as int, 100);
        lemma_div_is_ordered(community_wide as int, u64::MAX as int, 100);
    }
    let owner_amount: u64 = (owner_wide / 100) as u64;
    let community_amount: u64 = (community_wide / 100) as u64;
    let listing = ListedNFT {
        owner,
        nft_mint,
        fraction_mint,
        escrow_account,
        initial_price,
        current_price: initial_price,
        fraction_supply,
        community_reward_percentage,
    };
    Ok(ListingOutcome {
        listing,
        owner_amount,
        community_amount,
        event: NFTListed { nft_mint, owner, initial_price, fraction_supply, community_reward_percentage },
    })
}

/// Buys `amount` shares from the pooled treasury. On success the caller owes
/// the quoted `price` in currency from the buyer to the seller of record and
/// `amount` shares from the treasury pool to the buyer; the listing's unit
/// price moves to the same quote, which never falls below the old price.
///
/// Fails, changing nothing, on a zero amount or whenever the trade quote or
/// the buyout valuation it implies leaves the representable range.
pub fn buy_fraction(listed_nft: &mut ListedNFT, amount: u64) -> (r: Result<TradeOutcome, ErrorCode>)
    requires
        old(listed_nft).wf(),
    ensures
        final(listed_nft).wf(),
        ({
            let cp = old(listed_nft).current_price;
            let fs = old(listed_nft).fraction_supply;
            match r {
                Ok(out) => {
                    &&& amount > 0
                    &&& buy_fits(cp, amount, fs)
                    &&& out.price == buy_quote(cp, amount, fs)
                    &&& out.price >= cp
                    &&& buyout_fits(out.price, fs)
                    &&& *final(listed_nft) == old(listed_nft).with_price(out.price)
                    &&& out.event.nft_mint == old(listed_nft).nft_mint
                    &&& out.event.new_fraction_price == out.price
                    &&& out.event.new_nft_price == buyout_quote(out.price, fs)
                },
                Err(e) => {
                    &&& *final(listed_nft) == *old(listed_nft)
                    &&& ({
                        ||| (e == ErrorCode::InvalidAmount && amount == 0)
                        ||| (e == ErrorCode::ArithmeticOverflow && amount > 0 && !(buy_fits(
                            cp,
                            amount,
                            fs,
                        ) && buyout_fits_int(buy_quote(cp, amount, fs), fs as int)))
                    })
                },
            }
        }),
{
    if amount == 0 {
        return Err(ErrorCode::InvalidAmount);
    }
    let price = match calculate_buy_price(
        listed_nft.current_price,
        amount,
        listed_nft.fraction_supply,
    ) {
        Ok(p) => p,
        Err(e) => { return Err(e) },
    };
    let nft_price = match calculate_nft_price(price, listed_nft.fraction_supply) {
        Ok(v) => v,
        Err(e) => { return Err(e) },
    };
    listed_nft.current_price = price;
    Ok(TradeOutcome {
        price,
        event: PriceUpdated {
            nft_mint: listed_nft.nft_mint,
            new_fraction_price: price,
            new_nft_price: nft_price,
        },
    })
}

/// Sells `amount` shares back to the pooled treasury. On success the caller
/// owes `amount` shares from the seller to the treasury pool and the quoted
/// `price` in currency from marketplace custody to the seller; the listing's
/// unit price moves to the same quote, the curve falling.
///
/// Fails, changing nothing, on a zero amount, an amount above the supply, or
/// whenever the implied buyout valuation leaves the representable range.
pub fn sell_fraction(listed_nft: &mut ListedNFT, amount: u64) -> (r: Result<
    TradeOutcome,
    ErrorCode,
>)
    requires
        old(listed_nft).wf(),
    ensures
        final(listed_nft).wf(),
        ({
            let cp = old(listed_nft).current_price;
            let fs = old(listed_nft).fraction_supply;
            match r {
                Ok(out) => {
                    &&& amount > 0
                    &&& amount <= fs
                    &&& out.price == sell_quote(cp, amount, fs)
                    &&& out.price <= cp
                    &&& buyout_fits(out.price, fs)
                    &&& *final(listed_nft) == old(listed_nft).with_price(out.price)
                    &&& out.event.nft_mint == old(listed_nft).nft_mint
                    &&& out.event.new_fraction_price == out.price
                    &&& out.event.new_nft_price == buyout_quote(out.price, fs)
                },
                Err(e) => {
                    &&& *final(listed_nft) == *old(listed_nft)
                    &&& ({
                        ||| (e == ErrorCode::InvalidAmount && amount == 0)
                        ||| (e == ErrorCode::ArithmeticOverflow && amount > 0 && !(amount <= fs
                            && buyout_fits_int(sell_quote(cp, amount, fs), fs as int)))
                    })
                },
            }
        }),
{
    if amount == 0 {
        return Err(ErrorCode::InvalidAmount);
    }
    let price = match calculate_sell_price(
        listed_nft.current_price,
        amount,
        listed_nft.fraction_supply,
    ) {
        Ok(p) => p,
        Err(e) => { return Err(e) },
    };
    let nft_price = match calculate_nft_price(price, listed_nft.fraction_supply) {
        Ok(v) => v,
        Err(e) => { return Err(e) },
    };
    listed_nft.current_price = price;
    Ok(TradeOutcome {
        price,
        event: PriceUpdated {
            nft_mint: listed_nft.nft_mint,
            new_fraction_price: price,
            new_nft_price: nft_price,
        },
    })
}

/// Buys the whole underlying asset out of the pool at the buyout valuation.
/// On success the caller owes `sale_price` in currency from the buyer to
/// marketplace custody and the asset from escrow to the buyer; the owner of
/// record moves to the buyer in the same step, so the asset is never without
/// an owner. Outstanding shares stay untouched, to be settled by redemption
/// against the price the curve froze at.
///
/// Fails, changing nothing, only when the valuation leaves the representable
/// range.
pub fn buy_nft(listed_nft: &mut ListedNFT, buyer: AccountId) -> (r: Result<
    BuyoutOutcome,
    ErrorCode,
>)
    requires
        old(listed_nft).wf(),
    ensures
        final(listed_nft).wf(),
        ({
            let cp = old(listed_nft).current_price;
            let fs = old(listed_nft).fraction_supply;
            match r {
                Ok(out) => {
                    &&& buyout_fits(cp, fs)
                    &&& out.sale_price == buyout_quote(cp, fs)
                    &&& *final(listed_nft) == old(listed_nft).with_owner(buyer)
                    &&& out.event == (NFTSold {
                        nft_mint: old(listed_nft).nft_mint,
                        new_owner: buyer,
                        sale_price: out.sale_price,
                    })
                },
                Err(e) => {
                    &&& *final(listed_nft) == *old(listed_nft)
                    &&& e == ErrorCode::ArithmeticOverflow
                    &&& !buyout_fits(cp, fs)
                },
            }
        }),
{
    let buyout_price = match calculate_nft_price(
        listed_nft.current_price,
        listed_nft.fraction_supply,
    ) {
        Ok(v) => v,
        Err(e) => { return Err(e) },
    };
    listed_nft.owner = buyer;
    Ok(BuyoutOutcome {
        sale_price: buyout_price,
        event: NFTSold {
            nft_mint: listed_nft.nft_mint,
            new_owner: buyer,
            sale_price: buyout_price,
        },
    })
}

/// Settles one holder's claim: values `fraction_balance` shares pro rata
/// against the listing's current unit price and returns the payout owed from
/// marketplace custody. The caller burns exactly the valued balance, so a
/// second redemption finds a zero balance and is rejected rather than paid
/// twice. The listing itself is read, never written.
pub fn redeem_fractions(listed_nft: &ListedNFT, fraction_balance: u64) -> (r: Result<
    u64,
    ErrorCode,
>)
    requires
        listed_nft.wf(),
    ensures
        match r {
            Ok(v) => {
                &&& fraction_balance > 0
                &&& v == redemption_quote(
                    listed_nft.current_price,
                    fraction_balance,
                    listed_nft.fraction_supply,
                )
            },
            Err(e) => {
                ||| (e == ErrorCode::InvalidAmount && fraction_balance == 0)
                ||| (e == ErrorCode::ArithmeticOverflow && fraction_balance > 0
                    && redemption_quote(
                    listed_nft.current_price,
                    fraction_balance,
                    listed_nft.fraction_supply,
                ) > u64::MAX)
            },
        },
{
    if fraction_balance == 0 {
        return Err(ErrorCode::InvalidAmount);
    }
    proof {
        lemma_u64_mul_fits_u128(listed_nft.current_price, fraction_balance);
    }
    let wide: u128 = (listed_nft.current_price as u128) * (fraction_balance as u128);
    let value: u128 = wide / (listed_nft.fraction_supply as u128);
    if value > u64::MAX as u128 {
        return Err(ErrorCode::ArithmeticOverflow);
    }
    Ok(value as u64)
}

/// While shares are conserved no holder can hold more than the supply, and
/// within that bound redemption always succeeds: it pays at most the current
/// unit price.
pub proof fn lemma_redemption_within_supply_fits(
    current_price: u64,
    balance: u64,
    fraction_supply: u64,
)
    requires
        fraction_supply > 0,
        balance <= fraction_supply,
    ensures
        0 <= redemption_quote(current_price, balance, fraction_supply) <= current_price,
{
    lemma_curve_quote_le_price(current_price as int, balance as int, fraction_supply as int);
}

/// The two extreme reward settings: at 100 percent the whole supply goes to
/// the community destination and none to the lister; at 0 percent the
/// inverse.
pub proof fn lemma_extreme_reward_split(fraction_supply: u64)
    ensures
        owner_share(fraction_supply, 100) == 0,
        community_share(fraction_supply, 100) == fraction_supply,
        owner_share(fraction_supply, 0) == fraction_supply,
        community_share(fraction_supply, 0) == 0,
{
    lemma_mul_is_commutative(fraction_supply as int, 100);
    lemma_div_multiples_vanish(fraction_supply as int, 100);
    assert(fraction_supply * (100 - 100) == 0);
    assert(fraction_supply * 0 == 0);
    assert(0int / 100 == 0);
}

} // verus!
