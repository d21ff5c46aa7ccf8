use vstd::prelude::*;
use vstd::arithmetic::div_mod::{
    lemma_div_is_ordered, lemma_div_multiples_vanish, lemma_div_pos_is_pos,
    lemma_fundamental_div_mod, lemma_mod_bound,
};
use vstd::arithmetic::mul::{
    lemma_mul_inequality, lemma_mul_inequality_converse, lemma_mul_is_commutative,
    lemma_mul_upper_bound,
};

use crate::errors::ErrorCode;

verus! {

// ---------------------------------------------------------------------------
// The bonding curve, stated mathematically.
//
// A trade of `amount` shares against a listing priced at `price` per share
// with a fixed total supply is quoted at
//
//     floor(price * new_supply / total_supply)
//
// where `new_supply` is the supply after the trade (larger for a buy,
// smaller for a sell). The same number is both the currency moved by the
// trade and the listing's next unit price.
// ---------------------------------------------------------------------------

/// The curve law: `price * new_supply / total_supply`, rounded down.
pub open spec fn curve_quote(price: int, new_supply: int, total_supply: int) -> int {
    price * new_supply / total_supply
}

/// What a buy of `amount` shares quotes: the pre-trade price scaled by the
/// post-trade supply ratio.
pub open spec fn buy_quote(current_price: u64, amount: u64, total_supply: u64) -> int {
    curve_quote(current_price as int, total_supply + amount, total_supply as int)
}

/// A buy quote is representable: the enlarged supply and the quoted price
/// both fit in 64 bits.
pub open spec fn buy_fits(current_price: u64, amount: u64, total_supply: u64) -> bool {
    &&& total_supply + amount <= u64::MAX
    &&& buy_quote(current_price, amount, total_supply) <= u64::MAX
}

/// What a sell of `amount` shares quotes: the pre-trade price scaled by the
/// reduced supply ratio.
pub open spec fn sell_quote(current_price: u64, amount: u64, total_supply: u64) -> int {
    curve_quote(current_price as int, total_supply - amount, total_supply as int)
}

/// The buyout valuation: the curve's implied total value with a fixed
/// 5 percent premium, `unit_price * total_supply * 105 / 100`, rounded down.
pub open spec fn buyout_quote_int(unit_price: int, total_supply: int) -> int {
    unit_price * total_supply * 105 / 100
}

/// `buyout_quote_int` over the machine-word inputs the engine takes.
pub open spec fn buyout_quote(unit_price: u64, total_supply: u64) -> int {
    buyout_quote_int(unit_price as int, total_supply as int)
}

/// A buyout valuation is representable: the premium product fits the wide
/// 128-bit domain and the final value fits in 64 bits.
pub open spec fn buyout_fits_int(unit_price: int, total_supply: int) -> bool {
    &&& unit_price * total_supply * 105 <= u128::MAX
    &&& buyout_quote_int(unit_price, total_supply) <= u64::MAX
}

/// `buyout_fits_int` over the machine-word inputs the engine takes.
pub open spec fn buyout_fits(unit_price: u64, total_supply: u64) -> bool {
    buyout_fits_int(unit_price as int, total_supply as int)
}

/// The product of two 64-bit values always fits the wide 128-bit domain.
pub(crate) proof fn lemma_u64_mul_fits_u128(a: u64, b: u64)
    ensures
        a * b <= u128::MAX,
{
    lemma_mul_upper_bound(a as int, u64::MAX as int, b as int, u64::MAX as int);
}

/// For a positive divisor `d`, `x * d <= m` exactly when `x <= m / d`.
proof fn lemma_mul_le_iff_div(x: int, d: int, m: int)
    requires
        0 <= x,
        0 < d,
        0 <= m,
    ensures
        x * d <= m <==> x <= m / d,
{
    if x * d <= m {
        lemma_div_is_ordered(x * d, m, d);
        lemma_mul_is_commutative(x, d);
        lemma_div_multiples_vanish(x, d);
    }
    if x <= m / d {
        lemma_mul_inequality(x, m / d, d);
        lemma_fundamental_div_mod(m, d);
        lemma_mod_bound(m, d);
        lemma_mul_is_commutative(m / d, d);
    }
}

/// Shrinking the supply never raises the quote above the unit price:
/// with `new_supply <= total_supply`, the curve quotes at most `price`.
pub proof fn lemma_curve_quote_le_price(price: int, new_supply: int, total_supply: int)
    requires
        0 <= price,
        0 <= new_supply <= total_supply,
        0 < total_supply,
    ensures
        0 <= curve_quote(price, new_supply, total_supply) <= price,
{
    lemma_mul_inequality(new_supply, total_supply, price);
    lemma_mul_is_commutative(new_supply, price);
    lemma_mul_is_commutative(total_supply, price);
    lemma_div_is_ordered(price * new_supply, price * total_supply, total_supply);
    lemma_mul_is_commutative(price, total_supply);
    lemma_div_multiples_vanish(price, total_supply);
    lemma_div_pos_is_pos(price * new_supply, total_supply);
}

/// Growing the supply never drops the quote below the unit price: with
/// `new_supply >= total_supply`, the curve quotes at least `price`.
pub proof fn lemma_curve_quote_ge_price(price: int, new_supply: int, total_supply: int)
    requires
        0 <= price,
        0 < total_supply <= new_supply,
    ensures
        curve_quote(price, new_supply, total_supply) >= price,
{
    lemma_mul_inequality(total_supply, new_supply, price);
    lemma_mul_is_commutative(total_supply, price);
    lemma_mul_is_commutative(new_supply, price);
    lemma_div_is_ordered(price * total_supply, price * new_supply, total_supply);
    lemma_mul_is_commutative(price, total_supply);
    lemma_div_multiples_vanish(price, total_supply);
}

/// Quotes the currency paid for buying `amount` shares, and equally the
/// listing's next unit price after that buy. The quote never falls below the
/// current price: the curve only rises under buys.
///
/// Succeeds exactly when the enlarged supply and the quoted price are
/// representable; fails with `ArithmeticOverflow` otherwise, never wrapping.
pub fn calculate_buy_price(current_price: u64, amount: u64, total_supply: u64) -> (r: Result<
    u64,
    ErrorCode,
>)
    requires
        total_supply > 0,
    ensures
        r is Ok <==> buy_fits(current_price, amount, total_supply),
        r is Ok ==> r->Ok_0 == buy_quote(current_price, amount, total_supply),
        r is Ok ==> r->Ok_0 >= current_price,
        r is Err ==> r->Err_0 == ErrorCode::ArithmeticOverflow,
{
    if amount > u64::MAX - total_supply {
        return Err(ErrorCode::ArithmeticOverflow);
    }
    let new_supply: u64 = total_supply + amount;
    proof {
        lemma_u64_mul_fits_u128(current_price, new_supply);
        lemma_curve_quote_ge_price(
            current_price as int,
            new_supply as int,
            total_supply as int,
        );
    }
    let wide: u128 = (current_price as u128) * (new_supply as u128);
    let quote: u128 = wide / (total_supply as u128);
    if quote > u64::MAX as u128 {
        return Err(ErrorCode::ArithmeticOverflow);
    }
    Ok(quote as u64)
}

/// Quotes the currency returned for selling `amount` shares, and equally the
/// listing's next unit price after that sell.
///
/// Succeeds exactly when `amount <= total_supply`; an oversized sell fails
/// with `ArithmeticOverflow`, never wrapping below zero. A successful sell
/// quote always fits: it is at most the current price.
pub fn calculate_sell_price(current_price: u64, amount: u64, total_supply: u64) -> (r: Result<
    u64,
    ErrorCode,
>)
    requires
        total_supply > 0,
    ensures
        r is Ok <==> amount <= total_supply,
        r is Ok ==> r->Ok_0 == sell_quote(current_price, amount, total_supply),
        r is Ok ==> r->Ok_0 <= current_price,
        r is Err ==> r->Err_0 == ErrorCode::ArithmeticOverflow,
{
    if amount > total_supply {
        return Err(ErrorCode::ArithmeticOverflow);
    }
    let new_supply: u64 = total_supply - amount;
    proof {
        lemma_u64_mul_fits_u128(current_price, new_supply);
        lemma_curve_quote_le_price(current_price as int, new_supply as int, total_supply as int);
    }
    let wide: u128 = (current_price as u128) * (new_supply as u128);
    let quote: u128 = wide / (total_supply as u128);
    Ok(quote as u64)
}

/// Dispatches to the buy or sell quotation; the result becomes the
/// listing's next unit price.
pub fn calculate_new_price(current_price: u64, amount: u64, total_supply: u64, is_buy: bool) -> (r:
    Result<u64, ErrorCode>)
    requires
        total_supply > 0,
    ensures
        is_buy ==> {
            &&& r is Ok <==> buy_fits(current_price, amount, total_supply)
            &&& r is Ok ==> r->Ok_0 == buy_quote(current_price, amount, total_supply)
        },
        !is_buy ==> {
            &&& r is Ok <==> amount <= total_supply
            &&& r is Ok ==> r->Ok_0 == sell_quote(current_price, amount, total_supply)
        },
        r is Err ==> r->Err_0 == ErrorCode::ArithmeticOverflow,
{
    if is_buy {
        calculate_buy_price(current_price, amount, total_supply)
    } else {
        calculate_sell_price(current_price, amount, total_supply)
    }
}

/// Values a whole listing for buyout: the current unit price times the total
/// supply, with a fixed 5 percent premium, all in wide 128-bit arithmetic.
///
/// Succeeds exactly when every intermediate product and the final value are
/// representable; fails with `ArithmeticOverflow` otherwise, never wrapping.
pub fn calculate_nft_price(current_fraction_price: u64, total_supply: u64) -> (r: Result<
    u64,
    ErrorCode,
>)
    ensures
        r is Ok <==> buyout_fits(current_fraction_price, total_supply),
        r is Ok ==> r->Ok_0 == buyout_quote(current_fraction_price, total_supply),
        r is Err ==> r->Err_0 == ErrorCode::ArithmeticOverflow,
{
    proof {
        lemma_u64_mul_fits_u128(current_fraction_price, total_supply);
    }
    let wide: u128 = (current_fraction_price as u128) * (total_supply as u128);
    proof {
        lemma_mul_le_iff_div(wide as int, 105, u128::MAX as int);
    }
    if wide > u128::MAX / 105 {
        return Err(ErrorCode::ArithmeticOverflow);
    }
    let scaled: u128 = wide * 105;
    let value: u128 = scaled / 100;
    if value > u64::MAX as u128 {
        return Err(ErrorCode::ArithmeticOverflow);
    }
    Ok(value as u64)
}

/// Buying and then selling the same amount never ends above the starting
/// price: the curve gives back at most what was paid in, the floor rounding
/// only ever losing value. Stated for every valid input on which both legs
/// are quotable.
pub proof fn lemma_buy_then_sell_never_gains(current_price: u64, amount: u64, total_supply: u64)
    requires
        total_supply > 0,
        amount <= total_supply,
        buy_fits(current_price, amount, total_supply),
    ensures
        0 <= buy_quote(current_price, amount, total_supply) <= u64::MAX,
        sell_quote(
            buy_quote(current_price, amount, total_supply) as u64,
            amount,
            total_supply,
        ) <= current_price,
{
    let cp = current_price as int;
    let ts = total_supply as int;
    let amt = amount as int;
    let p1 = curve_quote(cp, ts + amt, ts);
    lemma_div_pos_is_pos(cp * (ts + amt), ts);
    assert(p1 == buy_quote(current_price, amount, total_supply));
    assert(p1 as u64 as int == p1);
    // The quote rounds down, so scaling it back up stays below the product.
    lemma_fundamental_div_mod(cp * (ts + amt), ts);
    lemma_mod_bound(cp * (ts + amt), ts);
    assert(ts * p1 <= cp * (ts + amt));
    assert(p1 * (ts - amt) * ts <= (cp * ts) * ts) by (nonlinear_arith)
        requires
            ts * p1 <= cp * (ts + amt),
            0 <= amt <= ts,
            0 <= cp,
            0 < ts,
            0 <= p1,
    ;
    lemma_mul_inequality_converse(p1 * (ts - amt), cp * ts, ts);
    lemma_div_is_ordered(p1 * (ts - amt), cp * ts, ts);
    lemma_mul_is_commutative(cp, ts);
    lemma_div_multiples_vanish(cp, ts);
}

/// The buyout valuation grows monotonically in both the unit price and the
/// total supply.
pub proof fn lemma_buyout_value_monotone(
    price1: u64,
    supply1: u64,
    price2: u64,
    supply2: u64,
)
    requires
        price1 <= price2,
        supply1 <= supply2,
    ensures
        buyout_quote(price1, supply1) <= buyout_quote(price2, supply2),
{
    lemma_mul_upper_bound(price1 as int, price2 as int, supply1 as int, supply2 as int);
    lemma_mul_inequality(price1 as int * supply1 as int, price2 as int * supply2 as int, 105);
    lemma_div_is_ordered(
        price1 as int * supply1 as int * 105,
        price2 as int * supply2 as int * 105,
        100,
    );
}

} // verus!
