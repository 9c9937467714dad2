use vstd::prelude::*;
use crate::error::ArbitrageError;
use crate::processor::{RouteConfig, Venue};

verus! {

/// Prices are quoted per this many base units.
pub const PRICE_SCALE: u64 = 1_000_000;

/// The price of a constant-product pool: quote reserve per million base units
/// of its base reserve, truncated at each division.
pub open spec fn pool_price_of(base_reserve: u64, quote_reserve: u64) -> Result<u64, ArbitrageError> {
    if base_reserve / PRICE_SCALE == 0 {
        Err(ArbitrageError::DivisionByZero)
    } else {
        Ok(quote_reserve / (base_reserve / PRICE_SCALE))
    }
}

/// The price at which one lot-priced order-book quote trades, on the pool's scale.
pub open spec fn lot_price(price: u64, pc_lot_size: u64, coin_lot_size: u64) -> int {
    (price * PRICE_SCALE * pc_lot_size) / (coin_lot_size as int)
}

/// The mid price of an order book: the mean of the best ask and the best bid,
/// each converted from lots.
pub open spec fn book_price_of(best_bid: u64, best_ask: u64, pc_lot_size: u64, coin_lot_size: u64) -> Result<
    u64,
    ArbitrageError,
> {
    if coin_lot_size == 0 {
        Err(ArbitrageError::DivisionByZero)
    } else if lot_price_overflows(best_ask, pc_lot_size) || lot_price_overflows(
        best_bid,
        pc_lot_size,
    ) {
        Err(ArbitrageError::ArithmeticOverflow)
    } else {
        Ok(
            ((lot_price(best_ask, pc_lot_size, coin_lot_size) + lot_price(
                best_bid,
                pc_lot_size,
                coin_lot_size,
            )) / 2) as u64,
        )
    }
}

/// The price of a constant-product pool.
pub fn pool_price(base_reserve: u64, quote_reserve: u64) -> (r: Result<u64, ArbitrageError>)
    ensures
        r == pool_price_of(base_reserve, quote_reserve),
{
    let units = base_reserve / PRICE_SCALE;
    if units == 0 {
        Err(ArbitrageError::DivisionByZero)
    } else {
        Ok(quote_reserve / units)
    }
}

/// Whether `price * PRICE_SCALE * pc_lot_size`, taken left to right, leaves 64 bits.
pub open spec fn lot_price_overflows(price: u64, pc_lot_size: u64) -> bool {
    price * PRICE_SCALE > u64::MAX || price * PRICE_SCALE * pc_lot_size > u64::MAX
}

fn scaled_lot_price(price: u64, pc_lot_size: u64) -> (r: Option<u64>)
    ensures
        r == if lot_price_overflows(price, pc_lot_size) {
            None::<u64>
        } else {
            Some((price * PRICE_SCALE * pc_lot_size) as u64)
        },
{
    match price.checked_mul(PRICE_SCALE) {
        Some(scaled) => scaled.checked_mul(pc_lot_size),
        None => None,
    }
}

/// The mid price of an order book from its best quotes and lot sizes.
pub fn book_price(best_bid: u64, best_ask: u64, pc_lot_size: u64, coin_lot_size: u64) -> (r: Result<
    u64,
    ArbitrageError,
>)
    ensures
        r == book_price_of(best_bid, best_ask, pc_lot_size, coin_lot_size),
{
    if coin_lot_size == 0 {
        return Err(ArbitrageError::DivisionByZero);
    }
    let ask = match scaled_lot_price(best_ask, pc_lot_size) {
        Some(v) => v,
        None => return Err(ArbitrageError::ArithmeticOverflow),
    };
    let bid = match scaled_lot_price(best_bid, pc_lot_size) {
        Some(v) => v,
        None => return Err(ArbitrageError::ArithmeticOverflow),
    };
    let buy = ask / coin_lot_size;
    let sell = bid / coin_lot_size;
    let mid = ((buy as u128 + sell as u128) / 2) as u64;
    Ok(mid)
}

/// The all-venues route with its legs ordered for the current prices: buy on
/// Orca first when its pool is cheaper than the order book, else on Raydium.
pub open spec fn ordered_legs_of(route: RouteConfig, pool_price: u64, book_price: u64) -> RouteConfig {
    if pool_price < book_price {
        RouteConfig { first: Venue::Orca, second: Venue::Raydium, ..route }
    } else {
        RouteConfig { first: Venue::Raydium, second: Venue::Orca, ..route }
    }
}

/// Orders the legs of the all-venues route by comparing the Orca pool price
/// with the order book's mid price.
pub fn order_legs(route: &RouteConfig, pool_price: u64, book_price: u64) -> (r: RouteConfig)
    ensures
        r == ordered_legs_of(*route, pool_price, book_price),
{
    if pool_price < book_price {
        RouteConfig { first: Venue::Orca, second: Venue::Raydium, ..*route }
    } else {
        RouteConfig { first: Venue::Raydium, second: Venue::Orca, ..*route }
    }
}

} // verus!
