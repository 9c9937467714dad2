use vstd::prelude::*;
use crate::error::ArbitrageError;
use crate::instruction::{ExchangeWithPathInstruction, Side};
use crate::state::ExchangeState;

verus! {

// The single-swap path route: how it sizes its swap, books it, and turns it
// into an order-book order. Path instructions decode, but the dispatcher does
// not run them (see `Dispatch::Idle`).

/// On a path route, the flag that takes the amount from the payload.
pub const PATH_START_FLAG: u8 = 0;
/// On a path route, the flag that demands the swap return at least its input.
pub const PATH_CHECK_FLAG: u8 = 2;

/// The ledger and swap amount that a path invocation starts with: the
/// payload's amount (recorded as `input_amount`) under the start flag, else
/// the last output.
pub open spec fn path_start_of(l: ExchangeState, p: ExchangeWithPathInstruction) -> (
    ExchangeState,
    u64,
) {
    if p.flag == PATH_START_FLAG {
        (ExchangeState { input_amount: p.amount, ..l }, p.amount)
    } else {
        (l, l.exchange_out)
    }
}

/// The ledger that a path swap leaves, given the destination balance before
/// and after it; under the check flag, an output below `input_amount` fails.
pub open spec fn path_settle_of(l: ExchangeState, flag: u8, before: u64, after: u64) -> Result<
    ExchangeState,
    ArbitrageError,
> {
    if after < before {
        Err(ArbitrageError::ArithmeticOverflow)
    } else if flag == PATH_CHECK_FLAG && after - before < l.input_amount {
        Err(ArbitrageError::UnprofitableBatch)
    } else {
        Ok(ExchangeState { exchange_out: (after - before) as u64, ..l })
    }
}

/// Starts a path invocation: the ledger to carry on and the amount to swap.
pub fn path_start(l: ExchangeState, p: &ExchangeWithPathInstruction) -> (r: (ExchangeState, u64))
    ensures
        r == path_start_of(l, *p),
{
    if p.flag == PATH_START_FLAG {
        (ExchangeState { input_amount: p.amount, ..l }, p.amount)
    } else {
        (l, l.exchange_out)
    }
}

/// Books a path swap: its output is what the destination balance gained.
pub fn path_settle(l: ExchangeState, flag: u8, before: u64, after: u64) -> (r: Result<
    ExchangeState,
    ArbitrageError,
>)
    ensures
        r == path_settle_of(l, flag, before, after),
{
    if after < before {
        return Err(ArbitrageError::ArithmeticOverflow);
    }
    let out = after - before;
    if flag == PATH_CHECK_FLAG && out < l.input_amount {
        return Err(ArbitrageError::UnprofitableBatch);
    }
    Ok(ExchangeState { exchange_out: out, ..l })
}

/// The parameters of an immediate-or-cancel order-book order.
#[derive(Clone, Copy, Debug, PartialEq, Eq, Structural)]
pub struct BookOrder {
    pub side: Side,
    /// Price limit in quote lots per base lot.
    pub limit_price: u64,
    /// Most base lots to trade.
    pub max_base_qty: u64,
    /// Most quote units to spend.
    pub max_quote_qty: u64,
}

/// The marketable order that swaps `amount_in` on an order book. A bid spends
/// `amount_in` of quote at any price; an ask sells `amount_in` of base, in
/// whole lots, down to the lowest price. An order for nothing is refused.
pub open spec fn book_order_of(side: Side, amount_in: u64, coin_lot_size: u64) -> Result<
    BookOrder,
    ArbitrageError,
> {
    match side {
        Side::Bid => if amount_in == 0 {
            Err(ArbitrageError::ZeroOrderSize)
        } else {
            Ok(
                BookOrder {
                    side,
                    limit_price: u64::MAX,
                    max_base_qty: u64::MAX,
                    max_quote_qty: amount_in,
                },
            )
        },
        Side::Ask => if coin_lot_size == 0 {
            Err(ArbitrageError::DivisionByZero)
        } else if amount_in / coin_lot_size == 0 {
            Err(ArbitrageError::ZeroOrderSize)
        } else {
            Ok(
                BookOrder {
                    side,
                    limit_price: 1,
                    max_base_qty: amount_in / coin_lot_size,
                    max_quote_qty: u64::MAX,
                },
            )
        },
    }
}

/// The marketable order-book order for a path swap of `amount_in`.
pub fn book_order(side: Side, amount_in: u64, coin_lot_size: u64) -> (r: Result<
    BookOrder,
    ArbitrageError,
>)
    ensures
        r == book_order_of(side, amount_in, coin_lot_size),
{
    match side {
        Side::Bid => {
            if amount_in == 0 {
                return Err(ArbitrageError::ZeroOrderSize);
            }
            Ok(
                BookOrder {
                    side,
                    limit_price: u64::MAX,
                    max_base_qty: u64::MAX,
                    max_quote_qty: amount_in,
                },
            )
        },
        Side::Ask => {
            if coin_lot_size == 0 {
                return Err(ArbitrageError::DivisionByZero);
            }
            let lots = amount_in / coin_lot_size;
            if lots == 0 {
                return Err(ArbitrageError::ZeroOrderSize);
            }
            Ok(BookOrder { side, limit_price: 1, max_base_qty: lots, max_quote_qty: u64::MAX })
        },
    }
}

} // verus!
