use vstd::prelude::*;
use crate::error::ArbitrageError;
use crate::state::ExchangeState;

verus! {

/// A route's static calibration, all amounts in the base asset's smallest unit.
#[derive(Clone, Copy, Debug, PartialEq, Eq, Structural)]
pub struct RouteCalibration {
    /// Baseline trade size, at 1.0x scale.
    pub normal_input_amount: u64,
    /// Least `exchange_out` that lets a cycle run, at 1.0x scale.
    pub threshold_base: u64,
    /// The typical profit of a cycle, at 1.0x scale.
    pub expected_profit_base: u64,
    /// The `exchange_out` that a reset seeds, so that the first cycle runs.
    pub seed_exchange_out: u64,
}

/// How a route scales its gate and its next trade from the ledger.
#[derive(Clone, Copy, Debug, PartialEq, Eq, Structural)]
pub enum SizingPolicy {
    /// Scale in tenths: by `input_amount / normal_input_amount` for the entry levels,
    /// by `exchange_out / expected_profit` for the next trade.
    Proportional,
    /// Halve, keep, double or quadruple the entry levels by bands of `input_amount`;
    /// pick the next trade from five multiples of the baseline.
    Stepped,
    /// Always the calibrated gate and the baseline trade.
    Fixed,
}

/// The entry levels of one cycle: the least `exchange_out` that lets it run, and the
/// profit that counts as typical at the ledger's current scale. They are kept
/// in 128 bits, so that a level no 64-bit output can reach stays unreachable.
#[derive(Clone, Copy, Debug, PartialEq, Eq, Structural)]
pub struct Levels {
    pub threshold: u128,
    pub expected_profit: u128,
}

impl RouteCalibration {
    /// A calibration that every policy can scale by: a nonzero baseline.
    pub open spec fn valid(self) -> bool {
        self.normal_input_amount > 0
    }
}

/// `x` if it fits in a `u64`, else an overflow.
pub open spec fn fit(x: int) -> Result<u64, ArbitrageError> {
    if 0 <= x <= u64::MAX {
        Ok(x as u64)
    } else {
        Err(ArbitrageError::ArithmeticOverflow)
    }
}

/// `x / 10`, or the largest 128-bit value where `x` itself leaves 128 bits;
/// either way no 64-bit amount reaches it when `x / 10` does not fit in 64 bits.
pub open spec fn tenth_capped(x: int) -> u128 {
    if x > u128::MAX {
        u128::MAX
    } else {
        (x / 10) as u128
    }
}

/// The proportional scale of the ledger's last trade, in tenths of the baseline.
pub open spec fn tenths_of(l: ExchangeState, c: RouteCalibration) -> int {
    (l.input_amount * 10) / (c.normal_input_amount as int)
}

/// The entry levels that `policy` derives from the ledger and the calibration.
/// All arithmetic is on integers and truncates. Only a zero baseline under
/// proportional scaling is an error.
pub open spec fn levels_of(policy: SizingPolicy, l: ExchangeState, c: RouteCalibration) -> Result<
    Levels,
    ArbitrageError,
> {
    match policy {
        SizingPolicy::Proportional => {
            if c.normal_input_amount == 0 {
                Err(ArbitrageError::DivisionByZero)
            } else {
                let multiple = tenths_of(l, c);
                Ok(
                    Levels {
                        threshold: tenth_capped(c.threshold_base * multiple),
                        expected_profit: tenth_capped(c.expected_profit_base * multiple),
                    },
                )
            }
        },
        SizingPolicy::Stepped => {
            let n = c.normal_input_amount as int;
            if l.input_amount <= n / 2 {
                Ok(
                    Levels {
                        threshold: (c.threshold_base / 2) as u128,
                        expected_profit: (c.expected_profit_base / 2) as u128,
                    },
                )
            } else {
                let factor: int = if l.input_amount <= n {
                    1
                } else if l.input_amount <= 2 * n {
                    2
                } else {
                    4
                };
                Ok(
                    Levels {
                        threshold: (c.threshold_base * factor) as u128,
                        expected_profit: (c.expected_profit_base * factor) as u128,
                    },
                )
            }
        },
        SizingPolicy::Fixed => Ok(
            Levels {
                threshold: c.threshold_base as u128,
                expected_profit: c.expected_profit_base as u128,
            },
        ),
    }
}

/// The size of the next trade that `policy` derives from the last cycle's
/// output `l.exchange_out` and the entry levels' `expected_profit`. A size that
/// does not fit in 64 bits is an overflow.
pub open spec fn trade_of(
    policy: SizingPolicy,
    l: ExchangeState,
    c: RouteCalibration,
    expected_profit: u128,
) -> Result<u64, ArbitrageError> {
    let n = c.normal_input_amount as int;
    let out = l.exchange_out as int;
    let e = expected_profit as int;
    match policy {
        SizingPolicy::Proportional => {
            if e == 0 {
                Err(ArbitrageError::DivisionByZero)
            } else {
                fit((n * ((out * 10) / e)) / 10)
            }
        },
        SizingPolicy::Stepped => {
            if out > 4 * e {
                fit(4 * n)
            } else if out > 2 * e {
                fit(3 * n)
            } else if out > e {
                fit(2 * n)
            } else if out < e / 2 {
                Ok((n / 2) as u64)
            } else {
                Ok(n as u64)
            }
        },
        SizingPolicy::Fixed => Ok(c.normal_input_amount),
    }
}

fn tenth_of_product(a: u64, b: u128) -> (r: u128)
    ensures
        r == tenth_capped(a * b),
{
    match (a as u128).checked_mul(b) {
        Some(v) => v / 10,
        None => u128::MAX,
    }
}

/// Whether `out > k * e`, without overflow.
fn exceeds(out: u64, k: u128, e: u128) -> (r: bool)
    ensures
        r == (out > k * e),
{
    match k.checked_mul(e) {
        Some(v) => (out as u128) > v,
        None => false,
    }
}

impl SizingPolicy {
    /// The entry levels for the next cycle of a route with calibration `c`.
    pub fn levels(&self, l: &ExchangeState, c: &RouteCalibration) -> (r: Result<
        Levels,
        ArbitrageError,
    >)
        ensures
            r == levels_of(*self, *l, *c),
    {
        match self {
            SizingPolicy::Proportional => {
                if c.normal_input_amount == 0 {
                    return Err(ArbitrageError::DivisionByZero);
                }
                let multiple = (l.input_amount as u128 * 10) / (c.normal_input_amount as u128);
                Ok(
                    Levels {
                        threshold: tenth_of_product(c.threshold_base, multiple),
                        expected_profit: tenth_of_product(c.expected_profit_base, multiple),
                    },
                )
            },
            SizingPolicy::Stepped => {
                let n = c.normal_input_amount;
                if l.input_amount <= n / 2 {
                    return Ok(
                        Levels {
                            threshold: (c.threshold_base / 2) as u128,
                            expected_profit: (c.expected_profit_base / 2) as u128,
                        },
                    );
                }
                let factor: u128 = if l.input_amount <= n {
                    1
                } else if l.input_amount - n <= n {
                    2
                } else {
                    4
                };
                Ok(
                    Levels {
                        threshold: c.threshold_base as u128 * factor,
                        expected_profit: c.expected_profit_base as u128 * factor,
                    },
                )
            },
            SizingPolicy::Fixed => Ok(
                Levels {
                    threshold: c.threshold_base as u128,
                    expected_profit: c.expected_profit_base as u128,
                },
            ),
        }
    }

    /// The size of the next trade, given the entry levels' `expected_profit`.
    pub fn trade_amount(&self, l: &ExchangeState, c: &RouteCalibration, expected_profit: u128) -> (r:
        Result<u64, ArbitrageError>)
        ensures
            r == trade_of(*self, *l, *c, expected_profit),
    {
        let n = c.normal_input_amount;
        let out = l.exchange_out;
        let e = expected_profit;
        match self {
            SizingPolicy::Proportional => {
                if e == 0 {
                    return Err(ArbitrageError::DivisionByZero);
                }
                let multiple = (out as u128 * 10) / e;
                match (n as u128).checked_mul(multiple) {
                    Some(v) => {
                        if v / 10 > u64::MAX as u128 {
                            Err(ArbitrageError::ArithmeticOverflow)
                        } else {
                            Ok((v / 10) as u64)
                        }
                    },
                    None => Err(ArbitrageError::ArithmeticOverflow),
                }
            },
            SizingPolicy::Stepped => {
                let factor: u64 = if exceeds(out, 4, e) {
                    4
                } else if exceeds(out, 2, e) {
                    3
                } else if exceeds(out, 1, e) {
                    2
                } else {
                    1
                };
                if factor == 1 && (out as u128) < e / 2 {
                    return Ok(n / 2);
                }
                match n.checked_mul(factor) {
                    Some(v) => Ok(v),
                    None => Err(ArbitrageError::ArithmeticOverflow),
                }
            },
            SizingPolicy::Fixed => Ok(n),
        }
    }
}

} // verus!
