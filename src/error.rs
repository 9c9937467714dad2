use vstd::prelude::*;

verus! {

/// Why an invocation of the arbitrage core failed.
///
/// Every variant is fatal: the host aborts the whole invocation and persists
/// nothing. A caller that is not allowed on a privileged route is not an error
/// at all; such an invocation ends successfully without trading.
#[derive(Clone, Copy, Debug, PartialEq, Eq, Structural)]
pub enum ArbitrageError {
    /// The opcode tag is past the last band, or selects a two-leg band that
    /// has no entry in the route registry.
    InvalidOpcode,
    /// The payload or a ledger record is too short, or holds an invalid selector.
    MalformedPayload,
    /// A venue call failed; the host's raw error code is carried verbatim.
    VenueCallFailed(u64),
    /// A finalizing invocation found more cumulative loss than profit.
    UnprofitableBatch,
    /// The caller is outside the time window and carries no allow-listed mark.
    TimeWindowRejected,
    /// An amount does not fit in 64 bits, or a balance moved the wrong way.
    ArithmeticOverflow,
    /// A sizing or pricing rule would divide by zero.
    DivisionByZero,
    /// An order-book order would be placed for zero lots or zero quote.
    ZeroOrderSize,
}

/// The custom error number reported to the host for each kind of failure.
pub open spec fn custom_code_of(e: ArbitrageError) -> u32 {
    match e {
        ArbitrageError::InvalidOpcode => 10000,
        ArbitrageError::MalformedPayload => 10001,
        ArbitrageError::VenueCallFailed(_) => 10002,
        ArbitrageError::UnprofitableBatch => 10003,
        ArbitrageError::TimeWindowRejected => 10004,
        ArbitrageError::ArithmeticOverflow => 10005,
        ArbitrageError::DivisionByZero => 10006,
        ArbitrageError::ZeroOrderSize => 10007,
    }
}

impl ArbitrageError {
    /// The custom error number of this failure. A failed venue call keeps the
    /// host's own code instead (see `VenueCallFailed`), so this number is only
    /// meaningful for the other variants.
    pub fn custom_code(&self) -> (r: u32)
        ensures
            r == custom_code_of(*self),
    {
        match self {
            ArbitrageError::InvalidOpcode => 10000,
            ArbitrageError::MalformedPayload => 10001,
            ArbitrageError::VenueCallFailed(_) => 10002,
            ArbitrageError::UnprofitableBatch => 10003,
            ArbitrageError::TimeWindowRejected => 10004,
            ArbitrageError::ArithmeticOverflow => 10005,
            ArbitrageError::DivisionByZero => 10006,
            ArbitrageError::ZeroOrderSize => 10007,
        }
    }
}

} // verus!
