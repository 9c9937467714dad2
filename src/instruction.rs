use vstd::prelude::*;
use vstd::bytes::*;
use crate::error::ArbitrageError;

verus! {

/// A trading venue that a path route can name.
#[derive(Clone, Copy, Debug, PartialEq, Eq, Structural)]
pub enum Market {
    Orca,
    Saber,
    Serum,
    Raydium,
    Mercurial,
}

/// The venue that a selector byte names, if any.
pub open spec fn market_of(value: u8) -> Option<Market> {
    if value == 0 {
        Some(Market::Orca)
    } else if value == 1 {
        Some(Market::Saber)
    } else if value == 2 {
        Some(Market::Serum)
    } else if value == 3 {
        Some(Market::Raydium)
    } else if value == 4 {
        Some(Market::Mercurial)
    } else {
        None
    }
}

impl Market {
    /// Decodes a venue selector byte.
    pub fn from(value: u8) -> (r: Option<Market>)
        ensures
            r == market_of(value),
    {
        match value {
            0 => Some(Market::Orca),
            1 => Some(Market::Saber),
            2 => Some(Market::Serum),
            3 => Some(Market::Raydium),
            4 => Some(Market::Mercurial),
            _ => None,
        }
    }
}

/// The side of an order-book order.
#[derive(Clone, Copy, Debug, PartialEq, Eq, Structural)]
pub enum Side {
    Bid,
    Ask,
}

/// The side that a selector byte names, if any.
pub open spec fn side_of(value: u8) -> Option<Side> {
    if value == 0 {
        Some(Side::Bid)
    } else if value == 1 {
        Some(Side::Ask)
    } else {
        None
    }
}

/// Decodes an order side selector byte.
pub fn find_side(value: u8) -> (r: Option<Side>)
    ensures
        r == side_of(value),
{
    match value {
        0 => Some(Side::Bid),
        1 => Some(Side::Ask),
        _ => None,
    }
}

/// What one invocation of a route does besides running a cycle.
#[derive(Clone, Copy, Debug, PartialEq, Eq, Structural)]
pub enum Phase {
    /// Run one cycle.
    Run,
    /// Reset the ledger, then run one cycle.
    Reset,
    /// Run one cycle, then enforce the profitability gate.
    RunAndFinalize,
    /// Reset, run one cycle, then enforce the profitability gate.
    ResetAndFinalize,
}

/// The flag value that resets a route's ledger.
pub const RESET_FLAG: u8 = 0;
/// The flag value that ends a batch and enforces the profitability gate.
pub const FINALIZE_FLAG: u8 = 100;
/// On privileged routes, the flag value that resets and finalizes at once.
pub const SENTINEL_FLAG: u8 = 127;

/// The phase that `flag` selects; `sentinel` says whether the route also
/// honours the reset-and-finalize sentinel.
pub open spec fn phase_of(flag: u8, sentinel: bool) -> Phase {
    if flag == RESET_FLAG {
        Phase::Reset
    } else if flag == FINALIZE_FLAG {
        Phase::RunAndFinalize
    } else if sentinel && flag == SENTINEL_FLAG {
        Phase::ResetAndFinalize
    } else {
        Phase::Run
    }
}

impl Phase {
    pub open spec fn resets(self) -> bool {
        self is Reset || self is ResetAndFinalize
    }

    pub open spec fn finalizes(self) -> bool {
        self is RunAndFinalize || self is ResetAndFinalize
    }

    /// Whether this phase starts a new epoch.
    pub fn is_reset(&self) -> (r: bool)
        ensures
            r == self.resets(),
    {
        match self {
            Phase::Reset | Phase::ResetAndFinalize => true,
            _ => false,
        }
    }

    /// Whether this phase enforces the profitability gate.
    pub fn is_final(&self) -> (r: bool)
        ensures
            r == self.finalizes(),
    {
        match self {
            Phase::RunAndFinalize | Phase::ResetAndFinalize => true,
            _ => false,
        }
    }
}

/// The payload of a path route: one swap on one named venue.
#[derive(Clone, Copy, Debug, PartialEq, Eq, Structural)]
pub struct ExchangeWithPathInstruction {
    pub flag: u8,
    pub amount: u64,
    pub market: Market,
    pub side: Side,
}

/// The payload of a two-leg route: a single flag byte.
#[derive(Clone, Copy, Debug, PartialEq, Eq, Structural)]
pub struct ExchangeWithTryInstruction {
    pub flag: u8,
}

/// Length of a path route's payload.
pub const PATH_DATA_LEN: usize = 11;

/// The path payload that `rest` holds: flag, little-endian amount, venue
/// selector and side selector.
pub open spec fn decode_path(rest: Seq<u8>) -> Result<ExchangeWithPathInstruction, ArbitrageError> {
    if rest.len() < PATH_DATA_LEN {
        Err(ArbitrageError::MalformedPayload)
    } else if market_of(rest[9]) is None || side_of(rest[10]) is None {
        Err(ArbitrageError::MalformedPayload)
    } else {
        Ok(
            ExchangeWithPathInstruction {
                flag: rest[0],
                amount: spec_u64_from_le_bytes(rest.subrange(1, 9)),
                market: market_of(rest[9])->0,
                side: side_of(rest[10])->0,
            },
        )
    }
}

/// The flag payload that `rest` holds.
pub open spec fn decode_try(rest: Seq<u8>) -> Result<ExchangeWithTryInstruction, ArbitrageError> {
    if rest.len() < 1 {
        Err(ArbitrageError::MalformedPayload)
    } else {
        Ok(ExchangeWithTryInstruction { flag: rest[0] })
    }
}

impl ExchangeWithPathInstruction {
    /// Decodes a path route's payload.
    pub fn unpack(input: &[u8]) -> (r: Result<ExchangeWithPathInstruction, ArbitrageError>)
        ensures
            r == decode_path(input@),
    {
        if input.len() < PATH_DATA_LEN {
            return Err(ArbitrageError::MalformedPayload);
        }
        let flag = input[0];
        let amount = u64_from_le_bytes(vstd::slice::slice_subrange(input, 1, 9));
        let market = match Market::from(input[9]) {
            Some(m) => m,
            None => return Err(ArbitrageError::MalformedPayload),
        };
        let side = match find_side(input[10]) {
            Some(s) => s,
            None => return Err(ArbitrageError::MalformedPayload),
        };
        Ok(ExchangeWithPathInstruction { flag, amount, market, side })
    }
}

impl ExchangeWithTryInstruction {
    /// Decodes a two-leg route's payload.
    pub fn unpack(input: &[u8]) -> (r: Result<ExchangeWithTryInstruction, ArbitrageError>)
        ensures
            r == decode_try(input@),
    {
        if input.len() < 1 {
            return Err(ArbitrageError::MalformedPayload);
        }
        Ok(ExchangeWithTryInstruction { flag: input[0] })
    }

    /// The phase that this payload's flag selects on a route that does, or
    /// does not, honour the reset-and-finalize sentinel.
    pub fn phase(&self, sentinel: bool) -> (r: Phase)
        ensures
            r == phase_of(self.flag, sentinel),
    {
        if self.flag == RESET_FLAG {
            Phase::Reset
        } else if self.flag == FINALIZE_FLAG {
            Phase::RunAndFinalize
        } else if sentinel && self.flag == SENTINEL_FLAG {
            Phase::ResetAndFinalize
        } else {
            Phase::Run
        }
    }
}

/// A decoded invocation: the route that its opcode's band selects, with that
/// route's payload.
#[derive(Clone, Copy, Debug, PartialEq, Eq, Structural)]
pub enum ArbitrageInstruction {
    /// Tags 0 to 10: the privileged route across every venue.
    ExchangeNonStableAll(ExchangeWithTryInstruction),
    /// Tags 11 to 20: an order-book route that is not active.
    ExchangeNonStableSerum,
    /// Tags 21 to 30: a single swap on a named venue.
    ExchangeWithPath(ExchangeWithPathInstruction),
    /// Tags 31 to 170: two-leg route number `band` (1 to 32). Tags 31 to 150
    /// come in bands of ten; each tag from 151 on is a band of its own.
    ExchangeStable(u8, ExchangeWithTryInstruction),
}

/// The last tag that selects a route.
pub const LAST_TAG: u8 = 170;

/// The two-leg route number that a tag from 31 to 170 selects.
pub open spec fn stable_band(tag: u8) -> u8 {
    if tag <= 150 {
        ((tag - 21) / 10) as u8
    } else {
        (tag - 138) as u8
    }
}

/// What an opcode stream decodes to: its first byte picks the band, the rest
/// is that band's payload.
pub open spec fn decode_instruction(input: Seq<u8>) -> Result<ArbitrageInstruction, ArbitrageError> {
    if input.len() == 0 {
        Err(ArbitrageError::InvalidOpcode)
    } else {
        let tag = input[0];
        let rest = input.drop_first();
        if tag <= 10 {
            match decode_try(rest) {
                Ok(d) => Ok(ArbitrageInstruction::ExchangeNonStableAll(d)),
                Err(e) => Err(e),
            }
        } else if tag <= 20 {
            Ok(ArbitrageInstruction::ExchangeNonStableSerum)
        } else if tag <= 30 {
            match decode_path(rest) {
                Ok(d) => Ok(ArbitrageInstruction::ExchangeWithPath(d)),
                Err(e) => Err(e),
            }
        } else if tag <= LAST_TAG {
            match decode_try(rest) {
                Ok(d) => Ok(ArbitrageInstruction::ExchangeStable(stable_band(tag), d)),
                Err(e) => Err(e),
            }
        } else {
            Err(ArbitrageError::InvalidOpcode)
        }
    }
}

impl ArbitrageInstruction {
    /// Decodes an opcode stream. An empty stream or a tag past the last band
    /// is `InvalidOpcode`; a payload too short for its band, or with an
    /// unknown venue or side, is `MalformedPayload`.
    pub fn unpack(input: &[u8]) -> (r: Result<ArbitrageInstruction, ArbitrageError>)
        ensures
            r == decode_instruction(input@),
    {
        if input.len() == 0 {
            return Err(ArbitrageError::InvalidOpcode);
        }
        let tag = input[0];
        let rest = vstd::slice::slice_subrange(input, 1, input.len());
        assert(rest@ == input@.drop_first());
        if tag <= 10 {
            match ExchangeWithTryInstruction::unpack(rest) {
                Ok(d) => Ok(ArbitrageInstruction::ExchangeNonStableAll(d)),
                Err(e) => Err(e),
            }
        } else if tag <= 20 {
            Ok(ArbitrageInstruction::ExchangeNonStableSerum)
        } else if tag <= 30 {
            match ExchangeWithPathInstruction::unpack(rest) {
                Ok(d) => Ok(ArbitrageInstruction::ExchangeWithPath(d)),
                Err(e) => Err(e),
            }
        } else if tag <= LAST_TAG {
            let band: u8 = if tag <= 150 {
                (tag - 21) / 10
            } else {
                tag - 138
            };
            match ExchangeWithTryInstruction::unpack(rest) {
                Ok(d) => Ok(ArbitrageInstruction::ExchangeStable(band, d)),
                Err(e) => Err(e),
            }
        } else {
            Err(ArbitrageError::InvalidOpcode)
        }
    }
}

/// Every two-leg tag selects a route number from 1 to 32, ten tags to a band
/// up to tag 150 and one tag to a band after it.
pub proof fn lemma_stable_bands(tag: u8)
    requires
        31 <= tag <= LAST_TAG,
    ensures
        1 <= stable_band(tag) <= 32,
        tag <= 150 ==> 10 * stable_band(tag) + 21 <= tag <= 10 * stable_band(tag) + 30,
        tag > 150 ==> stable_band(tag) == tag - 138,
{
}

} // verus!
