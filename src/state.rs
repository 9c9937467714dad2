use vstd::prelude::*;
use vstd::bytes::*;
use crate::error::ArbitrageError;

verus! {

/// Length in bytes of a persisted ledger record.
pub const LEDGER_LEN: usize = 32;

/// The persisted per-route ledger: sizing state and the profit/loss totals of
/// the current epoch (the invocations since the last reset).
#[derive(Clone, Copy, Debug, PartialEq, Eq, Structural)]
pub struct ExchangeState {
    /// Size of the last (or next) trade, in the base asset's smallest unit.
    pub input_amount: u64,
    /// Output of the last completed cycle; the capital signal for the next one.
    pub exchange_out: u64,
    /// Realized gains since the last reset.
    pub total_profit: u64,
    /// Realized losses since the last reset.
    pub total_lost: u64,
}

/// The little-endian `u64` stored at `off .. off + 8` of `s`.
pub open spec fn u64_at(s: Seq<u8>, off: int) -> u64 {
    spec_u64_from_le_bytes(s.subrange(off, off + 8))
}

/// The ledger that the first 32 bytes of `s` encode.
pub open spec fn decode_ledger(s: Seq<u8>) -> ExchangeState {
    ExchangeState {
        input_amount: u64_at(s, 0),
        exchange_out: u64_at(s, 8),
        total_profit: u64_at(s, 16),
        total_lost: u64_at(s, 24),
    }
}

/// The 32-byte record of a ledger: four little-endian `u64` fields in order.
pub open spec fn encode_ledger(l: ExchangeState) -> Seq<u8> {
    spec_u64_to_le_bytes(l.input_amount) + spec_u64_to_le_bytes(l.exchange_out)
        + spec_u64_to_le_bytes(l.total_profit) + spec_u64_to_le_bytes(l.total_lost)
}

/// The ledger after a cycle whose source-asset balance went from `before` to
/// `after`, or `None` where a total would no longer fit in 64 bits.
pub open spec fn recorded(l: ExchangeState, before: u64, after: u64) -> Option<ExchangeState> {
    if after > before {
        if l.total_profit + (after - before) > u64::MAX {
            None
        } else {
            Some(ExchangeState {
                exchange_out: (after - before) as u64,
                total_profit: (l.total_profit + (after - before)) as u64,
                ..l
            })
        }
    } else {
        if l.total_lost + (before - after) > u64::MAX {
            None
        } else {
            Some(ExchangeState {
                exchange_out: 0,
                total_lost: (l.total_lost + (before - after)) as u64,
                ..l
            })
        }
    }
}

/// The ledger after a run of cycles in one epoch, each given by the source
/// balances before and after it; `None` once a total overflows.
pub open spec fn replay(l: ExchangeState, cycles: Seq<(u64, u64)>) -> Option<ExchangeState>
    decreases cycles.len(),
{
    if cycles.len() == 0 {
        Some(l)
    } else {
        match recorded(l, cycles[0].0, cycles[0].1) {
            Some(next) => replay(next, cycles.drop_first()),
            None => None,
        }
    }
}

/// The ledger that a reset leaves: both totals zero, the exchange output seeded
/// and the trade size back at its baseline.
pub open spec fn reset_ledger(seed_out: u64, baseline: u64) -> ExchangeState {
    ExchangeState { input_amount: baseline, exchange_out: seed_out, total_profit: 0, total_lost: 0 }
}

impl ExchangeState {
    /// Reads a ledger from the first 32 bytes of `src`.
    pub fn unpack_from_slice(src: &[u8]) -> (r: Result<ExchangeState, ArbitrageError>)
        ensures
            src@.len() >= LEDGER_LEN ==> r == Ok::<ExchangeState, ArbitrageError>(
                decode_ledger(src@),
            ),
            src@.len() < LEDGER_LEN ==> r == Err::<ExchangeState, ArbitrageError>(
                ArbitrageError::MalformedPayload,
            ),
    {
        if src.len() < LEDGER_LEN {
            return Err(ArbitrageError::MalformedPayload);
        }
        let input_amount = u64_from_le_bytes(vstd::slice::slice_subrange(src, 0, 8));
        let exchange_out = u64_from_le_bytes(vstd::slice::slice_subrange(src, 8, 16));
        let total_profit = u64_from_le_bytes(vstd::slice::slice_subrange(src, 16, 24));
        let total_lost = u64_from_le_bytes(vstd::slice::slice_subrange(src, 24, 32));
        Ok(ExchangeState { input_amount, exchange_out, total_profit, total_lost })
    }

    /// Writes this ledger into the first 32 bytes of `dst`, leaving the rest.
    pub fn pack_into_slice(&self, dst: &mut [u8])
        requires
            old(dst)@.len() >= LEDGER_LEN,
        ensures
            final(dst)@.len() == old(dst)@.len(),
            final(dst)@.subrange(0, 32) == encode_ledger(*self),
            final(dst)@.subrange(32, final(dst)@.len() as int) == old(dst)@.subrange(
                32,
                old(dst)@.len() as int,
            ),
    {
        let mut record: Vec<u8> = u64_to_le_bytes(self.input_amount);
        let mut part: Vec<u8> = u64_to_le_bytes(self.exchange_out);
        record.append(&mut part);
        let mut part: Vec<u8> = u64_to_le_bytes(self.total_profit);
        record.append(&mut part);
        let mut part: Vec<u8> = u64_to_le_bytes(self.total_lost);
        record.append(&mut part);
        assert(record@ == encode_ledger(*self));
        let ghost start = dst@;
        let mut i: usize = 0;
        while i < LEDGER_LEN
            invariant
                0 <= i <= LEDGER_LEN,
                record@.len() == LEDGER_LEN,
                dst@.len() == start.len(),
                start.len() >= LEDGER_LEN,
                forall|j: int| 0 <= j < i ==> dst@[j] == record@[j],
                forall|j: int| i <= j < dst@.len() ==> dst@[j] == start[j],
            decreases LEDGER_LEN - i,
        {
            dst[i] = record[i];
            i = i + 1;
        }
        assert(dst@.subrange(0, 32) =~= record@);
        assert(dst@.subrange(32, dst@.len() as int) =~= start.subrange(32, start.len() as int));
    }

    /// Starts a new epoch: both totals zero, `exchange_out` seeded with
    /// `seed_out` and the trade size set back to `baseline`, whatever the
    /// ledger held before.
    pub fn reset(&mut self, seed_out: u64, baseline: u64)
        ensures
            *final(self) == reset_ledger(seed_out, baseline),
    {
        self.total_profit = 0;
        self.total_lost = 0;
        self.exchange_out = seed_out;
        self.input_amount = baseline;
    }

    /// Books one completed cycle whose source-asset balance went from `before`
    /// to `after`. A gain becomes the new `exchange_out` and is added to
    /// `total_profit`; otherwise `exchange_out` drops to zero and the loss is
    /// added to `total_lost`. Fails, leaving the ledger as it was, where a total
    /// would overflow.
    pub fn record_cycle(&mut self, before: u64, after: u64) -> (r: Result<(), ArbitrageError>)
        ensures
            recorded(*old(self), before, after) matches Some(l) ==> r is Ok && *final(self) == l,
            recorded(*old(self), before, after) is None ==> r == Err::<(), ArbitrageError>(
                ArbitrageError::ArithmeticOverflow,
            ) && *final(self) == *old(self),
    {
        if after > before {
            let gain = after - before;
            match self.total_profit.checked_add(gain) {
                Some(total) => {
                    self.exchange_out = gain;
                    self.total_profit = total;
                    Ok(())
                },
                None => Err(ArbitrageError::ArithmeticOverflow),
            }
        } else {
            let loss = before - after;
            match self.total_lost.checked_add(loss) {
                Some(total) => {
                    self.exchange_out = 0;
                    self.total_lost = total;
                    Ok(())
                },
                None => Err(ArbitrageError::ArithmeticOverflow),
            }
        }
    }
}

/// A ledger survives being written out and read back unchanged.
pub proof fn lemma_ledger_round_trip(l: ExchangeState)
    ensures
        encode_ledger(l).len() == LEDGER_LEN,
        decode_ledger(encode_ledger(l)) == l,
{
    lemma_auto_spec_u64_to_from_le_bytes();
    let s = encode_ledger(l);
    assert(s.subrange(0, 8) =~= spec_u64_to_le_bytes(l.input_amount));
    assert(s.subrange(8, 16) =~= spec_u64_to_le_bytes(l.exchange_out));
    assert(s.subrange(16, 24) =~= spec_u64_to_le_bytes(l.total_profit));
    assert(s.subrange(24, 32) =~= spec_u64_to_le_bytes(l.total_lost));
}

/// Within one epoch the totals only grow: after any run of booked cycles,
/// `total_profit` and `total_lost` are each at least what they were.
pub proof fn lemma_totals_non_decreasing(l: ExchangeState, cycles: Seq<(u64, u64)>)
    requires
        replay(l, cycles) is Some,
    ensures
        replay(l, cycles)->0.total_profit >= l.total_profit,
        replay(l, cycles)->0.total_lost >= l.total_lost,
    decreases cycles.len(),
{
    if cycles.len() > 0 {
        let next = recorded(l, cycles[0].0, cycles[0].1)->0;
        lemma_totals_non_decreasing(next, cycles.drop_first());
    }
}

/// A cycle adds to exactly one of the two totals: a gain to the profit and
/// nothing to the loss, anything else to the loss and nothing to the profit.
pub proof fn lemma_cycle_touches_one_total(l: ExchangeState, before: u64, after: u64)
    requires
        recorded(l, before, after) is Some,
    ensures
        after > before ==> {
            let n = recorded(l, before, after)->0;
            &&& n.total_profit == l.total_profit + (after - before)
            &&& n.total_lost == l.total_lost
        },
        after <= before ==> {
            let n = recorded(l, before, after)->0;
            &&& n.total_lost == l.total_lost + (before - after)
            &&& n.total_profit == l.total_profit
        },
{
}

} // verus!
