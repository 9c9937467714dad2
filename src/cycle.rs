use vstd::prelude::*;
use crate::error::ArbitrageError;
use crate::state::{ExchangeState, recorded};

verus! {

/// The balances that the host reads between the steps of a cycle: the source
/// asset (what the route starts and ends in) and the intermediate asset.
#[derive(Clone, Copy, Debug, PartialEq, Eq, Structural)]
pub struct Balances {
    pub source: u64,
    pub intermediate: u64,
}

/// What the host does next for a running cycle.
#[derive(Clone, Copy, Debug, PartialEq, Eq, Structural)]
pub enum CycleAction {
    /// Swap this much source asset into the intermediate asset on the first venue.
    SwapFirstLeg(u64),
    /// Swap this much intermediate asset back into the source asset on the second venue.
    SwapSecondLeg(u64),
    /// The cycle is booked: persist this ledger.
    Persist(ExchangeState),
    /// The cycle failed: abort the invocation, persisting nothing.
    Abort(ArbitrageError),
}

/// Where a cycle stands.
#[derive(Clone, Copy, Debug, PartialEq, Eq, Structural)]
pub enum CycleStage {
    /// Waiting for the balances before the first leg.
    Opening,
    /// The first leg was issued; waiting for the balances after it.
    FirstLegSent { source_before: u64, intermediate_before: u64 },
    /// The second leg was issued; waiting for the balances after it.
    SecondLegSent { source_before: u64 },
    /// Nothing is left to do.
    Closed,
}

/// One two-leg cycle of a route, driven by the host one step at a time.
#[derive(Clone, Copy, Debug, PartialEq, Eq, Structural)]
pub struct Cycle {
    /// The ledger as the invocation opened it.
    pub ledger: ExchangeState,
    /// The amount that the first leg swaps.
    pub trade_amount: u64,
    pub stage: CycleStage,
}

/// The next state and the host's next action, given the balances `seen`.
pub open spec fn step_of(c: Cycle, seen: Balances) -> (Cycle, CycleAction) {
    match c.stage {
        CycleStage::Opening => (
            Cycle {
                stage: CycleStage::FirstLegSent {
                    source_before: seen.source,
                    intermediate_before: seen.intermediate,
                },
                ..c
            },
            CycleAction::SwapFirstLeg(c.trade_amount),
        ),
        CycleStage::FirstLegSent { source_before, intermediate_before } => {
            if seen.intermediate >= intermediate_before {
                (
                    Cycle { stage: CycleStage::SecondLegSent { source_before }, ..c },
                    CycleAction::SwapSecondLeg((seen.intermediate - intermediate_before) as u64),
                )
            } else {
                (
                    Cycle { stage: CycleStage::Closed, ..c },
                    CycleAction::Abort(ArbitrageError::ArithmeticOverflow),
                )
            }
        },
        CycleStage::SecondLegSent { source_before } => match recorded(
            c.ledger,
            source_before,
            seen.source,
        ) {
            Some(l) => (
                Cycle { ledger: l, stage: CycleStage::Closed, ..c },
                CycleAction::Persist(l),
            ),
            None => (
                Cycle { stage: CycleStage::Closed, ..c },
                CycleAction::Abort(ArbitrageError::ArithmeticOverflow),
            ),
        },
        CycleStage::Closed => (c, CycleAction::Abort(ArbitrageError::ArithmeticOverflow)),
    }
}

impl Cycle {
    /// A cycle that will swap `trade_amount` on its first leg.
    pub fn new(ledger: ExchangeState, trade_amount: u64) -> (r: Cycle)
        ensures
            r == (Cycle { ledger, trade_amount, stage: CycleStage::Opening }),
    {
        Cycle { ledger, trade_amount, stage: CycleStage::Opening }
    }

    /// Whether the cycle has nothing left to do.
    pub fn is_closed(&self) -> (r: bool)
        ensures
            r == (self.stage is Closed),
    {
        match self.stage {
            CycleStage::Closed => true,
            _ => false,
        }
    }

    /// Advances the cycle with the balances that the host just read.
    ///
    /// Before the first leg the balances are recorded and the first leg swaps
    /// `trade_amount`. After it, the second leg swaps exactly what the
    /// intermediate balance gained. After the second leg the change of the
    /// source balance is booked on the ledger.
    pub fn step(&mut self, seen: Balances) -> (r: CycleAction)
        requires
            !(old(self).stage is Closed),
        ensures
            (*final(self), r) == step_of(*old(self), seen),
    {
        match self.stage {
            CycleStage::Opening => {
                self.stage = CycleStage::FirstLegSent {
                    source_before: seen.source,
                    intermediate_before: seen.intermediate,
                };
                CycleAction::SwapFirstLeg(self.trade_amount)
            },
            CycleStage::FirstLegSent { source_before, intermediate_before } => {
                if seen.intermediate >= intermediate_before {
                    self.stage = CycleStage::SecondLegSent { source_before };
                    CycleAction::SwapSecondLeg(seen.intermediate - intermediate_before)
                } else {
                    self.stage = CycleStage::Closed;
                    CycleAction::Abort(ArbitrageError::ArithmeticOverflow)
                }
            },
            CycleStage::SecondLegSent { source_before } => {
                let mut l = self.ledger;
                self.stage = CycleStage::Closed;
                match l.record_cycle(source_before, seen.source) {
                    Ok(()) => {
                        self.ledger = l;
                        CycleAction::Persist(l)
                    },
                    Err(e) => CycleAction::Abort(e),
                }
            },
            CycleStage::Closed => CycleAction::Abort(ArbitrageError::ArithmeticOverflow),
        }
    }
}

/// The second leg swaps exactly what the first leg delivered, as observed in
/// the intermediate balance, never an amount derived any other way.
pub proof fn lemma_second_leg_uses_observed_output(
    ledger: ExchangeState,
    trade_amount: u64,
    before: Balances,
    after_first: Balances,
)
    requires
        after_first.intermediate >= before.intermediate,
    ensures
        ({
            let c0 = Cycle { ledger, trade_amount, stage: CycleStage::Opening };
            let (c1, a1) = step_of(c0, before);
            let (c2, a2) = step_of(c1, after_first);
            &&& a1 == CycleAction::SwapFirstLeg(trade_amount)
            &&& a2 == CycleAction::SwapSecondLeg(
                (after_first.intermediate - before.intermediate) as u64,
            )
        }),
{
}

/// A cycle driven to its end books the change of the source balance between
/// the first reading and the last, and nothing else.
pub proof fn lemma_cycle_books_source_change(
    ledger: ExchangeState,
    trade_amount: u64,
    before: Balances,
    after_first: Balances,
    after_second: Balances,
)
    requires
        after_first.intermediate >= before.intermediate,
        recorded(ledger, before.source, after_second.source) is Some,
    ensures
        ({
            let c0 = Cycle { ledger, trade_amount, stage: CycleStage::Opening };
            let (c1, a1) = step_of(c0, before);
            let (c2, a2) = step_of(c1, after_first);
            let (c3, a3) = step_of(c2, after_second);
            &&& a3 == CycleAction::Persist(recorded(ledger, before.source, after_second.source)->0)
            &&& c3.stage is Closed
        }),
{
}

} // verus!
