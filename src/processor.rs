use vstd::prelude::*;
use crate::cycle::{Cycle, CycleStage};
use crate::error::ArbitrageError;
use crate::gate::{TimeWindowGate, enforce_profitability, profitable, same_identity};
use crate::instruction::{ArbitrageInstruction, Phase, phase_of};
use crate::sizing::{RouteCalibration, SizingPolicy, levels_of, tenths_of, trade_of};
use crate::state::{ExchangeState, reset_ledger};

verus! {

/// A venue that a leg of a route swaps on.
#[derive(Clone, Copy, Debug, PartialEq, Eq, Structural)]
pub enum Venue {
    Orca,
    Saber,
    Serum,
    Raydium,
    Mercurial2Pool,
    Mercurial3Pool,
    Mercurial4Pool,
    Whirl,
}

/// One configured route: its two legs in order, how it sizes its trades, and
/// which gates guard it.
#[derive(Clone, Copy, Debug, PartialEq, Eq, Structural)]
pub struct RouteConfig {
    /// The venue of the first leg (source asset into intermediate asset).
    pub first: Venue,
    /// The venue of the second leg (intermediate asset back into source asset).
    pub second: Venue,
    pub calibration: RouteCalibration,
    pub policy: SizingPolicy,
    /// Only the operator may trade; anyone else gets a successful no-op.
    pub privileged: bool,
    /// Callers are subject to the time-window gate.
    pub time_window: bool,
    /// The flag 127 resets and finalizes at once.
    pub sentinel: bool,
}

/// A band of the registry: the route that its two-leg band number selects,
/// or `None` for a band that is known but not active.
#[derive(Clone, Copy, Debug, PartialEq, Eq, Structural)]
pub struct RouteEntry {
    pub band: u8,
    pub route: Option<RouteConfig>,
}

/// The configuration of the whole executor, built once and passed by reference.
pub struct Processor {
    /// The two-leg bands; the first entry of a band counts, and a band
    /// without an entry is not a valid opcode.
    pub routes: Vec<RouteEntry>,
    /// The privileged route across every venue.
    pub all_venues: RouteConfig,
    /// The identity that privileged routes serve.
    pub operator: [u8; 32],
    /// The rate limiter of time-gated routes.
    pub time_gate: TimeWindowGate,
}

/// What an invocation has to do, once decoded.
#[derive(Clone, Copy, Debug, PartialEq, Eq, Structural)]
pub enum Dispatch {
    /// Nothing: the band is known but not active. The invocation succeeds.
    /// Path instructions land here too: their payload is decoded and checked,
    /// but the path route is not active.
    Idle,
    /// Run one invocation of a two-leg route in the given phase.
    Route(RouteConfig, Phase),
}

/// How an invocation of a two-leg route starts.
#[derive(Clone, Copy, Debug, PartialEq, Eq, Structural)]
pub enum Opening {
    /// The caller may not trade this route: succeed without touching the ledger.
    Skip,
    /// The ledger's output is below the entry threshold: persist this ledger, trade nothing.
    Hold(ExchangeState),
    /// Run this cycle.
    Trade(Cycle),
}

/// The first entry for `band`, from index `i` on.
pub open spec fn lookup_from(routes: Seq<RouteEntry>, band: u8, i: int) -> Option<RouteEntry>
    decreases routes.len() - i,
{
    if i < 0 || i >= routes.len() {
        None
    } else if routes[i].band == band {
        Some(routes[i])
    } else {
        lookup_from(routes, band, i + 1)
    }
}

/// The route that a decoded instruction selects, and its phase; a two-leg
/// band without an entry is `InvalidOpcode`.
pub open spec fn dispatch_of(
    routes: Seq<RouteEntry>,
    all_venues: RouteConfig,
    instr: ArbitrageInstruction,
) -> Result<Dispatch, ArbitrageError> {
    match instr {
        ArbitrageInstruction::ExchangeNonStableAll(d) => Ok(
            Dispatch::Route(all_venues, phase_of(d.flag, all_venues.sentinel)),
        ),
        ArbitrageInstruction::ExchangeNonStableSerum => Ok(Dispatch::Idle),
        ArbitrageInstruction::ExchangeWithPath(_) => Ok(Dispatch::Idle),
        ArbitrageInstruction::ExchangeStable(band, d) => match lookup_from(routes, band, 0) {
            Some(RouteEntry { route: Some(cfg), .. }) => Ok(
                Dispatch::Route(cfg, phase_of(d.flag, cfg.sentinel)),
            ),
            Some(RouteEntry { route: None, .. }) => Ok(Dispatch::Idle),
            None => Err(ArbitrageError::InvalidOpcode),
        },
    }
}

/// How an invocation of `route` opens: the operator check, then the reset,
/// then the entry threshold, then the size of the trade.
pub open spec fn open_of(
    route: RouteConfig,
    operator: [u8; 32],
    phase: Phase,
    ledger: ExchangeState,
    caller: [u8; 32],
) -> Result<Opening, ArbitrageError> {
    let c = route.calibration;
    if route.privileged && caller@ != operator@ {
        Ok(Opening::Skip)
    } else {
        let l = if phase.resets() {
            reset_ledger(c.seed_exchange_out, c.normal_input_amount)
        } else {
            ledger
        };
        match levels_of(route.policy, l, c) {
            Err(e) => Err(e),
            Ok(lv) => if (l.exchange_out as int) < lv.threshold {
                Ok(Opening::Hold(l))
            } else {
                match trade_of(route.policy, l, c, lv.expected_profit) {
                    Err(e) => Err(e),
                    Ok(t) => Ok(
                        Opening::Trade(
                            Cycle {
                                ledger: ExchangeState { input_amount: t, ..l },
                                trade_amount: t,
                                stage: CycleStage::Opening,
                            },
                        ),
                    ),
                }
            },
        }
    }
}

/// How an invocation of `route` closes, with the ledger it persisted: the
/// time-window gate if the route has one, then the profitability gate if the
/// phase finalizes.
pub open spec fn close_of(
    route: RouteConfig,
    gate: TimeWindowGate,
    phase: Phase,
    ledger: ExchangeState,
    caller: [u8; 32],
    now: i64,
) -> Result<(), ArbitrageError> {
    if route.time_window && !gate.admits_spec(caller, now) {
        Err(ArbitrageError::TimeWindowRejected)
    } else if phase.finalizes() {
        profitable(ledger)
    } else {
        Ok(())
    }
}

/// The ledger that an opening leaves to persist, if it touches the ledger.
pub open spec fn opened_ledger(o: Opening) -> Option<ExchangeState> {
    match o {
        Opening::Skip => None,
        Opening::Hold(l) => Some(l),
        Opening::Trade(c) => Some(c.ledger),
    }
}

impl Processor {
    /// The registry entry of a two-leg band, if any.
    pub fn entry_for(&self, band: u8) -> (r: Option<RouteEntry>)
        ensures
            r == lookup_from(self.routes@, band, 0),
    {
        let mut i: usize = 0;
        while i < self.routes.len()
            invariant
                0 <= i <= self.routes@.len(),
                lookup_from(self.routes@, band, 0) == lookup_from(self.routes@, band, i as int),
            decreases self.routes@.len() - i,
        {
            if self.routes[i].band == band {
                return Some(self.routes[i]);
            }
            i = i + 1;
        }
        None
    }

    /// The active route of a two-leg band, if any.
    pub fn route_for(&self, band: u8) -> (r: Option<RouteConfig>)
        ensures
            r == match lookup_from(self.routes@, band, 0) {
                Some(e) => e.route,
                None => None::<RouteConfig>,
            },
    {
        match self.entry_for(band) {
            Some(e) => e.route,
            None => None,
        }
    }

    /// What a decoded instruction asks for.
    pub fn dispatch(&self, instr: &ArbitrageInstruction) -> (r: Result<Dispatch, ArbitrageError>)
        ensures
            r == dispatch_of(self.routes@, self.all_venues, *instr),
    {
        match instr {
            ArbitrageInstruction::ExchangeNonStableAll(d) => Ok(
                Dispatch::Route(self.all_venues, d.phase(self.all_venues.sentinel)),
            ),
            ArbitrageInstruction::ExchangeNonStableSerum => Ok(Dispatch::Idle),
            ArbitrageInstruction::ExchangeWithPath(_) => Ok(Dispatch::Idle),
            ArbitrageInstruction::ExchangeStable(band, d) => match self.entry_for(*band) {
                Some(e) => match e.route {
                    Some(cfg) => Ok(Dispatch::Route(cfg, d.phase(cfg.sentinel))),
                    None => Ok(Dispatch::Idle),
                },
                None => Err(ArbitrageError::InvalidOpcode),
            },
        }
    }

    /// Opens an invocation of `route` by `caller` on the stored `ledger`.
    ///
    /// A caller other than the operator on a privileged route gets `Skip`. A
    /// reset phase starts a new epoch first. If the ledger's `exchange_out` is
    /// below the entry threshold the ledger is held as it is; otherwise the
    /// next trade is sized, recorded as `input_amount`, and a cycle opens.
    pub fn open(&self, route: &RouteConfig, phase: Phase, ledger: ExchangeState, caller: &[u8; 32]) -> (r:
        Result<Opening, ArbitrageError>)
        ensures
            r == open_of(*route, self.operator, phase, ledger, *caller),
    {
        if route.privileged && !same_identity(caller, &self.operator) {
            return Ok(Opening::Skip);
        }
        let c = route.calibration;
        let mut l = ledger;
        if phase.is_reset() {
            l.reset(c.seed_exchange_out, c.normal_input_amount);
        }
        let lv = match route.policy.levels(&l, &c) {
            Ok(v) => v,
            Err(e) => return Err(e),
        };
        if (l.exchange_out as u128) < lv.threshold {
            return Ok(Opening::Hold(l));
        }
        let t = match route.policy.trade_amount(&l, &c, lv.expected_profit) {
            Ok(v) => v,
            Err(e) => return Err(e),
        };
        l.input_amount = t;
        Ok(Opening::Trade(Cycle::new(l, t)))
    }

    /// Closes an invocation of `route` by `caller` at clock reading `now`,
    /// given the ledger that it persisted.
    pub fn close(
        &self,
        route: &RouteConfig,
        phase: Phase,
        ledger: &ExchangeState,
        caller: &[u8; 32],
        now: i64,
    ) -> (r: Result<(), ArbitrageError>)
        ensures
            r == close_of(*route, self.time_gate, phase, *ledger, *caller, now),
    {
        if route.time_window {
            match self.time_gate.check(caller, now) {
                Ok(()) => {},
                Err(e) => return Err(e),
            }
        }
        if phase.is_final() {
            enforce_profitability(ledger)
        } else {
            Ok(())
        }
    }
}

/// A reset forgets the past: whatever two ledgers held, an invocation that
/// resets opens identically on both.
pub proof fn lemma_reset_forgets_history(
    route: RouteConfig,
    operator: [u8; 32],
    phase: Phase,
    a: ExchangeState,
    b: ExchangeState,
    caller: [u8; 32],
)
    requires
        phase.resets(),
    ensures
        open_of(route, operator, phase, a, caller) == open_of(route, operator, phase, b, caller),
{
}

/// A reset zeroes both totals and seeds `exchange_out` with the route's
/// configured value, whatever the ledger held before.
pub proof fn lemma_reset_seeds_ledger(
    route: RouteConfig,
    operator: [u8; 32],
    phase: Phase,
    ledger: ExchangeState,
    caller: [u8; 32],
)
    requires
        phase.resets(),
        open_of(route, operator, phase, ledger, caller) matches Ok(o) && opened_ledger(o) is Some,
    ensures
        ({
            let l = opened_ledger(open_of(route, operator, phase, ledger, caller)->Ok_0)->0;
            &&& l.total_profit == 0
            &&& l.total_lost == 0
            &&& l.exchange_out == route.calibration.seed_exchange_out
        }),
{
}

/// Below the entry threshold nothing trades: on a route with a valid
/// calibration, when `exchange_out` is under the threshold that the route's
/// policy derives, an invocation that does not reset opens successfully and
/// holds the ledger exactly as it was; it then closes successfully unless the
/// time window rejects the caller or a finalizing phase finds a net loss.
pub proof fn lemma_below_threshold_holds(
    route: RouteConfig,
    operator: [u8; 32],
    gate: TimeWindowGate,
    phase: Phase,
    ledger: ExchangeState,
    caller: [u8; 32],
    now: i64,
)
    requires
        !phase.resets(),
        route.calibration.valid(),
        !(route.privileged && caller@ != operator@),
        ledger.exchange_out < levels_of(route.policy, ledger, route.calibration)->Ok_0.threshold,
    ensures
        levels_of(route.policy, ledger, route.calibration) is Ok,
        open_of(route, operator, phase, ledger, caller) == Ok::<Opening, ArbitrageError>(
            Opening::Hold(ledger),
        ),
        (!route.time_window || gate.admits_spec(caller, now)) && (!phase.finalizes()
            || ledger.total_lost <= ledger.total_profit) ==> close_of(
            route,
            gate,
            phase,
            ledger,
            caller,
            now,
        ) is Ok,
{
}

/// On a proportional route the entry threshold is the calibrated base scaled
/// by the ledger's last trade size in tenths: an output below
/// `threshold_base * (input_amount * 10 / normal_input_amount) / 10` is held,
/// whatever the size of the stored amounts.
pub proof fn lemma_below_proportional_threshold_holds(
    route: RouteConfig,
    operator: [u8; 32],
    phase: Phase,
    ledger: ExchangeState,
    caller: [u8; 32],
)
    requires
        route.policy is Proportional,
        !phase.resets(),
        route.calibration.valid(),
        !(route.privileged && caller@ != operator@),
        ledger.exchange_out < (route.calibration.threshold_base * tenths_of(
            ledger,
            route.calibration,
        )) / 10,
    ensures
        open_of(route, operator, phase, ledger, caller) == Ok::<Opening, ArbitrageError>(
            Opening::Hold(ledger),
        ),
{
}

/// Without a reset, opening an invocation leaves both totals as they were; only
/// a booked cycle moves them.
pub proof fn lemma_open_keeps_totals(
    route: RouteConfig,
    operator: [u8; 32],
    phase: Phase,
    ledger: ExchangeState,
    caller: [u8; 32],
)
    requires
        !phase.resets(),
        open_of(route, operator, phase, ledger, caller) matches Ok(o) && opened_ledger(o) is Some,
    ensures
        ({
            let l = opened_ledger(open_of(route, operator, phase, ledger, caller)->Ok_0)->0;
            &&& l.total_profit == ledger.total_profit
            &&& l.total_lost == ledger.total_lost
        }),
{
}

/// A finalizing invocation that the time window lets through fails with
/// `UnprofitableBatch` exactly when the epoch lost more than it made, and
/// succeeds otherwise.
pub proof fn lemma_finalize_rejects_net_loss(
    route: RouteConfig,
    gate: TimeWindowGate,
    phase: Phase,
    ledger: ExchangeState,
    caller: [u8; 32],
    now: i64,
)
    requires
        phase.finalizes(),
        !route.time_window || gate.admits_spec(caller, now),
    ensures
        close_of(route, gate, phase, ledger, caller, now) == Err::<(), ArbitrageError>(
            ArbitrageError::UnprofitableBatch,
        ) <==> ledger.total_lost > ledger.total_profit,
        close_of(route, gate, phase, ledger, caller, now) is Ok <==> ledger.total_lost
            <= ledger.total_profit,
{
}

/// A caller other than the operator on a privileged route is skipped: the
/// invocation succeeds and touches no ledger, in every phase.
pub proof fn lemma_unauthorized_caller_skips(
    route: RouteConfig,
    operator: [u8; 32],
    phase: Phase,
    ledger: ExchangeState,
    caller: [u8; 32],
)
    requires
        route.privileged,
        caller@ != operator@,
    ensures
        open_of(route, operator, phase, ledger, caller) == Ok::<Opening, ArbitrageError>(
            Opening::Skip,
        ),
        opened_ledger(Opening::Skip) is None,
{
}

} // verus!
