use arbitrage::cycle::{Balances, Cycle, CycleAction};
use arbitrage::error::ArbitrageError;
use arbitrage::gate::IdentityMark;
use arbitrage::instruction::Phase;
use arbitrage::processor::{Opening, Processor, RouteConfig, Venue};
use arbitrage::sizing::{Levels, SizingPolicy};
use arbitrage::state::ExchangeState;

const OPERATOR: [u8; 32] = [7u8; 32];
const STRANGER: [u8; 32] = [9u8; 32];

fn processor() -> Processor {
    Processor::standard(OPERATOR, Vec::new())
}

fn first_stable_route(p: &Processor) -> RouteConfig {
    p.route_for(1).expect("band 1 is configured")
}

fn stale_ledger() -> ExchangeState {
    ExchangeState { input_amount: 7, exchange_out: 3, total_profit: 11, total_lost: 13 }
}

fn open_trade(p: &Processor, route: &RouteConfig, phase: Phase, ledger: ExchangeState) -> Cycle {
    match p.open(route, phase, ledger, &STRANGER) {
        Ok(Opening::Trade(c)) => c,
        other => panic!("expected a trade, got {:?}", other),
    }
}

fn run_cycle(mut c: Cycle, source_before: u64, source_after: u64) -> CycleAction {
    let trade = c.trade_amount;
    assert_eq!(
        c.step(Balances { source: source_before, intermediate: 0 }),
        CycleAction::SwapFirstLeg(trade)
    );
    assert_eq!(
        c.step(Balances { source: source_before - trade, intermediate: 999_000_000 }),
        CycleAction::SwapSecondLeg(999_000_000)
    );
    c.step(Balances { source: source_after, intermediate: 0 })
}

#[test]
fn reset_then_profitable_cycle() {
    let p = processor();
    let route = first_stable_route(&p);
    let cal = route.calibration;
    assert_eq!(cal.normal_input_amount, 2_500_000_000);
    assert_eq!(cal.threshold_base, 20_000_000);
    assert_eq!(cal.expected_profit_base, 80_000_000);
    let reset = ExchangeState {
        input_amount: 2_500_000_000,
        exchange_out: 39_999_900,
        total_profit: 0,
        total_lost: 0,
    };
    assert_eq!(
        SizingPolicy::Proportional.levels(&reset, &cal),
        Ok(Levels { threshold: 20_000_000, expected_profit: 80_000_000 })
    );
    assert_eq!(SizingPolicy::Proportional.trade_amount(&reset, &cal, 80_000_000), Ok(1_000_000_000));
    let c = open_trade(&p, &route, Phase::Reset, stale_ledger());
    assert_eq!(c.trade_amount, 1_000_000_000);
    assert_eq!(c.ledger.exchange_out, 39_999_900);
    assert_eq!(c.ledger.input_amount, 1_000_000_000);
    let action = run_cycle(c, 10_000_000_000, 10_005_000_000);
    match action {
        CycleAction::Persist(l) => {
            assert_eq!(l.exchange_out, 5_000_000);
            assert_eq!(l.total_profit, 5_000_000);
            assert_eq!(l.total_lost, 0);
        },
        other => panic!("expected a booked cycle, got {:?}", other),
    }
}

#[test]
fn losing_cycle_then_finalize_fails() {
    let p = processor();
    let route = first_stable_route(&p);
    let c = open_trade(&p, &route, Phase::Reset, stale_ledger());
    let l = match run_cycle(c, 10_000_000_000, 9_998_000_000) {
        CycleAction::Persist(l) => l,
        other => panic!("expected a booked cycle, got {:?}", other),
    };
    assert_eq!(l.exchange_out, 0);
    assert_eq!(l.total_lost, 2_000_000);
    assert_eq!(l.total_profit, 0);
    assert_eq!(p.close(&route, Phase::Reset, &l, &STRANGER, 0), Ok(()));
    let held = match p.open(&route, Phase::RunAndFinalize, l, &STRANGER) {
        Ok(Opening::Hold(h)) => h,
        other => panic!("expected a hold, got {:?}", other),
    };
    assert_eq!(held, l);
    assert_eq!(
        p.close(&route, Phase::RunAndFinalize, &held, &STRANGER, 0),
        Err(ArbitrageError::UnprofitableBatch)
    );
}

#[test]
fn unauthorized_caller_is_skipped() {
    let p = processor();
    let all = p.all_venues;
    for phase in [Phase::Run, Phase::Reset, Phase::RunAndFinalize, Phase::ResetAndFinalize] {
        assert_eq!(p.open(&all, phase, stale_ledger(), &STRANGER), Ok(Opening::Skip));
    }
    let whirl = p.route_for(13).expect("band 13 is configured");
    assert_eq!(p.open(&whirl, Phase::Reset, stale_ledger(), &STRANGER), Ok(Opening::Skip));
    match p.open(&all, Phase::Reset, stale_ledger(), &OPERATOR) {
        Ok(Opening::Trade(c)) => assert_eq!(c.trade_amount, 5_000_000_000),
        other => panic!("expected a trade, got {:?}", other),
    }
}

#[test]
fn below_threshold_holds_ledger() {
    let p = processor();
    let route = first_stable_route(&p);
    let l = ExchangeState {
        input_amount: 2_500_000_000,
        exchange_out: 19_999_999,
        total_profit: 4,
        total_lost: 2,
    };
    assert_eq!(p.open(&route, Phase::Run, l, &STRANGER), Ok(Opening::Hold(l)));
    assert_eq!(p.close(&route, Phase::Run, &l, &STRANGER, 1), Ok(()));
}

#[test]
fn reset_ignores_prior_state() {
    let p = processor();
    let route = first_stable_route(&p);
    let a = p.open(&route, Phase::Reset, stale_ledger(), &STRANGER);
    let b = p.open(
        &route,
        Phase::Reset,
        ExchangeState { input_amount: 1, exchange_out: 0, total_profit: u64::MAX, total_lost: 5 },
        &STRANGER,
    );
    assert_eq!(a, b);
    let c = match a {
        Ok(Opening::Trade(c)) => c,
        other => panic!("expected a trade, got {:?}", other),
    };
    assert_eq!(c.ledger.total_profit, 0);
    assert_eq!(c.ledger.total_lost, 0);
    assert_eq!(c.ledger.exchange_out, route.calibration.seed_exchange_out);
}

#[test]
fn second_leg_swaps_observed_output() {
    let mut c = Cycle::new(stale_ledger(), 500);
    assert_eq!(c.step(Balances { source: 1_000, intermediate: 40 }), CycleAction::SwapFirstLeg(500));
    assert_eq!(c.step(Balances { source: 500, intermediate: 523 }), CycleAction::SwapSecondLeg(483));
    assert!(!c.is_closed());
    let mut bad = Cycle::new(stale_ledger(), 500);
    bad.step(Balances { source: 1_000, intermediate: 40 });
    assert_eq!(
        bad.step(Balances { source: 500, intermediate: 39 }),
        CycleAction::Abort(ArbitrageError::ArithmeticOverflow)
    );
    assert!(bad.is_closed());
}

#[test]
fn finalize_passes_when_even_or_ahead() {
    let p = processor();
    let route = first_stable_route(&p);
    let even = ExchangeState { input_amount: 0, exchange_out: 0, total_profit: 5, total_lost: 5 };
    assert_eq!(p.close(&route, Phase::RunAndFinalize, &even, &STRANGER, 2), Ok(()));
    let behind = ExchangeState { total_lost: 6, ..even };
    assert_eq!(
        p.close(&route, Phase::RunAndFinalize, &behind, &STRANGER, 2),
        Err(ArbitrageError::UnprofitableBatch)
    );
    assert_eq!(p.close(&route, Phase::Run, &behind, &STRANGER, 2), Ok(()));
}

#[test]
fn time_window_rejects_outside_open_slots() {
    let p = Processor::standard(OPERATOR, vec![IdentityMark { first: 1, last: 1 }]);
    let route = first_stable_route(&p);
    let l = ExchangeState { input_amount: 0, exchange_out: 0, total_profit: 0, total_lost: 0 };
    assert_eq!(p.close(&route, Phase::Run, &l, &STRANGER, 12), Ok(()));
    assert_eq!(
        p.close(&route, Phase::Run, &l, &STRANGER, 13),
        Err(ArbitrageError::TimeWindowRejected)
    );
    assert_eq!(p.close(&route, Phase::Run, &l, &[1u8; 32], 13), Ok(()));
    assert_eq!(p.close(&route, Phase::Run, &l, &STRANGER, -7), Ok(()));
    let all = p.all_venues;
    assert_eq!(p.close(&all, Phase::Run, &l, &STRANGER, 13), Ok(()));
}

#[test]
fn stepped_route_sizes_from_bands() {
    let p = processor();
    let whirl = p.route_for(15).expect("band 15 is configured");
    let c = match p.open(&whirl, Phase::Reset, stale_ledger(), &OPERATOR) {
        Ok(Opening::Trade(c)) => c,
        other => panic!("expected a trade, got {:?}", other),
    };
    assert_eq!(c.ledger.exchange_out, 39_000_000);
    assert_eq!(c.trade_amount, 1_250_000_000);
    let below = ExchangeState { input_amount: 1_250_000_000, exchange_out: 9_999_999, total_profit: 0, total_lost: 0 };
    assert_eq!(p.open(&whirl, Phase::Run, below, &OPERATOR), Ok(Opening::Hold(below)));
}

#[test]
fn sentinel_resets_and_finalizes() {
    let p = processor();
    let all = p.all_venues;
    let c = match p.open(&all, Phase::ResetAndFinalize, stale_ledger(), &OPERATOR) {
        Ok(Opening::Trade(c)) => c,
        other => panic!("expected a trade, got {:?}", other),
    };
    assert_eq!(c.ledger.exchange_out, 15_000_000);
    assert_eq!(c.ledger.total_profit, 0);
    let mut cycle = c;
    cycle.step(Balances { source: 6_000_000_000, intermediate: 0 });
    cycle.step(Balances { source: 1_000_000_000, intermediate: 77 });
    let l = match cycle.step(Balances { source: 5_999_999_999, intermediate: 0 }) {
        CycleAction::Persist(l) => l,
        other => panic!("expected a booked cycle, got {:?}", other),
    };
    assert_eq!(l.total_lost, 1);
    assert_eq!(
        p.close(&all, Phase::ResetAndFinalize, &l, &OPERATOR, 99),
        Err(ArbitrageError::UnprofitableBatch)
    );
}

#[test]
fn whirl_to_saber_route_runs_for_operator() {
    let p = processor();
    for band in [14u8, 16] {
        let r = p.route_for(band).expect("Whirlpool to Saber is configured");
        assert_eq!((r.first, r.second), (Venue::Whirl, Venue::Saber));
        assert_eq!(r.policy, SizingPolicy::Stepped);
        assert!(r.privileged && !r.time_window && !r.sentinel);
        assert_eq!(p.open(&r, Phase::Reset, stale_ledger(), &STRANGER), Ok(Opening::Skip));
        match p.open(&r, Phase::Reset, stale_ledger(), &OPERATOR) {
            Ok(Opening::Trade(c)) => {
                assert_eq!(c.trade_amount, 1_250_000_000);
                assert_eq!(c.ledger.exchange_out, 39_000_000);
            },
            other => panic!("expected a trade, got {:?}", other),
        }
    }
}

#[test]
fn huge_trade_size_still_holds() {
    let p = processor();
    let route = first_stable_route(&p);
    let l = ExchangeState {
        input_amount: u64::MAX,
        exchange_out: 147_573_952_587_999_999,
        total_profit: 0,
        total_lost: 0,
    };
    assert_eq!(p.open(&route, Phase::Run, l, &STRANGER), Ok(Opening::Hold(l)));
    let at = ExchangeState { exchange_out: 147_573_952_588_000_000, ..l };
    assert!(matches!(p.open(&route, Phase::Run, at, &STRANGER), Ok(Opening::Trade(_))));
}

#[test]
fn allow_list_matches_first_and_last_byte() {
    let p = Processor::standard(OPERATOR, vec![IdentityMark { first: 57, last: 106 }]);
    let route = first_stable_route(&p);
    let l = ExchangeState { input_amount: 0, exchange_out: 0, total_profit: 0, total_lost: 0 };
    let mut marked = [0u8; 32];
    marked[0] = 57;
    marked[31] = 106;
    assert_eq!(p.close(&route, Phase::Run, &l, &marked, 5), Ok(()));
    marked[31] = 105;
    assert_eq!(p.close(&route, Phase::Run, &l, &marked, 5), Err(ArbitrageError::TimeWindowRejected));
}
