use vstd::prelude::*;
use crate::gate::{IdentityMark, TimeWindowGate};
use crate::processor::{Processor, RouteConfig, RouteEntry, Venue};
use crate::sizing::{RouteCalibration, SizingPolicy};

verus! {

/// How far below half the typical profit a proportional route seeds its output.
pub const PROPORTIONAL_SEED_MARGIN: u64 = 100;
/// How far below half the typical profit a stepped route seeds its output.
pub const STEPPED_SEED_MARGIN: u64 = 1_000_000;
/// Clock slots per period of the time-window gate.
pub const WINDOW_PERIOD: u64 = 10;
/// Leading slots of each period in which the time-window gate is open.
pub const WINDOW_OPEN_SLOTS: u64 = 3;

impl RouteCalibration {
    /// A calibration whose reset seeds `exchange_out` just under half the
    /// typical profit, `margin` below it.
    pub fn with_margin(normal: u64, threshold: u64, expected: u64, margin: u64) -> (r:
        RouteCalibration)
        requires
            expected / 2 >= margin,
        ensures
            r == (RouteCalibration {
                normal_input_amount: normal,
                threshold_base: threshold,
                expected_profit_base: expected,
                seed_exchange_out: (expected / 2 - margin) as u64,
            }),
    {
        RouteCalibration {
            normal_input_amount: normal,
            threshold_base: threshold,
            expected_profit_base: expected,
            seed_exchange_out: expected / 2 - margin,
        }
    }
}

/// The calibrations of the proportional stable-pool routes, by slot.
pub open spec fn stable_calibration(slot: int) -> RouteCalibration {
    let (n, t, e): (u64, u64, u64) = if slot == 0 {
        (2_500_000_000, 20_000_000, 80_000_000)
    } else if slot == 1 {
        (100_000_000, 20_000, 100_000)
    } else if slot == 2 || slot == 3 {
        (2_500_000_000, 2_500, 50_000)
    } else {
        (2_500_000_000, 500_000, 2_500_000)
    };
    RouteCalibration {
        normal_input_amount: n,
        threshold_base: t,
        expected_profit_base: e,
        seed_exchange_out: (e / 2 - PROPORTIONAL_SEED_MARGIN) as u64,
    }
}

/// A proportional, time-gated route between two stable pools.
pub open spec fn stable_route(first: Venue, second: Venue, slot: int) -> RouteConfig {
    RouteConfig {
        first,
        second,
        calibration: stable_calibration(slot),
        policy: SizingPolicy::Proportional,
        privileged: false,
        time_window: true,
        sentinel: false,
    }
}

/// The stepped, privileged route between Saber and Whirlpool, in either order.
pub open spec fn whirl_route(first: Venue, second: Venue) -> RouteConfig {
    RouteConfig {
        first,
        second,
        calibration: RouteCalibration {
            normal_input_amount: 2_500_000_000,
            threshold_base: 20_000_000,
            expected_profit_base: 80_000_000,
            seed_exchange_out: 39_000_000,
        },
        policy: SizingPolicy::Stepped,
        privileged: true,
        time_window: false,
        sentinel: false,
    }
}

/// The active routes: bands 1 to 10 alternate directions between Saber and
/// Mercurial pools, two bands per calibration slot; bands 13 and 15 run Saber
/// to Whirlpool, bands 14 and 16 Whirlpool to Saber. Bands 11 and 12 have no
/// calibration and no entry.
pub open spec fn active_table() -> Seq<RouteEntry> {
    seq![
        RouteEntry { band: 1, route: Some(stable_route(Venue::Saber, Venue::Mercurial3Pool, 0)) },
        RouteEntry { band: 2, route: Some(stable_route(Venue::Mercurial3Pool, Venue::Saber, 0)) },
        RouteEntry { band: 3, route: Some(stable_route(Venue::Saber, Venue::Mercurial3Pool, 1)) },
        RouteEntry { band: 4, route: Some(stable_route(Venue::Mercurial3Pool, Venue::Saber, 1)) },
        RouteEntry { band: 5, route: Some(stable_route(Venue::Saber, Venue::Mercurial2Pool, 2)) },
        RouteEntry { band: 6, route: Some(stable_route(Venue::Mercurial2Pool, Venue::Saber, 2)) },
        RouteEntry { band: 7, route: Some(stable_route(Venue::Saber, Venue::Mercurial2Pool, 3)) },
        RouteEntry { band: 8, route: Some(stable_route(Venue::Mercurial2Pool, Venue::Saber, 3)) },
        RouteEntry { band: 9, route: Some(stable_route(Venue::Saber, Venue::Mercurial4Pool, 4)) },
        RouteEntry { band: 10, route: Some(stable_route(Venue::Mercurial4Pool, Venue::Saber, 4)) },
        RouteEntry { band: 13, route: Some(whirl_route(Venue::Saber, Venue::Whirl)) },
        RouteEntry { band: 14, route: Some(whirl_route(Venue::Whirl, Venue::Saber)) },
        RouteEntry { band: 15, route: Some(whirl_route(Venue::Saber, Venue::Whirl)) },
        RouteEntry { band: 16, route: Some(whirl_route(Venue::Whirl, Venue::Saber)) },
    ]
}

/// The first `k` of the known bands from 17 on, none of them active.
pub open spec fn inactive_bands(k: nat) -> Seq<RouteEntry> {
    Seq::new(k, |i: int| RouteEntry { band: (17 + i) as u8, route: None })
}

/// The standard route table: the active routes, then bands 17 to 32, which
/// are known but inactive.
pub open spec fn standard_table() -> Seq<RouteEntry> {
    active_table() + inactive_bands(16)
}

/// The privileged route across every venue: a fixed gate and trade size, and
/// the sentinel flag honoured. Its leg order is decided per invocation.
pub open spec fn all_venues_route() -> RouteConfig {
    RouteConfig {
        first: Venue::Orca,
        second: Venue::Raydium,
        calibration: RouteCalibration {
            normal_input_amount: 5_000_000_000,
            threshold_base: 15_000_000,
            expected_profit_base: 0,
            seed_exchange_out: 15_000_000,
        },
        policy: SizingPolicy::Fixed,
        privileged: true,
        time_window: false,
        sentinel: true,
    }
}

/// The calibration of a proportional stable-pool route slot.
pub fn stable_calibration_at(slot: usize) -> (r: RouteCalibration)
    requires
        slot < 5,
    ensures
        r == stable_calibration(slot as int),
{
    if slot == 0 {
        RouteCalibration::with_margin(2_500_000_000, 20_000_000, 80_000_000, PROPORTIONAL_SEED_MARGIN)
    } else if slot == 1 {
        RouteCalibration::with_margin(100_000_000, 20_000, 100_000, PROPORTIONAL_SEED_MARGIN)
    } else if slot == 2 || slot == 3 {
        RouteCalibration::with_margin(2_500_000_000, 2_500, 50_000, PROPORTIONAL_SEED_MARGIN)
    } else {
        RouteCalibration::with_margin(2_500_000_000, 500_000, 2_500_000, PROPORTIONAL_SEED_MARGIN)
    }
}

fn stable_entry(band: u8, first: Venue, second: Venue, slot: usize) -> (r: RouteEntry)
    requires
        slot < 5,
    ensures
        r == (RouteEntry { band, route: Some(stable_route(first, second, slot as int)) }),
{
    RouteEntry {
        band,
        route: Some(
            RouteConfig {
                first,
                second,
                calibration: stable_calibration_at(slot),
                policy: SizingPolicy::Proportional,
                privileged: false,
                time_window: true,
                sentinel: false,
            },
        ),
    }
}

fn whirl_entry(band: u8, first: Venue, second: Venue) -> (r: RouteEntry)
    ensures
        r == (RouteEntry { band, route: Some(whirl_route(first, second)) }),
{
    RouteEntry {
        band,
        route: Some(
            RouteConfig {
                first,
                second,
                calibration: RouteCalibration::with_margin(
                    2_500_000_000,
                    20_000_000,
                    80_000_000,
                    STEPPED_SEED_MARGIN,
                ),
                policy: SizingPolicy::Stepped,
                privileged: true,
                time_window: false,
                sentinel: false,
            },
        ),
    }
}

/// The standard route table.
pub fn standard_routes() -> (r: Vec<RouteEntry>)
    ensures
        r@ == standard_table(),
{
    let mut v: Vec<RouteEntry> = Vec::new();
    v.push(stable_entry(1, Venue::Saber, Venue::Mercurial3Pool, 0));
    v.push(stable_entry(2, Venue::Mercurial3Pool, Venue::Saber, 0));
    v.push(stable_entry(3, Venue::Saber, Venue::Mercurial3Pool, 1));
    v.push(stable_entry(4, Venue::Mercurial3Pool, Venue::Saber, 1));
    v.push(stable_entry(5, Venue::Saber, Venue::Mercurial2Pool, 2));
    v.push(stable_entry(6, Venue::Mercurial2Pool, Venue::Saber, 2));
    v.push(stable_entry(7, Venue::Saber, Venue::Mercurial2Pool, 3));
    v.push(stable_entry(8, Venue::Mercurial2Pool, Venue::Saber, 3));
    v.push(stable_entry(9, Venue::Saber, Venue::Mercurial4Pool, 4));
    v.push(stable_entry(10, Venue::Mercurial4Pool, Venue::Saber, 4));
    v.push(whirl_entry(13, Venue::Saber, Venue::Whirl));
    v.push(whirl_entry(14, Venue::Whirl, Venue::Saber));
    v.push(whirl_entry(15, Venue::Saber, Venue::Whirl));
    v.push(whirl_entry(16, Venue::Whirl, Venue::Saber));
    assert(v@ =~= active_table() + inactive_bands(0));
    let mut band: u8 = 17;
    while band <= 32
        invariant
            17 <= band <= 33,
            v@ == active_table() + inactive_bands((band - 17) as nat),
        decreases 33 - band,
    {
        v.push(RouteEntry { band, route: None });
        assert(v@ =~= active_table() + inactive_bands((band + 1 - 17) as nat));
        band = band + 1;
    }
    v
}

impl Processor {
    /// The standard executor: the standard route table and all-venues route,
    /// `operator` as the privileged identity, and a time-window gate that
    /// admits the identities marked in `allow_list` always, and anyone else
    /// in the first three slots of every ten.
    pub fn standard(operator: [u8; 32], allow_list: Vec<IdentityMark>) -> (r: Processor)
        ensures
            r.routes@ == standard_table(),
            r.all_venues == all_venues_route(),
            r.operator == operator,
            r.time_gate.allow_list@ == allow_list@,
            r.time_gate.period == WINDOW_PERIOD,
            r.time_gate.open_slots == WINDOW_OPEN_SLOTS,
    {
        Processor {
            routes: standard_routes(),
            all_venues: RouteConfig {
                first: Venue::Orca,
                second: Venue::Raydium,
                calibration: RouteCalibration {
                    normal_input_amount: 5_000_000_000,
                    threshold_base: 15_000_000,
                    expected_profit_base: 0,
                    seed_exchange_out: 15_000_000,
                },
                policy: SizingPolicy::Fixed,
                privileged: true,
                time_window: false,
                sentinel: true,
            },
            operator,
            time_gate: TimeWindowGate {
                allow_list,
                period: WINDOW_PERIOD,
                open_slots: WINDOW_OPEN_SLOTS,
            },
        }
    }
}

} // verus!
