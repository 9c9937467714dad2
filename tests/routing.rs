use arbitrage::config::{standard_routes, stable_calibration_at};
use arbitrage::error::ArbitrageError;
use arbitrage::instruction::{
    ArbitrageInstruction, ExchangeWithPathInstruction, ExchangeWithTryInstruction, Market, Phase,
    Side,
};
use arbitrage::path::{book_order, path_settle, path_start, BookOrder};
use arbitrage::pricing::{book_price, order_legs, pool_price};
use arbitrage::processor::{Dispatch, Processor, Venue};
use arbitrage::sizing::SizingPolicy;
use arbitrage::state::ExchangeState;
use arbitrage::venue::whirl_swap_data;

#[test]
fn standard_table_layout() {
    let routes = standard_routes();
    assert_eq!(routes.len(), 30);
    assert_eq!(routes[29].band, 32);
    assert_eq!(routes[29].route, None);
    let p = Processor::standard([1u8; 32], Vec::new());
    let r1 = p.route_for(1).unwrap();
    assert_eq!((r1.first, r1.second), (Venue::Saber, Venue::Mercurial3Pool));
    assert_eq!(r1.policy, SizingPolicy::Proportional);
    assert!(r1.time_window && !r1.privileged);
    assert_eq!(r1.calibration.seed_exchange_out, 39_999_900);
    let r10 = p.route_for(10).unwrap();
    assert_eq!((r10.first, r10.second), (Venue::Mercurial4Pool, Venue::Saber));
    assert_eq!(r10.calibration.seed_exchange_out, 1_249_900);
    let r13 = p.route_for(13).unwrap();
    assert_eq!(r13.policy, SizingPolicy::Stepped);
    assert!(r13.privileged && !r13.time_window);
    assert_eq!(r13.calibration.seed_exchange_out, 39_000_000);
    assert_eq!(p.route_for(11), None);
    assert_eq!(p.entry_for(11), None);
    let r14 = p.route_for(14).unwrap();
    assert_eq!((r14.first, r14.second), (Venue::Whirl, Venue::Saber));
    assert_eq!(p.route_for(20), None);
    assert!(p.entry_for(20).is_some());
    assert_eq!(stable_calibration_at(1).seed_exchange_out, 49_900);
    assert_eq!(stable_calibration_at(3).threshold_base, 2_500);
}

#[test]
fn dispatch_follows_bands() {
    let p = Processor::standard([1u8; 32], Vec::new());
    let d = ExchangeWithTryInstruction { flag: 127 };
    assert_eq!(
        p.dispatch(&ArbitrageInstruction::ExchangeNonStableAll(d)),
        Ok(Dispatch::Route(p.all_venues, Phase::ResetAndFinalize))
    );
    let r2 = p.route_for(2).unwrap();
    assert_eq!(p.dispatch(&ArbitrageInstruction::ExchangeStable(2, d)), Ok(Dispatch::Route(r2, Phase::Run)));
    let r16 = p.route_for(16).unwrap();
    assert_eq!(p.dispatch(&ArbitrageInstruction::ExchangeStable(16, ExchangeWithTryInstruction { flag: 100 })), Ok(Dispatch::Route(r16, Phase::RunAndFinalize)));
    assert_eq!(p.dispatch(&ArbitrageInstruction::ExchangeStable(11, d)), Err(ArbitrageError::InvalidOpcode));
    assert_eq!(p.dispatch(&ArbitrageInstruction::ExchangeStable(12, d)), Err(ArbitrageError::InvalidOpcode));
    assert_eq!(p.dispatch(&ArbitrageInstruction::ExchangeStable(20, d)), Ok(Dispatch::Idle));
    assert_eq!(p.dispatch(&ArbitrageInstruction::ExchangeNonStableSerum), Ok(Dispatch::Idle));
    let path = ExchangeWithPathInstruction { flag: 0, amount: 9, market: Market::Orca, side: Side::Bid };
    assert_eq!(p.dispatch(&ArbitrageInstruction::ExchangeWithPath(path)), Ok(Dispatch::Idle));
}

#[test]
fn prices_and_leg_order() {
    assert_eq!(pool_price(2_000_000, 3_000_000), Ok(1_500_000));
    assert_eq!(pool_price(999_999, 3_000_000), Err(ArbitrageError::DivisionByZero));
    assert_eq!(book_price(99, 101, 10, 1_000), Ok(1_000_000));
    assert_eq!(book_price(1, 1, 1, 0), Err(ArbitrageError::DivisionByZero));
    assert_eq!(book_price(1, u64::MAX, 1, 1), Err(ArbitrageError::ArithmeticOverflow));
    let p = Processor::standard([1u8; 32], Vec::new());
    let cheap = order_legs(&p.all_venues, 999_999, 1_000_000);
    assert_eq!((cheap.first, cheap.second), (Venue::Orca, Venue::Raydium));
    let dear = order_legs(&p.all_venues, 1_000_000, 1_000_000);
    assert_eq!((dear.first, dear.second), (Venue::Raydium, Venue::Orca));
    assert_eq!(dear.calibration, p.all_venues.calibration);
}

#[test]
fn path_route_amounts() {
    let l = ExchangeState { input_amount: 10, exchange_out: 70, total_profit: 1, total_lost: 2 };
    let start = ExchangeWithPathInstruction { flag: 0, amount: 500, market: Market::Saber, side: Side::Bid };
    assert_eq!(path_start(l, &start), (ExchangeState { input_amount: 500, ..l }, 500));
    let next = ExchangeWithPathInstruction { flag: 1, ..start };
    assert_eq!(path_start(l, &next), (l, 70));
    assert_eq!(path_settle(l, 1, 100, 105), Ok(ExchangeState { exchange_out: 5, ..l }));
    assert_eq!(path_settle(l, 2, 100, 105), Err(ArbitrageError::UnprofitableBatch));
    assert_eq!(path_settle(l, 2, 100, 110), Ok(ExchangeState { exchange_out: 10, ..l }));
    assert_eq!(path_settle(l, 1, 100, 99), Err(ArbitrageError::ArithmeticOverflow));
}

#[test]
fn order_book_orders() {
    assert_eq!(
        book_order(Side::Bid, 1_000, 7),
        Ok(BookOrder { side: Side::Bid, limit_price: u64::MAX, max_base_qty: u64::MAX, max_quote_qty: 1_000 })
    );
    assert_eq!(
        book_order(Side::Ask, 1_000, 7),
        Ok(BookOrder { side: Side::Ask, limit_price: 1, max_base_qty: 142, max_quote_qty: u64::MAX })
    );
    assert_eq!(book_order(Side::Bid, 0, 7), Err(ArbitrageError::ZeroOrderSize));
    assert_eq!(book_order(Side::Ask, 6, 7), Err(ArbitrageError::ZeroOrderSize));
    assert_eq!(book_order(Side::Ask, 6, 0), Err(ArbitrageError::DivisionByZero));
}

#[test]
fn whirl_swap_layout() {
    let data = whirl_swap_data(0x0102, 1);
    assert_eq!(data.len(), 35);
    assert_eq!(data[0], 248);
    assert_eq!(&data[1..9], &[2, 1, 0, 0, 0, 0, 0, 0]);
    assert_eq!(&data[9..17], &[0; 8]);
    assert_eq!(&data[17..33], &[0xFF; 16]);
    assert_eq!(&data[33..], &[0, 1]);
}
