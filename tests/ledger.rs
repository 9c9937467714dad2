use arbitrage::error::ArbitrageError;
use arbitrage::state::ExchangeState;

#[test]
fn record_round_trip() {
    let l = ExchangeState {
        input_amount: 0x0102_0304_0506_0708,
        exchange_out: 5,
        total_profit: u64::MAX,
        total_lost: 256,
    };
    let mut buf = vec![0xAAu8; 40];
    l.pack_into_slice(&mut buf);
    assert_eq!(&buf[0..8], &[8, 7, 6, 5, 4, 3, 2, 1]);
    assert_eq!(&buf[8..16], &[5, 0, 0, 0, 0, 0, 0, 0]);
    assert_eq!(&buf[16..24], &[0xFF; 8]);
    assert_eq!(&buf[24..32], &[0, 1, 0, 0, 0, 0, 0, 0]);
    assert_eq!(&buf[32..], &[0xAA; 8]);
    assert_eq!(ExchangeState::unpack_from_slice(&buf), Ok(l));
}

#[test]
fn short_record_is_malformed() {
    assert_eq!(ExchangeState::unpack_from_slice(&[0u8; 31]), Err(ArbitrageError::MalformedPayload));
    assert_eq!(ExchangeState::unpack_from_slice(&[]), Err(ArbitrageError::MalformedPayload));
}

#[test]
fn totals_never_decrease_over_an_epoch() {
    let mut l = ExchangeState { input_amount: 1, exchange_out: 0, total_profit: 0, total_lost: 0 };
    let cycles = [(100u64, 130u64), (130, 120), (120, 120), (50, 90), (90, 1)];
    let mut last = l;
    for (before, after) in cycles {
        assert_eq!(l.record_cycle(before, after), Ok(()));
        assert!(l.total_profit >= last.total_profit);
        assert!(l.total_lost >= last.total_lost);
        let gained = l.total_profit != last.total_profit;
        let lost = l.total_lost != last.total_lost;
        assert!(!(gained && lost));
        last = l;
    }
    assert_eq!(l.total_profit, 70);
    assert_eq!(l.total_lost, 99);
    assert_eq!(l.exchange_out, 0);
}

#[test]
fn record_cycle_overflow_leaves_ledger() {
    let mut l = ExchangeState { input_amount: 1, exchange_out: 2, total_profit: u64::MAX, total_lost: u64::MAX };
    let before = l;
    assert_eq!(l.record_cycle(0, 1), Err(ArbitrageError::ArithmeticOverflow));
    assert_eq!(l.record_cycle(1, 0), Err(ArbitrageError::ArithmeticOverflow));
    assert_eq!(l, before);
}

#[test]
fn reset_seeds_and_zeroes() {
    let mut l = ExchangeState { input_amount: 1, exchange_out: 2, total_profit: 3, total_lost: 4 };
    l.reset(39_999_900, 2_500_000_000);
    assert_eq!(
        l,
        ExchangeState { input_amount: 2_500_000_000, exchange_out: 39_999_900, total_profit: 0, total_lost: 0 }
    );
}

#[test]
fn error_codes() {
    assert_eq!(ArbitrageError::InvalidOpcode.custom_code(), 10000);
    assert_eq!(ArbitrageError::MalformedPayload.custom_code(), 10001);
    assert_eq!(ArbitrageError::VenueCallFailed(3).custom_code(), 10002);
    assert_eq!(ArbitrageError::UnprofitableBatch.custom_code(), 10003);
    assert_eq!(ArbitrageError::TimeWindowRejected.custom_code(), 10004);
    assert_eq!(ArbitrageError::ArithmeticOverflow.custom_code(), 10005);
    assert_eq!(ArbitrageError::DivisionByZero.custom_code(), 10006);
    assert_eq!(ArbitrageError::ZeroOrderSize.custom_code(), 10007);
}
