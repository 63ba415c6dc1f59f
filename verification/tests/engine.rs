use crypto_cli::engine::{
    compute_changes, newest_first, Candle, ChangeError, ChangeResult, Sign,
};
use crypto_cli::granularity::Granularity;
use crypto_cli::lookback::{lookback_table, max_offset};
use crypto_cli::rounding::percent_change;

const ALL: [Granularity; 6] = [
    Granularity::OneMinute,
    Granularity::FiveMinutes,
    Granularity::FifteenMinutes,
    Granularity::OneHour,
    Granularity::SixHours,
    Granularity::OneDay,
];

fn candle(close: u64) -> Candle {
    Candle { timestamp: 1_700_000_000, low: close, high: close, open: close, close, volume: 1 }
}

fn flat(n: usize, close: u64) -> Vec<Candle> {
    let mut v = Vec::new();
    for _ in 0..n {
        v.push(candle(close));
    }
    v
}

fn rows(v: &[ChangeResult]) -> Vec<(&'static str, i128)> {
    v.iter().map(|c| (c.label, c.hundredths)).collect()
}

fn table(g: Granularity) -> Vec<(usize, &'static str)> {
    lookback_table(g).iter().map(|r| (r.offset, r.label)).collect()
}

#[test]
fn table_one_minute() {
    assert_eq!(
        table(Granularity::OneMinute),
        vec![(1, "1m"), (6, "5m"), (16, "15m"), (31, "30m"), (61, "1h")]
    );
}

#[test]
fn table_five_minutes() {
    assert_eq!(
        table(Granularity::FiveMinutes),
        vec![(1, "5m"), (6, "30m"), (12, "1h"), (144, "12h"), (287, "1d")]
    );
}

#[test]
fn table_fifteen_minutes() {
    assert_eq!(
        table(Granularity::FifteenMinutes),
        vec![(1, "15m"), (2, "30m"), (4, "1h"), (8, "2h"), (16, "4h")]
    );
}

#[test]
fn table_one_hour() {
    assert_eq!(
        table(Granularity::OneHour),
        vec![(1, "1h"), (2, "2h"), (5, "5h"), (12, "12h"), (24, "1d")]
    );
}

#[test]
fn table_six_hours() {
    assert_eq!(
        table(Granularity::SixHours),
        vec![(1, "6h"), (2, "12h"), (4, "1d"), (8, "2d"), (16, "4d")]
    );
}

#[test]
fn table_one_day() {
    assert_eq!(
        table(Granularity::OneDay),
        vec![(1, "1d"), (2, "2d"), (7, "1w"), (14, "2w"), (28, "1m")]
    );
}

#[test]
fn tables_have_five_rows_with_growing_offsets() {
    for g in ALL {
        let t = lookback_table(g);
        assert_eq!(t.len(), 5);
        assert!(t[0].offset >= 1);
        for i in 1..5 {
            assert!(t[i - 1].offset < t[i].offset);
        }
        assert_eq!(t[4].offset, max_offset(g));
    }
}

#[test]
fn granularity_seconds_round_trip() {
    let widths = [60u64, 300, 900, 3600, 21600, 86400];
    for (g, w) in ALL.iter().zip(widths.iter()) {
        assert_eq!(g.seconds(), *w);
        assert_eq!(Granularity::from_seconds(*w), Some(*g));
    }
    assert_eq!(Granularity::from_seconds(0), None);
    assert_eq!(Granularity::from_seconds(61), None);
    assert_eq!(Granularity::from_seconds(86401), None);
}

#[test]
fn percent_change_exact_values() {
    assert_eq!(percent_change(9500, 10500), Some(1053));
    assert_eq!(percent_change(10500, 9500), Some(-952));
    assert_eq!(percent_change(100, 200), Some(10000));
    assert_eq!(percent_change(100, 0), Some(-10000));
    assert_eq!(percent_change(3, 4), Some(3333));
    assert_eq!(percent_change(3, 5), Some(6667));
    assert_eq!(percent_change(1, u64::MAX), Some((u64::MAX as i128 - 1) * 10000));
}

#[test]
fn percent_change_of_zero_close_is_undefined() {
    assert_eq!(percent_change(0, 0), None);
    assert_eq!(percent_change(0, 10500), None);
}

#[test]
fn rounding_just_below_half_goes_to_zero() {
    // 0.0049999 %
    assert_eq!(percent_change(1_000_000_000_000, 1_000_000_049_999), Some(0));
    assert_eq!(percent_change(1_000_000_000_000, 999_999_950_001), Some(0));
}

#[test]
fn rounding_half_goes_away_from_zero() {
    // 0.005 % and -0.005 %
    assert_eq!(percent_change(1_000_000, 1_000_050), Some(1));
    assert_eq!(percent_change(1_000_000, 999_950), Some(-1));
    // 0.015 % and -0.015 %
    assert_eq!(percent_change(1_000_000, 1_000_150), Some(2));
    assert_eq!(percent_change(1_000_000, 999_850), Some(-2));
}

#[test]
fn sign_is_taken_after_rounding() {
    // 0.004 % either way is reported as 0.00 and is neutral
    let up = ChangeResult { label: "1m", hundredths: percent_change(1_000_000, 1_000_040).unwrap() };
    let down = ChangeResult { label: "1m", hundredths: percent_change(1_000_000, 999_960).unwrap() };
    assert_eq!(up.hundredths, 0);
    assert_eq!(down.hundredths, 0);
    assert_eq!(up.sign(), Sign::Neutral);
    assert_eq!(down.sign(), Sign::Neutral);
    let more = ChangeResult { label: "1m", hundredths: percent_change(1_000_000, 1_000_050).unwrap() };
    let less = ChangeResult { label: "1m", hundredths: percent_change(1_000_000, 999_950).unwrap() };
    assert_eq!(more.sign(), Sign::Positive);
    assert_eq!(less.sign(), Sign::Negative);
}

#[test]
fn insufficient_history_up_to_the_largest_offset() {
    for g in ALL {
        let m = max_offset(g);
        for n in [0, 1, m - 1, m] {
            assert_eq!(
                compute_changes(&flat(n, 100), 105, g).err(),
                Some(ChangeError::InsufficientHistory)
            );
        }
        assert!(compute_changes(&flat(m + 1, 100), 105, g).is_ok());
        assert!(compute_changes(&flat(m + 50, 100), 105, g).is_ok());
    }
}

#[test]
fn one_minute_needs_sixty_two_candles() {
    assert_eq!(
        compute_changes(&flat(61, 100), 105, Granularity::OneMinute).err(),
        Some(ChangeError::InsufficientHistory)
    );
    assert!(compute_changes(&flat(62, 100), 105, Granularity::OneMinute).is_ok());
}

#[test]
fn insufficient_history_comes_before_zero_close() {
    assert_eq!(
        compute_changes(&flat(61, 0), 105, Granularity::OneMinute).err(),
        Some(ChangeError::InsufficientHistory)
    );
}

#[test]
fn change_at_offset_six() {
    let mut candles = flat(62, 10000);
    candles[6] = candle(9500);
    let out = compute_changes(&candles, 10500, Granularity::OneMinute).unwrap();
    assert_eq!(
        rows(&out),
        vec![("1m", 500), ("5m", 1053), ("15m", 500), ("30m", 500), ("1h", 500)]
    );
    assert_eq!(out[1].sign(), Sign::Positive);
}

#[test]
fn zero_close_at_a_required_offset() {
    for g in ALL {
        for r in lookback_table(g) {
            let mut candles = flat(max_offset(g) + 1, 100);
            candles[r.offset] = candle(0);
            assert_eq!(
                compute_changes(&candles, 105, g).err(),
                Some(ChangeError::ZeroHistoricalPrice)
            );
        }
    }
}

#[test]
fn zero_close_elsewhere_is_ignored() {
    let mut candles = flat(62, 100);
    candles[0] = candle(0);
    candles[2] = candle(0);
    candles[60] = candle(0);
    let out = compute_changes(&candles, 100, Granularity::OneMinute).unwrap();
    assert_eq!(out.len(), 5);
}

#[test]
fn live_price_equal_to_close_is_neutral() {
    let out = compute_changes(&flat(62, 6_712_345), 6_712_345, Granularity::OneMinute).unwrap();
    assert_eq!(
        rows(&out),
        vec![("1m", 0), ("5m", 0), ("15m", 0), ("30m", 0), ("1h", 0)]
    );
    for c in &out {
        assert_eq!(c.sign(), Sign::Neutral);
    }
}

#[test]
fn each_row_reads_its_own_offset() {
    let mut candles = flat(288, 1000);
    candles[1] = candle(2000);
    candles[6] = candle(500);
    candles[12] = candle(1000);
    candles[144] = candle(999);
    candles[287] = candle(3000);
    let out = compute_changes(&candles, 1000, Granularity::FiveMinutes).unwrap();
    assert_eq!(
        rows(&out),
        vec![("5m", -5000), ("30m", 10000), ("1h", 0), ("12h", 10), ("1d", -6667)]
    );
    let signs: Vec<Sign> = out.iter().map(|c| c.sign()).collect();
    assert_eq!(
        signs,
        vec![Sign::Negative, Sign::Positive, Sign::Neutral, Sign::Positive, Sign::Negative]
    );
}

#[test]
fn same_inputs_same_outputs() {
    let mut candles = flat(100, 1000);
    candles[16] = candle(1234);
    let a = compute_changes(&candles, 1100, Granularity::OneMinute).unwrap();
    let b = compute_changes(&candles, 1100, Granularity::OneMinute).unwrap();
    assert_eq!(rows(&a), rows(&b));
    candles[31] = candle(0);
    let c = compute_changes(&candles, 1100, Granularity::OneMinute).err();
    let d = compute_changes(&candles, 1100, Granularity::OneMinute).err();
    assert_eq!(c, d);
}

#[test]
fn rounded_change_is_the_nearest_hundredth() {
    let prices: [u64; 9] = [1, 2, 3, 7, 95, 100, 9500, 10500, 1_000_003];
    for &before in prices.iter() {
        for &after in prices.iter() {
            let r = percent_change(before, after).unwrap();
            let den = before as i128;
            let num = (after as i128 - before as i128) * 10000;
            let miss = (r * den - num).abs();
            assert!(2 * miss <= den);
            if 2 * miss == den {
                assert!((r * den).abs() > num.abs());
            }
            for k in (r - 3)..=(r + 3) {
                assert!(miss <= (k * den - num).abs());
            }
            assert_eq!(r > 0, 2 * num >= den);
            assert_eq!(r < 0, 2 * num <= -den);
        }
    }
}

#[test]
fn change_does_not_depend_on_the_unit() {
    let pairs: [(u64, u64); 6] =
        [(9500, 10500), (10500, 9500), (3, 4), (1_000_000, 1_000_050), (7, 7), (200, 1)];
    for &(before, after) in pairs.iter() {
        for k in [1u64, 2, 10, 100, 12345, 100_000_000] {
            assert_eq!(percent_change(k * before, k * after), percent_change(before, after));
        }
    }
}

#[test]
fn a_fall_mirrors_a_rise_only_in_the_numerator() {
    // +5 on 100 is +5.00 %, -5 on 100 is -5.00 %
    assert_eq!(percent_change(100, 105), Some(500));
    assert_eq!(percent_change(100, 95), Some(-500));
}

#[test]
fn newest_first_accepts_falling_timestamps() {
    let mut v = Vec::new();
    assert!(newest_first(&v));
    v.push(Candle { timestamp: 300, low: 1, high: 1, open: 1, close: 1, volume: 1 });
    assert!(newest_first(&v));
    v.push(Candle { timestamp: 240, low: 1, high: 1, open: 1, close: 1, volume: 1 });
    v.push(Candle { timestamp: 60, low: 1, high: 1, open: 1, close: 1, volume: 1 });
    assert!(newest_first(&v));
}

#[test]
fn newest_first_rejects_repeated_or_rising_timestamps() {
    let at = |t: u64| Candle { timestamp: t, low: 1, high: 1, open: 1, close: 1, volume: 1 };
    assert!(!newest_first(&vec![at(300), at(300)]));
    assert!(!newest_first(&vec![at(300), at(240), at(241)]));
    assert!(!newest_first(&vec![at(1), at(2), at(3)]));
    assert!(!newest_first(&vec![at(300), at(301), at(100)]));
}
