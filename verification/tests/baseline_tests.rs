//! The historical baselines and their fallback to the oldest record.

use stockwatch::baseline::HistoricalBaseline;
use stockwatch::structs::{NameStackData, NameStackDataWrap};

fn history_of(opens: Vec<u64>) -> NameStackDataWrap {
    NameStackDataWrap { data: opens.into_iter().map(|open| NameStackData { open }).collect() }
}

#[test]
fn shallow_history_falls_back_to_oldest() {
    // One hundred records: deep enough for the month and quarter
    // lookbacks, too shallow for the year, which takes the oldest.
    let opens: Vec<u64> = (0..100u64).map(|i| 1_000_000 + i).collect();
    let days = history_of(opens);
    let b = HistoricalBaseline::from_history(&days).unwrap();
    assert_eq!(b.mtd_open, 1_000_029);
    assert_eq!(b.qtd_open, 1_000_090);
    assert_eq!(b.ytd_open, 1_000_099);
}

#[test]
fn deep_history_uses_each_lookback() {
    let opens: Vec<u64> = (0..400u64).map(|i| 2_000_000 + i).collect();
    let days = history_of(opens);
    let b = HistoricalBaseline::from_history(&days).unwrap();
    assert_eq!(b.mtd_open, 2_000_029);
    assert_eq!(b.qtd_open, 2_000_090);
    assert_eq!(b.ytd_open, 2_000_364);
}

#[test]
fn single_record_serves_all_baselines() {
    let days = history_of(vec![123_456]);
    let b = HistoricalBaseline::from_history(&days).unwrap();
    assert_eq!((b.mtd_open, b.qtd_open, b.ytd_open), (123_456, 123_456, 123_456));
}

#[test]
fn empty_history_yields_nothing() {
    let days = history_of(Vec::new());
    assert!(HistoricalBaseline::from_history(&days).is_none());
}
