//! The poll loop's transition function, end to end on recorded fetches.

use stockwatch::baseline::HistoricalBaseline;
use stockwatch::poll::{run_recorded, PollState};
use stockwatch::window::Sample;

fn baseline() -> HistoricalBaseline {
    HistoricalBaseline { mtd_open: 1_000_000, qtd_open: 980_000, ytd_open: 1_060_000 }
}

#[test]
fn window_contents_tick_by_tick() {
    let mut state = PollState::new(String::from("AAPL"), baseline());
    let events = vec![Some(1_000_000u64), Some(1_020_000), Some(980_000)];
    let frames = run_recorded(&mut state, &events, 2, 10);
    assert_eq!(frames.len(), 3);
    assert_eq!(frames[0].points, vec![Sample { index: 1, price: 1_000_000 }]);
    assert_eq!(
        frames[1].points,
        vec![
            Sample { index: 1, price: 1_000_000 },
            Sample { index: 2, price: 1_020_000 },
        ]
    );
    assert_eq!(
        frames[2].points,
        vec![
            Sample { index: 2, price: 1_020_000 },
            Sample { index: 3, price: 980_000 },
        ]
    );
}

#[test]
fn fetch_failure_stops_the_loop() {
    let mut state = PollState::new(String::from("AAPL"), baseline());
    let events = vec![Some(1_000_000u64), Some(1_020_000), None, Some(980_000)];
    let frames = run_recorded(&mut state, &events, 80, 20);
    assert_eq!(frames.len(), 2);
    assert_eq!(state.agg.tick_count, 2);
}

#[test]
fn failure_on_the_first_tick_renders_nothing() {
    let mut state = PollState::new(String::from("AAPL"), baseline());
    let events = vec![None, Some(1_000_000u64)];
    let frames = run_recorded(&mut state, &events, 80, 20);
    assert!(frames.is_empty());
    assert_eq!(state.agg.tick_count, 0);
    assert!(state.agg.first_seen);
}

#[test]
fn failed_tick_changes_nothing() {
    let mut state = PollState::new(String::from("AAPL"), baseline());
    let frame = state.tick(Some(1_000_000), 80, 20);
    assert!(frame.is_some());
    let frame = state.tick(None, 80, 20);
    assert!(frame.is_none());
    assert_eq!(state.agg.tick_count, 1);
}

#[test]
fn first_tick_delta_is_zero() {
    let mut state = PollState::new(String::from("AAPL"), baseline());
    let frame = state.tick(Some(1_000_000), 80, 20).unwrap();
    assert_eq!(frame.line.change.text, "+$0.00");
}

#[test]
fn metrics_line_text_is_exact() {
    let mut state = PollState::new(String::from("AAPL"), baseline());
    state.tick(Some(1_000_000), 80, 20).unwrap();
    let frame = state.tick(Some(1_020_000), 80, 20).unwrap();
    assert_eq!(
        frame.line.plain_text(),
        "   AAPL | Price: $102.00 | Last: $100.00 | Average: $101.00 \
         | Change: +$2.00 | MTD: +2.00% | QTD: +4.08% | YTD: -3.77%"
    );
}

#[test]
fn chart_domain_scrolls_with_the_ticks() {
    let mut state = PollState::new(String::from("AAPL"), baseline());
    let events: Vec<Option<u64>> = (0..5).map(|i| Some(1_000_000u64 + i)).collect();
    let frames = run_recorded(&mut state, &events, 3, 10);
    assert_eq!((frames[2].x_lo, frames[2].x_hi), (0, 3));
    assert_eq!((frames[3].x_lo, frames[3].x_hi), (1, 3));
    assert_eq!((frames[4].x_lo, frames[4].x_hi), (2, 3));
}
