//! The poll loop's state and its transition function.
//!
//! Timing and fetching live outside the library: each turn of the
//! outer loop measures the terminal, fetches a price, hands both to
//! [`PollState::tick`], draws the frame it returns, and sleeps. The
//! decisions — how the aggregates and the window move, what the frame
//! holds, and that a failed fetch ends the run with no further tick —
//! are all made and proved here.

use vstd::prelude::*;

use crate::baseline::HistoricalBaseline;
use crate::metrics::RunningAggregate;
use crate::price::PRICE_FP_MAX;
use crate::render::{
    build_metrics_line, chart_lo, chart_x_range, metrics_line_matches, Frame,
};
use crate::window::{
    lemma_push_after_trim, lemma_push_model_last, push_model, RollingWindow, Sample,
};

verus! {

/// Everything the poll loop owns across ticks.
pub struct PollState {
    /// The ticker being watched.
    pub ticker: String,
    /// The rolling window of recent samples.
    pub window: RollingWindow,
    /// The running aggregates.
    pub agg: RunningAggregate,
    /// The three reference prices, fixed at startup.
    pub baseline: HistoricalBaseline,
}

/// What one successful tick guarantees: the aggregates advance, the
/// window takes the new sample at the capacity the width dictates, and
/// the frame shows exactly the new state.
pub open spec fn tick_frame_matches(
    old_state: PollState,
    new_state: PollState,
    frame: Frame,
    price: u64,
    width: usize,
    height: usize,
) -> bool {
    let cap = if width == 0 {
        1nat
    } else {
        width as nat
    };
    let idx = (old_state.agg.tick_count + 1) as u64;
    let sample = Sample { index: idx, price };
    &&& new_state.agg.tick_count == idx
    &&& new_state.agg.total_price == old_state.agg.total_price + price
    &&& new_state.agg.last_price == (if old_state.agg.first_seen {
        price
    } else {
        old_state.agg.last_price
    })
    &&& !new_state.agg.first_seen
    &&& new_state.window.spec_capacity() == cap
    &&& new_state.window@ == push_model(old_state.window@, sample, cap)
    &&& frame.points@ == new_state.window@
    &&& frame.x_lo == chart_lo(idx, width as u64)
    &&& frame.x_hi == width as u64
    &&& frame.width == width
    &&& frame.height == height
    &&& metrics_line_matches(
        frame.line,
        old_state.ticker@,
        price as nat,
        new_state.agg.last_price as nat,
        new_state.agg.total_price as nat / new_state.agg.tick_count as nat,
        old_state.baseline,
    )
}

impl PollState {
    /// Well-formedness of the whole loop state.
    pub open spec fn wf(&self) -> bool {
        &&& self.window.wf()
        &&& self.agg.wf()
        &&& self.baseline.wf()
    }

    /// The state before the first tick: an empty window and a fresh
    /// aggregate around the ticker and its baselines.
    pub fn new(ticker: String, baseline: HistoricalBaseline) -> (s: PollState)
        requires
            baseline.wf(),
        ensures
            s.wf(),
            s.ticker == ticker,
            s.baseline == baseline,
            s.window@ == Seq::<Sample>::empty(),
            s.agg.tick_count == 0,
            s.agg.total_price == 0,
            s.agg.first_seen,
    {
        PollState {
            ticker,
            window: RollingWindow::new(),
            agg: RunningAggregate::new(),
            baseline,
        }
    }

    /// One tick of the poll loop. A fetched price advances the state
    /// and yields the frame to draw; a failed fetch changes nothing
    /// and yields no frame, which tells the loop to stop.
    pub fn tick(&mut self, fetched: Option<u64>, width: usize, height: usize) -> (frame: Option<
        Frame,
    >)
        requires
            old(self).wf(),
            fetched matches Some(p) ==> p <= PRICE_FP_MAX,
            old(self).agg.tick_count < u64::MAX,
        ensures
            final(self).wf(),
            final(self).ticker == old(self).ticker,
            final(self).baseline == old(self).baseline,
            frame is Some <==> fetched is Some,
            fetched is None ==> *final(self) == *old(self),
            fetched matches Some(p) ==> tick_frame_matches(
                *old(self),
                *final(self),
                frame->Some_0,
                p,
                width,
                height,
            ),
    {
        match fetched {
            None => None,
            Some(p) => {
                self.agg.record(p);
                let cap: usize = if width == 0 {
                    1
                } else {
                    width
                };
                self.window.set_capacity(cap);
                let idx = self.agg.tick_count;
                let sample = Sample { index: idx, price: p };
                self.window.push(sample);
                proof {
                    lemma_push_after_trim(old(self).window@, sample, cap as nat);
                }
                let avg = self.agg.average();
                let line = build_metrics_line(
                    self.ticker.as_str(),
                    p,
                    self.agg.last_price,
                    avg,
                    &self.baseline,
                );
                let points = self.window.snapshot();
                let (x_lo, x_hi) = chart_x_range(idx, width as u64);
                Some(Frame { points, x_lo, x_hi, width, height, line })
            },
        }
    }
}

/// How many ticks run before the first failed fetch stops the loop:
/// the number of leading successful fetches.
pub open spec fn ticks_before_failure(events: Seq<Option<u64>>) -> nat
    decreases events.len(),
{
    if events.len() == 0 {
        0
    } else if events.first() is None {
        0
    } else {
        1 + ticks_before_failure(events.drop_first())
    }
}

/// A scan that saw only successes before `k`, and a failure at `k` if
/// `k` is inside the sequence, pins down `ticks_before_failure`.
proof fn lemma_ticks_before_failure_from_scan(events: Seq<Option<u64>>, k: int)
    requires
        0 <= k <= events.len(),
        forall|j: int| 0 <= j < k ==> (#[trigger] events[j]) is Some,
        k < events.len() ==> events[k] is None,
    ensures
        ticks_before_failure(events) == if k < events.len() {
            k
        } else {
            events.len() as int
        },
    decreases events.len(),
{
    if events.len() == 0 {
    } else if k == 0 {
    } else {
        let t = events.drop_first();
        assert(forall|j: int| 0 <= j < t.len() ==> t[j] == events[j + 1]);
        lemma_ticks_before_failure_from_scan(t, k - 1);
    }
}

/// What the frame of the `fi`th replayed tick shows: the given
/// dimensions, a window that fits them, and that tick's price as the
/// newest plotted sample.
pub open spec fn frame_shows_tick(
    frame: Frame,
    base_ticks: nat,
    fi: int,
    events: Seq<Option<u64>>,
    width: usize,
    height: usize,
) -> bool {
    &&& frame.width == width
    &&& frame.height == height
    &&& 1 <= frame.points@.len() <= (if width == 0 {
        1nat
    } else {
        width as nat
    })
    &&& frame.points@.last() == (Sample {
        index: (base_ticks + fi + 1) as u64,
        price: events[fi]->Some_0,
    })
}

/// Replay a recorded sequence of fetch outcomes against a fixed
/// terminal size: one tick per outcome, stopping at the first failure.
///
/// The contract carries the loop's termination law: exactly one frame
/// is rendered per successful tick before the first failure, the tick
/// counter advances only that far, and nothing after the failure is
/// ever ticked.
pub fn run_recorded(
    state: &mut PollState,
    events: &Vec<Option<u64>>,
    width: usize,
    height: usize,
) -> (frames: Vec<Frame>)
    requires
        old(state).wf(),
        forall|i: int| 0 <= i < events@.len() ==> ((#[trigger] events@[i]) matches Some(p) ==> p
            <= PRICE_FP_MAX),
        old(state).agg.tick_count + events@.len() <= u64::MAX,
    ensures
        final(state).wf(),
        frames@.len() == ticks_before_failure(events@),
        final(state).agg.tick_count == old(state).agg.tick_count + frames@.len(),
        final(state).ticker == old(state).ticker,
        final(state).baseline == old(state).baseline,
        forall|fi: int|
            #![trigger frames@[fi]]
            0 <= fi < frames@.len() ==> frame_shows_tick(
                frames@[fi],
                old(state).agg.tick_count as nat,
                fi,
                events@,
                width,
                height,
            ),
{
    let mut frames: Vec<Frame> = Vec::new();
    let mut i: usize = 0;
    let mut stopped = false;
    while i < events.len() && !stopped
        invariant
            state.wf(),
            events@.len() <= u64::MAX,
            i <= events@.len(),
            forall|jj: int| 0 <= jj < events@.len() ==> ((#[trigger] events@[jj]) matches Some(
                p,
            ) ==> p <= PRICE_FP_MAX),
            old(state).agg.tick_count + events@.len() <= u64::MAX,
            state.ticker == old(state).ticker,
            state.baseline == old(state).baseline,
            !stopped ==> {
                &&& frames@.len() == i
                &&& state.agg.tick_count == old(state).agg.tick_count + i
                &&& forall|j: int| 0 <= j < i ==> (#[trigger] events@[j]) is Some
            },
            forall|fi: int|
                #![trigger frames@[fi]]
                0 <= fi < frames@.len() ==> frame_shows_tick(
                    frames@[fi],
                    old(state).agg.tick_count as nat,
                    fi,
                    events@,
                    width,
                    height,
                ),
            stopped ==> {
                &&& 1 <= i <= events@.len()
                &&& frames@.len() == i - 1
                &&& state.agg.tick_count == old(state).agg.tick_count + i - 1
                &&& events@[i - 1] is None
                &&& forall|j: int| 0 <= j < i - 1 ==> (#[trigger] events@[j]) is Some
            },
        decreases events@.len() - i + (if stopped { 0int } else { 1int }),
    {
        let ev = events[i];
        let ghost pre = *state;
        match state.tick(ev, width, height) {
            Some(frame) => {
                proof {
                    let cap = if width == 0 {
                        1nat
                    } else {
                        width as nat
                    };
                    lemma_push_model_last(
                        pre.window@,
                        Sample { index: (pre.agg.tick_count + 1) as u64, price: ev->Some_0 },
                        cap,
                    );
                }
                frames.push(frame);
            },
            None => {
                stopped = true;
            },
        }
        i += 1;
    }
    proof {
        if stopped {
            lemma_ticks_before_failure_from_scan(events@, i - 1);
        } else {
            lemma_ticks_before_failure_from_scan(events@, events@.len() as int);
        }
    }
    frames
}

} // verus!
