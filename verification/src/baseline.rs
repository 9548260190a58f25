//! Historical reference prices for the month, quarter and year deltas.
//!
//! The history source is consulted once, before the poll loop starts.
//! Its records are ordered newest first, so the record at position `n`
//! is the opening price roughly `n` days back. When the history is too
//! shallow for a lookback, the oldest available record stands in.

use vstd::prelude::*;

use crate::price::PRICE_FP_MAX;
use crate::structs::{NameStackData, NameStackDataWrap};

verus! {

/// The three lookback depths, in records: month, quarter and year.
pub const MTD_LOOKBACK: usize = 29;

pub const QTD_LOOKBACK: usize = 90;

pub const YTD_LOOKBACK: usize = 364;

/// The baseline for one lookback depth: the record at that depth, or
/// the oldest record when the history is shallower.
pub open spec fn baseline_at(opens: Seq<u64>, depth: nat) -> u64
    recommends
        opens.len() >= 1,
{
    if depth < opens.len() {
        opens[depth as int]
    } else {
        opens.last()
    }
}

/// The opening prices of a history response, newest first.
pub open spec fn opens_of(days: &NameStackDataWrap) -> Seq<u64> {
    days.data@.map_values(|d: NameStackData| d.open)
}

/// The three reference prices, fixed for the process lifetime.
#[derive(Clone, Copy, Debug, PartialEq, Eq, Structural)]
pub struct HistoricalBaseline {
    pub mtd_open: u64,
    pub qtd_open: u64,
    pub ytd_open: u64,
}

impl HistoricalBaseline {
    /// Well-formedness: each reference price is within the price
    /// bound, as every price handed to the library is.
    pub open spec fn wf(&self) -> bool {
        &&& self.mtd_open <= PRICE_FP_MAX
        &&& self.qtd_open <= PRICE_FP_MAX
        &&& self.ytd_open <= PRICE_FP_MAX
    }

    /// Derive the three baselines from a history response. An empty
    /// history has no oldest record to fall back on, so it yields
    /// nothing; any non-empty history yields all three baselines, each
    /// falling back to the oldest record when the history is shallower
    /// than its lookback.
    pub fn from_history(days: &NameStackDataWrap) -> (r: Option<HistoricalBaseline>)
        requires
            forall|i: int| 0 <= i < days.data@.len() ==> (#[trigger] days.data@[i]).open
                <= PRICE_FP_MAX,
        ensures
            r is Some <==> days.data@.len() >= 1,
            r is Some ==> r->Some_0.wf(),
            r is Some ==> r->Some_0 == (HistoricalBaseline {
                mtd_open: baseline_at(opens_of(days), MTD_LOOKBACK as nat),
                qtd_open: baseline_at(opens_of(days), QTD_LOOKBACK as nat),
                ytd_open: baseline_at(opens_of(days), YTD_LOOKBACK as nat),
            }),
    {
        let n = days.data.len();
        if n == 0 {
            return None;
        }
        let last = days.data[n - 1].open;
        let mtd = if n > MTD_LOOKBACK {
            days.data[MTD_LOOKBACK].open
        } else {
            last
        };
        let qtd = if n > QTD_LOOKBACK {
            days.data[QTD_LOOKBACK].open
        } else {
            last
        };
        let ytd = if n > YTD_LOOKBACK {
            days.data[YTD_LOOKBACK].open
        } else {
            last
        };
        Some(HistoricalBaseline { mtd_open: mtd, qtd_open: qtd, ytd_open: ytd })
    }
}

} // verus!
