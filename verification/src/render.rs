//! The data of one rendered tick: the chart window, its horizontal
//! domain, and the metrics line.
//!
//! The library fixes everything the drawing layer needs — which points
//! to plot, the scrolled domain, every character of the metrics line
//! and its tones — and the drawing layer only puts it on the screen.

use vstd::prelude::*;

use crate::baseline::HistoricalBaseline;
use crate::format::{
    diff_with_sign, diff_without_sign, diff_with_sign_percent, fp_diff_mag, percent_hundredths,
    round_and_whiten, sign_char, Painted, Tone,
};
use crate::price::{fp_cents, money_text, two_dp_text, PRICE_FP_MAX};
use crate::window::Sample;

verus! {

/// The metrics line: the ticker and seven derived figures, each with
/// its tone.
pub struct MetricsLine {
    pub ticker: Painted,
    pub price: Painted,
    pub last: Painted,
    pub average: Painted,
    pub change: Painted,
    pub mtd: Painted,
    pub qtd: Painted,
    pub ytd: Painted,
}

/// A percentage figure shows the signed change from `old` to `new`,
/// toned by its direction.
pub open spec fn percent_painted_matches(p: Painted, old: nat, new: nat) -> bool {
    &&& p.text@ == seq![sign_char(new >= old)] + two_dp_text(percent_hundredths(old, new))
        + seq!['%']
    &&& p.tone == (if new >= old {
        Tone::Green
    } else {
        Tone::Red
    })
}

/// What every field of the metrics line shows for a given tick: the
/// current, last and average prices, the tick-over-tick change, and
/// the three baseline percentages.
pub open spec fn metrics_line_matches(
    l: MetricsLine,
    ticker: Seq<char>,
    current: nat,
    last: nat,
    average: nat,
    b: HistoricalBaseline,
) -> bool {
    &&& l.ticker.text@ == ticker
    &&& l.ticker.tone == Tone::Cyan
    &&& l.price.text@ == money_text(fp_cents(current))
    &&& l.price.tone == Tone::White
    &&& l.last.text@ == money_text(fp_cents(last))
    &&& l.last.tone == Tone::White
    &&& l.average.text@ == money_text(fp_cents(average))
    &&& l.average.tone == (if current >= average {
        Tone::Green
    } else {
        Tone::Red
    })
    &&& l.change.text@ == seq![sign_char(current >= last)] + money_text(
        fp_cents(fp_diff_mag(last, current)),
    )
    &&& l.change.tone == (if current >= last {
        Tone::Green
    } else {
        Tone::Red
    })
    &&& percent_painted_matches(l.mtd, b.mtd_open as nat, current)
    &&& percent_painted_matches(l.qtd, b.qtd_open as nat, current)
    &&& percent_painted_matches(l.ytd, b.ytd_open as nat, current)
}

/// Build the metrics line for one tick.
pub fn build_metrics_line(
    ticker: &str,
    current: u64,
    last: u64,
    average: u64,
    b: &HistoricalBaseline,
) -> (l: MetricsLine)
    requires
        current <= PRICE_FP_MAX,
        last <= PRICE_FP_MAX,
        average <= PRICE_FP_MAX,
        b.wf(),
    ensures
        metrics_line_matches(l, ticker@, current as nat, last as nat, average as nat, *b),
{
    MetricsLine {
        ticker: Painted { text: String::from_str(ticker), tone: Tone::Cyan },
        price: round_and_whiten(current),
        last: round_and_whiten(last),
        average: diff_without_sign(average, current),
        change: diff_with_sign(last, current),
        mtd: diff_with_sign_percent(b.mtd_open, current),
        qtd: diff_with_sign_percent(b.qtd_open, current),
        ytd: diff_with_sign_percent(b.ytd_open, current),
    }
}

/// The full text of the metrics line, fields joined by labelled
/// separators.
pub open spec fn metrics_line_text(l: MetricsLine) -> Seq<char> {
    "   "@ + l.ticker.text@ + " | Price: "@ + l.price.text@ + " | Last: "@ + l.last.text@
        + " | Average: "@ + l.average.text@ + " | Change: "@ + l.change.text@ + " | MTD: "@
        + l.mtd.text@ + " | QTD: "@ + l.qtd.text@ + " | YTD: "@ + l.ytd.text@
}

impl MetricsLine {
    /// The metrics line as plain text, without tones.
    pub fn plain_text(&self) -> (out: String)
        ensures
            out@ == metrics_line_text(*self),
    {
        let mut out = String::from_str("   ");
        out.append(self.ticker.text.as_str());
        out.append(" | Price: ");
        out.append(self.price.text.as_str());
        out.append(" | Last: ");
        out.append(self.last.text.as_str());
        out.append(" | Average: ");
        out.append(self.average.text.as_str());
        out.append(" | Change: ");
        out.append(self.change.text.as_str());
        out.append(" | MTD: ");
        out.append(self.mtd.text.as_str());
        out.append(" | QTD: ");
        out.append(self.qtd.text.as_str());
        out.append(" | YTD: ");
        out.append(self.ytd.text.as_str());
        proof {
            assert(out@ =~= metrics_line_text(*self));
        }
        out
    }
}

/// The left edge of the chart's horizontal domain: the chart scrolls
/// once the tick counter passes the width.
pub open spec fn chart_lo(index: u64, width: u64) -> u64 {
    if index <= width {
        0
    } else {
        (index - width) as u64
    }
}

/// The horizontal domain of the chart for a tick: from the scrolled
/// left edge to the width.
pub fn chart_x_range(index: u64, width: u64) -> (r: (u64, u64))
    ensures
        r.0 == chart_lo(index, width),
        r.1 == width,
{
    if index <= width {
        (0, width)
    } else {
        (index - width, width)
    }
}

/// Everything the drawing layer needs for one tick's frame.
pub struct Frame {
    /// The samples to plot, oldest first.
    pub points: Vec<Sample>,
    /// The horizontal domain of the chart.
    pub x_lo: u64,
    pub x_hi: u64,
    /// The terminal cells available to the chart.
    pub width: usize,
    pub height: usize,
    /// The metrics line below the chart.
    pub line: MetricsLine,
}

} // verus!
