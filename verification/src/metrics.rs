//! The running aggregates that the poll loop keeps across ticks.
//!
//! One record per tick: the tick counter, the sum of all prices seen,
//! and the price remembered for the tick-over-tick delta. The first
//! tick initialises that remembered price to the tick's own price, so
//! the first displayed delta is zero.

use vstd::prelude::*;

use crate::price::PRICE_FP_MAX;

verus! {

/// The aggregates the poll loop mutates once per tick.
#[derive(Clone, Copy, Debug)]
pub struct RunningAggregate {
    /// Ticks recorded so far; the tick counter starts at one.
    pub tick_count: u64,
    /// The sum of every recorded price, in fixed-point units.
    pub total_price: u128,
    /// The reference price for the tick-over-tick delta, set at the
    /// first tick.
    pub last_price: u64,
    /// Whether no tick has been recorded yet.
    pub first_seen: bool,
}

impl RunningAggregate {
    /// Well-formedness: the totals stay within what the recorded tick
    /// count allows, so no later sum or average can overflow.
    pub open spec fn wf(&self) -> bool {
        &&& self.total_price as nat <= self.tick_count as nat * PRICE_FP_MAX as nat
        &&& self.last_price <= PRICE_FP_MAX
        &&& (self.first_seen ==> self.tick_count == 0)
    }

    /// A fresh aggregate: nothing recorded yet.
    pub fn new() -> (a: RunningAggregate)
        ensures
            a.wf(),
            a.tick_count == 0,
            a.total_price == 0,
            a.last_price == 0,
            a.first_seen,
    {
        RunningAggregate { tick_count: 0, total_price: 0, last_price: 0, first_seen: true }
    }

    /// Record one tick's price: the counter advances, the total grows
    /// by the price, and the first tick fixes the remembered price.
    pub fn record(&mut self, price: u64)
        requires
            old(self).wf(),
            price <= PRICE_FP_MAX,
            old(self).tick_count < u64::MAX,
        ensures
            final(self).wf(),
            final(self).tick_count == old(self).tick_count + 1,
            final(self).total_price == old(self).total_price + price,
            !final(self).first_seen,
            final(self).last_price == (if old(self).first_seen {
                price
            } else {
                old(self).last_price
            }),
    {
        proof {
            let tc = old(self).tick_count as nat;
            let tp = old(self).total_price as nat;
            let p = price as nat;
            let m = PRICE_FP_MAX as nat;
            assert(tp + p <= (tc + 1) * m && (tc + 1) * m <= (u64::MAX as nat) * m)
                by (nonlinear_arith)
                requires
                    tp <= tc * m,
                    p <= m,
                    tc < u64::MAX as nat,
            ;
        }
        self.tick_count = self.tick_count + 1;
        self.total_price = self.total_price + (price as u128);
        if self.first_seen {
            self.first_seen = false;
            self.last_price = price;
        }
    }

    /// The average of all recorded prices, in fixed-point units,
    /// truncated toward zero.
    pub fn average(&self) -> (a: u64)
        requires
            self.wf(),
            1 <= self.tick_count,
        ensures
            a as nat == self.total_price as nat / self.tick_count as nat,
            a <= PRICE_FP_MAX,
    {
        proof {
            let tc = self.tick_count as nat;
            let tp = self.total_price as nat;
            let m = PRICE_FP_MAX as nat;
            assert(tp / tc <= m) by (nonlinear_arith)
                requires
                    tp <= tc * m,
                    1 <= tc,
            ;
        }
        (self.total_price / (self.tick_count as u128)) as u64
    }
}

} // verus!
