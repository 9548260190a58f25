//! The bounded rolling window of recent price samples.
//!
//! The window keeps the newest samples, up to a capacity that the poll
//! loop recomputes from the terminal width on every tick. The oldest
//! samples are evicted first; the length never exceeds the capacity.

use vstd::prelude::*;

verus! {

/// One price sample: the tick at which it was taken and the
/// fixed-point price. Samples are created once and never mutated.
#[derive(Clone, Copy, Debug, PartialEq, Eq, Structural)]
pub struct Sample {
    pub index: u64,
    pub price: u64,
}

/// The newest `cap` entries of a sequence: the whole sequence when it
/// already fits.
pub open spec fn newest(w: Seq<Sample>, cap: nat) -> Seq<Sample> {
    if w.len() <= cap {
        w
    } else {
        w.subrange(w.len() - cap, w.len() as int)
    }
}

/// The window contents after one bounded push: append the sample, then
/// keep only the newest `cap` entries.
pub open spec fn push_model(w: Seq<Sample>, s: Sample, cap: nat) -> Seq<Sample> {
    newest(w.push(s), cap)
}

/// The window contents after pushing a whole sequence of samples, in
/// order, at a fixed capacity.
pub open spec fn push_all_model(w: Seq<Sample>, ss: Seq<Sample>, cap: nat) -> Seq<Sample>
    decreases ss.len(),
{
    if ss.len() == 0 {
        w
    } else {
        push_all_model(push_model(w, ss.first(), cap), ss.drop_first(), cap)
    }
}

/// The bound holds after one push from any prior contents: a push at
/// capacity `cap >= 1` leaves at most `cap` samples.
pub proof fn lemma_push_bounded(w: Seq<Sample>, s: Sample, cap: nat)
    requires
        1 <= cap,
    ensures
        push_model(w, s, cap).len() <= cap,
{
}

/// The bound holds after every sequence of pushes: pushing at least one
/// sample at capacity `cap >= 1` leaves at most `cap` samples, whatever
/// the window held before.
pub proof fn lemma_push_all_bounded(w: Seq<Sample>, ss: Seq<Sample>, cap: nat)
    requires
        1 <= cap,
        1 <= ss.len(),
    ensures
        push_all_model(w, ss, cap).len() <= cap,
    decreases ss.len(),
{
    if ss.len() == 1 {
        lemma_push_bounded(w, ss.first(), cap);
        assert(push_all_model(push_model(w, ss.first(), cap), ss.drop_first(), cap)
            == push_model(w, ss.first(), cap));
    } else {
        lemma_push_all_bounded(push_model(w, ss.first(), cap), ss.drop_first(), cap);
    }
}

/// A bounded push always ends with the pushed sample as the newest
/// entry.
pub proof fn lemma_push_model_last(w: Seq<Sample>, s: Sample, cap: nat)
    requires
        1 <= cap,
    ensures
        1 <= push_model(w, s, cap).len(),
        push_model(w, s, cap).last() == s,
{
}

/// Trimming to the capacity before a push changes nothing: the push
/// itself keeps only the newest `cap` samples.
pub proof fn lemma_push_after_trim(w: Seq<Sample>, s: Sample, cap: nat)
    requires
        1 <= cap,
    ensures
        push_model(newest(w, cap), s, cap) == push_model(w, s, cap),
{
    assert(push_model(newest(w, cap), s, cap) =~= push_model(w, s, cap));
}

/// A bounded double-ended buffer of the most recent samples.
pub struct RollingWindow {
    samples: Vec<Sample>,
    capacity: usize,
}

impl View for RollingWindow {
    type V = Seq<Sample>;

    closed spec fn view(&self) -> Seq<Sample> {
        self.samples@
    }
}

impl RollingWindow {
    /// The current capacity, as a mathematical value.
    pub closed spec fn spec_capacity(&self) -> nat {
        self.capacity as nat
    }

    /// Well-formedness: the capacity is at least one and the contents
    /// fit in it.
    pub open spec fn wf(&self) -> bool {
        1 <= self.spec_capacity() && self@.len() <= self.spec_capacity()
    }

    /// An empty window with the smallest capacity.
    pub fn new() -> (w: RollingWindow)
        ensures
            w.wf(),
            w@ == Seq::<Sample>::empty(),
            w.spec_capacity() == 1,
    {
        let w = RollingWindow { samples: Vec::new(), capacity: 1 };
        proof {
            assert(w@ =~= Seq::<Sample>::empty());
        }
        w
    }

    /// The number of samples held.
    pub fn length(&self) -> (n: usize)
        ensures
            n == self@.len(),
    {
        self.samples.len()
    }

    /// The current capacity.
    pub fn capacity(&self) -> (c: usize)
        ensures
            c == self.spec_capacity(),
    {
        self.capacity
    }

    /// Recompute the capacity from the visible terminal width, evicting
    /// the oldest samples if the window no longer fits. A width of zero
    /// is clamped to one, so a degenerate terminal never empties the
    /// window entirely.
    pub fn set_capacity(&mut self, width: usize)
        requires
            old(self).wf(),
        ensures
            final(self).wf(),
            final(self).spec_capacity() == (if width == 0 { 1nat } else { width as nat }),
            final(self)@ == newest(old(self)@, final(self).spec_capacity()),
    {
        let cap: usize = if width == 0 {
            1
        } else {
            width
        };
        self.capacity = cap;
        let ghost orig = self.samples@;
        proof {
            assert(self.samples@ =~= orig.subrange(
                orig.len() - self.samples@.len(),
                orig.len() as int,
            ));
        }
        while self.samples.len() > cap
            invariant
                self.capacity == cap,
                1 <= cap,
                self.samples@.len() <= orig.len(),
                orig.len() <= cap ==> self.samples@.len() == orig.len(),
                orig.len() > cap ==> self.samples@.len() >= cap,
                self.samples@ == orig.subrange(
                    orig.len() - self.samples@.len(),
                    orig.len() as int,
                ),
            decreases self.samples@.len(),
        {
            self.samples.remove(0);
            proof {
                assert(self.samples@ =~= orig.subrange(
                    orig.len() - self.samples@.len(),
                    orig.len() as int,
                ));
            }
        }
        proof {
            assert(orig.subrange(0, orig.len() as int) =~= orig);
            assert(self@ =~= newest(orig, cap as nat));
        }
    }

    /// Append a sample, evicting from the front first whenever the
    /// window is already full, so the length never exceeds the
    /// capacity.
    pub fn push(&mut self, s: Sample)
        requires
            old(self).wf(),
        ensures
            final(self).wf(),
            final(self).spec_capacity() == old(self).spec_capacity(),
            final(self)@ == push_model(old(self)@, s, old(self).spec_capacity()),
            final(self)@.len() <= final(self).spec_capacity(),
    {
        let ghost orig = self.samples@;
        proof {
            assert(self.samples@ =~= orig.subrange(
                orig.len() - self.samples@.len(),
                orig.len() as int,
            ));
        }
        while self.samples.len() >= self.capacity
            invariant
                1 <= self.capacity,
                self.samples@.len() <= orig.len(),
                orig.len() < self.capacity ==> self.samples@.len() == orig.len(),
                orig.len() >= self.capacity ==> self.samples@.len() + 1 >= self.capacity,
                self.capacity == old(self).capacity,
                self.samples@ == orig.subrange(
                    orig.len() - self.samples@.len(),
                    orig.len() as int,
                ),
                orig.len() <= self.capacity,
            decreases self.samples@.len(),
        {
            self.samples.remove(0);
            proof {
                assert(self.samples@ =~= orig.subrange(
                    orig.len() - self.samples@.len(),
                    orig.len() as int,
                ));
            }
        }
        self.samples.push(s);
        proof {
            assert(self@ =~= push_model(orig, s, old(self).spec_capacity()));
        }
    }

    /// A copy of the current contents, oldest first, for rendering.
    pub fn snapshot(&self) -> (v: Vec<Sample>)
        ensures
            v@ == self@,
    {
        let mut v: Vec<Sample> = Vec::new();
        let mut i: usize = 0;
        proof {
            assert(v@ =~= self.samples@.subrange(0, 0));
        }
        while i < self.samples.len()
            invariant
                i <= self.samples@.len(),
                v@ == self.samples@.subrange(0, i as int),
            decreases self.samples@.len() - i,
        {
            v.push(self.samples[i]);
            i += 1;
            proof {
                assert(v@ =~= self.samples@.subrange(0, i as int));
            }
        }
        proof {
            assert(v@ =~= self@);
        }
        v
    }
}

} // verus!
