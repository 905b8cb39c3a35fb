use std::collections::VecDeque;

use vstd::prelude::*;

verus! {

/// Number of recent frame rates the displayed average is taken over.
pub const FPS_WINDOW: usize = 20;

/// Sum of the samples of `s`.
pub open spec fn total(s: Seq<u32>) -> int
    decreases s.len(),
{
    if s.len() == 0 {
        0
    } else {
        total(s.drop_last()) + s.last()
    }
}

proof fn lemma_total_bounded(s: Seq<u32>)
    ensures
        0 <= total(s) <= s.len() * (u32::MAX as int),
    decreases s.len(),
{
    if s.len() > 0 {
        lemma_total_bounded(s.drop_last());
    }
}

/// A sliding window over the most recent frame rates.
pub struct FpsMeter {
    pub samples: VecDeque<u32>,
}

impl FpsMeter {
    /// The window never holds more than `FPS_WINDOW` samples.
    pub open spec fn wf(&self) -> bool {
        self.samples@.len() <= FPS_WINDOW
    }

    pub fn new() -> (r: FpsMeter)
        ensures
            r.wf(),
            r.samples@.len() == 0,
    {
        FpsMeter { samples: VecDeque::new() }
    }

    /// Adds the latest sample, dropping the oldest when the window is full.
    pub fn record(&mut self, fps: u32)
        requires
            old(self).wf(),
        ensures
            final(self).wf(),
            final(self).samples@ == (if old(self).samples@.len() == FPS_WINDOW {
                old(self).samples@.drop_first()
            } else {
                old(self).samples@
            }).push(fps),
    {
        if self.samples.len() == FPS_WINDOW {
            self.samples.pop_front();
        }
        self.samples.push_back(fps);
    }

    /// The mean of the samples in the window, rounded down; zero while empty.
    pub fn average(&self) -> (r: u32)
        requires
            self.wf(),
        ensures
            self.samples@.len() == 0 ==> r == 0,
            self.samples@.len() > 0 ==> r == total(self.samples@) / (self.samples@.len() as int),
    {
        let n = self.samples.len();
        if n == 0 {
            return 0;
        }
        let mut sum: u64 = 0;
        let mut i: usize = 0;
        while i < n
            invariant
                n == self.samples@.len(),
                n <= FPS_WINDOW,
                0 <= i <= n,
                sum == total(self.samples@.subrange(0, i as int)),
            decreases n - i,
        {
            proof {
                let s = self.samples@.subrange(0, i as int + 1);
                assert(s.drop_last() =~= self.samples@.subrange(0, i as int));
                lemma_total_bounded(s);
                assert(s.len() * (u32::MAX as int) <= 21 * (u32::MAX as int)) by (nonlinear_arith)
                    requires
                        s.len() <= 21,
                ;
            }
            sum = sum + self.samples[i] as u64;
            i = i + 1;
        }
        assert(self.samples@.subrange(0, n as int) =~= self.samples@);
        proof {
            lemma_total_bounded(self.samples@);
            assert(total(self.samples@) / (n as int) <= u32::MAX) by (nonlinear_arith)
                requires
                    0 <= total(self.samples@) <= n * (u32::MAX as int),
                    n > 0,
            ;
        }
        (sum / (n as u64)) as u32
    }
}

} // verus!
