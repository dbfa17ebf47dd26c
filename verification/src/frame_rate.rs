//! A frames-per-second counter over a sliding one-second window.

use crate::mean::Mean;
use crate::util::{spec_clamp, spec_div_trunc};
use vstd::prelude::*;

verus! {

/// Tick timestamps older than this many milliseconds fall out of the
/// window.
pub const FRAME_WINDOW_MS: u64 = 1000;

/// The window after recording a tick at `now`: the new timestamp is
/// appended and every timestamp older than the window is dropped from the
/// front.
pub open spec fn pruned(s: Seq<u64>, now: u64) -> Seq<u64>
    decreases s.len(),
{
    if s.len() > 0 && s[0] + FRAME_WINDOW_MS < now {
        pruned(s.drop_first(), now)
    } else {
        s
    }
}

/// Counts how many ticks landed in the last second, and smooths that count
/// with a short moving average.
pub struct FrameRate {
    pub times: Vec<u64>,
    pub mean: Mean,
}

impl FrameRate {
    pub open spec fn wf(self) -> bool {
        &&& self.mean.wf()
        &&& sorted(self.times@)
    }

    pub fn new(n: u8) -> (r: FrameRate)
        ensures
            r.times@.len() == 0,
            r.mean.history@.len() == 0,
            r.wf(),
    {
        FrameRate { times: Vec::with_capacity(n as usize), mean: Mean::new(10) }
    }

    /// Record a tick at clock reading `now` and drop the ticks that have
    /// left the one-second window.
    pub fn tick(&mut self, now: u64)
        requires
            old(self).wf(),
            old(self).times@.len() > 0 ==> now >= old(self).times@.last(),
        ensures
            final(self).wf(),
            final(self).times@ == pruned(old(self).times@.push(now), now),
            final(self).mean == old(self).mean,
    {
        self.times.push(now);
        proof {
            lemma_sorted_push(old(self).times@, now);
        }
        loop
            invariant
                sorted(self.times@),
                self.times@.len() > 0,
                self.times@.last() == now,
                pruned(self.times@, now) == pruned(old(self).times@.push(now), now),
                self.mean == old(self).mean,
            ensures
                sorted(self.times@),
                self.times@ == pruned(old(self).times@.push(now), now),
                self.mean == old(self).mean,
            decreases self.times@.len(),
        {
            let first = self.times[0];
            proof {
                assert(self.times@[0] <= self.times@.last());
            }
            if now - first > FRAME_WINDOW_MS {
                let ghost pre = self.times@;
                self.times.remove(0);
                proof {
                    assert(self.times@ =~= pre.drop_first());
                    lemma_sorted_drop(pre);
                }
            } else {
                proof {
                    assert(pruned(self.times@, now) == self.times@);
                }
                break ;
            }
        }
    }

    /// Feed the current window count into the moving average and return
    /// the smoothed rate, saturated to a byte as the host displays it.
    pub fn mean(&mut self) -> (r: u8)
        requires
            old(self).wf(),
        ensures
            final(self).wf(),
            final(self).times@ == old(self).times@,
            final(self).mean.history@ == Mean::spec_push(
                old(self).mean.history@,
                old(self).mean.capacity as nat,
                spec_clamp(old(self).times@.len() as int, 0, 0x7fff_ffff_ffff_ffff) as i64,
            ),
            r as int == spec_clamp(
                spec_div_trunc(final(self).mean.total as int, final(self).mean.history@.len() as int),
                0,
                255,
            ),
    {
        let len = self.times.len();
        let l64: u64 = len as u64;
        let li: i64 = if l64 > 0x7fff_ffff_ffff_ffffu64 {
            i64::MAX
        } else {
            l64 as i64
        };
        self.mean.push(li);
        let m = self.mean.get();
        if m < 0 {
            0
        } else if m > 255 {
            255
        } else {
            m as u8
        }
    }

    /// How many ticks the last second holds, saturated to a byte.
    pub fn get(&self) -> (r: u8)
        ensures
            r as int == spec_clamp(self.times@.len() as int, 0, 255),
    {
        let len = self.times.len();
        if len > 255 {
            255
        } else {
            len as u8
        }
    }
}

/// Non-decreasing timestamps.
pub open spec fn sorted(s: Seq<u64>) -> bool {
    forall|i: int, j: int| 0 <= i <= j < s.len() ==> s[i] <= s[j]
}

proof fn lemma_sorted_push(s: Seq<u64>, x: u64)
    requires
        sorted(s),
        s.len() > 0 ==> x >= s.last(),
    ensures
        sorted(s.push(x)),
{
    assert forall|i: int, j: int| 0 <= i <= j < s.push(x).len() implies s.push(x)[i] <= s.push(
        x,
    )[j] by {
        if j < s.len() {
            assert(s.push(x)[i] == s[i] && s.push(x)[j] == s[j]);
        } else {
            assert(s.push(x)[j] == x);
            if i < s.len() {
                assert(s[i] <= s.last());
            }
        }
    }
}

proof fn lemma_sorted_drop(s: Seq<u64>)
    requires
        sorted(s),
        s.len() > 0,
    ensures
        sorted(s.drop_first()),
{
    assert forall|i: int, j: int|
        0 <= i <= j < s.drop_first().len() implies s.drop_first()[i] <= s.drop_first()[j] by {
        assert(s.drop_first()[i] == s[i + 1] && s.drop_first()[j] == s[j + 1]);
    }
}

} // verus!
