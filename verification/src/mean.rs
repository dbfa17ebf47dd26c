//! A bounded-window moving average over integer samples.

use crate::util::spec_div_trunc;
use vstd::prelude::*;

verus! {

/// The mathematical content of a `Mean`: its sample window and capacity
/// (the running total is the window's sum).
pub struct MeanModel {
    pub history: Seq<i64>,
    pub capacity: nat,
}

/// The model after pushing a sample.
pub open spec fn mean_push_m(m: MeanModel, n: i64) -> MeanModel {
    MeanModel { history: Mean::spec_push(m.history, m.capacity, n), capacity: m.capacity }
}

/// The truncated average the model denotes (meaningful for a non-empty
/// window).
pub open spec fn mean_value_m(m: MeanModel) -> int {
    spec_div_trunc(sum_of(m.history), m.history.len() as int)
}

/// The sum of a sequence of samples.
pub open spec fn sum_of(s: Seq<i64>) -> int
    decreases s.len(),
{
    if s.len() == 0 {
        0
    } else {
        s[0] + sum_of(s.drop_first())
    }
}

pub proof fn lemma_sum_push(s: Seq<i64>, x: i64)
    ensures
        sum_of(s.push(x)) == sum_of(s) + x,
    decreases s.len(),
{
    if s.len() == 0 {
        assert(s.push(x).drop_first() =~= Seq::<i64>::empty());
        assert(s.push(x)[0] == x);
        assert(sum_of(Seq::<i64>::empty()) == 0);
        assert(sum_of(s) == 0);
    } else {
        assert(s.push(x).drop_first() =~= s.drop_first().push(x));
        assert(s.push(x)[0] == s[0]);
        lemma_sum_push(s.drop_first(), x);
        assert(sum_of(s.push(x)) == s[0] + sum_of(s.drop_first().push(x)));
    }
}

pub proof fn lemma_sum_bounds(s: Seq<i64>)
    ensures
        -(s.len() as int) * 0x8000_0000_0000_0000 <= sum_of(s) <= (s.len() as int)
            * 0x7fff_ffff_ffff_ffff,
    decreases s.len(),
{
    if s.len() == 0 {
    } else {
        lemma_sum_bounds(s.drop_first());
        assert((s.len() - 1) * 0x8000_0000_0000_0000 + 0x8000_0000_0000_0000 == (s.len() as int)
            * 0x8000_0000_0000_0000) by (nonlinear_arith);
        assert((s.len() - 1) * 0x7fff_ffff_ffff_ffff + 0x7fff_ffff_ffff_ffff == (s.len() as int)
            * 0x7fff_ffff_ffff_ffff) by (nonlinear_arith);
    }
}

/// A running total over the last `capacity` samples: pushing an entry past
/// the capacity evicts the oldest one.
pub struct Mean {
    pub history: Vec<i64>,
    pub total: i128,
    pub capacity: usize,
}

impl Mean {
    /// The mathematical content of this mean.
    pub open spec fn model(self) -> MeanModel {
        MeanModel { history: self.history@, capacity: self.capacity as nat }
    }

    /// The running total always equals the sum of the retained window.
    pub open spec fn wf(self) -> bool {
        &&& self.total == sum_of(self.history@)
        &&& self.history@.len() <= self.capacity || self.history@.len() <= 1
    }

    /// The window after a push: the oldest sample leaves once the window is
    /// full.
    pub open spec fn spec_push(h: Seq<i64>, capacity: nat, n: i64) -> Seq<i64> {
        if h.len() >= capacity && h.len() > 0 {
            h.drop_first().push(n)
        } else {
            h.push(n)
        }
    }

    pub fn new(capacity: usize) -> (r: Mean)
        ensures
            r.history@ == Seq::<i64>::empty(),
            r.capacity == capacity,
            r.wf(),
    {
        Mean { history: Vec::new(), total: 0, capacity }
    }

    /// Append a sample, evicting the oldest one when the window is full.
    pub fn push(&mut self, n: i64)
        requires
            old(self).wf(),
        ensures
            final(self).wf(),
            final(self).history@ == Mean::spec_push(
                old(self).history@,
                old(self).capacity as nat,
                n,
            ),
            final(self).capacity == old(self).capacity,
    {
        proof {
            lemma_sum_bounds(self.history@);
        }
        if self.history.len() >= self.capacity && self.history.len() > 0 {
            let evicted = self.history.remove(0);
            proof {
                assert(old(self).history@.drop_first() =~= self.history@);
            }
            self.total = self.total - evicted as i128;
        }
        proof {
            lemma_sum_bounds(self.history@);
            lemma_sum_push(self.history@, n);
        }
        self.history.push(n);
        self.total = self.total + n as i128;
    }

    /// The truncated average of the retained window.
    pub fn get(&self) -> (r: i64)
        requires
            self.wf(),
            self.history@.len() > 0,
        ensures
            r as int == spec_div_trunc(self.total as int, self.history@.len() as int),
    {
        let len = self.history.len();
        proof {
            lemma_sum_bounds(self.history@);
            let l = self.history@.len() as int;
            let t = self.total as int;
            assert(t >= 0 ==> t / l <= 0x7fff_ffff_ffff_ffff) by (nonlinear_arith)
                requires
                    l > 0,
                    t <= l * 0x7fff_ffff_ffff_ffff,
            ;
            assert(t < 0 ==> (-t) / l <= 0x8000_0000_0000_0000) by (nonlinear_arith)
                requires
                    l > 0,
                    -(l * 0x8000_0000_0000_0000) <= t,
            ;
        }
        if self.total >= 0 {
            let q: u128 = (self.total as u128) / (len as u128);
            q as i64
        } else {
            let q: u128 = ((-self.total) as u128) / (len as u128);
            if q == 0x8000_0000_0000_0000u128 {
                i64::MIN
            } else {
                -(q as i64)
            }
        }
    }
}

} // verus!
