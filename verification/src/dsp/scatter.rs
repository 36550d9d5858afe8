//! Round-robin distribution of samples across timing phases, for symbol
//! timing recovery.

use vstd::prelude::*;

verus! {

/// Distributes samples across timing phases: sample after sample, each to
/// the phase after the previous one's.
#[derive(Debug, Clone)]
pub struct ScatterPLL {
    /// Number of timing phases.
    n_phases: usize,
    /// The phase of the next sample.
    last_symbol: usize,
    /// Number of samples distributed so far.
    sample_idx: usize,
}

/// The first of `len` samples that goes to phase `p` when the first sample
/// goes to phase `last`, out of `n`.
pub open spec fn first_of_phase(n: nat, last: nat, p: nat) -> nat {
    ((p + n - last) as int % (n as int)) as nat
}

/// How many of `len` samples go to phase `p`.
pub open spec fn count_of_phase(n: nat, last: nat, p: nat, len: nat) -> nat {
    let f = first_of_phase(n, last, p);
    if f < len {
        ((len - f + n - 1) / (n as int)) as nat
    } else {
        0
    }
}

/// `out` holds, in order, the samples of `data` that go to phase `p`, and
/// `last` is the overall index of the last of them (0 when there is none):
/// with `n` phases, the first sample of `data` going to phase `first` and
/// `idx` samples distributed before.
pub open spec fn phase_ok<T>(data: Seq<T>, n: nat, first: nat, idx: nat, p: nat, out: Seq<T>, last: nat) -> bool {
    let f = first_of_phase(n, first, p);
    let c = count_of_phase(n, first, p, data.len());
    &&& out.len() == c
    &&& forall|k: int| 0 <= k < c ==> out[k] == data[f + k * n]
    &&& last == (if c > 0 {
        idx + f + (c - 1) * n
    } else {
        0
    })
}

impl ScatterPLL {
    /// Number of phases, phase of the next sample, samples so far.
    pub closed spec fn view(&self) -> (nat, nat, nat) {
        (self.n_phases as nat, self.last_symbol as nat, self.sample_idx as nat)
    }

    /// The next phase is one of the phases.
    pub open spec fn wf(&self) -> bool {
        self.view().0 == 0 || self.view().1 < self.view().0
    }

    pub fn new(n_phases: usize) -> (r: Self)
        ensures
            r.view() == (n_phases as nat, 0nat, 0nat),
            r.wf(),
    {
        ScatterPLL { n_phases, last_symbol: 0, sample_idx: 0 }
    }

    /// Number of timing phases.
    pub fn phases(&self) -> (r: usize)
        ensures
            r == self.view().0,
    {
        self.n_phases
    }

    /// Number of samples distributed so far.
    pub fn sample_count(&self) -> (r: usize)
        ensures
            r == self.view().2,
    {
        self.sample_idx
    }

    /// Distributes `data` over the phases.  Returns, for each phase, its
    /// samples in order, and the index (counted over all samples ever
    /// distributed) of its last sample, or 0 when it got none.
    pub fn scatter<T: Copy>(&mut self, data: &[T]) -> (r: (Vec<Vec<T>>, Vec<usize>))
        requires
            old(self).wf(),
            old(self).view().0 > 0 || data@.len() == 0,
            old(self).view().2 + data@.len() <= usize::MAX,
        ensures
            final(self).wf(),
            ({
                let (n, last, idx) = old(self).view();
                &&& final(self).view().0 == n
                &&& n > 0 ==> final(self).view().1 == (last + data@.len()) % n
                &&& final(self).view().2 == idx + data@.len()
                &&& r.0@.len() == n
                &&& r.1@.len() == n
                &&& forall|p: int|
                    0 <= p < n ==> #[trigger] phase_ok(data@, n, last, idx, p as nat, r.0@[p]@, r.1@[p] as nat)
            }),
    {
        let n = self.n_phases;
        let len = data.len();
        let mut outputs: Vec<Vec<T>> = Vec::new();
        let mut idxs: Vec<usize> = Vec::new();
        let mut p: usize = 0;
        while p < n
            invariant
                n == self.n_phases,
                self.n_phases == old(self).n_phases,
                self.last_symbol == old(self).last_symbol,
                self.sample_idx == old(self).sample_idx,
                len == data@.len(),
                self.last_symbol < n || n == 0,
                self.sample_idx + len <= usize::MAX,
                p <= n,
                outputs@.len() == p,
                idxs@.len() == p,
                forall|q: int|
                    0 <= q < p ==> #[trigger] phase_ok(
                        data@,
                        n as nat,
                        self.last_symbol as nat,
                        self.sample_idx as nat,
                        q as nat,
                        outputs@[q]@,
                        idxs@[q] as nat,
                    ),
            decreases n - p,
        {
            let first: usize = ((p as u128 + n as u128 - self.last_symbol as u128) % n as u128) as usize;
            let mut inner: Vec<T> = Vec::new();
            let mut j: u128 = first as u128;
            let mut last_index: usize = 0;
            assert(first as nat == first_of_phase(n as nat, self.last_symbol as nat, p as nat));
            assert(0 * (n as int) == 0);
            while j < len as u128
                invariant
                    n > 0,
                    len == data@.len(),
                    self.sample_idx + len <= usize::MAX,
                    first < n,
                    j == first + (inner@.len() as int) * (n as int),
                    first < len ==> j < len + n,
                    first >= len ==> inner@.len() == 0,
                    forall|k: int| 0 <= k < inner@.len() ==> inner@[k] == data@[first + k * n],
                    inner@.len() > 0 ==> last_index == self.sample_idx + first + (inner@.len() - 1)
                        * n,
                    inner@.len() == 0 ==> last_index == 0,
                decreases len + n - j,
            {
                let ghost k = inner@.len() as int;
                assert(j + n == first + (k + 1) * n) by (nonlinear_arith)
                    requires
                        j == first + k * n,
                ;
                inner.push(data[j as usize]);
                last_index = self.sample_idx + j as usize;
                j = j + n as u128;
            }
            proof {
                let c = count_of_phase(n as nat, self.last_symbol as nat, p as nat, len as nat);
                let k = inner@.len() as int;
                if first < len {
                    assert(k == (len - first + n - 1) / (n as int)) by (nonlinear_arith)
                        requires
                            j == first + k * n,
                            j >= len,
                            j < len + n,
                            n > 0,
                            k >= 0,
                            first < len,
                    ;
                }
                assert(k == c);
            }
            let ghost prev_out = outputs@;
            let ghost prev_idx = idxs@;
            outputs.push(inner);
            idxs.push(last_index);
            proof {
                assert forall|q: int| 0 <= q < p + 1 implies #[trigger] phase_ok(
                    data@,
                    n as nat,
                    self.last_symbol as nat,
                    self.sample_idx as nat,
                    q as nat,
                    outputs@[q]@,
                    idxs@[q] as nat,
                ) by {
                    if q < p {
                        assert(outputs@[q] == prev_out[q]);
                        assert(idxs@[q] == prev_idx[q]);
                    }
                }
            }
            p = p + 1;
        }
        if n > 0 {
            self.last_symbol = ((self.last_symbol as u128 + len as u128) % n as u128) as usize;
        }
        self.sample_idx = self.sample_idx + len;
        (outputs, idxs)
    }
}

} // verus!
