//! The dataset's shape: per-index class labels, their counts, and the
//! pairing of samples with labels.

use vstd::prelude::*;

use crate::params::ParamError;

verus! {

/// The class label of sample `i` in a dataset of `n` samples: the first
/// `n / 2` indices (integer division) form class 0, the "upper" moon; the
/// remaining indices form class 1, the "lower" moon.
pub open spec fn moon_label(i: int, n: int) -> int {
    if i < n / 2 {
        0
    } else {
        1
    }
}

/// How many entries of `s` equal `v`.
pub open spec fn count_label(s: Seq<i32>, v: i32) -> int
    decreases s.len(),
{
    if s.len() == 0 {
        0
    } else {
        count_label(s.drop_last(), v) + (if s.last() == v {
            1int
        } else {
            0int
        })
    }
}

/// In a sequence that holds `0` strictly below index `k` and `1` from `k` on,
/// exactly `k` entries are `0` and the rest are `1`.
proof fn lemma_split_counts(s: Seq<i32>, k: int)
    requires
        0 <= k <= s.len(),
        forall|i: int| 0 <= i < s.len() ==> (#[trigger] s[i]) == (if i < k {
            0i32
        } else {
            1i32
        }),
    ensures
        count_label(s, 0) == k,
        count_label(s, 1) == s.len() - k,
    decreases s.len(),
{
    if s.len() == 0 {
    } else {
        let t = s.drop_last();
        if k == s.len() {
            lemma_split_counts(t, k - 1);
        } else {
            lemma_split_counts(t, k);
        }
    }
}

/// Of `n` labels assigned by `moon_label`, exactly `n / 2` are class 0 and
/// the remaining `n - n / 2` are class 1.
pub proof fn lemma_moon_label_counts(s: Seq<i32>, n: int)
    requires
        n >= 0,
        s.len() == n,
        forall|i: int| 0 <= i < n ==> (#[trigger] s[i]) as int == moon_label(i, n),
    ensures
        count_label(s, 0) == n / 2,
        count_label(s, 1) == n - n / 2,
{
    lemma_split_counts(s, n / 2);
}

/// Builds the label sequence for `n` samples: `moon_label` at every index.
pub fn moon_labels(n: usize) -> (r: Vec<i32>)
    ensures
        r.len() == n,
        forall|i: int| 0 <= i < n ==> (#[trigger] r[i]) as int == moon_label(i, n as int),
{
    let half: usize = n / 2;
    let mut r: Vec<i32> = Vec::new();
    let mut i: usize = 0;
    while i < n
        invariant
            half == n as int / 2,
            i <= n,
            r.len() == i,
            forall|j: int| 0 <= j < i ==> (#[trigger] r[j]) as int == moon_label(j, n as int),
        decreases n - i,
    {
        if i < half {
            r.push(0);
        } else {
            r.push(1);
        }
        i = i + 1;
    }
    r
}

/// A complete two-moons dataset: one coordinate pair per sample, each
/// coordinate carried as the bit pattern of a 32-bit IEEE-754 value, and one
/// class label per sample.
pub struct Dataset {
    /// The sample coordinates `(x, y)`, each as a 32-bit IEEE-754 bit pattern.
    pub samples: Vec<(u32, u32)>,
    /// The class label of each sample, `0` or `1`, index for index.
    pub labels: Vec<i32>,
}

impl Dataset {
    /// The dataset invariant: at least two samples, one label per sample,
    /// and each label determined by its index through `moon_label`.
    pub open spec fn wf(self) -> bool {
        &&& self.labels.len() == self.samples.len()
        &&& self.samples.len() >= 2
        &&& forall|i: int|
            0 <= i < self.labels.len() ==> (#[trigger] self.labels[i]) as int == moon_label(
                i,
                self.samples.len() as int,
            )
    }

    /// Pairs the given samples with their class labels. Fails if and only if
    /// fewer than two samples are given; on success the samples are kept
    /// unchanged and the labels follow `moon_label`.
    pub fn assemble(samples: Vec<(u32, u32)>) -> (r: Result<Dataset, ParamError>)
        ensures
            match r {
                Ok(d) => samples.len() >= 2 && d.wf() && d.samples == samples,
                Err(e) => samples.len() < 2 && e == ParamError::CountTooSmall,
            },
    {
        if samples.len() < 2 {
            return Err(ParamError::CountTooSmall);
        }
        let labels: Vec<i32> = moon_labels(samples.len());
        Ok(Dataset { samples, labels })
    }

    /// The sizes of the two classes: of `n` samples, exactly `n / 2` carry
    /// label 0 and the remaining `n - n / 2` carry label 1 — and those are
    /// the actual counts in the label sequence.
    pub fn class_counts(&self) -> (r: (usize, usize))
        requires
            self.wf(),
        ensures
            r.0 as int == count_label(self.labels@, 0),
            r.1 as int == count_label(self.labels@, 1),
            r.0 as int == self.samples.len() as int / 2,
            r.1 as int == self.samples.len() - self.samples.len() as int / 2,
    {
        proof {
            lemma_moon_label_counts(self.labels@, self.samples.len() as int);
        }
        let half: usize = self.samples.len() / 2;
        (half, self.samples.len() - half)
    }
}

} // verus!
