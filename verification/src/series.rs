//! The synthetic price-path generator: parameter validation and the
//! cumulative sum of caller-supplied increments.
//!
//! A full path of `length` elements starts at zero and adds one increment
//! per further element. The increments themselves are drawn outside the
//! library (independent Gaussian samples with the validated mean and
//! spread) and handed in as exact rationals.

use vstd::prelude::*;

use crate::rat::{q_add, q_fits, q_lt, q_zero, Q, Rat};
use crate::SimError;

verus! {

/// The exact value of the path at index `i`: zero at the start, then the
/// running sum of the increments.
pub open spec fn path_at(increments: Seq<Rat>, i: int) -> Q
    decreases i,
{
    if i <= 0 {
        q_zero()
    } else {
        q_add(path_at(increments, i - 1), increments[i - 1]@)
    }
}

/// Every partial sum up to index `n` stays inside the representable range.
pub open spec fn path_fits(increments: Seq<Rat>, n: int) -> bool {
    forall|j: int| 1 <= j <= n ==> q_fits(#[trigger] path_at(increments, j))
}

pub open spec fn increments_wf(increments: Seq<Rat>) -> bool {
    forall|i: int| 0 <= i < increments.len() ==> (#[trigger] increments[i]).wf()
}

/// Produces a synthetic price path as a discrete-time random walk: a
/// cumulative sum of independent Gaussian-distributed increments.
pub struct PriceSeriesGenerator;

impl PriceSeriesGenerator {
    /// Checks the generator's parameters: the requested length must be at
    /// least one and the spread of the increment distribution strictly
    /// positive (a degenerate or negative spread makes the distribution
    /// ill-defined).
    pub fn validate_params(length: usize, std_dev: &Rat) -> (r: Result<(), SimError>)
        requires
            std_dev.wf(),
        ensures
            r is Ok <==> (length >= 1 && q_lt(q_zero(), std_dev@)),
            r is Err ==> r->Err_0 == SimError::InvalidParameter,
    {
        if length >= 1 && std_dev.is_positive() {
            Ok(())
        } else {
            Err(SimError::InvalidParameter)
        }
    }

    /// Builds the path from its increments: the result has one more element
    /// than `increments`, starts at zero, and each further element is the
    /// previous element plus the corresponding increment. With no
    /// increments the path is exactly the single element zero.
    pub fn cumulative_path(increments: &Vec<Rat>) -> (r: Result<Vec<Rat>, SimError>)
        requires
            increments_wf(increments@),
        ensures
            r is Ok <==> path_fits(increments@, increments@.len() as int),
            (r matches Ok(path) ==> path@.len() == increments@.len() + 1 && forall|i: int|
                0 <= i <= increments@.len() ==> ((#[trigger] path@[i])@ == path_at(increments@, i)
                    && path@[i].wf())),
            r is Err ==> r->Err_0 == SimError::Overflow,
    {
        let n = increments.len();
        let mut path: Vec<Rat> = Vec::new();
        let mut acc = Rat::zero();
        path.push(acc);
        let mut i: usize = 0;
        while i < n
            invariant
                0 <= i <= n,
                n == increments@.len(),
                increments_wf(increments@),
                path@.len() == i + 1,
                acc.wf(),
                acc@ == path_at(increments@, i as int),
                forall|j: int|
                    0 <= j <= i ==> ((#[trigger] path@[j])@ == path_at(increments@, j)
                        && path@[j].wf()),
                path_fits(increments@, i as int),
            decreases n - i,
        {
            match acc.checked_add(&increments[i]) {
                Some(next) => {
                    acc = next;
                    path.push(acc);
                },
                None => {
                    proof {
                        assert(!q_fits(path_at(increments@, i + 1)));
                    }
                    return Err(SimError::Overflow);
                },
            }
            i = i + 1;
        }
        Ok(path)
    }
}

} // verus!
