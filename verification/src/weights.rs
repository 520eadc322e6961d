//! Cost units charged for access to the schedule.

use vstd::prelude::*;

verus! {

/// `a * b`, held at `u64::MAX` where the product would pass it.
pub open spec fn saturating_mul(a: u64, b: u64) -> u64 {
    if a * b > u64::MAX {
        u64::MAX
    } else {
        (a * b) as u64
    }
}

/// `a + b`, held at `u64::MAX` where the sum would pass it.
pub open spec fn saturating_add(a: u64, b: u64) -> u64 {
    if a + b > u64::MAX {
        u64::MAX
    } else {
        (a + b) as u64
    }
}

/// A two-dimensional cost: computation time and proof size.
#[derive(Clone, Copy, Debug, PartialEq, Eq, Structural)]
pub struct Weight {
    pub ref_time: u64,
    pub proof_size: u64,
}

impl Weight {
    /// The sum of two costs, each dimension saturating on its own.
    pub open spec fn plus(self, rhs: Weight) -> Weight {
        Weight {
            ref_time: saturating_add(self.ref_time, rhs.ref_time),
            proof_size: saturating_add(self.proof_size, rhs.proof_size),
        }
    }

    /// No cost at all.
    pub fn zero() -> (cost: Weight)
        ensures
            cost == (Weight { ref_time: 0, proof_size: 0 }),
    {
        Weight { ref_time: 0, proof_size: 0 }
    }

    /// Calls `frame_support::weights::Weight::saturating_add`: each dimension of the
    /// result is the sum of that dimension in both costs, held at `u64::MAX`.
    #[verifier::external_body]
    pub(crate) fn saturating_add(self, rhs: Weight) -> (sum: Weight)
        ensures
            sum == self.plus(rhs),
    {
        let sum = frame_support::weights::Weight::from_parts(self.ref_time, self.proof_size)
            .saturating_add(
            frame_support::weights::Weight::from_parts(rhs.ref_time, rhs.proof_size),
        );
        Weight { ref_time: sum.ref_time(), proof_size: sum.proof_size() }
    }
}

/// The cost of one read and of one write of the backing database.
#[derive(Clone, Copy, Debug, PartialEq, Eq, Structural)]
pub struct RuntimeDbWeight {
    pub read: u64,
    pub write: u64,
}

impl RuntimeDbWeight {
    /// The cost of `r` reads: computation time only.
    pub open spec fn cost_of_reads(self, r: u64) -> Weight {
        Weight { ref_time: saturating_mul(self.read, r), proof_size: 0 }
    }

    /// The cost of `w` writes: computation time only.
    pub open spec fn cost_of_writes(self, w: u64) -> Weight {
        Weight { ref_time: saturating_mul(self.write, w), proof_size: 0 }
    }

    /// Calls `frame_support::weights::RuntimeDbWeight::reads`: the result's computation
    /// time is the read cost times `r`, held at `u64::MAX`, and its proof size is 0.
    #[verifier::external_body]
    pub(crate) fn reads(self, r: u64) -> (cost: Weight)
        ensures
            cost == self.cost_of_reads(r),
    {
        let cost = frame_support::weights::RuntimeDbWeight { read: self.read, write: self.write }
            .reads(r);
        Weight { ref_time: cost.ref_time(), proof_size: cost.proof_size() }
    }

    /// Calls `frame_support::weights::RuntimeDbWeight::writes`: the result's computation
    /// time is the write cost times `w`, held at `u64::MAX`, and its proof size is 0.
    #[verifier::external_body]
    pub(crate) fn writes(self, w: u64) -> (cost: Weight)
        ensures
            cost == self.cost_of_writes(w),
    {
        let cost = frame_support::weights::RuntimeDbWeight { read: self.read, write: self.write }
            .writes(w);
        Weight { ref_time: cost.ref_time(), proof_size: cost.proof_size() }
    }
}

} // verus!
