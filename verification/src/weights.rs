use vstd::prelude::*;

verus! {

/// A two-dimensional weight: reference time and proof size, as the runtime meters them.
#[derive(Clone, Copy, Debug, PartialEq, Eq, Structural)]
pub struct Weight {
    pub ref_time: u64,
    pub proof_size: u64,
}

/// Adds two weights with the `Add` impl (`+`) of `frame_support::weights::Weight`
/// (that is `sp_weights::Weight`), building them with
/// `Weight::from_parts` and reading the sum back with `ref_time()` and `proof_size()`.
/// Claimed: the sum's reference time and proof size are the sums of the parts, as
/// the impl adds each part with the integer `+`; inputs on which a part would
/// overflow (where that `+` panics) are left out.
#[verifier::external_body]
fn sp_weight_add(a: Weight, b: Weight) -> (sum: Weight)
    requires
        a.ref_time + b.ref_time <= u64::MAX,
        a.proof_size + b.proof_size <= u64::MAX,
    ensures
        sum.ref_time == a.ref_time + b.ref_time,
        sum.proof_size == a.proof_size + b.proof_size,
{
    let total = frame_support::weights::Weight::from_parts(a.ref_time, a.proof_size)
        + frame_support::weights::Weight::from_parts(b.ref_time, b.proof_size);
    Weight { ref_time: total.ref_time(), proof_size: total.proof_size() }
}

impl Weight {
    /// The component-wise sum of two weights.
    pub fn add(self, other: Weight) -> (sum: Weight)
        requires
            self.ref_time + other.ref_time <= u64::MAX,
            self.proof_size + other.proof_size <= u64::MAX,
        ensures
            sum.ref_time == self.ref_time + other.ref_time,
            sum.proof_size == self.proof_size + other.proof_size,
    {
        sp_weight_add(self, other)
    }
}

} // verus!
