//! What the signal generators share: the test of their parameters and the
//! loop over the sample indices.
//!
//! A generator takes real-valued parameters. Here such a parameter is read
//! from its binary encoding, which is enough to tell whether it is zero or
//! greater than zero, and whether two positive parameters are equal. The
//! values of the samples come from a function of the sample index that the
//! caller hands to [`synthesize`].
use crate::signal::SignalError;
use vstd::prelude::*;

verus! {

/// A double-precision parameter of a generator, held by its IEEE 754
/// binary64 encoding: one sign bit, eleven exponent bits, fifty-two fraction
/// bits, from the most significant bit down.
#[derive(Clone, Copy, Debug, PartialEq, Eq, Structural)]
pub struct Binary64 {
    pub bits: u64,
}

/// The sign bit alone: the encoding of negative zero.
pub const SIGN_BIT: u64 = 0x8000_0000_0000_0000;

/// Every exponent bit and nothing else: the encoding of positive infinity.
pub const INFINITY_BITS: u64 = 0x7ff0_0000_0000_0000;

impl Binary64 {
    /// The sign bit is set.
    pub open spec fn sign(self) -> bool {
        self.bits >> 63 == 1
    }

    /// The eleven exponent bits, as a number.
    pub open spec fn exponent(self) -> u64 {
        (self.bits >> 52) & 0x7ff
    }

    /// The fifty-two fraction bits, as a number.
    pub open spec fn fraction(self) -> u64 {
        self.bits & 0x000f_ffff_ffff_ffff
    }

    /// The encoding stands for no number: the exponent is all ones and the
    /// fraction is not zero.
    pub open spec fn is_nan(self) -> bool {
        self.exponent() == 0x7ff && self.fraction() != 0
    }

    /// The number is positive or negative zero: exponent and fraction are
    /// both zero.
    pub open spec fn spec_is_zero(self) -> bool {
        self.exponent() == 0 && self.fraction() == 0
    }

    /// The number is greater than zero: it is a number, not a zero, and its
    /// sign bit is clear. Positive infinity counts.
    pub open spec fn spec_is_positive(self) -> bool {
        !self.sign() && !self.is_nan() && !self.spec_is_zero()
    }

    /// The number with the given encoding.
    pub fn from_bits(bits: u64) -> (number: Binary64)
        ensures
            number.bits == bits,
    {
        Binary64 { bits }
    }

    /// Whether the number is positive or negative zero.
    #[verifier::when_used_as_spec(spec_is_zero)]
    pub fn is_zero(self) -> (zero: bool)
        ensures
            zero == self.spec_is_zero(),
    {
        let bits = self.bits;
        assert((bits == 0 || bits == 0x8000_0000_0000_0000u64) <==> ((bits >> 52) & 0x7ff == 0
            && bits & 0x000f_ffff_ffff_ffff == 0)) by (bit_vector);
        bits == 0 || bits == SIGN_BIT
    }

    /// Whether the number is greater than zero.
    #[verifier::when_used_as_spec(spec_is_positive)]
    pub fn is_positive(self) -> (positive: bool)
        ensures
            positive == self.spec_is_positive(),
    {
        let bits = self.bits;
        assert((0 < bits && bits <= 0x7ff0_0000_0000_0000u64) <==> (!(bits >> 63 == 1) && !((bits
            >> 52) & 0x7ff == 0x7ff && bits & 0x000f_ffff_ffff_ffff != 0) && !((bits >> 52) & 0x7ff
            == 0 && bits & 0x000f_ffff_ffff_ffff == 0))) by (bit_vector);
        0 < bits && bits <= INFINITY_BITS
    }
}

/// How a hyperbolic sweep is to be computed.
#[derive(Clone, Copy, Debug, PartialEq, Eq, Structural)]
pub enum HyperbolicPlan {
    /// The sweep lasts no time: the signal is empty.
    Empty,
    /// Both frequencies are the same: the phase grows as `f0 * t`.
    Constant,
    /// The frequencies differ: the phase follows the hyperbolic integral.
    Sweep,
}

/// What a hyperbolic sweep from `f0` to `f1` over `t1` seconds comes to.
/// A sweep of zero duration is empty whatever the frequencies are; any
/// other needs all three parameters greater than zero.
pub open spec fn hyperbolic_plan(f0: Binary64, f1: Binary64, t1: Binary64) -> Result<
    HyperbolicPlan,
    SignalError,
> {
    if t1.is_zero() {
        Ok(HyperbolicPlan::Empty)
    } else if !(f0.is_positive() && f1.is_positive() && t1.is_positive()) {
        Err(SignalError::InvalidParameter)
    } else if f0 == f1 {
        Ok(HyperbolicPlan::Constant)
    } else {
        Ok(HyperbolicPlan::Sweep)
    }
}

/// Decides how a hyperbolic sweep is computed, or that it cannot be.
pub fn plan_hyperbolic_sweep(f0: Binary64, f1: Binary64, t1: Binary64) -> (plan: Result<
    HyperbolicPlan,
    SignalError,
>)
    ensures
        plan == hyperbolic_plan(f0, f1, t1),
{
    if t1.is_zero() {
        Ok(HyperbolicPlan::Empty)
    } else if !(f0.is_positive() && f1.is_positive() && t1.is_positive()) {
        Err(SignalError::InvalidParameter)
    } else if f0.bits == f1.bits {
        Ok(HyperbolicPlan::Constant)
    } else {
        Ok(HyperbolicPlan::Sweep)
    }
}

/// Accepts the standard deviation of Gaussian noise if and only if it is
/// greater than zero.
pub fn check_noise_deviation(std: Binary64) -> (checked: Result<(), SignalError>)
    ensures
        checked == (if std.is_positive() {
            Ok::<(), SignalError>(())
        } else {
            Err::<(), SignalError>(SignalError::InvalidParameter)
        }),
{
    if std.is_positive() {
        Ok(())
    } else {
        Err(SignalError::InvalidParameter)
    }
}

/// `out` holds, for each sample index below its length, an outcome of
/// `sample_at` on that index.
pub open spec fn is_sampled_from<T, F: Fn(usize) -> T>(sample_at: F, out: Seq<T>) -> bool {
    forall|i: int|
        0 <= i < out.len() ==> call_ensures(sample_at, (i as usize,), #[trigger] out[i])
}

/// Fills a signal of `sample_num` samples: sample `i` is what `sample_at`
/// gives for `i`. The formula of a generator, or the source of random
/// numbers that noise is drawn from, comes in as `sample_at`.
pub fn synthesize<T, F: Fn(usize) -> T>(sample_num: usize, sample_at: F) -> (out: Vec<T>)
    requires
        forall|i: usize| i < sample_num ==> call_requires(sample_at, (i,)),
    ensures
        out@.len() == sample_num,
        is_sampled_from(sample_at, out@),
{
    let mut out: Vec<T> = Vec::new();
    let mut i: usize = 0;
    while i < sample_num
        invariant
            i <= sample_num,
            out@.len() == i,
            forall|j: usize| j < sample_num ==> call_requires(sample_at, (j,)),
            is_sampled_from(sample_at, out@),
        decreases sample_num - i,
    {
        let value = sample_at(i);
        out.push(value);
        i += 1;
    }
    out
}

} // verus!
