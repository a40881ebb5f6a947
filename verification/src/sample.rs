//! One price sample, as the facts that the alert logic reads.
//!
//! Prices, rates and thresholds are real-valued. The caller compares them and
//! hands over the outcomes of those comparisons; everything that is decided
//! from the outcomes is decided here.

use vstd::prelude::*;

verus! {

/// The comparisons made on one price sample of one source.
#[derive(Clone, Copy, Debug, PartialEq, Eq, Structural)]
pub struct Observation {
    /// The reference rate is finite and greater than zero.
    pub reference_valid: bool,
    /// The market price is finite and greater than zero.
    pub price_valid: bool,
    /// The premium computed from the two is finite.
    pub premium_finite: bool,
    /// The premium is strictly less than the threshold.
    pub below_threshold: bool,
    /// The premium is strictly greater than the threshold plus the reset buffer.
    pub above_reset: bool,
}

/// Where a valid premium lies relative to the threshold and the reset band.
#[derive(Clone, Copy, Debug, PartialEq, Eq, Structural)]
pub enum Sample {
    /// Strictly under the threshold.
    Below,
    /// At or over the threshold, but not over the threshold plus the buffer.
    Holding,
    /// Strictly over the threshold plus the buffer.
    Recovered,
}

/// Why a sample cannot be turned into a premium.
#[derive(Clone, Copy, Debug, PartialEq, Eq, Structural)]
pub enum SampleError {
    /// The reference rate is zero, negative or not finite.
    InvalidReference,
    /// The market price is zero, negative or not finite.
    InvalidPrice,
    /// Both inputs are valid, yet their spread is not a finite number.
    NonFinitePremium,
}

/// The class of an observation. The reference rate is judged first, then the
/// price, then the premium; a premium under the threshold is `Below` whatever
/// the reset comparison says.
pub open spec fn classify_spec(o: Observation) -> Result<Sample, SampleError> {
    if !o.reference_valid {
        Err(SampleError::InvalidReference)
    } else if !o.price_valid {
        Err(SampleError::InvalidPrice)
    } else if !o.premium_finite {
        Err(SampleError::NonFinitePremium)
    } else if o.below_threshold {
        Ok(Sample::Below)
    } else if o.above_reset {
        Ok(Sample::Recovered)
    } else {
        Ok(Sample::Holding)
    }
}

/// Classifies one observation, or says which input makes it unusable.
pub fn classify(o: &Observation) -> (r: Result<Sample, SampleError>)
    ensures
        r == classify_spec(*o),
{
    if !o.reference_valid {
        Err(SampleError::InvalidReference)
    } else if !o.price_valid {
        Err(SampleError::InvalidPrice)
    } else if !o.premium_finite {
        Err(SampleError::NonFinitePremium)
    } else if o.below_threshold {
        Ok(Sample::Below)
    } else if o.above_reset {
        Ok(Sample::Recovered)
    } else {
        Ok(Sample::Holding)
    }
}

} // verus!
