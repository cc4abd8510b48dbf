//! Drawing an index at random, with a weight for each index.

use vstd::prelude::*;
use vstd::string::*;

verus! {

/// Why no index can be drawn from some weights.
#[derive(Debug, Clone, Copy, PartialEq, Eq, Structural)]
pub enum WeightError {
    /// There are no weights.
    InvalidInput,
    /// A weight is not a number that can be a weight.
    InvalidWeight,
    /// All weights are zero.
    InsufficientNonZero,
    /// The sum of the weights is more than a weight can hold.
    Overflow,
    /// A reason that this library has no name for.
    Unknown,
}

impl WeightError {
    /// What is wrong with the weights, in words.
    pub open spec fn spec_message(self) -> Seq<char> {
        match self {
            WeightError::InvalidInput => "Weights sequence is empty/too long/unordered"@,
            WeightError::InvalidWeight => "A weight is negative, too large or not a valid number"@,
            WeightError::InsufficientNonZero => "Not enough weights > zero"@,
            WeightError::Overflow => "Overflow when summing weights"@,
            WeightError::Unknown => "Unknown error with the weights"@,
        }
    }

    /// What is wrong with the weights, in words.
    pub fn message(&self) -> (r: &'static str)
        ensures
            r@ == self.spec_message(),
    {
        match self {
            WeightError::InvalidInput => "Weights sequence is empty/too long/unordered",
            WeightError::InvalidWeight => "A weight is negative, too large or not a valid number",
            WeightError::InsufficientNonZero => "Not enough weights > zero",
            WeightError::Overflow => "Overflow when summing weights",
            WeightError::Unknown => "Unknown error with the weights",
        }
    }

    /// The same as a `String`.
    pub fn to_string(&self) -> (r: String)
        ensures
            r@ == self.spec_message(),
    {
        String::from_str(self.message())
    }
}

/// The sum of some weights.
pub open spec fn weights_total(weights: Seq<u8>) -> int
    decreases weights.len(),
{
    if weights.len() == 0 {
        0
    } else {
        weights_total(weights.drop_last()) + weights.last()
    }
}

/// Why no index can be drawn from `weights`, if none can: there is no
/// weight, or their sum is more than 255, or it is zero.
pub open spec fn weights_error(weights: Seq<u8>) -> Option<WeightError> {
    if weights.len() == 0 {
        Some(WeightError::InvalidInput)
    } else if weights_total(weights) > 255 {
        Some(WeightError::Overflow)
    } else if weights_total(weights) == 0 {
        Some(WeightError::InsufficientNonZero)
    } else {
        None
    }
}

/// Whether `index` can be drawn from `weights`: an index can be drawn at all,
/// and this one has a weight above zero.
pub open spec fn can_draw(weights: Seq<u8>, index: int) -> bool {
    &&& weights_error(weights) is None
    &&& 0 <= index < weights.len()
    &&& weights[index] > 0
}

/// The generator of random numbers of the current thread.
#[verifier::external_type_specification]
#[verifier::external_body]
pub struct ExThreadRng(rand::rngs::ThreadRng);

/// Calls `rand::rng`, which hands out the generator of the current thread.
#[verifier::external_body]
pub(crate) fn thread_rng() -> (r: rand::rngs::ThreadRng) {
    rand::rng()
}

/// Makes a `rand::distr::weighted::WeightedIndex` of `weights` and draws one
/// index from it.
///
/// `WeightedIndex::new` refuses an empty list, a sum of weights that does not
/// fit the weights' type, here `u8`, and a sum of zero, and tests them in
/// this order. Sampling draws an index of the list and, as the crate's
/// documentation promises, never one whose weight is zero. Which index comes
/// is left open.
#[verifier::external_body]
pub(crate) fn sample_weighted<const N: usize>(
    weights: &[u8; N],
    rng: &mut rand::rngs::ThreadRng,
) -> (r: Result<usize, WeightError>)
    ensures
        match r {
            Ok(index) => can_draw(weights@, index as int),
            Err(e) => weights_error(weights@) == Some(e),
        },
{
    match rand::distr::weighted::WeightedIndex::new(weights) {
        Ok(dist) => Ok(rand::distr::Distribution::sample(&dist, rng)),
        Err(rand::distr::weighted::Error::InvalidInput) => Err(WeightError::InvalidInput),
        Err(rand::distr::weighted::Error::InvalidWeight) => Err(WeightError::InvalidWeight),
        Err(rand::distr::weighted::Error::InsufficientNonZero) => Err(
            WeightError::InsufficientNonZero,
        ),
        Err(rand::distr::weighted::Error::Overflow) => Err(WeightError::Overflow),
        Err(_) => Err(WeightError::Unknown),
    }
}

} // verus!
