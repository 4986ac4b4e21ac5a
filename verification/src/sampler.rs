//! Samplers: the policies that decide which new traces are recorded.

use vstd::prelude::*;

verus! {

/// Decides, for the operation that would begin a new trace, whether that trace
/// is recorded.
///
/// A sampler is free in what it decides. Nothing is assumed of it.
pub trait Sampler {
    /// Decides for the operation of the given name.
    fn is_sampled(&self, operation_name: &str) -> bool;
}

/// Records every trace.
#[derive(Debug, Clone, Copy)]
pub struct AllSampler;

impl Sampler for AllSampler {
    fn is_sampled(&self, operation_name: &str) -> (r: bool)
        ensures
            r,
    {
        true
    }
}

/// Records no trace.
#[derive(Debug, Clone, Copy)]
pub struct NullSampler;

impl Sampler for NullSampler {
    fn is_sampled(&self, operation_name: &str) -> (r: bool)
        ensures
            !r,
    {
        false
    }
}

} // verus!
