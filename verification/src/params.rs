//! Initial configuration of a new isolate.

use vstd::prelude::*;

verus! {

/// The engine's own form of the parameters: a block at some address. The null
/// address stands for the engine's defaults.
#[derive(Debug, Clone, Copy, PartialEq, Eq, Structural)]
pub struct RawCreateParams {
    pub block: usize,
}

/// Initial configuration parameters for a new isolate, with what has to stay
/// allocated for as long as the isolate uses them.
pub struct CreateParams<V> {
    raw: RawCreateParams,
    allocations: Option<V>,
}

impl<V> Default for CreateParams<V> {
    /// The engine's defaults, which need no allocation.
    fn default() -> (params: Self)
        ensures
            params.raw_params() == (RawCreateParams { block: 0 }),
            params.owned() is None,
    {
        CreateParams { raw: RawCreateParams { block: 0 }, allocations: None }
    }
}

impl<V> CreateParams<V> {
    /// The parameters in the engine's form.
    pub closed spec fn raw_params(self) -> RawCreateParams {
        self.raw
    }

    /// What the parameters keep allocated.
    pub closed spec fn owned(self) -> Option<V> {
        self.allocations
    }

    /// Parameters from the engine's form of them and what it refers to.
    pub fn from_parts(raw: RawCreateParams, allocations: Option<V>) -> (params: Self)
        ensures
            params.raw_params() == raw,
            params.owned() == allocations,
    {
        CreateParams { raw, allocations }
    }

    /// Takes the parameters apart: the form that goes to the engine, and what
    /// has to outlive the engine's use of it.
    pub fn finalize(self) -> (parts: (RawCreateParams, Option<V>))
        ensures
            parts.0 == self.raw_params(),
            parts.1 == self.owned(),
    {
        (self.raw, self.allocations)
    }
}

} // verus!
