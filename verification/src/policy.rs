//! The enumerations that cross the engine's C interface, with the numbers
//! that stand for them there.

use vstd::prelude::*;

verus! {

/// Policy for running microtasks:
///   - explicit: microtasks are invoked by
///     [`Isolate::perform_microtask_checkpoint`](crate::isolate::Isolate::perform_microtask_checkpoint);
///   - auto: microtasks are invoked when the script call depth decrements to
///     zero.
///
/// The engine's scoped policy (number 1) has no counterpart here.
#[derive(Debug, Clone, Copy, PartialEq, Eq, Structural)]
pub enum MicrotasksPolicy {
    Explicit,
    Auto,
}

impl MicrotasksPolicy {
    /// The engine's number for the policy.
    pub open spec fn number(self) -> u32 {
        match self {
            MicrotasksPolicy::Explicit => 0,
            MicrotasksPolicy::Auto => 2,
        }
    }

    /// The engine's number for the policy.
    pub fn to_raw(self) -> (raw: u32)
        ensures
            raw == self.number(),
    {
        match self {
            MicrotasksPolicy::Explicit => 0,
            MicrotasksPolicy::Auto => 2,
        }
    }

    /// The policy with the given number; `None` for a number that stands for
    /// none of them.
    pub fn from_raw(raw: u32) -> (policy: Option<MicrotasksPolicy>)
        ensures
            policy matches Some(p) ==> p.number() == raw,
            policy is None <==> raw != 0 && raw != 2,
            raw == 0 ==> policy == Some(MicrotasksPolicy::Explicit),
            raw == 2 ==> policy == Some(MicrotasksPolicy::Auto),
    {
        if raw == 0 {
            Some(MicrotasksPolicy::Explicit)
        } else if raw == 2 {
            Some(MicrotasksPolicy::Auto)
        } else {
            None
        }
    }
}

/// What a promise hook is called for.
///
/// `Init`: a new promise is created. When it is created as part of a chain, by
/// `Promise.then` or as an intermediate promise of `Promise.{race, all}` or of
/// an awaiting async function, the parent promise is passed along, otherwise
/// undefined.
///
/// `Resolve`: at the beginning of a resolve or reject function.
///
/// `Before`: at the beginning of a promise reaction job.
///
/// `After`: right at the end of a promise reaction job.
#[derive(Debug, Clone, Copy, PartialEq, Eq, Structural)]
pub enum PromiseHookType {
    Init,
    Resolve,
    Before,
    After,
}

impl PromiseHookType {
    /// The engine's number for the hook type.
    pub open spec fn number(self) -> u32 {
        match self {
            PromiseHookType::Init => 0,
            PromiseHookType::Resolve => 1,
            PromiseHookType::Before => 2,
            PromiseHookType::After => 3,
        }
    }

    /// The engine's number for the hook type.
    pub fn to_raw(self) -> (raw: u32)
        ensures
            raw == self.number(),
    {
        match self {
            PromiseHookType::Init => 0,
            PromiseHookType::Resolve => 1,
            PromiseHookType::Before => 2,
            PromiseHookType::After => 3,
        }
    }

    /// The hook type with the given number; `None` for a number that stands
    /// for none of them.
    pub fn from_raw(raw: u32) -> (kind: Option<PromiseHookType>)
        ensures
            kind matches Some(k) ==> k.number() == raw,
            kind is None <==> raw > 3,
            raw == 0 ==> kind == Some(PromiseHookType::Init),
            raw == 1 ==> kind == Some(PromiseHookType::Resolve),
            raw == 2 ==> kind == Some(PromiseHookType::Before),
            raw == 3 ==> kind == Some(PromiseHookType::After),
    {
        if raw == 0 {
            Some(PromiseHookType::Init)
        } else if raw == 1 {
            Some(PromiseHookType::Resolve)
        } else if raw == 2 {
            Some(PromiseHookType::Before)
        } else if raw == 3 {
            Some(PromiseHookType::After)
        } else {
            None
        }
    }
}

/// The outcome of an asynchronous WebAssembly compilation.
#[derive(Debug, Clone, Copy, PartialEq, Eq, Structural)]
pub enum WasmAsyncSuccess {
    Success,
    Fail,
}

impl WasmAsyncSuccess {
    /// The engine's number for the outcome.
    pub open spec fn number(self) -> u32 {
        match self {
            WasmAsyncSuccess::Success => 0,
            WasmAsyncSuccess::Fail => 1,
        }
    }

    /// The engine's number for the outcome.
    pub fn to_raw(self) -> (raw: u32)
        ensures
            raw == self.number(),
    {
        match self {
            WasmAsyncSuccess::Success => 0,
            WasmAsyncSuccess::Fail => 1,
        }
    }

    /// The outcome with the given number; `None` for a number that stands for
    /// none of them.
    pub fn from_raw(raw: u32) -> (outcome: Option<WasmAsyncSuccess>)
        ensures
            outcome matches Some(o) ==> o.number() == raw,
            outcome is None <==> raw > 1,
            raw == 0 ==> outcome == Some(WasmAsyncSuccess::Success),
            raw == 1 ==> outcome == Some(WasmAsyncSuccess::Fail),
    {
        if raw == 0 {
            Some(WasmAsyncSuccess::Success)
        } else if raw == 1 {
            Some(WasmAsyncSuccess::Fail)
        } else {
            None
        }
    }
}

} // verus!
