//! What the host side asks of the engine.
//!
//! The host state of an isolate lives in this crate; the isolate itself lives
//! in the engine. An operation on an isolate updates the host state and hands
//! back the commands that the engine still has to carry out, in that order.
//! Addresses (of isolates, callbacks, handle data) are plain words; zero is the
//! null address.

use crate::policy::MicrotasksPolicy;
use vstd::prelude::*;

verus! {

/// One request to the engine, or to the scope and handle machinery around it.
#[derive(Debug, Clone, Copy, PartialEq, Eq, Structural)]
pub enum Command {
    /// Stop unless the engine has been initialized.
    AssertInitialized,
    /// Create an isolate from the parameter block at the given address. The
    /// answer is described by [`Created`].
    New { params: usize },
    /// Free the isolate.
    Dispose { isolate: usize },
    /// Store a word in one of the isolate's data slots.
    SetData { isolate: usize, slot: u32, data: usize },
    /// Make the isolate the entered one of the current thread.
    Enter { isolate: usize },
    /// Restore the isolate that was entered before this one.
    Exit { isolate: usize },
    ClearKeptObjects { isolate: usize },
    LowMemoryNotification { isolate: usize },
    /// The answer is a [`HeapStatistics`](crate::heap::HeapStatistics).
    GetHeapStatistics { isolate: usize },
    SetCaptureStackTraceForUncaughtExceptions { isolate: usize, capture: bool, frame_limit: i32 },
    /// The answer is a boolean.
    AddMessageListener { isolate: usize, callback: usize },
    AddNearHeapLimitCallback { isolate: usize, callback: usize, data: usize },
    RemoveNearHeapLimitCallback { isolate: usize, callback: usize, heap_limit: usize },
    SetOomErrorHandler { isolate: usize, callback: usize },
    /// The answer is the adjusted amount.
    AdjustAmountOfExternalAllocatedMemory { isolate: usize, change_in_bytes: i64 },
    SetPrepareStackTraceCallback { isolate: usize, callback: usize },
    SetPromiseHook { isolate: usize, hook: usize },
    SetPromiseRejectCallback { isolate: usize, callback: usize },
    SetWasmAsyncResolvePromiseCallback { isolate: usize, callback: usize },
    SetHostInitializeImportMetaObjectCallback { isolate: usize, callback: usize },
    SetHostImportModuleDynamicallyCallback { isolate: usize, callback: usize },
    SetHostCreateShadowRealmContextCallback { isolate: usize, callback: usize },
    RequestInterrupt { isolate: usize, callback: usize, data: usize },
    /// The answer is a boolean.
    IsInUse { isolate: usize },
    DiscardThreadSpecificMetadata { isolate: usize },
    TerminateExecution { isolate: usize },
    /// The answer is a boolean.
    IsExecutionTerminating { isolate: usize },
    CancelTerminateExecution { isolate: usize },
    /// The answer is a number for [`MicrotasksPolicy::from_raw`].
    GetMicrotasksPolicy { isolate: usize },
    SetMicrotasksPolicy { isolate: usize, policy: MicrotasksPolicy },
    PerformMicrotaskCheckpoint { isolate: usize },
    EnqueueMicrotask { isolate: usize, function: usize },
    SetAllowAtomicsWait { isolate: usize, allow: bool },
    SetWasmStreamingCallback { isolate: usize, callback: usize },
    /// The answer is a boolean.
    HasPendingBackgroundTasks { isolate: usize },
    /// Hand the heap snapshot to `callback` chunk by chunk, along with `arg`.
    TakeHeapSnapshot { isolate: usize, callback: usize, arg: usize },
    /// Take the engine's lock on the isolate.
    LockerConstruct { isolate: usize },
    /// Give the lock back.
    LockerDestruct { isolate: usize },
    /// The answer is a boolean.
    LockerIsLocked { isolate: usize },
    /// Give up the lock for a while.
    UnlockerConstruct { isolate: usize },
    /// Take the lock again.
    UnlockerDestruct { isolate: usize },
    /// Set up the isolate's scope stack with a root scope.
    NewRootScope { isolate: usize },
    /// Leave every scope but the root.
    UnwindToRootScope { isolate: usize },
    /// Tear the scope stack down. There is no current scope afterwards.
    DropRootScope { isolate: usize },
    /// Free the handle data of a global handle.
    ResetGlobal { data: usize },
}

/// The engine's answer to [`Command::New`], with the place set aside for the
/// host's part of the isolate.
#[derive(Debug, Clone, Copy, PartialEq, Eq, Structural)]
pub struct Created {
    /// The address of the new isolate.
    pub isolate: usize,
    /// How many data slots the engine keeps for it.
    pub data_slots: u32,
    /// The address at which the engine's callbacks find the host state.
    pub annex: usize,
}

/// The commands that free the given handle data, one by one in order.
pub open spec fn resets(queue: Seq<usize>) -> Seq<Command> {
    queue.map_values(|data: usize| Command::ResetGlobal { data })
}

/// What a command does to the number of times its isolate is entered.
pub open spec fn entry_change(command: Command) -> int {
    match command {
        Command::Enter { .. } => 1,
        Command::Exit { .. } => -1,
        _ => 0,
    }
}

/// What a sequence of commands does to the number of times the isolate is
/// entered.
pub open spec fn entry_balance(commands: Seq<Command>) -> int
    decreases commands.len(),
{
    if commands.len() == 0 {
        0
    } else {
        entry_balance(commands.drop_last()) + entry_change(commands.last())
    }
}

} // verus!
