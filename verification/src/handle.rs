//! Thread-safe references to isolates.

use crate::annex::{AnnexArc, MAX_REFERENCES};
use crate::command::Command;
use crate::isolate::{Isolate, Teardown};
use crate::locker::{Locker, Locking};
use vstd::prelude::*;

verus! {

/// A thread-safe reference-counted handle for an [`Isolate`]. To enter an
/// isolate, use [`IsolateHandle::lock`]. When all references of this kind have
/// been dropped, the isolate is finally disposed.
///
/// A handle is cloned by [`IsolateHandle::clone`] and dropped by
/// [`IsolateHandle::drop`], which keep the count.
pub struct IsolateHandle {
    annex: AnnexArc,
}

impl IsolateHandle {
    /// The isolate that the handle refers to.
    pub closed spec fn isolate(&self) -> usize {
        self.annex.isolate()
    }

    /// Creates a new handle from an existing isolate, which must have an
    /// annex.
    pub fn new<V, M>(isolate: &mut Isolate<V, M>) -> (handle: Self)
        requires
            old(isolate).wf(),
            old(isolate)@.annex is Some,
            old(isolate)@.annex->0.handles < MAX_REFERENCES,
        ensures
            handle.isolate() == old(isolate)@.address,
            final(isolate).wf(),
            final(isolate)@ == old(isolate)@.with_annex(old(isolate)@.annex->0.with_handle()),
    {
        IsolateHandle { annex: isolate.get_annex_arc() }
    }

    /// One more handle for the same isolate.
    pub fn clone<V, M>(&self, isolate: &mut Isolate<V, M>) -> (handle: Self)
        requires
            old(isolate).wf(),
            old(isolate)@.annex is Some,
            old(isolate)@.annex->0.handles < MAX_REFERENCES,
            self.isolate() == old(isolate)@.address,
        ensures
            handle.isolate() == self.isolate(),
            final(isolate).wf(),
            final(isolate)@ == old(isolate)@.with_annex(old(isolate)@.annex->0.with_handle()),
    {
        IsolateHandle::new(isolate)
    }

    /// Gives the handle up. The isolate is torn down if it was the last
    /// reference; it must not be entered then.
    pub fn drop<V, M>(self, isolate: &mut Isolate<V, M>) -> (teardown: Option<Teardown<V, M>>)
        requires
            old(isolate).wf(),
            old(isolate)@.annex is Some,
            self.isolate() == old(isolate)@.address,
            old(isolate)@.annex->0.handles > 0,
            old(isolate)@.annex->0.references() == 1 ==> old(isolate)@.entries == 0,
        ensures
            final(isolate).wf(),
            final(isolate)@ == old(isolate)@.with_annex(
                old(isolate)@.annex->0.without_handle(),
            ).settled(),
            old(isolate)@.with_annex(old(isolate)@.annex->0.without_handle()).settles_as(teardown),
            ({
                let annex = old(isolate)@.annex->0;
                let dispose = Command::Dispose { isolate: old(isolate)@.address };
                &&& teardown is Some <==> annex.handles == 1 && annex.lockers == 0 && !annex.owned
                &&& teardown is Some <==> final(isolate)@.annex is None
                &&& teardown matches Some(t) ==> {
                    &&& t.before@.len() == annex.queue.len() + 1
                    &&& t.create_param_allocations == annex.allocations
                    &&& t.finalizer_map == annex.finalizer_map
                    &&& t.after@.last() == dispose <==> annex.dispose_on_drop
                }
                &&& final(isolate)@.disposed <==> teardown is Some && teardown->0.after@.last()
                    == dispose
            }),
    {
        isolate.release_annex_arc(self.annex)
    }

    /// The address of the isolate.
    pub fn get_isolate_ptr(&self) -> (isolate: usize)
        ensures
            isolate == self.isolate(),
    {
        self.annex.get_isolate_ptr()
    }

    /// Creates an owned locker from the isolate, used for new isolates. See
    /// [`Locker::new`].
    pub fn lock_as_owned<V, M>(&mut self, isolate: &mut Isolate<V, M>) -> (r: (
        Locking,
        Command,
    ))
        requires
            old(isolate).wf(),
            old(isolate)@.can_lock(),
            old(self).isolate() == old(isolate)@.address,
        ensures
            *final(self) == *old(self),
            r.0.isolate() == old(self).isolate(),
            r.1 == (Command::LockerConstruct { isolate: old(isolate)@.address }),
            final(isolate).wf(),
            final(isolate)@ == old(isolate)@.locking(),
    {
        Locker::new(isolate)
    }

    /// Makes a new [`Locker`] for the isolate. While locked, the embedder is
    /// free to interact with the isolate on the current thread. See
    /// [`Locker::new`].
    pub fn lock<V, M>(&mut self, isolate: &mut Isolate<V, M>) -> (r: (Locking, Command))
        requires
            old(isolate).wf(),
            old(isolate)@.can_lock(),
            old(self).isolate() == old(isolate)@.address,
        ensures
            *final(self) == *old(self),
            r.0.isolate() == old(self).isolate(),
            r.1 == (Command::LockerConstruct { isolate: old(isolate)@.address }),
            final(isolate).wf(),
            final(isolate)@ == old(isolate)@.locking(),
    {
        Locker::new(isolate)
    }

    /// Asks whether this isolate is in use. True if at least one thread entered
    /// this isolate.
    pub fn is_in_use(&self) -> (command: Command)
        ensures
            command == (Command::IsInUse { isolate: self.isolate() }),
    {
        Command::IsInUse { isolate: self.get_isolate_ptr() }
    }

    /// Asks whether or not the isolate is alive and locked by the current
    /// thread. See [`Locker::is_locked`].
    pub fn is_locked(&self) -> (command: Command)
        ensures
            command == (Command::LockerIsLocked { isolate: self.isolate() }),
    {
        Locker::is_locked(self.get_isolate_ptr())
    }

    /// Forcefully terminate the current thread of JavaScript execution in the
    /// given isolate.
    ///
    /// This method can be used by any thread even if that thread has not
    /// acquired the lock with a [`Locker`].
    pub fn terminate_execution(&self) -> (command: Command)
        ensures
            command == (Command::TerminateExecution { isolate: self.isolate() }),
    {
        Command::TerminateExecution { isolate: self.get_isolate_ptr() }
    }

    /// Resume execution capability in the given isolate, whose execution was
    /// previously forcefully terminated using
    /// [`IsolateHandle::terminate_execution`].
    ///
    /// When execution is forcefully terminated, the isolate can not resume
    /// execution until all JavaScript frames have propagated the uncatchable
    /// exception which is generated. This method allows the program embedding
    /// the engine to handle the termination event and resume execution
    /// capability, even if JavaScript frames remain on the stack.
    ///
    /// This method can be used by any thread even if that thread has not
    /// acquired the lock with a [`Locker`].
    pub fn cancel_terminate_execution(&self) -> (command: Command)
        ensures
            command == (Command::CancelTerminateExecution { isolate: self.isolate() }),
    {
        Command::CancelTerminateExecution { isolate: self.get_isolate_ptr() }
    }

    /// Asks whether JavaScript execution is currently terminating because of a
    /// call to [`IsolateHandle::terminate_execution`]. In that case there are
    /// still JavaScript frames on the stack and the termination exception is
    /// still active.
    pub fn is_execution_terminating(&self) -> (command: Command)
        ensures
            command == (Command::IsExecutionTerminating { isolate: self.isolate() }),
    {
        Command::IsExecutionTerminating { isolate: self.get_isolate_ptr() }
    }

    /// Request the engine to interrupt long running JavaScript code and invoke
    /// the given callback passing the given data to it. After the callback
    /// returns control will be returned to the JavaScript code. There may be a
    /// number of interrupt requests in flight. Can be called from another
    /// thread without acquiring a [`Locker`]. The registered callback must not
    /// reenter the interrupted isolate.
    pub fn request_interrupt(&self, callback: usize, data: usize) -> (command: Command)
        ensures
            command == (Command::RequestInterrupt { isolate: self.isolate(), callback, data }),
    {
        Command::RequestInterrupt { isolate: self.get_isolate_ptr(), callback, data }
    }

    /// Discards all thread-specific data for the isolate. Should be used if a
    /// thread is terminating and it has used an isolate that will outlive the
    /// thread -- all thread-specific data for an isolate is discarded when an
    /// isolate is disposed so this call is pointless if an isolate is about to
    /// be disposed.
    pub fn discard_thread_specific_metadata(&mut self) -> (command: Command)
        ensures
            command == (Command::DiscardThreadSpecificMetadata { isolate: old(self).isolate() }),
            *final(self) == *old(self),
    {
        Command::DiscardThreadSpecificMetadata { isolate: self.get_isolate_ptr() }
    }
}

} // verus!
