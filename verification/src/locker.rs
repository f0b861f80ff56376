//! Locking and unlocking isolates.

use crate::annex::MAX_REFERENCES;
use crate::command::{resets, Command};
use crate::isolate::{Isolate, IsolateState, Teardown};
use vstd::prelude::*;

verus! {

impl<V, M> IsolateState<V, M> {
    /// Whether one more locker can be counted.
    pub open spec fn can_lock(self) -> bool {
        self.annex matches Some(annex) && annex.lockers < MAX_REFERENCES
    }

    /// With one more locker, which waits for the engine's lock. It counts as a
    /// reference.
    pub open spec fn locking(self) -> Self {
        self.with_annex(self.annex->0.with_locker())
    }

    /// Whether a locker that has got the engine's lock can enter the isolate.
    pub open spec fn can_finish_lock(self) -> bool {
        &&& self.annex matches Some(annex) && annex.lockers > 0
        &&& self.entries < usize::MAX
    }

    /// Entered by a locker that has got the engine's lock. Nothing is left in
    /// the disposal queue.
    pub open spec fn locked(self) -> Self {
        self.with_annex(self.annex->0.drained()).entered()
    }

    /// The commands for a locker that has got the engine's lock.
    pub open spec fn lock_commands(self) -> Seq<Command> {
        resets(self.annex->0.queue) + seq![Command::Enter { isolate: self.address }]
    }

    /// Whether a locker can begin to let go of the isolate: the isolate is
    /// locked and entered.
    pub open spec fn can_leave(self) -> bool {
        &&& self.annex matches Some(annex) && annex.lockers > 0
        &&& self.entries > 0
    }

    /// Exited at the end of a critical section. The locker still counts.
    pub open spec fn left(self) -> Self {
        self.with_annex(self.annex->0.drained()).exited()
    }

    /// With one locker less, before it is seen whether that was the last
    /// reference.
    pub open spec fn releasing(self) -> Self {
        self.with_annex(self.annex->0.without_locker())
    }

    /// Whether a locker can stop counting: if this leaves no reference, the
    /// isolate is not entered.
    pub open spec fn can_release(self) -> bool {
        &&& self.annex matches Some(annex) && annex.lockers > 0
        &&& self.releasing().is_unreferenced() ==> self.entries == 0
    }

    /// Without the locker, and torn down if that was the last reference.
    pub open spec fn released(self) -> Self {
        self.releasing().settled()
    }

    /// The commands that undo a lock.
    pub open spec fn unlock_commands(self) -> Seq<Command> {
        seq![Command::UnwindToRootScope { isolate: self.address }] + resets(self.annex->0.queue)
            + seq![
            Command::Exit { isolate: self.address },
            Command::LockerDestruct { isolate: self.address },
        ]
    }

    /// Exited for the time of an unlocker.
    pub open spec fn suspended(self) -> Self {
        self.with_annex(self.annex->0.drained()).exited()
    }

    /// The commands that give the lock up for a while.
    pub open spec fn suspend_commands(self) -> Seq<Command> {
        resets(self.annex->0.queue) + seq![
            Command::Exit { isolate: self.address },
            Command::UnlockerConstruct { isolate: self.address },
        ]
    }

    /// Entered again after an unlocker.
    pub open spec fn resumed(self) -> Self {
        self.with_annex(self.annex->0.drained()).entered()
    }

    /// The commands for when the lock has been taken again.
    pub open spec fn resume_commands(self) -> Seq<Command> {
        resets(self.annex->0.queue) + seq![Command::Enter { isolate: self.address }]
    }
}

/// A scoped lock object. While it's active, i.e. between [`Locking::finish`] and
/// [`Locker::drop`], the current thread is allowed to use the locked isolate.
/// The engine guarantees that an isolate can be locked by at most one thread at
/// any time. In other words, the scope of a locker is a critical section.
///
/// A locker keeps its isolate.
#[derive(Debug)]
pub struct Locker {
    isolate: usize,
}

/// Gives the lock on an isolate up, from [`Unlocker::new`] to
/// [`Relocking::finish`].
#[derive(Debug)]
pub struct Unlocker {
    isolate: usize,
}

impl Locker {
    /// The isolate that is locked.
    pub closed spec fn isolate(&self) -> usize {
        self.isolate
    }

    /// Creates a locker for the isolate. The command takes the engine's lock,
    /// and may have to wait for it; then the locker comes from
    /// [`Locking::finish`]. From the beginning it keeps the isolate.
    pub fn new<V, M>(isolate: &mut Isolate<V, M>) -> (r: (Locking, Command))
        requires
            old(isolate).wf(),
            old(isolate)@.can_lock(),
        ensures
            r.0.isolate() == old(isolate)@.address,
            r.1 == (Command::LockerConstruct { isolate: old(isolate)@.address }),
            final(isolate).wf(),
            final(isolate)@ == old(isolate)@.locking(),
    {
        let locking = Locking { isolate: isolate.get_isolate_ptr() };
        isolate.begin_lock();
        let command = Command::LockerConstruct { isolate: locking.isolate };
        (locking, command)
    }

    /// The address of the isolate.
    pub fn get_isolate_ptr(&self) -> (isolate: usize)
        ensures
            isolate == self.isolate(),
    {
        self.isolate
    }

    /// Asks whether or not the locker for a given isolate is locked by the
    /// current thread.
    pub fn is_locked(isolate: usize) -> (command: Command)
        ensures
            command == (Command::LockerIsLocked { isolate }),
    {
        Command::LockerIsLocked { isolate }
    }

    /// Ends the critical section: clears the disposal queue, exits the isolate
    /// and gives the lock back. The isolate is kept until the commands have been
    /// carried out and [`Unlocking::finish`] is called.
    pub fn drop<V, M>(self, isolate: &mut Isolate<V, M>) -> (r: (Unlocking, Vec<Command>))
        requires
            old(isolate).wf(),
            old(isolate)@.can_leave(),
            self.isolate() == old(isolate)@.address,
        ensures
            r.0.isolate() == self.isolate(),
            r.1@ == old(isolate)@.unlock_commands(),
            r.1@.len() == old(isolate)@.annex->0.queue.len() + 3,
            r.1@[r.1@.len() - 2] == (Command::Exit { isolate: old(isolate)@.address }),
            r.1@.last() == (Command::LockerDestruct { isolate: old(isolate)@.address }),
            final(isolate).wf(),
            final(isolate)@ == old(isolate)@.left(),
    {
        let mut commands: Vec<Command> = Vec::new();
        commands.push(Command::UnwindToRootScope { isolate: self.isolate });
        // clear the disposal queue
        let mut resets = isolate.dispose_marked_handles();
        commands.append(&mut resets);
        commands.push(isolate.exit());
        commands.push(Command::LockerDestruct { isolate: self.isolate });
        assert(commands@ =~= old(isolate)@.unlock_commands());
        (Unlocking { isolate: self.isolate }, commands)
    }
}

/// A [`Locker`] to be, which waits for the engine's lock: it keeps the isolate
/// already.
#[derive(Debug)]
pub struct Locking {
    isolate: usize,
}

impl Locking {
    /// The isolate that is being locked.
    pub closed spec fn isolate(&self) -> usize {
        self.isolate
    }

    /// Begins the critical section, after the command of [`Locker::new`] has
    /// been carried out: clears the disposal queue, with all that was marked
    /// until the lock was taken, and enters the isolate.
    pub fn finish<V, M>(self, isolate: &mut Isolate<V, M>) -> (r: (Locker, Vec<Command>))
        requires
            old(isolate).wf(),
            old(isolate)@.can_finish_lock(),
            self.isolate() == old(isolate)@.address,
        ensures
            r.0.isolate() == self.isolate(),
            r.1@ == old(isolate)@.lock_commands(),
            r.1@.len() == old(isolate)@.annex->0.queue.len() + 1,
            r.1@.last() == (Command::Enter { isolate: old(isolate)@.address }),
            final(isolate).wf(),
            final(isolate)@ == old(isolate)@.locked(),
    {
        // clear the disposal queue
        let mut commands = isolate.dispose_marked_handles();
        // enter the isolate
        commands.push(isolate.enter());
        assert(commands@ =~= old(isolate)@.lock_commands());
        (Locker { isolate: self.isolate }, commands)
    }
}

/// What is left of a [`Locker`] whose lock is being given back: it still keeps
/// the isolate.
#[derive(Debug)]
pub struct Unlocking {
    isolate: usize,
}

impl Unlocking {
    /// The isolate that is being unlocked.
    pub closed spec fn isolate(&self) -> usize {
        self.isolate
    }

    /// Lets go of the isolate, after the commands of [`Locker::drop`] have been
    /// carried out. If this was the last locker, an isolate that is to be
    /// disposed of on unlocking stops referring to itself; if nothing refers to
    /// the isolate any more, it goes.
    pub fn finish<V, M>(self, isolate: &mut Isolate<V, M>) -> (teardown: Option<Teardown<V, M>>)
        requires
            old(isolate).wf(),
            old(isolate)@.can_release(),
            self.isolate() == old(isolate)@.address,
        ensures
            old(isolate)@.releasing().settles_as(teardown),
            final(isolate).wf(),
            final(isolate)@ == old(isolate)@.released(),
            ({
                let annex = old(isolate)@.annex->0;
                let dispose = Command::Dispose { isolate: old(isolate)@.address };
                &&& teardown is Some <==> annex.lockers == 1 && annex.handles == 0 && (!annex.owned
                    || annex.dispose_on_unlock)
                &&& teardown is Some <==> final(isolate)@.annex is None
                &&& teardown matches Some(t) ==> {
                    &&& t.before@.len() == annex.queue.len() + 1
                    &&& t.create_param_allocations == annex.allocations
                    &&& t.finalizer_map == annex.finalizer_map
                    &&& t.after@.last() == dispose <==> annex.dispose_on_drop
                }
                &&& final(isolate)@.disposed <==> teardown is Some && teardown->0.after@.last()
                    == dispose
            }),
    {
        isolate.end_lock()
    }
}

impl Unlocker {
    /// The isolate that is unlocked.
    pub closed spec fn isolate(&self) -> usize {
        self.isolate
    }

    /// Creates an unlocker for the isolate: clears the disposal queue, exits
    /// the isolate and gives the lock up.
    pub fn new<V, M>(isolate: &mut Isolate<V, M>) -> (r: (Unlocker, Vec<Command>))
        requires
            old(isolate).wf(),
            old(isolate)@.annex is Some,
            old(isolate)@.entries > 0,
        ensures
            r.0.isolate() == old(isolate)@.address,
            r.1@ == old(isolate)@.suspend_commands(),
            r.1@.len() == old(isolate)@.annex->0.queue.len() + 2,
            r.1@[r.1@.len() - 2] == (Command::Exit { isolate: old(isolate)@.address }),
            r.1@.last() == (Command::UnlockerConstruct { isolate: old(isolate)@.address }),
            final(isolate).wf(),
            final(isolate)@ == old(isolate)@.suspended(),
    {
        let unlocker = Unlocker { isolate: isolate.get_isolate_ptr() };
        // clear the disposal queue
        let mut commands = isolate.dispose_marked_handles();
        // Exit the isolate before unlock
        commands.push(isolate.exit());
        commands.push(Command::UnlockerConstruct { isolate: unlocker.isolate });
        assert(commands@ =~= old(isolate)@.suspend_commands());
        (unlocker, commands)
    }

    /// Takes the lock again. The command may have to wait for it; then it is on
    /// to [`Relocking::finish`].
    pub fn drop(self) -> (r: (Relocking, Command))
        ensures
            r.0.isolate() == self.isolate(),
            r.1 == (Command::UnlockerDestruct { isolate: self.isolate() }),
    {
        (
            Relocking { isolate: self.isolate },
            Command::UnlockerDestruct { isolate: self.isolate },
        )
    }
}

/// What is left of an [`Unlocker`] that waits for the lock.
#[derive(Debug)]
pub struct Relocking {
    isolate: usize,
}

impl Relocking {
    /// The isolate that is being locked again.
    pub closed spec fn isolate(&self) -> usize {
        self.isolate
    }

    /// Goes on with the critical section, after the command of
    /// [`Unlocker::drop`] has been carried out: clears the disposal queue, with
    /// all that was marked until the lock was taken, and enters the isolate.
    pub fn finish<V, M>(self, isolate: &mut Isolate<V, M>) -> (commands: Vec<Command>)
        requires
            old(isolate).wf(),
            old(isolate)@.annex is Some,
            old(isolate)@.entries < usize::MAX,
            self.isolate() == old(isolate)@.address,
        ensures
            commands@ == old(isolate)@.resume_commands(),
            commands@.len() == old(isolate)@.annex->0.queue.len() + 1,
            commands@.last() == (Command::Enter { isolate: old(isolate)@.address }),
            final(isolate).wf(),
            final(isolate)@ == old(isolate)@.resumed(),
    {
        // clear the disposal queue
        let mut commands = isolate.dispose_marked_handles();
        // Re enter the isolate
        commands.push(isolate.enter());
        assert(commands@ =~= old(isolate)@.resume_commands());
        commands
    }
}

} // verus!
