//! Isolates.

use crate::annex::{
    slot_values, AnnexArc, AnnexState, AnnexWeak, IsolateAnnex, MAX_REFERENCES,
};
use crate::command::{resets, Command, Created};
use crate::handle::IsolateHandle;
use crate::locker::Locker;
use crate::params::{CreateParams, RawCreateParams};
use crate::policy::MicrotasksPolicy;
use crate::raw_slot::RawSlot;
use std::collections::HashMap;
use vstd::prelude::*;

verus! {

/// The data slot that leads to the annex.
pub const ANNEX_SLOT: u32 = 0;

/// The data slot that leads to the data of the current scope.
pub const CURRENT_SCOPE_DATA_SLOT: u32 = 1;

/// How many data slots the host uses itself. The embedder's come after them.
pub const INTERNAL_SLOT_COUNT: u32 = 2;

/// What an [`Isolate`] stands for.
#[verifier::ext_equal]
pub struct IsolateState<V, M> {
    /// The engine's address of the isolate.
    pub address: usize,
    /// The isolate's data slots, the host's own first.
    pub data: Seq<usize>,
    /// The annex, while the isolate has one.
    pub annex: Option<AnnexState<V, M>>,
    /// How many times the isolate is entered.
    pub entries: nat,
    /// Whether the engine has been told to free the isolate.
    pub disposed: bool,
}

impl<V, M> IsolateState<V, M> {
    /// What holds of every isolate at all times.
    pub open spec fn wf(self) -> bool {
        &&& self.address != 0
        &&& INTERNAL_SLOT_COUNT < self.data.len() <= u32::MAX
        &&& self.annex matches Some(annex) ==> {
            &&& !self.disposed
            &&& annex.isolate == self.address
            &&& annex.references() > 0
            &&& self.data[ANNEX_SLOT as int] != 0
        }
    }

    /// An isolate that the engine has just created: nothing is stored in its
    /// data slots yet.
    pub open spec fn bare(created: Created) -> Self {
        IsolateState {
            address: created.isolate,
            data: Seq::new(created.data_slots as nat, |i: int| 0usize),
            annex: None,
            entries: 0,
            disposed: false,
        }
    }

    /// With a new annex at the given address. The isolate refers to itself.
    pub open spec fn with_new_annex(
        self,
        allocations: Option<V>,
        dispose_on_drop: bool,
        dispose_on_unlock: bool,
        address: usize,
        finalizer_map: M,
    ) -> Self {
        IsolateState {
            data: self.data.update(ANNEX_SLOT as int, address),
            annex: Some(
                AnnexState {
                    isolate: self.address,
                    allocations,
                    slots: Map::empty(),
                    finalizer_map,
                    queue: Seq::empty(),
                    dispose_on_drop,
                    dispose_on_unlock,
                    owned: true,
                    handles: 0,
                    lockers: 0,
                    weaks: 0,
                },
            ),
            ..self
        }
    }

    /// With another annex.
    pub open spec fn with_annex(self, annex: AnnexState<V, M>) -> Self {
        IsolateState { annex: Some(annex), ..self }
    }

    /// How many data slots there are for the embedder.
    pub open spec fn embedder_slots(self) -> int {
        self.data.len() - INTERNAL_SLOT_COUNT
    }

    /// The word in one of the embedder's data slots.
    pub open spec fn embedder_data(self, slot: u32) -> usize {
        self.data[slot + INTERNAL_SLOT_COUNT]
    }

    pub open spec fn with_embedder_data(self, slot: u32, word: usize) -> Self {
        IsolateState { data: self.data.update(slot + INTERNAL_SLOT_COUNT, word), ..self }
    }

    /// The data of the current scope, if there is one.
    pub open spec fn scope_data(self) -> Option<usize> {
        let word = self.data[CURRENT_SCOPE_DATA_SLOT as int];
        if word == 0 {
            None
        } else {
            Some(word)
        }
    }

    pub open spec fn with_scope_data(self, scope_data: Option<usize>) -> Self {
        let word = address_or_null(scope_data);
        IsolateState { data: self.data.update(CURRENT_SCOPE_DATA_SLOT as int, word), ..self }
    }

    pub open spec fn entered(self) -> Self {
        IsolateState { entries: self.entries + 1, ..self }
    }

    pub open spec fn exited(self) -> Self {
        IsolateState { entries: (self.entries - 1) as nat, ..self }
    }

    /// Whether nothing refers to the isolate any more, so that its annex has
    /// to go.
    pub open spec fn is_unreferenced(self) -> bool {
        self.annex matches Some(annex) && annex.references() == 0
    }

    /// Without its annex and its scopes; freed by the engine as well, unless it
    /// is one of the isolates that must not be.
    pub open spec fn torn_down(self) -> Self {
        IsolateState {
            data: self.data.update(CURRENT_SCOPE_DATA_SLOT as int, 0).update(
                INTERNAL_SLOT_COUNT as int,
                0,
            ),
            annex: None,
            disposed: self.disposed || self.annex->0.dispose_on_drop,
            ..self
        }
    }

    /// After a reference has gone: torn down if it was the last one.
    pub open spec fn settled(self) -> Self {
        if self.is_unreferenced() {
            self.torn_down()
        } else {
            self
        }
    }

    /// The commands that come before the embedder's values are dropped when
    /// the isolate is torn down. What is still marked for disposal is freed
    /// while the engine still has the isolate.
    pub open spec fn teardown_before(self) -> Seq<Command> {
        seq![Command::DropRootScope { isolate: self.address }] + resets(self.annex->0.queue)
    }

    /// The commands that come after the embedder's values are dropped when the
    /// isolate is torn down.
    pub open spec fn teardown_after(self) -> Seq<Command> {
        let clear = Command::SetData {
            isolate: self.address,
            slot: INTERNAL_SLOT_COUNT,
            data: 0,
        };
        if self.annex->0.dispose_on_drop {
            seq![clear, Command::Dispose { isolate: self.address }]
        } else {
            seq![clear]
        }
    }

    /// Whether `teardown` is what tearing the isolate down amounts to.
    pub open spec fn tears_down_as(self, teardown: Teardown<V, M>) -> bool {
        &&& teardown.before@ == self.teardown_before()
        &&& teardown.create_param_allocations == self.annex->0.allocations
        &&& slot_values(teardown.slots@) == self.annex->0.slots
        &&& teardown.after@ == self.teardown_after()
        &&& teardown.finalizer_map == self.annex->0.finalizer_map
    }

    /// Whether `outcome` is what settling the isolate amounts to: a teardown
    /// exactly if nothing refers to it any more.
    pub open spec fn settles_as(self, outcome: Option<Teardown<V, M>>) -> bool {
        &&& outcome is Some <==> self.is_unreferenced()
        &&& outcome matches Some(teardown) ==> self.tears_down_as(teardown)
    }
}

/// What is left to do for an isolate that nothing refers to any more, in this
/// order: carry out `before`; drop the allocations, then the slots; carry out
/// `after`, which frees the isolate; drop the finalizer map.
pub struct Teardown<V, M> {
    pub before: Vec<Command>,
    pub create_param_allocations: Option<V>,
    pub slots: HashMap<u64, RawSlot<V>>,
    pub after: Vec<Command>,
    pub finalizer_map: M,
}

/// Isolate represents an isolated instance of the engine. Isolates have
/// completely separate states. Objects from one isolate must not be used in
/// other isolates. The embedder can create multiple isolates and use them in
/// parallel in multiple threads. An isolate can be entered by at most one
/// thread at any given time. [`Locker`](crate::locker::Locker) and
/// [`Unlocker`](crate::locker::Unlocker) are used to synchronize.
///
/// The isolate is entered when it is locked and exited when it is unlocked.
pub struct Isolate<V, M> {
    address: usize,
    data: Vec<usize>,
    annex: Option<IsolateAnnex<V, M>>,
    entries: usize,
    disposed: bool,
}

impl<V, M> View for Isolate<V, M> {
    type V = IsolateState<V, M>;

    closed spec fn view(&self) -> IsolateState<V, M> {
        IsolateState {
            address: self.address,
            data: self.data@,
            annex: match self.annex {
                Some(annex) => Some(annex@),
                None => None,
            },
            entries: self.entries as nat,
            disposed: self.disposed,
        }
    }
}

impl<V, M> Isolate<V, M> {
    /// What holds of every isolate at all times.
    pub open spec fn wf(&self) -> bool {
        self@.wf()
    }

    /// An isolate that the engine has just created, with no annex yet.
    pub fn adopt(created: Created) -> (isolate: Self)
        requires
            created.isolate != 0,
            created.data_slots > INTERNAL_SLOT_COUNT,
        ensures
            isolate.wf(),
            isolate@ == IsolateState::<V, M>::bare(created),
    {
        let data: Vec<usize> = vec![0usize; created.data_slots as usize];
        assert(data@ =~= Seq::new(created.data_slots as nat, |i: int| 0usize));
        Isolate { address: created.isolate, data, annex: None, entries: 0, disposed: false }
    }

    /// Whether the engine has been told to free the isolate.
    pub fn is_disposed(&self) -> (r: bool)
        ensures
            r == self@.disposed,
    {
        self.disposed
    }

    /// Whether the isolate has an annex.
    pub fn has_annex(&self) -> (r: bool)
        ensures
            r == (self@.annex is Some),
    {
        self.annex.is_some()
    }

    /// Whether any thread has entered the isolate.
    pub fn is_entered(&self) -> (r: bool)
        ensures
            r == (self@.entries > 0),
    {
        self.entries > 0
    }

    /// Whether the isolate can be entered once more.
    pub fn can_enter(&self) -> (r: bool)
        ensures
            r == (!self@.disposed && self@.entries < usize::MAX),
    {
        !self.disposed && self.entries < usize::MAX
    }

    /// Whether one more handle can be made.
    pub fn can_make_handle(&self) -> (r: bool)
        ensures
            r == (self@.annex is Some && self@.annex->0.handles < MAX_REFERENCES),
    {
        match &self.annex {
            Some(annex) => annex.handles() < MAX_REFERENCES,
            None => false,
        }
    }

    /// Whether a handle can be dropped: there is one, and if it is the last
    /// reference, the isolate is not entered.
    pub fn can_drop_handle(&self) -> (r: bool)
        ensures
            r == (self@.annex is Some && self@.annex->0.handles > 0 && (
            self@.annex->0.references() == 1 ==> self@.entries == 0)),
    {
        match &self.annex {
            Some(annex) => annex.handles() > 0 && (self.entries == 0 || annex.handles() > 1
                || annex.lockers() > 0 || annex.is_owned()),
            None => false,
        }
    }

    /// Whether the isolate can be locked once more.
    pub fn can_lock(&self) -> (r: bool)
        ensures
            r == self@.can_lock(),
    {
        match &self.annex {
            Some(annex) => annex.lockers() < MAX_REFERENCES,
            None => false,
        }
    }

    /// Whether a locker that has got the engine's lock can enter the isolate.
    pub fn can_finish_lock(&self) -> (r: bool)
        ensures
            r == self@.can_finish_lock(),
    {
        match &self.annex {
            Some(annex) => annex.lockers() > 0 && self.entries < usize::MAX,
            None => false,
        }
    }

    /// Whether one more weak reference to the annex can be made.
    pub fn can_make_weak(&self) -> (r: bool)
        ensures
            r == (self@.annex is Some && self@.annex->0.weaks < MAX_REFERENCES),
    {
        match &self.annex {
            Some(annex) => annex.weaks() < MAX_REFERENCES,
            None => false,
        }
    }

    /// Whether a weak reference can be dropped: there is one, or the annex is
    /// gone.
    pub fn can_drop_weak(&self) -> (r: bool)
        ensures
            r == (self@.annex is Some ==> self@.annex->0.weaks > 0),
    {
        match &self.annex {
            Some(annex) => annex.weaks() > 0,
            None => true,
        }
    }

    /// Whether a locker can begin to let go of the isolate.
    pub fn can_leave(&self) -> (r: bool)
        ensures
            r == self@.can_leave(),
    {
        match &self.annex {
            Some(annex) => annex.lockers() > 0 && self.entries > 0,
            None => false,
        }
    }

    /// Whether a locker can stop counting.
    pub fn can_release(&self) -> (r: bool)
        ensures
            r == self@.can_release(),
    {
        match &self.annex {
            Some(annex) => {
                let lockers: usize = annex.lockers();
                let kept = annex.handles() > 0 || lockers > 1 || (annex.is_owned()
                    && !annex.disposes_on_unlock());
                lockers > 0 && (kept || self.entries == 0)
            },
            None => false,
        }
    }

    fn get_annex(&self) -> (annex: &IsolateAnnex<V, M>)
        requires
            self@.annex is Some,
        ensures
            annex@ == self@.annex->0,
    {
        self.annex.as_ref().unwrap()
    }

    fn get_annex_mut(&mut self) -> (annex: &mut IsolateAnnex<V, M>)
        requires
            old(self)@.annex is Some,
        ensures
            annex@ == old(self)@.annex->0,
            final(self)@ == old(self)@.with_annex(final(annex)@),
    {
        self.annex.as_mut().unwrap()
    }

    /// The commands that have the engine create an isolate from `params`, and
    /// what the isolate's annex has to keep for them. The engine must have been
    /// initialized.
    ///
    /// The engine's answer goes to [`Isolate::new`] or [`Isolate::new_handle`].
    pub fn request(params: CreateParams<V>) -> (r: (Vec<Command>, Option<V>))
        ensures
            r.0@ == seq![
                Command::AssertInitialized,
                Command::New { params: params.raw_params().block },
            ],
            r.1 == params.owned(),
    {
        let mut commands: Vec<Command> = Vec::new();
        commands.push(Command::AssertInitialized);
        let (raw_create_params, create_param_allocations) = params.finalize();
        commands.push(Command::New { params: raw_create_params.block });
        (commands, create_param_allocations)
    }

    /// Initial configuration parameters for a new isolate.
    pub fn create_params() -> (params: CreateParams<V>)
        ensures
            params.raw_params() == (RawCreateParams { block: 0 }),
            params.owned() is None,
    {
        CreateParams::default()
    }

    /// One more handle for the isolate.
    pub fn thread_safe_handle(&mut self) -> (handle: IsolateHandle)
        requires
            old(self).wf(),
            old(self)@.annex is Some,
            old(self)@.annex->0.handles < MAX_REFERENCES,
        ensures
            handle.isolate() == old(self)@.address,
            final(self).wf(),
            final(self)@ == old(self)@.with_annex(old(self)@.annex->0.with_handle()),
    {
        IsolateHandle::new(self)
    }

    /// See [`IsolateHandle::terminate_execution`].
    pub fn terminate_execution(&mut self) -> (command: Command)
        requires
            old(self).wf(),
            old(self)@.annex is Some,
            old(self)@.annex->0.handles < MAX_REFERENCES,
        ensures
            command == (Command::TerminateExecution { isolate: old(self)@.address }),
            final(self).wf(),
            final(self)@ == old(self)@,
    {
        let handle = self.thread_safe_handle();
        let command = handle.terminate_execution();
        handle.drop(self);
        command
    }

    /// See [`IsolateHandle::cancel_terminate_execution`].
    pub fn cancel_terminate_execution(&mut self) -> (command: Command)
        requires
            old(self).wf(),
            old(self)@.annex is Some,
            old(self)@.annex->0.handles < MAX_REFERENCES,
        ensures
            command == (Command::CancelTerminateExecution { isolate: old(self)@.address }),
            final(self).wf(),
            final(self)@ == old(self)@,
    {
        let handle = self.thread_safe_handle();
        let command = handle.cancel_terminate_execution();
        handle.drop(self);
        command
    }

    /// See [`IsolateHandle::is_execution_terminating`].
    pub fn is_execution_terminating(&mut self) -> (command: Command)
        requires
            old(self).wf(),
            old(self)@.annex is Some,
            old(self)@.annex->0.handles < MAX_REFERENCES,
        ensures
            command == (Command::IsExecutionTerminating { isolate: old(self)@.address }),
            final(self).wf(),
            final(self)@ == old(self)@,
    {
        let handle = self.thread_safe_handle();
        let command = handle.is_execution_terminating();
        handle.drop(self);
        command
    }

    /// The address of the isolate.
    pub fn get_isolate_ptr(&self) -> (isolate: usize)
        ensures
            isolate == self@.address,
    {
        self.address
    }

    /// The finalizers of the isolate's weak handles.
    pub fn get_finalizer_map(&self) -> (map: &M)
        requires
            self@.annex is Some,
        ensures
            *map == self@.annex->0.finalizer_map,
    {
        self.get_annex().get_finalizer_map()
    }

    /// The finalizers of the isolate's weak handles, for writing.
    pub fn get_finalizer_map_mut(&mut self) -> (map: &mut M)
        requires
            old(self).wf(),
            old(self)@.annex is Some,
        ensures
            *map == old(self)@.annex->0.finalizer_map,
            final(self).wf(),
            final(self)@ == old(self)@.with_annex(
                old(self)@.annex->0.with_finalizer_map(*final(map)),
            ),
    {
        self.get_annex_mut().get_finalizer_map_mut()
    }

    /// One more counted reference to the annex.
    pub fn get_annex_arc(&mut self) -> (arc: AnnexArc)
        requires
            old(self).wf(),
            old(self)@.annex is Some,
            old(self)@.annex->0.handles < MAX_REFERENCES,
        ensures
            arc.isolate() == old(self)@.address,
            final(self).wf(),
            final(self)@ == old(self)@.with_annex(old(self)@.annex->0.with_handle()),
    {
        let annex = self.get_annex_mut();
        annex.acquire_handle();
        AnnexArc::new(annex.get_isolate_ptr())
    }

    /// One more weak reference to the annex, which does not keep it. See
    /// [`AnnexWeak::upgrade`].
    pub fn get_annex_weak(&mut self) -> (weak: AnnexWeak)
        requires
            old(self).wf(),
            old(self)@.annex is Some,
            old(self)@.annex->0.weaks < MAX_REFERENCES,
        ensures
            weak.isolate() == old(self)@.address,
            final(self).wf(),
            final(self)@ == old(self)@.with_annex(old(self)@.annex->0.with_weak()),
    {
        let annex = self.get_annex_mut();
        annex.acquire_weak();
        AnnexWeak::new(annex.get_isolate_ptr())
    }

    /// Counts one weak reference to the annex less.
    pub(crate) fn release_annex_weak(&mut self)
        requires
            old(self).wf(),
            old(self)@.annex is Some,
            old(self)@.annex->0.weaks > 0,
        ensures
            final(self).wf(),
            final(self)@ == old(self)@.with_annex(old(self)@.annex->0.without_weak()),
    {
        self.get_annex_mut().release_weak();
    }

    /// Gives a counted reference to the annex back. With the last reference
    /// goes the isolate; it must not be entered then.
    pub fn release_annex_arc(&mut self, arc: AnnexArc) -> (teardown: Option<Teardown<V, M>>)
        requires
            old(self).wf(),
            old(self)@.annex is Some,
            arc.isolate() == old(self)@.address,
            old(self)@.annex->0.handles > 0,
            old(self)@.annex->0.references() == 1 ==> old(self)@.entries == 0,
        ensures
            final(self).wf(),
            final(self)@ == old(self)@.with_annex(old(self)@.annex->0.without_handle()).settled(),
            old(self)@.with_annex(old(self)@.annex->0.without_handle()).settles_as(teardown),
            ({
                let annex = old(self)@.annex->0;
                let dispose = Command::Dispose { isolate: old(self)@.address };
                &&& teardown is Some <==> annex.handles == 1 && annex.lockers == 0 && !annex.owned
                &&& teardown is Some <==> final(self)@.annex is None
                &&& teardown matches Some(t) ==> {
                    &&& t.before@.len() == annex.queue.len() + 1
                    &&& t.create_param_allocations == annex.allocations
                    &&& t.finalizer_map == annex.finalizer_map
                    &&& t.after@.last() == dispose <==> annex.dispose_on_drop
                }
                &&& final(self)@.disposed <==> teardown is Some && teardown->0.after@.last()
                    == dispose
            }),
    {
        self.get_annex_mut().release_handle();
        self.settle()
    }

    /// Gives up the isolate's reference to itself. If it was the last one, the
    /// isolate goes; it must not be entered then.
    pub fn drop_annex(&mut self) -> (teardown: Option<Teardown<V, M>>)
        requires
            old(self).wf(),
            old(self)@.annex is Some,
            old(self)@.annex->0.owned,
            old(self)@.annex->0.references() == 1 ==> old(self)@.entries == 0,
        ensures
            final(self).wf(),
            final(self)@ == old(self)@.with_annex(old(self)@.annex->0.disowned()).settled(),
            old(self)@.with_annex(old(self)@.annex->0.disowned()).settles_as(teardown),
            ({
                let annex = old(self)@.annex->0;
                let dispose = Command::Dispose { isolate: old(self)@.address };
                &&& teardown is Some <==> annex.handles == 0 && annex.lockers == 0
                &&& teardown is Some <==> final(self)@.annex is None
                &&& teardown matches Some(t) ==> {
                    &&& t.before@.len() == annex.queue.len() + 1
                    &&& t.create_param_allocations == annex.allocations
                    &&& t.finalizer_map == annex.finalizer_map
                    &&& t.after@.last() == dispose <==> annex.dispose_on_drop
                }
                &&& final(self)@.disposed <==> teardown is Some && teardown->0.after@.last()
                    == dispose
            }),
    {
        self.get_annex_mut().disown();
        self.settle()
    }

    /// Counts a locker that is about to use the isolate.
    pub(crate) fn begin_lock(&mut self)
        requires
            old(self).wf(),
            old(self)@.can_lock(),
        ensures
            final(self).wf(),
            final(self)@ == old(self)@.locking(),
    {
        self.get_annex_mut().acquire_locker();
    }

    /// Takes what has been marked for disposal.
    pub(crate) fn dispose_marked_handles(&mut self) -> (commands: Vec<Command>)
        requires
            old(self).wf(),
            old(self)@.annex is Some,
        ensures
            commands@ == resets(old(self)@.annex->0.queue),
            final(self).wf(),
            final(self)@ == old(self)@.with_annex(old(self)@.annex->0.drained()),
    {
        self.get_annex_mut().dispose_marked_handles()
    }

    /// Counts a locker that is done with the isolate.
    pub(crate) fn end_lock(&mut self) -> (teardown: Option<Teardown<V, M>>)
        requires
            old(self).wf(),
            old(self)@.can_release(),
        ensures
            final(self).wf(),
            final(self)@ == old(self)@.released(),
            old(self)@.releasing().settles_as(teardown),
            ({
                let annex = old(self)@.annex->0;
                let dispose = Command::Dispose { isolate: old(self)@.address };
                &&& teardown is Some <==> annex.lockers == 1 && annex.handles == 0 && (!annex.owned
                    || annex.dispose_on_unlock)
                &&& teardown is Some <==> final(self)@.annex is None
                &&& teardown matches Some(t) ==> {
                    &&& t.before@.len() == annex.queue.len() + 1
                    &&& t.create_param_allocations == annex.allocations
                    &&& t.finalizer_map == annex.finalizer_map
                    &&& t.after@.last() == dispose <==> annex.dispose_on_drop
                }
                &&& final(self)@.disposed <==> teardown is Some && teardown->0.after@.last()
                    == dispose
            }),
    {
        self.get_annex_mut().release_locker();
        self.settle()
    }

    /// Disposes of the isolate if nothing refers to it any more: drops the
    /// scope stack, frees what is still marked for disposal, clears the slots
    /// and gives up the objects that were taken out of the creation parameters.
    /// The isolate must not be entered by any thread to be disposable.
    fn settle(&mut self) -> (teardown: Option<Teardown<V, M>>)
        requires
            old(self)@.address != 0,
            INTERNAL_SLOT_COUNT < old(self)@.data.len() <= u32::MAX,
            old(self)@.annex is Some,
            !old(self)@.disposed,
            old(self)@.annex->0.isolate == old(self)@.address,
            old(self)@.data[ANNEX_SLOT as int] != 0,
            old(self)@.is_unreferenced() ==> old(self)@.entries == 0,
        ensures
            final(self).wf(),
            final(self)@ == old(self)@.settled(),
            old(self)@.settles_as(teardown),
            ({
                let annex = old(self)@.annex->0;
                let dispose = Command::Dispose { isolate: old(self)@.address };
                &&& teardown is Some <==> annex.handles == 0 && annex.lockers == 0 && !annex.owned
                &&& teardown is Some <==> final(self)@.annex is None
                &&& teardown matches Some(t) ==> {
                    &&& t.before@.len() == annex.queue.len() + 1
                    &&& t.create_param_allocations == annex.allocations
                    &&& t.finalizer_map == annex.finalizer_map
                    &&& t.after@.last() == dispose <==> annex.dispose_on_drop
                }
                &&& final(self)@.disposed <==> teardown is Some && teardown->0.after@.last()
                    == dispose
            }),
    {
        if self.get_annex().is_referenced() {
            return None;
        }
        let mut before: Vec<Command> = Vec::new();
        before.push(Command::DropRootScope { isolate: self.address });
        self.data.set(CURRENT_SCOPE_DATA_SLOT as usize, 0);
        // clear the disposal queue
        let mut marked = self.get_annex_mut().dispose_marked_handles();
        before.append(&mut marked);
        let mut taken: Option<IsolateAnnex<V, M>> = None;
        std::mem::swap(&mut taken, &mut self.annex);
        let remains = taken.unwrap().into_remains();
        let mut after: Vec<Command> = Vec::new();
        after.push(self.set_data(0, 0));
        // Some isolates (those of snapshot creators) must not be disposed.
        if remains.dispose_on_drop {
            self.disposed = true;
            after.push(Command::Dispose { isolate: self.address });
        }
        assert(before@ =~= old(self)@.teardown_before());
        assert(after@ =~= old(self)@.teardown_after());
        Some(
            Teardown {
                before,
                create_param_allocations: remains.create_param_allocations,
                slots: remains.slots,
                after,
                finalizer_map: remains.finalizer_map,
            },
        )
    }

    /// Associate a word of the embedder's with the isolate.
    pub fn set_data(&mut self, slot: u32, ptr: usize) -> (command: Command)
        requires
            old(self).wf(),
            !old(self)@.disposed,
            slot < old(self)@.embedder_slots(),
        ensures
            command == (Command::SetData {
                isolate: old(self)@.address,
                slot: (slot + INTERNAL_SLOT_COUNT) as u32,
                data: ptr,
            }),
            final(self).wf(),
            final(self)@ == old(self)@.with_embedder_data(slot, ptr),
            final(self)@.data[slot + INTERNAL_SLOT_COUNT] == ptr,
    {
        let index: u32 = slot + INTERNAL_SLOT_COUNT;
        self.data.set(index as usize, ptr);
        Command::SetData { isolate: self.address, slot: index, data: ptr }
    }

    /// Retrieve a word of the embedder's from the isolate. It is null if none
    /// has ever been set for the slot.
    pub fn get_data(&self, slot: u32) -> (ptr: usize)
        requires
            self.wf(),
            slot < self@.embedder_slots(),
        ensures
            ptr == self@.embedder_data(slot),
    {
        self.data[(slot + INTERNAL_SLOT_COUNT) as usize]
    }

    /// The number of data slots for the embedder. Valid slots are those below
    /// that number.
    pub fn get_number_of_data_slots(&self) -> (count: u32)
        requires
            self.wf(),
        ensures
            count == self@.embedder_slots(),
    {
        self.data.len() as u32 - INTERNAL_SLOT_COUNT
    }

    /// The address of the data of the current scope.
    pub fn get_current_scope_data(&self) -> (scope_data: Option<usize>)
        requires
            self.wf(),
        ensures
            scope_data == self@.scope_data(),
    {
        let word: usize = self.data[CURRENT_SCOPE_DATA_SLOT as usize];
        if word == 0 {
            None
        } else {
            Some(word)
        }
    }

    /// Updates the slot that stores the address of the data of the current
    /// scope.
    pub fn set_current_scope_data(&mut self, scope_data: Option<usize>) -> (command: Command)
        requires
            old(self).wf(),
            !old(self)@.disposed,
            scope_data != Some(0usize),
        ensures
            command == (Command::SetData {
                isolate: old(self)@.address,
                slot: CURRENT_SCOPE_DATA_SLOT,
                data: address_or_null(scope_data),
            }),
            final(self).wf(),
            final(self)@ == old(self)@.with_scope_data(scope_data),
            match scope_data {
                Some(address) => command->SetData_data == address,
                None => command->SetData_data == 0,
            },
            final(self)@.data[CURRENT_SCOPE_DATA_SLOT as int] == command->SetData_data,
    {
        let word: usize = match scope_data {
            Some(address) => address,
            None => 0,
        };
        self.data.set(CURRENT_SCOPE_DATA_SLOT as usize, word);
        Command::SetData { isolate: self.address, slot: CURRENT_SCOPE_DATA_SLOT, data: word }
    }

    /// Get a reference to embedder data added with `set_slot()`.
    pub fn get_slot(&self, key: u64) -> (value: Option<&V>)
        requires
            self@.annex is Some,
        ensures
            match value {
                Some(v) => self@.annex->0.slot(key) == Some(*v),
                None => self@.annex->0.slot(key) is None,
            },
    {
        self.get_annex().get_slot(key)
    }

    /// Get a mutable reference to embedder data added with `set_slot()`.
    pub fn get_slot_mut(&mut self, key: u64) -> (value: Option<&mut V>)
        requires
            old(self).wf(),
            old(self)@.annex is Some,
        ensures
            final(self).wf(),
            match value {
                Some(v) => {
                    &&& old(self)@.annex->0.slot(key) == Some(*v)
                    &&& final(self)@ == old(self)@.with_annex(
                        old(self)@.annex->0.with_slot(key, *final(v)),
                    )
                },
                None => {
                    &&& old(self)@.annex->0.slot(key) is None
                    &&& final(self)@ == old(self)@
                },
            },
    {
        self.get_annex_mut().get_slot_mut(key)
    }

    /// Like `set_slot()`, but hands the earlier version of the value back, if
    /// there was one.
    pub fn replace_slot(&mut self, key: u64, value: V) -> (replaced: Option<V>)
        requires
            old(self).wf(),
            old(self)@.annex is Some,
        ensures
            replaced == old(self)@.annex->0.slot(key),
            final(self).wf(),
            final(self)@ == old(self)@.with_annex(old(self)@.annex->0.with_slot(key, value)),
    {
        self.get_annex_mut().replace_slot(key, value)
    }

    /// Use with `get_slot()` and `get_slot_mut()` to associate state with an
    /// isolate.
    ///
    /// This method gives ownership of value to the isolate. The key is the
    /// identifier of the value's type: exactly one object of each type can be
    /// associated with an isolate. If called more than once with an object of
    /// the same type, the earlier version will be dropped and replaced.
    ///
    /// Returns true if value was set without replacing an existing value.
    ///
    /// The value will be dropped when the isolate is dropped.
    pub fn set_slot(&mut self, key: u64, value: V) -> (was_vacant: bool)
        requires
            old(self).wf(),
            old(self)@.annex is Some,
        ensures
            was_vacant == (old(self)@.annex->0.slot(key) is None),
            final(self).wf(),
            final(self)@ == old(self)@.with_annex(old(self)@.annex->0.with_slot(key, value)),
    {
        self.get_annex_mut().set_slot(key, value)
    }

    /// Removes the embedder data added with `set_slot()` and returns it if it
    /// exists.
    pub fn remove_slot(&mut self, key: u64) -> (value: Option<V>)
        requires
            old(self).wf(),
            old(self)@.annex is Some,
        ensures
            value == old(self)@.annex->0.slot(key),
            final(self).wf(),
            final(self)@ == old(self)@.with_annex(old(self)@.annex->0.without_slot(key)),
    {
        self.get_annex_mut().remove_slot(key)
    }

    /// Marks the data of a global handle of this isolate for disposal. It is
    /// freed when the isolate is locked or unlocked, or else when it is torn
    /// down.
    pub fn mark_handle_data_for_disposal(&mut self, garbage_item: usize)
        requires
            old(self).wf(),
            old(self)@.annex is Some,
            garbage_item != 0,
        ensures
            final(self).wf(),
            final(self)@ == old(self)@.with_annex(old(self)@.annex->0.marked(garbage_item)),
    {
        self.get_annex_mut().mark_handle_data_for_disposal(garbage_item)
    }

    /// Sets this isolate as the entered one for the current thread. Saves the
    /// previously entered one (if any), so that it can be restored when
    /// exiting. Re-entering an isolate is allowed.
    pub fn enter(&mut self) -> (command: Command)
        requires
            old(self).wf(),
            !old(self)@.disposed,
            old(self)@.entries < usize::MAX,
        ensures
            command == (Command::Enter { isolate: old(self)@.address }),
            final(self).wf(),
            final(self)@ == old(self)@.entered(),
    {
        self.entries += 1;
        Command::Enter { isolate: self.address }
    }

    /// Exits this isolate by restoring the previously entered one in the
    /// current thread. The isolate may still stay the same, if it was entered
    /// more than once. It must be the entered one.
    pub fn exit(&mut self) -> (command: Command)
        requires
            old(self).wf(),
            !old(self)@.disposed,
            old(self)@.entries > 0,
        ensures
            command == (Command::Exit { isolate: old(self)@.address }),
            final(self).wf(),
            final(self)@ == old(self)@.exited(),
    {
        self.entries -= 1;
        Command::Exit { isolate: self.address }
    }

    /// This specifies the callback called by the `ShadowRealm` construction
    /// language feature to retrieve host created globals. The callback is kept
    /// in the slot under `key`, the identifier of its type; a later one
    /// replaces it there. The engine is told of `trampoline`, which leads to
    /// [`Isolate::create_shadow_realm_context`], only if the slot was vacant.
    pub fn set_host_create_shadow_realm_context_callback(
        &mut self,
        key: u64,
        callback: V,
        trampoline: usize,
    ) -> (command: Option<Command>)
        requires
            old(self).wf(),
            old(self)@.annex is Some,
        ensures
            command == (if old(self)@.annex->0.slot(key) is None {
                Some(
                    Command::SetHostCreateShadowRealmContextCallback {
                        isolate: old(self)@.address,
                        callback: trampoline,
                    },
                )
            } else {
                None
            }),
            final(self).wf(),
            final(self)@ == old(self)@.with_annex(old(self)@.annex->0.with_slot(key, callback)),
    {
        let slot_didnt_exist_before = self.set_slot(key, callback);
        if slot_didnt_exist_before {
            Some(
                Command::SetHostCreateShadowRealmContextCallback {
                    isolate: self.address,
                    callback: trampoline,
                },
            )
        } else {
            None
        }
    }

    /// What the engine gets when it asks for the context of a new
    /// `ShadowRealm`: the address of the context that the callback in the slot
    /// under `key` made, or null if it made none. `call` runs the callback,
    /// which does not get at the isolate meanwhile. For one that does, copy the
    /// callback out of its slot, and hand what it made to [`context_address`].
    pub fn create_shadow_realm_context<F: FnOnce(&V) -> Option<usize>>(
        &self,
        key: u64,
        call: F,
    ) -> (context: usize)
        requires
            self@.annex is Some,
            self@.annex->0.slot(key) is Some,
            call_requires(call, (&self@.annex->0.slots[key],)),
        ensures
            exists|made: Option<usize>| #[trigger]
                call_ensures(call, (&self@.annex->0.slots[key],), made) && context
                    == address_or_null(made) && (match made {
                    Some(address) => context == address,
                    None => context == 0,
                }),
    {
        let callback = self.get_slot(key).unwrap();
        context_address(call(callback))
    }

    /// Clears the set of objects held strongly by the heap. This set of
    /// objects are originally built when a WeakRef is created or successfully
    /// dereferenced.
    ///
    /// This is invoked automatically after microtasks are run. See
    /// [`MicrotasksPolicy`] for when microtasks are run.
    ///
    /// This needs to be manually invoked only if the embedder is manually
    /// running microtasks. In that case, it is the embedder's responsibility
    /// to make this call at a time which does not interrupt synchronous
    /// ECMAScript code execution.
    pub fn clear_kept_objects(&mut self) -> (command: Command)
        requires
            !old(self)@.disposed,
        ensures
            command == (Command::ClearKeptObjects { isolate: old(self)@.address }),
            *final(self) == *old(self),
    {
        Command::ClearKeptObjects { isolate: self.address }
    }

    /// Optional notification that the system is running low on memory. The
    /// engine uses these notifications to attempt to free memory.
    pub fn low_memory_notification(&mut self) -> (command: Command)
        requires
            !old(self)@.disposed,
        ensures
            command == (Command::LowMemoryNotification { isolate: old(self)@.address }),
            *final(self) == *old(self),
    {
        Command::LowMemoryNotification { isolate: self.address }
    }

    /// Get statistics about the heap memory usage. The engine answers with the
    /// figures.
    pub fn get_heap_statistics(&mut self) -> (command: Command)
        requires
            !old(self)@.disposed,
        ensures
            command == (Command::GetHeapStatistics { isolate: old(self)@.address }),
            *final(self) == *old(self),
    {
        Command::GetHeapStatistics { isolate: self.address }
    }

    /// Tells the engine to capture the current stack trace when an uncaught
    /// exception occurs and report it to the message listeners. The option is
    /// off by default.
    pub fn set_capture_stack_trace_for_uncaught_exceptions(
        &mut self,
        capture: bool,
        frame_limit: i32,
    ) -> (command: Command)
        requires
            !old(self)@.disposed,
        ensures
            command == (Command::SetCaptureStackTraceForUncaughtExceptions {
                isolate: old(self)@.address,
                capture,
                frame_limit,
            }),
            *final(self) == *old(self),
    {
        Command::SetCaptureStackTraceForUncaughtExceptions {
            isolate: self.address,
            capture,
            frame_limit,
        }
    }

    /// Adds a message listener (errors only).
    ///
    /// The same message listener can be added more than once and in that case
    /// it will be called more than once for each message.
    ///
    /// The exception object will be passed to the callback.
    pub fn add_message_listener(&mut self, callback: usize) -> (command: Command)
        requires
            !old(self)@.disposed,
        ensures
            command == (Command::AddMessageListener { isolate: old(self)@.address, callback }),
            *final(self) == *old(self),
    {
        Command::AddMessageListener { isolate: self.address, callback }
    }

    /// This specifies the callback called when the stack property of an error
    /// is first accessed. The return value will be used as the stack value. If
    /// this callback is registered, the `Error.prepareStackTrace` API will be
    /// disabled.
    pub fn set_prepare_stack_trace_callback(&mut self, callback: usize) -> (command: Command)
        requires
            !old(self)@.disposed,
        ensures
            command == (Command::SetPrepareStackTraceCallback {
                isolate: old(self)@.address,
                callback,
            }),
            *final(self) == *old(self),
    {
        Command::SetPrepareStackTraceCallback { isolate: self.address, callback }
    }

    /// Set the hook for various promise lifecycle events; see
    /// [`PromiseHookType`](crate::policy::PromiseHookType).
    pub fn set_promise_hook(&mut self, hook: usize) -> (command: Command)
        requires
            !old(self)@.disposed,
        ensures
            command == (Command::SetPromiseHook { isolate: old(self)@.address, hook }),
            *final(self) == *old(self),
    {
        Command::SetPromiseHook { isolate: self.address, hook }
    }

    /// Set callback to notify about promise reject with no handler, or
    /// revocation of such a previous notification once the handler is added.
    pub fn set_promise_reject_callback(&mut self, callback: usize) -> (command: Command)
        requires
            !old(self)@.disposed,
        ensures
            command == (Command::SetPromiseRejectCallback {
                isolate: old(self)@.address,
                callback,
            }),
            *final(self) == *old(self),
    {
        Command::SetPromiseRejectCallback { isolate: self.address, callback }
    }

    /// Set the callback that resolves the promise of an asynchronous
    /// WebAssembly compilation; see
    /// [`WasmAsyncSuccess`](crate::policy::WasmAsyncSuccess).
    pub fn set_wasm_async_resolve_promise_callback(
        &mut self,
        callback: usize,
    ) -> (command: Command)
        requires
            !old(self)@.disposed,
        ensures
            command == (Command::SetWasmAsyncResolvePromiseCallback {
                isolate: old(self)@.address,
                callback,
            }),
            *final(self) == *old(self),
    {
        Command::SetWasmAsyncResolvePromiseCallback { isolate: self.address, callback }
    }

    /// This specifies the callback called by the `import.meta` language
    /// feature to retrieve host-defined meta data for a module.
    pub fn set_host_initialize_import_meta_object_callback(
        &mut self,
        callback: usize,
    ) -> (command: Command)
        requires
            !old(self)@.disposed,
        ensures
            command == (Command::SetHostInitializeImportMetaObjectCallback {
                isolate: old(self)@.address,
                callback,
            }),
            *final(self) == *old(self),
    {
        Command::SetHostInitializeImportMetaObjectCallback { isolate: self.address, callback }
    }

    /// This specifies the callback called by the dynamic `import()` language
    /// feature to load modules.
    pub fn set_host_import_module_dynamically_callback(
        &mut self,
        callback: usize,
    ) -> (command: Command)
        requires
            !old(self)@.disposed,
        ensures
            command == (Command::SetHostImportModuleDynamicallyCallback {
                isolate: old(self)@.address,
                callback,
            }),
            *final(self) == *old(self),
    {
        Command::SetHostImportModuleDynamicallyCallback { isolate: self.address, callback }
    }

    /// Add a callback to invoke in case the heap size is close to the heap
    /// limit. If multiple callbacks are added, only the most recently added
    /// callback is invoked.
    pub fn add_near_heap_limit_callback(
        &mut self,
        callback: usize,
        data: usize,
    ) -> (command: Command)
        requires
            !old(self)@.disposed,
        ensures
            command == (Command::AddNearHeapLimitCallback {
                isolate: old(self)@.address,
                callback,
                data,
            }),
            *final(self) == *old(self),
    {
        Command::AddNearHeapLimitCallback { isolate: self.address, callback, data }
    }

    /// Remove the given callback and restore the heap limit to the given
    /// limit. If the given limit is zero, then it is ignored. If the current
    /// heap size is greater than the given limit, then the heap limit is
    /// restored to the minimal limit that is possible for the current heap
    /// size.
    pub fn remove_near_heap_limit_callback(
        &mut self,
        callback: usize,
        heap_limit: usize,
    ) -> (command: Command)
        requires
            !old(self)@.disposed,
        ensures
            command == (Command::RemoveNearHeapLimitCallback {
                isolate: old(self)@.address,
                callback,
                heap_limit,
            }),
            *final(self) == *old(self),
    {
        Command::RemoveNearHeapLimitCallback { isolate: self.address, callback, heap_limit }
    }

    /// Adjusts the amount of registered external memory. Used to give the
    /// engine an indication of the amount of externally allocated memory that
    /// is kept alive by JavaScript objects. The engine uses this to decide
    /// when to perform global garbage collections, and answers with the
    /// adjusted amount.
    pub fn adjust_amount_of_external_allocated_memory(
        &mut self,
        change_in_bytes: i64,
    ) -> (command: Command)
        requires
            !old(self)@.disposed,
        ensures
            command == (Command::AdjustAmountOfExternalAllocatedMemory {
                isolate: old(self)@.address,
                change_in_bytes,
            }),
            *final(self) == *old(self),
    {
        Command::AdjustAmountOfExternalAllocatedMemory { isolate: self.address, change_in_bytes }
    }

    /// Set the callback to invoke when the heap runs out of memory.
    pub fn set_oom_error_handler(&mut self, callback: usize) -> (command: Command)
        requires
            !old(self)@.disposed,
        ensures
            command == (Command::SetOomErrorHandler { isolate: old(self)@.address, callback }),
            *final(self) == *old(self),
    {
        Command::SetOomErrorHandler { isolate: self.address, callback }
    }

    /// Sets the policy controlling how microtasks are invoked.
    pub fn set_microtasks_policy(&mut self, policy: MicrotasksPolicy) -> (command: Command)
        requires
            !old(self)@.disposed,
        ensures
            command == (Command::SetMicrotasksPolicy { isolate: old(self)@.address, policy }),
            *final(self) == *old(self),
    {
        Command::SetMicrotasksPolicy { isolate: self.address, policy }
    }

    /// Runs the default microtask queue until it gets empty and performs other
    /// microtask checkpoint steps, such as clearing the kept objects. Any
    /// exceptions thrown by microtask callbacks are swallowed.
    pub fn perform_microtask_checkpoint(&mut self) -> (command: Command)
        requires
            !old(self)@.disposed,
        ensures
            command == (Command::PerformMicrotaskCheckpoint { isolate: old(self)@.address }),
            *final(self) == *old(self),
    {
        Command::PerformMicrotaskCheckpoint { isolate: self.address }
    }

    /// An alias for [`Isolate::perform_microtask_checkpoint`].
    pub fn run_microtasks(&mut self) -> (command: Command)
        requires
            !old(self)@.disposed,
        ensures
            command == (Command::PerformMicrotaskCheckpoint { isolate: old(self)@.address }),
            *final(self) == *old(self),
    {
        self.perform_microtask_checkpoint()
    }

    /// Enqueues the callback to the default microtask queue.
    pub fn enqueue_microtask(&mut self, microtask: usize) -> (command: Command)
        requires
            !old(self)@.disposed,
        ensures
            command == (Command::EnqueueMicrotask {
                isolate: old(self)@.address,
                function: microtask,
            }),
            *final(self) == *old(self),
    {
        Command::EnqueueMicrotask { isolate: self.address, function: microtask }
    }

    /// Set whether calling `Atomics.wait` (a function that may block) is
    /// allowed in this isolate.
    pub fn set_allow_atomics_wait(&mut self, allow: bool) -> (command: Command)
        requires
            !old(self)@.disposed,
        ensures
            command == (Command::SetAllowAtomicsWait { isolate: old(self)@.address, allow }),
            *final(self) == *old(self),
    {
        Command::SetAllowAtomicsWait { isolate: self.address, allow }
    }

    /// Embedder injection point for `WebAssembly.compileStreaming(source)`.
    /// The expectation is that the embedder sets it at most once.
    pub fn set_wasm_streaming_callback(&mut self, callback: usize) -> (command: Command)
        requires
            !old(self)@.disposed,
        ensures
            command == (Command::SetWasmStreamingCallback {
                isolate: old(self)@.address,
                callback,
            }),
            *final(self) == *old(self),
    {
        Command::SetWasmStreamingCallback { isolate: self.address, callback }
    }

    /// Take a heap snapshot. The callback is invoked one or more times with
    /// byte slices containing the snapshot serialized as JSON; see
    /// [`deliver_chunk`].
    pub fn take_heap_snapshot(&mut self, callback: usize, arg: usize) -> (command: Command)
        requires
            !old(self)@.disposed,
        ensures
            command == (Command::TakeHeapSnapshot { isolate: old(self)@.address, callback, arg }),
            *final(self) == *old(self),
    {
        Command::TakeHeapSnapshot { isolate: self.address, callback, arg }
    }

    /// Asks for the policy controlling how microtasks are invoked. The engine
    /// answers with a number for [`MicrotasksPolicy::from_raw`].
    pub fn get_microtasks_policy(&self) -> (command: Command)
        requires
            !self@.disposed,
        ensures
            command == (Command::GetMicrotasksPolicy { isolate: self@.address }),
    {
        Command::GetMicrotasksPolicy { isolate: self.address }
    }

    /// Asks whether there is ongoing background work within the engine that
    /// will eventually post a foreground task, like asynchronous WebAssembly
    /// compilation.
    pub fn has_pending_background_tasks(&self) -> (command: Command)
        requires
            !self@.disposed,
        ensures
            command == (Command::HasPendingBackgroundTasks { isolate: self@.address }),
    {
        Command::HasPendingBackgroundTasks { isolate: self.address }
    }
}

impl<V, M: Default> Isolate<V, M> {
    /// Creates a new isolate from the engine's answer to
    /// [`Isolate::request`]. It comes locked, and is disposed of when it is
    /// unlocked, or when the last of the handles that it has by then is
    /// dropped.
    pub fn new(create_param_allocations: Option<V>, created: Created) -> (r: (
        Self,
        Locker,
        Vec<Command>,
    ))
        requires
            created.isolate != 0,
            created.data_slots > INTERNAL_SLOT_COUNT,
            created.annex != 0,
        ensures
            r.0.wf(),
            r.0@.annex is Some,
            call_ensures(M::default, (), r.0@.annex->0.finalizer_map),
            r.0@ == IsolateState::bare(created).with_new_annex(
                create_param_allocations,
                true,
                true,
                created.annex,
                r.0@.annex->0.finalizer_map,
            ).locking().locked(),
            r.0@.annex->0.allocations == create_param_allocations,
            r.0@.annex->0.dispose_on_drop,
            r.0@.annex->0.dispose_on_unlock,
            r.0@.annex->0.owned,
            r.0@.annex->0.handles == 0,
            r.0@.annex->0.lockers == 1,
            r.0@.entries == 1,
            r.1.isolate() == created.isolate,
            r.2@ == seq![
                Command::NewRootScope { isolate: created.isolate },
                Command::SetData {
                    isolate: created.isolate,
                    slot: ANNEX_SLOT,
                    data: created.annex,
                },
                Command::LockerConstruct { isolate: created.isolate },
                Command::Enter { isolate: created.isolate },
            ],
    {
        let mut isolate: Isolate<V, M> = Isolate::adopt(created);
        let mut commands: Vec<Command> = Vec::new();
        commands.push(Command::NewRootScope { isolate: created.isolate });
        commands.push(isolate.create_annex(create_param_allocations, true, true, created.annex));
        let mut handle = IsolateHandle::new(&mut isolate);
        let (locking, construct) = handle.lock_as_owned(&mut isolate);
        commands.push(construct);
        let (locker, mut lock) = locking.finish(&mut isolate);
        commands.append(&mut lock);
        handle.drop(&mut isolate);
        assert(resets(Seq::empty()) =~= Seq::<Command>::empty());
        (isolate, locker, commands)
    }

    /// Creates a new isolate from the engine's answer to
    /// [`Isolate::request`], with the first of its handles. It is disposed of
    /// when the last handle is dropped.
    pub fn new_handle(create_param_allocations: Option<V>, created: Created) -> (r: (
        Self,
        IsolateHandle,
        Vec<Command>,
    ))
        requires
            created.isolate != 0,
            created.data_slots > INTERNAL_SLOT_COUNT,
            created.annex != 0,
        ensures
            r.0.wf(),
            r.0@.annex is Some,
            call_ensures(M::default, (), r.0@.annex->0.finalizer_map),
            ({
                let fresh = IsolateState::bare(created).with_new_annex(
                    create_param_allocations,
                    true,
                    false,
                    created.annex,
                    r.0@.annex->0.finalizer_map,
                );
                r.0@ == fresh.with_annex(fresh.annex->0.with_handle().disowned())
            }),
            r.0@.annex->0.allocations == create_param_allocations,
            r.0@.annex->0.dispose_on_drop,
            !r.0@.annex->0.dispose_on_unlock,
            !r.0@.annex->0.owned,
            r.0@.annex->0.handles == 1,
            r.0@.annex->0.lockers == 0,
            r.0@.entries == 0,
            r.1.isolate() == created.isolate,
            r.2@ == seq![
                Command::NewRootScope { isolate: created.isolate },
                Command::SetData {
                    isolate: created.isolate,
                    slot: ANNEX_SLOT,
                    data: created.annex,
                },
            ],
    {
        let mut isolate: Isolate<V, M> = Isolate::adopt(created);
        let mut commands: Vec<Command> = Vec::new();
        commands.push(Command::NewRootScope { isolate: created.isolate });
        commands.push(isolate.create_annex(create_param_allocations, true, false, created.annex));
        let handle = IsolateHandle::new(&mut isolate);
        // From here on the handle, not the isolate, keeps the annex.
        isolate.drop_annex();
        (isolate, handle, commands)
    }

    /// Gives the isolate an annex, to be found at the given address. It must
    /// not have had one before.
    pub fn create_annex(
        &mut self,
        create_param_allocations: Option<V>,
        dispose_on_drop: bool,
        dispose_on_unlock: bool,
        address: usize,
    ) -> (command: Command)
        requires
            old(self).wf(),
            !old(self)@.disposed,
            old(self)@.data[ANNEX_SLOT as int] == 0,
            address != 0,
        ensures
            command == (Command::SetData {
                isolate: old(self)@.address,
                slot: ANNEX_SLOT,
                data: address,
            }),
            final(self).wf(),
            final(self)@.annex is Some,
            call_ensures(M::default, (), final(self)@.annex->0.finalizer_map),
            final(self)@ == old(self)@.with_new_annex(
                create_param_allocations,
                dispose_on_drop,
                dispose_on_unlock,
                address,
                final(self)@.annex->0.finalizer_map,
            ),
            final(self)@.annex->0.allocations == create_param_allocations,
            final(self)@.annex->0.dispose_on_drop == dispose_on_drop,
            final(self)@.annex->0.dispose_on_unlock == dispose_on_unlock,
            final(self)@.data[ANNEX_SLOT as int] == address,
    {
        let annex = IsolateAnnex::new(
            self.address,
            create_param_allocations,
            dispose_on_drop,
            dispose_on_unlock,
        );
        self.annex = Some(annex);
        self.data.set(ANNEX_SLOT as usize, address);
        Command::SetData { isolate: self.address, slot: ANNEX_SLOT, data: address }
    }
}

/// The given address, or null if there is none.
pub open spec fn address_or_null(address: Option<usize>) -> usize {
    match address {
        Some(word) => word,
        None => 0,
    }
}

/// What the engine gets for the context that a callback made for a new
/// `ShadowRealm`: its address, or null if it made none.
pub fn context_address(made: Option<usize>) -> (context: usize)
    ensures
        context == address_or_null(made),
        match made {
            Some(address) => context == address,
            None => context == 0,
        },
{
    match made {
        Some(address) => address,
        None => 0,
    }
}

/// What the engine gets when the stack property of an error is first accessed:
/// the address of the stack value that the embedder's callback makes of the
/// error and its call sites in the given context. The callback is called once.
pub fn prepare_stack_trace<F: FnOnce(usize, usize, usize) -> usize>(
    callback: F,
    context: usize,
    error: usize,
    sites: usize,
) -> (stack: usize)
    requires
        call_requires(callback, (context, error, sites)),
    ensures
        call_ensures(callback, (context, error, sites), stack),
{
    callback(context, error, sites)
}

/// Hands a chunk of a heap snapshot to the embedder's callback, once. The engine
/// goes on with the next chunk if the callback returns true. It's the callback's
/// responsibility to reassemble the chunks into a single document.
///
/// A callback that is to be called for one chunk after the other is passed by
/// mutable reference, which can be called once.
pub fn deliver_chunk<F: FnOnce(&[u8]) -> bool>(callback: F, chunk: &[u8]) -> (more: bool)
    requires
        call_requires(callback, (chunk,)),
    ensures
        call_ensures(callback, (chunk,), more),
{
    callback(chunk)
}

} // verus!
