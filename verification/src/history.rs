//! Whole histories of an isolate: any sequence of operations, one after the
//! other, and all the commands that they give rise to.

use crate::annex::MAX_REFERENCES;
use crate::command::{entry_balance, Command};
use crate::isolate::{
    address_or_null, IsolateState, ANNEX_SLOT, CURRENT_SCOPE_DATA_SLOT, INTERNAL_SLOT_COUNT,
};
use crate::laws::{
    balance_concat, entries_follow_the_commands, freed, freed_concat, marked_data_is_freed_once,
};
use vstd::prelude::*;

verus! {

/// An operation on the host state of an isolate.
pub enum Operation<V, M> {
    CreateAnnex {
        allocations: Option<V>,
        dispose_on_drop: bool,
        dispose_on_unlock: bool,
        address: usize,
        finalizer_map: M,
    },
    /// A value is put into a slot, or written through a reference into it.
    SetSlot { key: u64, value: V },
    RemoveSlot { key: u64 },
    SetShadowRealmCallback { key: u64, callback: V, trampoline: usize },
    SetFinalizerMap { finalizer_map: M },
    SetData { slot: u32, word: usize },
    SetScopeData { scope_data: Option<usize> },
    MarkForDisposal { item: usize },
    /// A handle, or another counted reference, is made.
    MakeHandle,
    DropHandle,
    /// The isolate gives up its reference to itself.
    DropAnnex,
    MakeWeak,
    /// A weak reference is dropped while the annex is there.
    DropWeak,
    /// A locker begins to wait for the engine's lock.
    Lock,
    /// A locker that has got the engine's lock enters the isolate.
    FinishLock,
    /// A locker gives the lock back.
    Leave,
    /// A locker that has given the lock back stops counting.
    Release,
    /// An unlocker gives the lock up.
    Suspend,
    /// An unlocker begins to wait for the lock.
    Relock,
    /// An unlocker that has got the lock again enters the isolate.
    Resume,
    Enter,
    Exit,
}

impl<V, M> IsolateState<V, M> {
    /// Whether the operation can be carried out in this state.
    pub open spec fn allows(self, operation: Operation<V, M>) -> bool {
        match operation {
            Operation::CreateAnnex { address, .. } => {
                &&& !self.disposed
                &&& self.data[ANNEX_SLOT as int] == 0
                &&& address != 0
            },
            Operation::SetSlot { .. } => self.annex is Some,
            Operation::RemoveSlot { .. } => self.annex is Some,
            Operation::SetShadowRealmCallback { .. } => self.annex is Some,
            Operation::SetFinalizerMap { .. } => self.annex is Some,
            Operation::SetData { slot, .. } => !self.disposed && slot < self.embedder_slots(),
            Operation::SetScopeData { scope_data } => !self.disposed && scope_data != Some(0usize),
            Operation::MarkForDisposal { item } => self.annex is Some && item != 0,
            Operation::MakeHandle => self.annex is Some && self.annex->0.handles < MAX_REFERENCES,
            Operation::DropHandle => {
                &&& self.annex is Some
                &&& self.annex->0.handles > 0
                &&& self.annex->0.references() == 1 ==> self.entries == 0
            },
            Operation::DropAnnex => {
                &&& self.annex is Some
                &&& self.annex->0.owned
                &&& self.annex->0.references() == 1 ==> self.entries == 0
            },
            Operation::MakeWeak => self.annex is Some && self.annex->0.weaks < MAX_REFERENCES,
            Operation::DropWeak => self.annex is Some && self.annex->0.weaks > 0,
            Operation::Lock => self.can_lock(),
            Operation::FinishLock => self.can_finish_lock(),
            Operation::Leave => self.can_leave(),
            Operation::Release => self.can_release(),
            Operation::Suspend => self.annex is Some && self.entries > 0,
            Operation::Relock => self.annex is Some,
            Operation::Resume => self.annex is Some && self.entries < usize::MAX,
            Operation::Enter => !self.disposed && self.entries < usize::MAX,
            Operation::Exit => !self.disposed && self.entries > 0,
        }
    }

    /// The state after a reference has gone, before it is seen whether it was
    /// the last one; the state itself for the other operations.
    pub open spec fn unsettled(self, operation: Operation<V, M>) -> Self {
        match operation {
            Operation::DropHandle => self.with_annex(self.annex->0.without_handle()),
            Operation::DropAnnex => self.with_annex(self.annex->0.disowned()),
            Operation::Release => self.releasing(),
            _ => self,
        }
    }

    /// The state after the operation.
    pub open spec fn next(self, operation: Operation<V, M>) -> Self {
        match operation {
            Operation::CreateAnnex {
                allocations,
                dispose_on_drop,
                dispose_on_unlock,
                address,
                finalizer_map,
            } => self.with_new_annex(
                allocations,
                dispose_on_drop,
                dispose_on_unlock,
                address,
                finalizer_map,
            ),
            Operation::SetSlot { key, value } => self.with_annex(
                self.annex->0.with_slot(key, value),
            ),
            Operation::RemoveSlot { key } => self.with_annex(self.annex->0.without_slot(key)),
            Operation::SetShadowRealmCallback { key, callback, .. } => self.with_annex(
                self.annex->0.with_slot(key, callback),
            ),
            Operation::SetFinalizerMap { finalizer_map } => self.with_annex(
                self.annex->0.with_finalizer_map(finalizer_map),
            ),
            Operation::SetData { slot, word } => self.with_embedder_data(slot, word),
            Operation::SetScopeData { scope_data } => self.with_scope_data(scope_data),
            Operation::MarkForDisposal { item } => self.with_annex(self.annex->0.marked(item)),
            Operation::MakeHandle => self.with_annex(self.annex->0.with_handle()),
            Operation::DropHandle => self.unsettled(operation).settled(),
            Operation::DropAnnex => self.unsettled(operation).settled(),
            Operation::MakeWeak => self.with_annex(self.annex->0.with_weak()),
            Operation::DropWeak => self.with_annex(self.annex->0.without_weak()),
            Operation::Lock => self.locking(),
            Operation::FinishLock => self.locked(),
            Operation::Leave => self.left(),
            Operation::Release => self.released(),
            Operation::Suspend => self.suspended(),
            Operation::Relock => self,
            Operation::Resume => self.resumed(),
            Operation::Enter => self.entered(),
            Operation::Exit => self.exited(),
        }
    }

    /// The commands of the teardown that comes with the loss of a reference,
    /// if it comes to one.
    pub open spec fn settling_commands(self) -> Seq<Command> {
        if self.is_unreferenced() {
            self.teardown_before() + self.teardown_after()
        } else {
            Seq::empty()
        }
    }

    /// The commands that the operation gives rise to.
    pub open spec fn commands(self, operation: Operation<V, M>) -> Seq<Command> {
        match operation {
            Operation::CreateAnnex { address, .. } => seq![
                Command::SetData { isolate: self.address, slot: ANNEX_SLOT, data: address },
            ],
            Operation::SetShadowRealmCallback { key, trampoline, .. } => if self.annex->0.slot(
                key,
            ) is None {
                seq![
                    Command::SetHostCreateShadowRealmContextCallback {
                        isolate: self.address,
                        callback: trampoline,
                    },
                ]
            } else {
                Seq::empty()
            },
            Operation::SetData { slot, word } => seq![
                Command::SetData {
                    isolate: self.address,
                    slot: (slot + INTERNAL_SLOT_COUNT) as u32,
                    data: word,
                },
            ],
            Operation::SetScopeData { scope_data } => seq![
                Command::SetData {
                    isolate: self.address,
                    slot: CURRENT_SCOPE_DATA_SLOT,
                    data: address_or_null(scope_data),
                },
            ],
            Operation::DropHandle => self.unsettled(operation).settling_commands(),
            Operation::DropAnnex => self.unsettled(operation).settling_commands(),
            Operation::Lock => seq![Command::LockerConstruct { isolate: self.address }],
            Operation::FinishLock => self.lock_commands(),
            Operation::Leave => self.unlock_commands(),
            Operation::Release => self.unsettled(operation).settling_commands(),
            Operation::Suspend => self.suspend_commands(),
            Operation::Relock => seq![Command::UnlockerDestruct { isolate: self.address }],
            Operation::Resume => self.resume_commands(),
            Operation::Enter => seq![Command::Enter { isolate: self.address }],
            Operation::Exit => seq![Command::Exit { isolate: self.address }],
            _ => Seq::empty(),
        }
    }

    /// How many handles there are.
    pub open spec fn handles(self) -> nat {
        match self.annex {
            Some(annex) => annex.handles,
            None => 0,
        }
    }

    /// How many lockers there are.
    pub open spec fn lockers(self) -> nat {
        match self.annex {
            Some(annex) => annex.lockers,
            None => 0,
        }
    }

    /// The state after all the operations, in order.
    pub open spec fn run(self, operations: Seq<Operation<V, M>>) -> Self
        decreases operations.len(),
    {
        if operations.len() == 0 {
            self
        } else {
            self.run(operations.drop_last()).next(operations.last())
        }
    }

    /// Whether each operation can be carried out when its turn comes.
    pub open spec fn allows_all(self, operations: Seq<Operation<V, M>>) -> bool
        decreases operations.len(),
    {
        operations.len() > 0 ==> {
            &&& self.allows_all(operations.drop_last())
            &&& self.run(operations.drop_last()).allows(operations.last())
        }
    }

    /// The handle data that is marked for disposal and not freed yet.
    pub open spec fn pending(self) -> Seq<usize> {
        match self.annex {
            Some(annex) => annex.queue,
            None => Seq::empty(),
        }
    }

    /// All the commands that the operations give rise to, in order.
    pub open spec fn trace(self, operations: Seq<Operation<V, M>>) -> Seq<Command>
        decreases operations.len(),
    {
        if operations.len() == 0 {
            Seq::empty()
        } else {
            self.trace(operations.drop_last()) + self.run(operations.drop_last()).commands(
                operations.last(),
            )
        }
    }
}

/// The handle data that the operations mark for disposal, in order.
pub open spec fn marks<V, M>(operations: Seq<Operation<V, M>>) -> Seq<usize>
    decreases operations.len(),
{
    if operations.len() == 0 {
        Seq::empty()
    } else {
        let rest = marks(operations.drop_last());
        match operations.last() {
            Operation::MarkForDisposal { item } => rest.push(item),
            _ => rest,
        }
    }
}

/// By how much the operations change the number of handles.
pub open spec fn handle_change<V, M>(operations: Seq<Operation<V, M>>) -> int
    decreases operations.len(),
{
    if operations.len() == 0 {
        0
    } else {
        handle_change(operations.drop_last()) + match operations.last() {
            Operation::MakeHandle => 1int,
            Operation::DropHandle => -1int,
            _ => 0int,
        }
    }
}

/// By how much the operations change the number of lockers.
pub open spec fn locker_change<V, M>(operations: Seq<Operation<V, M>>) -> int
    decreases operations.len(),
{
    if operations.len() == 0 {
        0
    } else {
        locker_change(operations.drop_last()) + match operations.last() {
            Operation::Lock => 1int,
            Operation::Release => -1int,
            _ => 0int,
        }
    }
}

/// By how much the operations change the number of weak references.
pub open spec fn weak_change<V, M>(operations: Seq<Operation<V, M>>) -> int
    decreases operations.len(),
{
    if operations.len() == 0 {
        0
    } else {
        weak_change(operations.drop_last()) + match operations.last() {
            Operation::MakeWeak => 1int,
            Operation::DropWeak => -1int,
            _ => 0int,
        }
    }
}

/// How often the commands free an isolate.
pub open spec fn disposals(commands: Seq<Command>) -> nat
    decreases commands.len(),
{
    if commands.len() == 0 {
        0
    } else {
        disposals(commands.drop_last()) + if commands.last() is Dispose {
            1nat
        } else {
            0nat
        }
    }
}

proof fn disposals_concat(a: Seq<Command>, b: Seq<Command>)
    ensures
        disposals(a + b) == disposals(a) + disposals(b),
    decreases b.len(),
{
    if b.len() == 0 {
        assert(a + b =~= a);
    } else {
        assert((a + b).drop_last() =~= a + b.drop_last());
        disposals_concat(a, b.drop_last());
    }
}

proof fn no_disposals(commands: Seq<Command>)
    requires
        forall|i: int| 0 <= i < commands.len() ==> !(#[trigger] commands[i] is Dispose),
    ensures
        disposals(commands) == 0,
    decreases commands.len(),
{
    if commands.len() > 0 {
        no_disposals(commands.drop_last());
    }
}

/// What a teardown adds to a history.
proof fn settling_step<V, M>(state: IsolateState<V, M>)
    requires
        state.annex is Some,
        !state.disposed,
    ensures
        entry_balance(state.settling_commands()) == 0,
        freed(state.settling_commands()) + state.settled().pending() == state.pending(),
        disposals(state.settling_commands()) == if state.settled().disposed {
            1nat
        } else {
            0nat
        },
        state.settled().disposed ==> state.settling_commands().len() > 0
            && state.settling_commands().last() is Dispose,
{
    let none = Seq::<Command>::empty();
    if state.is_unreferenced() {
        let before = state.teardown_before();
        let after = state.teardown_after();
        marked_data_is_freed_once(state);
        entries_follow_the_commands(state);
        freed_concat(before, after);
        balance_concat(before, after);
        disposals_concat(before, after);
        no_disposals(before);
        assert(freed(before + after) + Seq::empty() =~= state.pending());
        reveal_with_fuel(disposals, 3);
        assert(after.len() == 2 ==> after.drop_last().drop_last() =~= none);
        assert(after.len() == 1 ==> after.drop_last() =~= none);
    } else {
        assert(freed(none) + state.pending() =~= state.pending());
    }
}

/// What one operation adds to a history.
proof fn step<V, M>(state: IsolateState<V, M>, operation: Operation<V, M>)
    requires
        state.wf(),
        state.allows(operation),
    ensures
        state.next(operation).wf(),
        !state.disposed,
        state.next(operation).entries == state.entries + entry_balance(state.commands(operation)),
        disposals(state.commands(operation)) == if state.next(operation).disposed {
            1nat
        } else {
            0nat
        },
        state.next(operation).disposed ==> {
            &&& state.next(operation).entries == 0
            &&& state.commands(operation).len() > 0
            &&& state.commands(operation).last() is Dispose
        },
        state.data[ANNEX_SLOT as int] != 0 ==> {
            &&& state.next(operation).annex is Some ==> state.annex is Some
            &&& state.next(operation).data[ANNEX_SLOT as int] == state.data[ANNEX_SLOT as int]
        },
        freed(state.commands(operation)) + state.next(operation).pending() == state.pending()
            + marks(seq![operation]),
{
    reveal_with_fuel(entry_balance, 3);
    reveal_with_fuel(freed, 3);
    reveal_with_fuel(disposals, 3);
    reveal_with_fuel(marks, 2);
    let none = Seq::<Command>::empty();
    assert(seq![operation].drop_last() =~= Seq::<Operation<V, M>>::empty());
    let commands = state.commands(operation);
    assert(commands.len() == 1 ==> commands.drop_last() =~= none);
    let unsettled = state.unsettled(operation);
    match operation {
        Operation::FinishLock | Operation::Leave | Operation::Suspend | Operation::Resume => {
            marked_data_is_freed_once(state);
            entries_follow_the_commands(state);
            no_disposals(commands);
            assert(state.pending() + Seq::empty() =~= state.pending());
        },
        Operation::DropHandle | Operation::DropAnnex | Operation::Release => {
            settling_step(unsettled);
            assert(state.pending() + Seq::empty() =~= state.pending());
        },
        Operation::MarkForDisposal { item } => {
            assert(Seq::empty() + state.pending().push(item) =~= state.pending()
                + Seq::empty().push(item));
        },
        _ => {
            assert(freed(commands) =~= Seq::<usize>::empty());
            assert(Seq::empty() + state.pending() =~= state.pending() + Seq::empty());
        },
    }
}

/// The engine is told of the trampoline for shadow realms when the first
/// callback is set. Another callback replaces it without telling the engine
/// again, until the slot has been vacated.
pub proof fn shadow_realm_callback_is_registered_once<V, M>(
    state: IsolateState<V, M>,
    key: u64,
    first: V,
    second: V,
    trampoline: usize,
)
    requires
        state.annex is Some,
        state.annex->0.slot(key) is None,
    ensures
        ({
            let set_first = Operation::SetShadowRealmCallback { key, callback: first, trampoline };
            let set_second = Operation::SetShadowRealmCallback {
                key,
                callback: second,
                trampoline,
            };
            let register = Command::SetHostCreateShadowRealmContextCallback {
                isolate: state.address,
                callback: trampoline,
            };
            let set = state.next(set_first);
            &&& state.commands(set_first) == seq![register]
            &&& set.annex->0.slot(key) == Some(first)
            &&& set.commands(set_second) == Seq::<Command>::empty()
            &&& set.next(set_second).annex->0.slot(key) == Some(second)
            &&& set.next(Operation::RemoveSlot { key }).commands(set_second) == seq![register]
        }),
{
}

/// In any history every state is well formed.
pub proof fn history_keeps_the_invariant<V, M>(
    state: IsolateState<V, M>,
    operations: Seq<Operation<V, M>>,
)
    requires
        state.wf(),
        state.allows_all(operations),
    ensures
        state.run(operations).wf(),
    decreases operations.len(),
{
    if operations.len() > 0 {
        history_keeps_the_invariant(state, operations.drop_last());
        step(state.run(operations.drop_last()), operations.last());
    }
}

/// In any history the engine has entered the isolate as often as the host
/// counts.
pub proof fn history_keeps_count_of_entries<V, M>(
    state: IsolateState<V, M>,
    operations: Seq<Operation<V, M>>,
)
    requires
        state.wf(),
        state.allows_all(operations),
    ensures
        state.run(operations).entries == state.entries + entry_balance(state.trace(operations)),
    decreases operations.len(),
{
    if operations.len() > 0 {
        let earlier = operations.drop_last();
        let before = state.run(earlier);
        history_keeps_the_invariant(state, earlier);
        history_keeps_count_of_entries(state, earlier);
        step(before, operations.last());
        balance_concat(state.trace(earlier), before.commands(operations.last()));
    }
}

/// In any history the engine is told to free the isolate at most once, as the
/// last thing of all, and not while the isolate is entered.
pub proof fn history_disposes_once<V, M>(
    state: IsolateState<V, M>,
    operations: Seq<Operation<V, M>>,
)
    requires
        state.wf(),
        !state.disposed,
        state.allows_all(operations),
    ensures
        disposals(state.trace(operations)) == if state.run(operations).disposed {
            1nat
        } else {
            0nat
        },
        state.run(operations).disposed ==> {
            &&& state.trace(operations).last() is Dispose
            &&& state.run(operations).entries == 0
            &&& state.run(operations).annex is None
        },
    decreases operations.len(),
{
    if operations.len() > 0 {
        let earlier = operations.drop_last();
        let before = state.run(earlier);
        history_keeps_the_invariant(state, operations);
        history_keeps_the_invariant(state, earlier);
        history_disposes_once(state, earlier);
        step(before, operations.last());
        disposals_concat(state.trace(earlier), before.commands(operations.last()));
    }
}

/// In any history every handle and every locker that has been made and not been
/// dropped is counted, and for as long as there is one, the isolate has its
/// annex and has not been freed. Weak references are counted for as long as the
/// annex is there.
pub proof fn history_keeps_what_is_referred_to<V, M>(
    state: IsolateState<V, M>,
    operations: Seq<Operation<V, M>>,
)
    requires
        state.wf(),
        state.allows_all(operations),
    ensures
        state.run(operations).handles() == state.handles() + handle_change(operations),
        state.run(operations).lockers() == state.lockers() + locker_change(operations),
        state.run(operations).handles() + state.run(operations).lockers() > 0 ==> {
            &&& state.run(operations).annex is Some
            &&& !state.run(operations).disposed
        },
        state.annex is Some && state.run(operations).annex is Some ==> state.run(
            operations,
        ).annex->0.weaks == state.annex->0.weaks + weak_change(operations),
    decreases operations.len(),
{
    history_keeps_the_invariant(state, operations);
    if operations.len() > 0 {
        let earlier = operations.drop_last();
        history_keeps_the_invariant(state, earlier);
        history_keeps_what_is_referred_to(state, earlier);
        step(state.run(earlier), operations.last());
        if state.annex is Some {
            history_keeps_the_annex_word(state, earlier);
        }
    }
}

proof fn history_keeps_the_annex_word<V, M>(
    state: IsolateState<V, M>,
    operations: Seq<Operation<V, M>>,
)
    requires
        state.wf(),
        state.data[ANNEX_SLOT as int] != 0,
        state.allows_all(operations),
    ensures
        state.run(operations).data[ANNEX_SLOT as int] == state.data[ANNEX_SLOT as int],
    decreases operations.len(),
{
    if operations.len() > 0 {
        history_keeps_the_invariant(state, operations.drop_last());
        history_keeps_the_annex_word(state, operations.drop_last());
        step(state.run(operations.drop_last()), operations.last());
    }
}

/// When all handles and lockers have been dropped, the isolate is finally
/// disposed, and not before: in any history of an isolate that does not refer to
/// itself, or does so only until it is unlocked, the annex is there exactly
/// while there is a handle or a locker, and with the annex goes the isolate,
/// unless it is one of those that must not be disposed.
pub proof fn history_disposes_of_what_nothing_refers_to<V, M>(
    state: IsolateState<V, M>,
    operations: Seq<Operation<V, M>>,
)
    requires
        state.wf(),
        state.annex is Some,
        state.annex->0.owned ==> state.annex->0.dispose_on_unlock && state.annex->0.lockers > 0,
        state.allows_all(operations),
    ensures
        state.run(operations).handles() + state.run(operations).lockers() == 0 <==> state.run(
            operations,
        ).annex is None,
        state.run(operations).annex is None ==> state.run(operations).disposed
            == state.annex->0.dispose_on_drop,
        state.run(operations).annex matches Some(annex) ==> {
            &&& !state.run(operations).disposed
            &&& annex.owned ==> annex.dispose_on_unlock && annex.lockers > 0
            &&& annex.dispose_on_drop == state.annex->0.dispose_on_drop
        },
    decreases operations.len(),
{
    if operations.len() > 0 {
        let earlier = operations.drop_last();
        history_keeps_the_invariant(state, earlier);
        history_keeps_the_invariant(state, operations);
        history_keeps_the_annex_word(state, earlier);
        history_disposes_of_what_nothing_refers_to(state, earlier);
        step(state.run(earlier), operations.last());
    }
}

/// After the isolate has been freed there is nothing more to be done with it:
/// no operation is allowed.
pub proof fn history_ends_with_disposal<V, M>(
    state: IsolateState<V, M>,
    operation: Operation<V, M>,
)
    requires
        state.wf(),
        state.disposed,
    ensures
        !state.allows(operation),
{
}

/// An annex that is gone is gone for good: whatever happens, the isolate has
/// none, and the word that led to it still stands, so that it does not get
/// another one. A weak reference to the annex gives no counted one any more.
pub proof fn history_does_not_bring_the_annex_back<V, M>(
    state: IsolateState<V, M>,
    operations: Seq<Operation<V, M>>,
)
    requires
        state.wf(),
        state.annex is None,
        state.data[ANNEX_SLOT as int] != 0,
        state.allows_all(operations),
    ensures
        state.run(operations).annex is None,
        state.run(operations).data[ANNEX_SLOT as int] == state.data[ANNEX_SLOT as int],
    decreases operations.len(),
{
    if operations.len() > 0 {
        history_keeps_the_invariant(state, operations.drop_last());
        history_does_not_bring_the_annex_back(state, operations.drop_last());
        step(state.run(operations.drop_last()), operations.last());
    }
}

/// In any history what has been freed is what was marked for disposal, each
/// item once and in the order of marking; what is not yet freed is still
/// queued. Once the isolate has lost its annex, everything that was ever marked
/// has been freed.
pub proof fn history_frees_what_was_marked<V, M>(
    state: IsolateState<V, M>,
    operations: Seq<Operation<V, M>>,
)
    requires
        state.wf(),
        state.allows_all(operations),
    ensures
        freed(state.trace(operations)) + state.run(operations).pending() == state.pending()
            + marks(operations),
        state.run(operations).annex is None ==> freed(state.trace(operations)) == state.pending()
            + marks(operations),
    decreases operations.len(),
{
    let so_far = freed(state.trace(operations));
    if operations.len() == 0 {
        assert(so_far + state.pending() =~= state.pending() + marks(operations));
    } else {
        let earlier = operations.drop_last();
        let operation = operations.last();
        let before = state.run(earlier);
        let commands = before.commands(operation);
        let left = state.run(operations).pending();
        history_keeps_the_invariant(state, earlier);
        history_frees_what_was_marked(state, earlier);
        step(before, operation);
        freed_concat(state.trace(earlier), commands);
        reveal_with_fuel(marks, 2);
        assert(seq![operation].drop_last() =~= Seq::<Operation<V, M>>::empty());
        let added = marks(seq![operation]);
        assert(marks(operations) =~= marks(earlier) + added);
        let earlier_freed = freed(state.trace(earlier));
        assert(so_far + left =~= earlier_freed + (freed(commands) + left));
        assert(earlier_freed + (before.pending() + added) =~= (earlier_freed + before.pending())
            + added);
        assert(state.pending() + marks(operations) =~= (state.pending() + marks(earlier)) + added);
    }
    if state.run(operations).annex is None {
        assert(so_far + Seq::empty() =~= so_far);
    }
}

} // verus!
