//! What each operation does to each part of the state of an isolate, and which
//! commands it gives rise to.

use crate::annex::{slot_values, AnnexState, MAX_REFERENCES};
use crate::command::{resets, Command, Created};
use crate::isolate::{
    address_or_null, IsolateState, Teardown, ANNEX_SLOT, CURRENT_SCOPE_DATA_SLOT,
    INTERNAL_SLOT_COUNT,
};
use crate::policy::{MicrotasksPolicy, PromiseHookType, WasmAsyncSuccess};
use crate::raw_slot::{exceeds_word, RawSlot};
use vstd::prelude::*;

verus! {

// Words and numbers

/// An address is handed over as it is, all of its bits, and the lack of one as
/// null. Different addresses stay different.
pub proof fn address_is_handed_over_unchanged(address: usize, other: usize)
    ensures
        address_or_null(Some(address)) == address,
        address_or_null(None) == 0,
        address_or_null(Some(address)) == address_or_null(Some(other)) ==> address == other,
{
}

/// The engine's numbers for the members of the enumerations, and the places of
/// the host's own data slots. The embedder's come right after them.
pub proof fn numbers_are_the_engines()
    ensures
        MicrotasksPolicy::Explicit.number() == 0,
        MicrotasksPolicy::Auto.number() == 2,
        PromiseHookType::Init.number() == 0,
        PromiseHookType::Resolve.number() == 1,
        PromiseHookType::Before.number() == 2,
        PromiseHookType::After.number() == 3,
        WasmAsyncSuccess::Success.number() == 0,
        WasmAsyncSuccess::Fail.number() == 1,
        ANNEX_SLOT == 0,
        CURRENT_SCOPE_DATA_SLOT == 1,
        INTERNAL_SLOT_COUNT == 2,
        MAX_REFERENCES == usize::MAX / 2,
{
}

/// A value goes to the heap if and only if it is larger, or aligned more
/// strictly, than one machine word.
pub proof fn only_what_fits_a_word_is_inline<T>()
    ensures
        exceeds_word::<T>() <==> (vstd::layout::size_of::<T>() > vstd::layout::size_of::<usize>()
            || vstd::layout::align_of::<T>() > vstd::layout::align_of::<usize>()),
{
}

// The annex

/// The references that keep an annex are its handles, its lockers and the one
/// of the isolate to itself. Weak references are not among them.
pub proof fn references_are_handles_lockers_and_own<V, M>(annex: AnnexState<V, M>, weaks: nat)
    ensures
        annex.owned ==> annex.references() == annex.handles + annex.lockers + 1,
        !annex.owned ==> annex.references() == annex.handles + annex.lockers,
        (AnnexState { weaks, ..annex }).references() == annex.references(),
{
}

/// What is read from a slot, and what setting, replacing, writing and removing
/// do: they change that slot and nothing else.
pub proof fn slot_operations_change_one_slot<V, M>(
    annex: AnnexState<V, M>,
    key: u64,
    value: V,
    other: u64,
)
    ensures
        annex.slot(key) is Some <==> annex.slots.dom().contains(key),
        annex.slot(key) is Some ==> annex.slot(key)->0 == annex.slots[key],
        annex.with_slot(key, value).slots.dom() == annex.slots.dom().insert(key),
        annex.with_slot(key, value).slots[key] == value,
        annex.without_slot(key).slots.dom() == annex.slots.dom().remove(key),
        other != key ==> {
            &&& annex.with_slot(key, value).slots[other] == annex.slots[other]
            &&& annex.slots.dom().contains(other) ==> annex.without_slot(key).slots[other]
                == annex.slots[other]
        },
        annex.with_slot(key, value) == (AnnexState {
            slots: annex.with_slot(key, value).slots,
            ..annex
        }),
        annex.without_slot(key) == (AnnexState { slots: annex.without_slot(key).slots, ..annex }),
{
}

/// The values in a map of slots are those that its slots hold, each under its
/// key.
pub proof fn slot_values_are_what_the_slots_hold<V>(slots: Map<u64, RawSlot<V>>, key: u64)
    ensures
        slot_values(slots).dom() == slots.dom(),
        slots.dom().contains(key) ==> slot_values(slots)[key] == slots[key]@,
{
    assert(slot_values(slots).dom() =~= slots.dom());
}

/// Marking an item adds it behind the others in the disposal queue, and
/// draining the queue empties it; nothing else changes.
pub proof fn queue_operations_change_the_queue<V, M>(annex: AnnexState<V, M>, item: usize)
    ensures
        annex.marked(item).queue.len() == annex.queue.len() + 1,
        annex.marked(item).queue.last() == item,
        annex.marked(item).queue.drop_last() == annex.queue,
        annex.marked(item) == (AnnexState { queue: annex.marked(item).queue, ..annex }),
        annex.drained() == (AnnexState { queue: Seq::empty(), ..annex }),
{
    assert(annex.marked(item).queue.drop_last() =~= annex.queue);
}

/// Making and dropping a reference changes the count of its kind by one, and
/// nothing else. The last locker of an isolate that is to be disposed of on
/// unlocking takes the isolate's reference to itself along.
pub proof fn reference_operations_change_one_count<V, M>(
    annex: AnnexState<V, M>,
    finalizer_map: M,
)
    ensures
        annex.with_handle() == (AnnexState { handles: annex.handles + 1, ..annex }),
        annex.handles > 0 ==> annex.without_handle() == (AnnexState {
            handles: (annex.handles - 1) as nat,
            ..annex
        }),
        annex.with_weak() == (AnnexState { weaks: annex.weaks + 1, ..annex }),
        annex.weaks > 0 ==> annex.without_weak() == (AnnexState {
            weaks: (annex.weaks - 1) as nat,
            ..annex
        }),
        annex.disowned() == (AnnexState { owned: false, ..annex }),
        annex.with_locker() == (AnnexState { lockers: annex.lockers + 1, ..annex }),
        annex.lockers > 1 || annex.lockers == 1 && !annex.dispose_on_unlock
            ==> annex.without_locker() == (AnnexState {
            lockers: (annex.lockers - 1) as nat,
            ..annex
        }),
        annex.lockers == 1 && annex.dispose_on_unlock ==> annex.without_locker() == (AnnexState {
            lockers: 0,
            owned: false,
            ..annex
        }),
        annex.with_finalizer_map(finalizer_map) == (AnnexState { finalizer_map, ..annex }),
{
}

// Creation

/// What an isolate is like that the engine has just created: all its data slots
/// are null, it has no annex, and nobody has entered or freed it.
pub proof fn bare_isolate_holds_nothing<V, M>(created: Created, slot: int)
    ensures
        ({
            let state = IsolateState::<V, M>::bare(created);
            &&& state.address == created.isolate
            &&& state.data.len() == created.data_slots
            &&& 0 <= slot < created.data_slots ==> state.data[slot] == 0
            &&& state.annex is None
            &&& state.entries == 0
            &&& !state.disposed
        }),
{
}

/// A new annex keeps the allocations of the creation parameters and both flags
/// as they were given, whatever they are. It holds nothing else; the isolate
/// refers to itself, and nobody else does. Of the isolate nothing changes but the
/// data slot that leads to the annex.
pub proof fn new_annex_keeps_what_it_is_given<V, M>(
    state: IsolateState<V, M>,
    allocations: Option<V>,
    dispose_on_drop: bool,
    dispose_on_unlock: bool,
    address: usize,
    finalizer_map: M,
    slot: int,
)
    requires
        INTERNAL_SLOT_COUNT < state.data.len(),
    ensures
        ({
            let new = state.with_new_annex(
                allocations,
                dispose_on_drop,
                dispose_on_unlock,
                address,
                finalizer_map,
            );
            &&& new.annex matches Some(annex) && {
                &&& annex.allocations == allocations
                &&& annex.dispose_on_drop == dispose_on_drop
                &&& annex.dispose_on_unlock == dispose_on_unlock
                &&& annex.finalizer_map == finalizer_map
                &&& annex.isolate == state.address
                &&& annex.slots.dom() == Set::<u64>::empty()
                &&& annex.queue.len() == 0
                &&& annex.owned
                &&& annex.handles == 0
                &&& annex.lockers == 0
                &&& annex.weaks == 0
            }
            &&& new.data.len() == state.data.len()
            &&& new.data[0] == address
            &&& 0 < slot < state.data.len() ==> new.data[slot] == state.data[slot]
            &&& new == (IsolateState { data: new.data, annex: new.annex, ..state })
        }),
{
}

/// Giving an isolate another annex changes nothing else of it.
pub proof fn only_the_annex_is_exchanged<V, M>(
    state: IsolateState<V, M>,
    annex: AnnexState<V, M>,
)
    ensures
        state.with_annex(annex) == (IsolateState { annex: Some(annex), ..state }),
{
}

/// What holds of every isolate at all times, and no more than that.
pub proof fn well_formed_isolates<V, M>(state: IsolateState<V, M>)
    ensures
        state.wf() <==> {
            &&& state.address != 0
            &&& 2 < state.data.len() <= u32::MAX
            &&& state.annex is Some ==> {
                &&& !state.disposed
                &&& state.annex->0.isolate == state.address
                &&& state.annex->0.handles + state.annex->0.lockers > 0 || state.annex->0.owned
                &&& state.data[0] != 0
            }
        },
{
}

// Data slots and entries

/// Storing a word of the embedder's, or the data of the current scope, changes
/// one data slot, to the very word that was given; and that is what is read
/// there.
pub proof fn data_operations_change_one_word<V, M>(
    state: IsolateState<V, M>,
    slot: u32,
    word: usize,
    scope_data: Option<usize>,
    other: int,
)
    requires
        state.data.len() > 2,
        slot < state.data.len() - 2,
        0 <= other < state.data.len(),
    ensures
        state.embedder_slots() == state.data.len() - 2,
        state.embedder_data(slot) == state.data[slot + 2],
        ({
            let stored = state.with_embedder_data(slot, word);
            &&& stored.data.len() == state.data.len()
            &&& stored.data[slot + 2] == word
            &&& other != slot + 2 ==> stored.data[other] == state.data[other]
            &&& stored == (IsolateState { data: stored.data, ..state })
        }),
        state.scope_data() is None <==> state.data[1] == 0,
        state.scope_data() matches Some(address) ==> address == state.data[1],
        ({
            let stored = state.with_scope_data(scope_data);
            &&& stored.data.len() == state.data.len()
            &&& scope_data matches Some(address) ==> stored.data[1] == address
            &&& scope_data is None ==> stored.data[1] == 0
            &&& other != 1 ==> stored.data[other] == state.data[other]
            &&& stored == (IsolateState { data: stored.data, ..state })
        }),
{
}

/// Entering and exiting change the number of entries by one, and nothing else.
pub proof fn entering_and_exiting_change_the_entries<V, M>(state: IsolateState<V, M>)
    ensures
        state.entered() == (IsolateState { entries: state.entries + 1, ..state }),
        state.entries > 0 ==> state.exited() == (IsolateState {
            entries: (state.entries - 1) as nat,
            ..state
        }),
{
}

// The disposal queue

/// Handle data is freed item by item: one command for each, in the order of the
/// queue, with the item's own address.
pub proof fn each_item_is_freed_by_a_command_of_its_own(queue: Seq<usize>, i: int)
    ensures
        resets(queue).len() == queue.len(),
        0 <= i < queue.len() ==> resets(queue)[i] == (Command::ResetGlobal { data: queue[i] }),
{
}

// Locking and unlocking

/// A locker that begins to wait for the engine's lock counts as one more
/// locker; nothing else changes. It can do so while there is an annex with
/// room for it.
pub proof fn waiting_for_the_lock_counts_a_locker<V, M>(state: IsolateState<V, M>)
    ensures
        state.can_lock() <==> state.annex is Some && state.annex->0.lockers < usize::MAX / 2,
        state.annex matches Some(annex) ==> state.locking() == (IsolateState {
            annex: Some(AnnexState { lockers: annex.lockers + 1, ..annex }),
            ..state
        }),
{
}

/// Getting the engine's lock, for the first time or again after an unlocker,
/// frees every item that is marked, in order, and then enters the isolate: the
/// queue is empty, the isolate is entered once more, and nothing else changes.
pub proof fn getting_the_lock_frees_what_is_marked_and_enters<V, M>(
    state: IsolateState<V, M>,
    i: int,
)
    requires
        state.annex is Some,
    ensures
        ({
            let annex = state.annex->0;
            let count = annex.queue.len();
            let inside = IsolateState {
                annex: Some(AnnexState { queue: Seq::empty(), ..annex }),
                entries: state.entries + 1,
                ..state
            };
            &&& state.can_finish_lock() <==> annex.lockers > 0 && state.entries < usize::MAX
            &&& state.locked() == inside
            &&& state.resumed() == inside
            &&& state.lock_commands().len() == count + 1
            &&& state.resume_commands().len() == count + 1
            &&& 0 <= i < count ==> {
                &&& state.lock_commands()[i] == (Command::ResetGlobal { data: annex.queue[i] })
                &&& state.resume_commands()[i] == (Command::ResetGlobal { data: annex.queue[i] })
            }
            &&& state.lock_commands().last() == (Command::Enter { isolate: state.address })
            &&& state.resume_commands().last() == (Command::Enter { isolate: state.address })
        }),
{
}

/// Leaving a critical section gives the engine's lock back as the very last
/// thing, whatever is marked: before that the scopes are left, every marked item
/// is freed, in order, and the isolate is exited. The queue is empty, the isolate
/// is entered once less, and nothing else changes; the locker still counts.
pub proof fn leaving_gives_the_lock_back_last<V, M>(state: IsolateState<V, M>, i: int)
    requires
        state.annex is Some,
        state.entries > 0,
    ensures
        ({
            let annex = state.annex->0;
            let count = annex.queue.len() as int;
            let commands = state.unlock_commands();
            &&& state.can_leave() <==> annex.lockers > 0
            &&& state.left() == (IsolateState {
                annex: Some(AnnexState { queue: Seq::empty(), ..annex }),
                entries: (state.entries - 1) as nat,
                ..state
            })
            &&& commands.len() == count + 3
            &&& commands[0] == (Command::UnwindToRootScope { isolate: state.address })
            &&& 0 <= i < count ==> commands[1 + i] == (Command::ResetGlobal {
                data: annex.queue[i],
            })
            &&& commands[count + 1] == (Command::Exit { isolate: state.address })
            &&& commands.last() == (Command::LockerDestruct { isolate: state.address })
        }),
{
}

/// An unlocker gives the engine's lock up as the very last thing, whatever is
/// marked: before that every marked item is freed, in order, and the isolate is
/// exited. The queue is empty, the isolate is entered once less, and nothing else
/// changes.
pub proof fn unlocker_gives_the_lock_up_last<V, M>(state: IsolateState<V, M>, i: int)
    requires
        state.annex is Some,
        state.entries > 0,
    ensures
        ({
            let annex = state.annex->0;
            let count = annex.queue.len() as int;
            let commands = state.suspend_commands();
            &&& state.suspended() == (IsolateState {
                annex: Some(AnnexState { queue: Seq::empty(), ..annex }),
                entries: (state.entries - 1) as nat,
                ..state
            })
            &&& commands.len() == count + 2
            &&& 0 <= i < count ==> commands[i] == (Command::ResetGlobal { data: annex.queue[i] })
            &&& commands[count] == (Command::Exit { isolate: state.address })
            &&& commands.last() == (Command::UnlockerConstruct { isolate: state.address })
        }),
{
}

/// A locker that has given the lock back stops counting. The isolate goes then
/// exactly if there is no handle, no other locker, and no reference of the
/// isolate to itself that outlives the unlocking; it must not be entered in that
/// case.
pub proof fn locker_stops_counting<V, M>(state: IsolateState<V, M>)
    requires
        state.annex is Some,
        state.annex->0.lockers > 0,
    ensures
        ({
            let annex = state.annex->0;
            let last = annex.lockers == 1;
            let goes = last && annex.handles == 0 && (!annex.owned || annex.dispose_on_unlock);
            &&& state.releasing() == (IsolateState {
                annex: Some(
                    AnnexState {
                        lockers: (annex.lockers - 1) as nat,
                        owned: annex.owned && !(last && annex.dispose_on_unlock),
                        ..annex
                    },
                ),
                ..state
            })
            &&& state.releasing().is_unreferenced() <==> goes
            &&& state.can_release() <==> (goes ==> state.entries == 0)
            &&& state.released() == state.releasing().settled()
            &&& goes ==> {
                &&& state.released().annex is None
                &&& state.released().disposed <==> state.disposed || annex.dispose_on_drop
                &&& state.released().entries == state.entries
            }
            &&& !goes ==> state.released() == state.releasing()
        }),
{
}

// Teardown

/// An isolate is torn down exactly if it has an annex that no handle, no locker
/// and not the isolate itself refers to. Then the annex and the scopes are gone,
/// the first of the embedder's data slots is null, and the isolate is freed if
/// the annex says so; nothing else changes. Otherwise nothing changes at all.
pub proof fn only_what_nothing_refers_to_is_torn_down<V, M>(state: IsolateState<V, M>, slot: int)
    requires
        state.data.len() > 2,
        0 <= slot < state.data.len(),
    ensures
        state.is_unreferenced() <==> state.annex is Some && state.annex->0.handles == 0
            && state.annex->0.lockers == 0 && !state.annex->0.owned,
        !state.is_unreferenced() ==> state.settled() == state,
        state.is_unreferenced() ==> {
            &&& state.settled() == state.torn_down()
            &&& state.settled().annex is None
            &&& state.settled().disposed <==> state.disposed || state.annex->0.dispose_on_drop
            &&& state.settled().data.len() == state.data.len()
            &&& state.settled().data[1] == 0
            &&& state.settled().data[2] == 0
            &&& slot != 1 && slot != 2 ==> state.settled().data[slot] == state.data[slot]
            &&& state.settled().address == state.address
            &&& state.settled().entries == state.entries
        },
{
}

/// A teardown drops the scopes, then frees every item that is still marked, in
/// order; then come the embedder's values; then the embedder's data slot is
/// cleared, and the engine is told to free the isolate if and only if the annex
/// says so.
pub proof fn teardown_frees_what_is_marked_then_the_isolate<V, M>(
    state: IsolateState<V, M>,
    i: int,
)
    requires
        state.annex is Some,
    ensures
        ({
            let annex = state.annex->0;
            let before = state.teardown_before();
            let after = state.teardown_after();
            &&& before.len() == annex.queue.len() + 1
            &&& before[0] == (Command::DropRootScope { isolate: state.address })
            &&& 0 <= i < annex.queue.len() ==> before[1 + i] == (Command::ResetGlobal {
                data: annex.queue[i],
            })
            &&& after[0] == (Command::SetData { isolate: state.address, slot: 2, data: 0 })
            &&& annex.dispose_on_drop ==> {
                &&& after.len() == 2
                &&& after[1] == (Command::Dispose { isolate: state.address })
            }
            &&& !annex.dispose_on_drop ==> after.len() == 1
        }),
{
}

/// What comes out when a reference has gone: a teardown exactly if it was the
/// last one, and nothing is missing from it. Every marked item is freed; the
/// allocations, the slots and the finalizers are those of the annex; and the
/// engine is told to free the isolate exactly if that is what becomes of the
/// state. How many weak references there are does not matter.
pub proof fn teardown_misses_nothing<V, M>(
    state: IsolateState<V, M>,
    outcome: Option<Teardown<V, M>>,
    key: u64,
    i: int,
)
    requires
        state.data.len() > 2,
        state.annex is Some,
        !state.disposed,
        state.settles_as(outcome),
    ensures
        outcome is Some <==> state.annex->0.handles == 0 && state.annex->0.lockers == 0
            && !state.annex->0.owned,
        outcome is Some <==> state.settled().annex is None,
        outcome matches Some(teardown) ==> {
            let annex = state.annex->0;
            &&& state.tears_down_as(teardown)
            &&& teardown.before@.len() == annex.queue.len() + 1
            &&& teardown.before@[0] == (Command::DropRootScope { isolate: state.address })
            &&& 0 <= i < annex.queue.len() ==> teardown.before@[1 + i] == (Command::ResetGlobal {
                data: annex.queue[i],
            })
            &&& teardown.create_param_allocations == annex.allocations
            &&& teardown.slots@.dom().contains(key) <==> annex.slots.dom().contains(key)
            &&& annex.slots.dom().contains(key) ==> teardown.slots@[key]@ == annex.slots[key]
            &&& teardown.finalizer_map == annex.finalizer_map
            &&& teardown.after@[0] == (Command::SetData {
                isolate: state.address,
                slot: 2,
                data: 0,
            })
            &&& annex.dispose_on_drop ==> teardown.after@.len() == 2
            &&& !annex.dispose_on_drop ==> teardown.after@.len() == 1
        },
        state.settled().disposed <==> {
            &&& outcome is Some
            &&& outcome->0.after@.last() == (Command::Dispose { isolate: state.address })
        },
{
    if let Some(teardown) = outcome {
        assert(state.annex->0.slots == slot_values(teardown.slots@));
        slot_values_are_what_the_slots_hold(teardown.slots@, key);
    }
}

/// Two isolates that differ in the number of weak references alone are settled
/// by the same teardown.
pub proof fn weak_references_do_not_change_a_teardown<V, M>(
    state: IsolateState<V, M>,
    weaks: nat,
    outcome: Option<Teardown<V, M>>,
)
    requires
        state.annex is Some,
    ensures
        ({
            let annex = state.annex->0;
            let other = IsolateState { annex: Some(AnnexState { weaks, ..annex }), ..state };
            &&& other.settles_as(outcome) <==> state.settles_as(outcome)
            &&& other.is_unreferenced() <==> state.is_unreferenced()
            &&& other.torn_down() == state.torn_down()
            &&& other.teardown_before() == state.teardown_before()
            &&& other.teardown_after() == state.teardown_after()
        }),
{
}

} // verus!
