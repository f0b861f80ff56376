//! What holds across the operations on an isolate.

use crate::annex::AnnexState;
use crate::command::{entry_balance, resets, Command, Created};
use crate::isolate::{IsolateState, ANNEX_SLOT, INTERNAL_SLOT_COUNT};
use crate::policy::{MicrotasksPolicy, PromiseHookType, WasmAsyncSuccess};
use vstd::prelude::*;

verus! {

// Slots

/// A slot gives back what was last put there; an earlier value leaves no trace.
pub proof fn slot_gives_back_what_was_set<V, M>(
    annex: AnnexState<V, M>,
    key: u64,
    earlier: V,
    value: V,
)
    ensures
        annex.with_slot(key, value).slot(key) == Some(value),
        annex.with_slot(key, earlier).with_slot(key, value) == annex.with_slot(key, value),
{
    assert(annex.slots.insert(key, earlier).insert(key, value) =~= annex.slots.insert(key, value));
}

/// Slots of different types do not affect each other.
pub proof fn slots_are_independent<V, M>(
    annex: AnnexState<V, M>,
    key: u64,
    other: u64,
    value: V,
)
    requires
        key != other,
    ensures
        annex.with_slot(key, value).slot(other) == annex.slot(other),
        annex.without_slot(key).slot(other) == annex.slot(other),
{
}

/// What is removed is gone: the slot is as if nothing had ever been there, and
/// a second removal finds nothing.
pub proof fn removed_slot_is_vacant<V, M>(annex: AnnexState<V, M>, key: u64, value: V)
    ensures
        annex.without_slot(key).slot(key) is None,
        annex.with_slot(key, value).without_slot(key) == annex.without_slot(key),
        annex.without_slot(key).without_slot(key) == annex.without_slot(key),
        annex.slot(key) is None ==> annex.with_slot(key, value).without_slot(key) == annex,
{
    assert(annex.slots.insert(key, value).remove(key) =~= annex.slots.remove(key));
    assert(annex.slots.remove(key).remove(key) =~= annex.slots.remove(key));
    if annex.slot(key) is None {
        assert(annex.slots.remove(key) =~= annex.slots);
    }
}

// Data slots

/// A data slot gives back what was last stored there, and nothing but null
/// before that. Data slots do not affect each other.
pub proof fn data_slot_gives_back_what_was_set<V, M>(
    state: IsolateState<V, M>,
    created: Created,
    slot: u32,
    other: u32,
    word: usize,
)
    requires
        slot < state.embedder_slots(),
    ensures
        state.with_embedder_data(slot, word).embedder_data(slot) == word,
        slot != other && other < state.embedder_slots() ==> state.with_embedder_data(
            slot,
            word,
        ).embedder_data(other) == state.embedder_data(other),
        slot < IsolateState::<V, M>::bare(created).embedder_slots() ==> IsolateState::<
            V,
            M,
        >::bare(created).embedder_data(slot) == 0,
{
}

/// The data of the current scope is what was last set, and none at first.
pub proof fn scope_data_gives_back_what_was_set<V, M>(
    state: IsolateState<V, M>,
    created: Created,
    scope_data: Option<usize>,
)
    requires
        state.wf(),
        scope_data != Some(0usize),
        created.data_slots > INTERNAL_SLOT_COUNT,
    ensures
        state.with_scope_data(scope_data).scope_data() == scope_data,
        IsolateState::<V, M>::bare(created).scope_data() is None,
{
}

/// The embedder's data slots, the scope data and the way to the annex are kept
/// apart: storing one changes none of the others.
pub proof fn internal_slots_are_out_of_reach<V, M>(
    state: IsolateState<V, M>,
    slot: u32,
    word: usize,
    scope_data: Option<usize>,
)
    requires
        state.wf(),
        slot < state.embedder_slots(),
    ensures
        state.with_embedder_data(slot, word).scope_data() == state.scope_data(),
        state.with_embedder_data(slot, word).data[ANNEX_SLOT as int]
            == state.data[ANNEX_SLOT as int],
        state.with_scope_data(scope_data).embedder_data(slot) == state.embedder_data(slot),
        state.with_scope_data(scope_data).data[ANNEX_SLOT as int]
            == state.data[ANNEX_SLOT as int],
{
}

// The disposal queue

/// The handle data that a sequence of commands frees, in order.
pub open spec fn freed(commands: Seq<Command>) -> Seq<usize>
    decreases commands.len(),
{
    if commands.len() == 0 {
        Seq::empty()
    } else {
        let rest = freed(commands.drop_last());
        match commands.last() {
            Command::ResetGlobal { data } => rest.push(data),
            _ => rest,
        }
    }
}

/// Commands in a row free what the first ones free, then what the others do.
pub proof fn freed_concat(a: Seq<Command>, b: Seq<Command>)
    ensures
        freed(a + b) == freed(a) + freed(b),
    decreases b.len(),
{
    if b.len() == 0 {
        assert(a + b =~= a);
        assert(freed(a) + freed(b) =~= freed(a));
    } else {
        assert((a + b).drop_last() =~= a + b.drop_last());
        freed_concat(a, b.drop_last());
        assert(freed(a + b) =~= freed(a) + freed(b));
    }
}

proof fn freed_by_resets(queue: Seq<usize>)
    ensures
        freed(resets(queue)) == queue,
        entry_balance(resets(queue)) == 0,
    decreases queue.len(),
{
    if queue.len() > 0 {
        assert(resets(queue).drop_last() =~= resets(queue.drop_last()));
        freed_by_resets(queue.drop_last());
        assert(queue.drop_last().push(queue.last()) =~= queue);
    } else {
        assert(resets(queue) =~= Seq::<Command>::empty());
        assert(queue =~= Seq::<usize>::empty());
    }
}

/// Commands in a row enter and exit as often as the first ones and the others
/// together.
pub proof fn balance_concat(a: Seq<Command>, b: Seq<Command>)
    ensures
        entry_balance(a + b) == entry_balance(a) + entry_balance(b),
    decreases b.len(),
{
    if b.len() == 0 {
        assert(a + b =~= a);
    } else {
        assert((a + b).drop_last() =~= a + b.drop_last());
        balance_concat(a, b.drop_last());
    }
}

proof fn framed_resets(before: Seq<Command>, queue: Seq<usize>, after: Seq<Command>)
    ensures
        freed(before + resets(queue) + after) == freed(before) + queue + freed(after),
        entry_balance(before + resets(queue) + after) == entry_balance(before) + entry_balance(
            after,
        ),
{
    freed_by_resets(queue);
    freed_concat(before, resets(queue));
    freed_concat(before + resets(queue), after);
    balance_concat(before, resets(queue));
    balance_concat(before + resets(queue), after);
}

/// What the commands of each way of locking and unlocking, and of a teardown,
/// free, and how often they enter and exit the isolate.
proof fn effects_of_commands<V, M>(state: IsolateState<V, M>)
    requires
        state.annex is Some,
    ensures
        freed(state.lock_commands()) == state.annex->0.queue,
        freed(state.unlock_commands()) == state.annex->0.queue,
        freed(state.suspend_commands()) == state.annex->0.queue,
        freed(state.resume_commands()) == state.annex->0.queue,
        freed(state.teardown_before()) == state.annex->0.queue,
        freed(state.teardown_after()) == Seq::<usize>::empty(),
        entry_balance(state.lock_commands()) == 1,
        entry_balance(state.unlock_commands()) == -1,
        entry_balance(state.suspend_commands()) == -1,
        entry_balance(state.resume_commands()) == 1,
        entry_balance(state.teardown_before()) == 0,
        entry_balance(state.teardown_after()) == 0,
{
    let isolate = state.address;
    let queue = state.annex->0.queue;
    let none = Seq::<Command>::empty();
    reveal_with_fuel(freed, 3);
    reveal_with_fuel(entry_balance, 3);
    assert(Seq::empty() + queue + Seq::empty() =~= queue);
    let enter = seq![Command::Enter { isolate }];
    assert(enter.drop_last() =~= none);
    framed_resets(none, queue, enter);
    let unwind = seq![Command::UnwindToRootScope { isolate }];
    assert(unwind.drop_last() =~= none);
    let exit = seq![Command::Exit { isolate }, Command::LockerDestruct { isolate }];
    assert(exit.drop_last() =~= seq![Command::Exit { isolate }]);
    assert(seq![Command::Exit { isolate }].drop_last() =~= none);
    framed_resets(unwind, queue, exit);
    let suspend = seq![Command::Exit { isolate }, Command::UnlockerConstruct { isolate }];
    assert(suspend.drop_last() =~= seq![Command::Exit { isolate }]);
    framed_resets(none, queue, suspend);
    assert(none + resets(queue) =~= resets(queue));
    let drop_root = seq![Command::DropRootScope { isolate }];
    assert(drop_root.drop_last() =~= none);
    framed_resets(drop_root, queue, none);
    assert(state.teardown_before() + none =~= state.teardown_before());
    let clear = Command::SetData { isolate, slot: INTERNAL_SLOT_COUNT, data: 0 };
    assert(seq![clear].drop_last() =~= none);
    assert(seq![clear, Command::Dispose { isolate }].drop_last() =~= seq![clear]);
}

/// Locking and unlocking, by a locker or around an unlocker, frees exactly what
/// is in the disposal queue, each item once, oldest first, and leaves the queue
/// empty: nothing is freed twice. What is marked while a thread waits for the
/// lock is in the queue when the thread has got it. A teardown frees what is left in the queue
/// before the embedder's values are dropped, and the queue is gone with the
/// annex.
pub proof fn marked_data_is_freed_once<V, M>(state: IsolateState<V, M>)
    requires
        state.annex is Some,
    ensures
        freed(state.lock_commands()) == state.annex->0.queue,
        freed(state.unlock_commands()) == state.annex->0.queue,
        freed(state.suspend_commands()) == state.annex->0.queue,
        freed(state.resume_commands()) == state.annex->0.queue,
        freed(state.teardown_before()) == state.annex->0.queue,
        freed(state.teardown_after()).len() == 0,
        state.locking().annex->0.queue == state.annex->0.queue,
        state.locked().annex->0.queue.len() == 0,
        state.left().annex->0.queue.len() == 0,
        state.suspended().annex->0.queue.len() == 0,
        state.resumed().annex->0.queue.len() == 0,
        state.torn_down().annex is None,
{
    effects_of_commands(state);
}

// Entering and exiting

/// The commands enter and exit the isolate as often as the host counts:
/// locking enters it once, unlocking exits it once, an unlocker exits it and
/// enters it again, and a teardown does neither.
pub proof fn entries_follow_the_commands<V, M>(state: IsolateState<V, M>)
    requires
        state.annex is Some,
    ensures
        state.locked().entries == state.entries + entry_balance(state.lock_commands()),
        state.entries > 0 ==> state.left().entries == state.entries + entry_balance(
            state.unlock_commands(),
        ),
        state.entries > 0 ==> state.suspended().entries == state.entries + entry_balance(
            state.suspend_commands(),
        ),
        state.resumed().entries == state.entries + entry_balance(state.resume_commands()),
        state.torn_down().entries == state.entries + entry_balance(state.teardown_before())
            + entry_balance(state.teardown_after()),
{
    effects_of_commands(state);
}

/// Unlocking undoes locking: but for the disposal queue, which is empty, the
/// isolate is as it was, unless this unlocked an isolate that was to stop
/// referring to itself then.
pub proof fn unlocking_undoes_locking<V, M>(state: IsolateState<V, M>)
    requires
        state.wf(),
        state.can_lock(),
        state.entries < usize::MAX,
        state.annex->0.owned && state.annex->0.dispose_on_unlock ==> state.annex->0.lockers > 0,
    ensures
        state.locking().can_finish_lock(),
        state.locking().locked().can_leave(),
        state.locking().locked().left().can_release(),
        state.locking().locked().left().released() == state.with_annex(state.annex->0.drained()),
{
}

/// Unlocking an isolate that was to stop referring to itself then leaves it
/// without that reference, and with no annex if that was the only one.
pub proof fn unlocking_ends_ownership<V, M>(state: IsolateState<V, M>)
    requires
        state.wf(),
        state.can_lock(),
        state.entries < usize::MAX,
        state.annex->0.owned,
        state.annex->0.dispose_on_unlock,
        state.annex->0.lockers == 0,
    ensures
        state.locking().can_finish_lock(),
        state.locking().locked().can_leave(),
        state.locking().locked().left().can_release() <==> (state.annex->0.handles == 0
            ==> state.entries == 0),
        state.locking().locked().left().released() == state.with_annex(
            state.annex->0.drained().disowned(),
        ).settled(),
{
}

/// The end of an unlocker undoes its beginning: but for the disposal queue,
/// which is empty, the isolate is as it was.
pub proof fn unlocker_leaves_isolate_as_it_was<V, M>(state: IsolateState<V, M>)
    requires
        state.wf(),
        state.annex is Some,
        state.entries > 0,
    ensures
        state.suspended().resumed() == state.with_annex(state.annex->0.drained()),
{
}

/// Locking and unlocking leave alone what the embedder attached to the isolate:
/// its slots, its data slots and its finalizers.
pub proof fn locking_keeps_embedder_state<V, M>(state: IsolateState<V, M>)
    requires
        state.annex is Some,
    ensures
        state.locking().data == state.data,
        state.locking().annex->0.slots == state.annex->0.slots,
        state.locking().annex->0.finalizer_map == state.annex->0.finalizer_map,
        state.locked().data == state.data,
        state.locked().annex->0.slots == state.annex->0.slots,
        state.locked().annex->0.finalizer_map == state.annex->0.finalizer_map,
        state.suspended().data == state.data,
        state.suspended().annex->0.slots == state.annex->0.slots,
        state.suspended().annex->0.finalizer_map == state.annex->0.finalizer_map,
        state.resumed().data == state.data,
        state.resumed().annex->0.slots == state.annex->0.slots,
        state.resumed().annex->0.finalizer_map == state.annex->0.finalizer_map,
        state.left().data == state.data,
        state.left().annex->0.slots == state.annex->0.slots,
        state.left().annex->0.finalizer_map == state.annex->0.finalizer_map,
        !state.releasing().is_unreferenced() ==> {
            &&& state.released().data == state.data
            &&& state.released().annex->0.slots == state.annex->0.slots
            &&& state.released().annex->0.finalizer_map == state.annex->0.finalizer_map
        },
{
}

// From creation to disposal

/// An isolate that is to be disposed of on unlocking, and that only its one
/// locker refers to, goes with that locker.
pub proof fn isolate_goes_with_its_locker<V, M>(state: IsolateState<V, M>)
    requires
        state.wf(),
        state.annex is Some,
        state.annex->0.dispose_on_unlock,
        state.annex->0.lockers == 1,
        state.annex->0.handles == 0,
        state.entries == 1,
    ensures
        state.can_leave(),
        state.left().annex is Some,
        state.left().can_release(),
        state.left().releasing().is_unreferenced(),
        state.left().released().annex is None,
        state.left().released().disposed == state.annex->0.dispose_on_drop,
        state.left().released().entries == 0,
{
}

/// A new isolate is entered when it is constructed and exited when it is
/// unlocked, and goes with that, allocations and all, if no handle was made in
/// between. The engine frees it last, after everything else.
pub proof fn new_isolate_goes_when_unlocked<V, M>(
    created: Created,
    allocations: Option<V>,
    finalizer_map: M,
)
    requires
        created.isolate != 0,
        created.data_slots > INTERNAL_SLOT_COUNT,
        created.annex != 0,
    ensures
        ({
            let state = IsolateState::bare(created).with_new_annex(
                allocations,
                true,
                true,
                created.annex,
                finalizer_map,
            ).locking().locked();
            &&& state.wf()
            &&& state.entries == 1
            &&& state.can_leave()
            &&& state.left().can_release()
            &&& state.left().releasing().is_unreferenced()
            &&& state.left().released().entries == 0
            &&& state.left().released().disposed
            &&& state.unlock_commands() + state.left().releasing().teardown_before()
                + state.left().releasing().teardown_after() == seq![
                Command::UnwindToRootScope { isolate: created.isolate },
                Command::Exit { isolate: created.isolate },
                Command::LockerDestruct { isolate: created.isolate },
                Command::DropRootScope { isolate: created.isolate },
                Command::SetData {
                    isolate: created.isolate,
                    slot: INTERNAL_SLOT_COUNT,
                    data: 0,
                },
                Command::Dispose { isolate: created.isolate },
            ]
        }),
{
    let state = IsolateState::bare(created).with_new_annex(
        allocations,
        true,
        true,
        created.annex,
        finalizer_map,
    ).locking().locked();
    assert(resets(Seq::empty()) =~= Seq::<Command>::empty());
    assert(state.unlock_commands() + state.left().releasing().teardown_before()
        + state.left().releasing().teardown_after() =~= seq![
        Command::UnwindToRootScope { isolate: created.isolate },
        Command::Exit { isolate: created.isolate },
        Command::LockerDestruct { isolate: created.isolate },
        Command::DropRootScope { isolate: created.isolate },
        Command::SetData { isolate: created.isolate, slot: INTERNAL_SLOT_COUNT, data: 0 },
        Command::Dispose { isolate: created.isolate },
    ]);
}

/// A handle keeps its isolate: while there is one, neither unlocking nor the
/// end of the isolate's reference to itself, nor the drop of another handle,
/// tears the isolate down.
pub proof fn handle_keeps_isolate<V, M>(state: IsolateState<V, M>)
    requires
        state.wf(),
        state.annex is Some,
        state.annex->0.handles > 0,
    ensures
        !state.disposed,
        state.annex->0.lockers > 0 ==> state.released().annex is Some,
        state.with_annex(state.annex->0.disowned()).settled().annex is Some,
        state.annex->0.handles > 1 ==> state.with_annex(
            state.annex->0.without_handle(),
        ).settled().annex is Some,
{
}

/// A locker keeps its isolate, from when it begins to wait for the engine's
/// lock: dropping handles does not tear the isolate down.
pub proof fn locker_keeps_isolate<V, M>(state: IsolateState<V, M>)
    requires
        state.wf(),
        state.annex is Some,
        state.annex->0.lockers > 0,
    ensures
        !state.disposed,
        state.annex->0.handles > 0 ==> state.with_annex(
            state.annex->0.without_handle(),
        ).settled().annex is Some,
        state.annex->0.lockers > 1 ==> state.released().annex is Some,
{
}

/// A weak reference counts as one, and not as anything else: making one leaves
/// alone what keeps the isolate and everything else, and dropping it undoes
/// that. Turning it into a counted reference leaves the weak one.
pub proof fn weak_reference_does_not_keep_isolate<V, M>(state: IsolateState<V, M>)
    requires
        state.wf(),
        state.annex is Some,
    ensures
        ({
            let annex = state.annex->0;
            &&& annex.with_weak().weaks == annex.weaks + 1
            &&& annex.with_weak().references() == annex.references()
            &&& annex.with_weak() == (AnnexState { weaks: annex.weaks + 1, ..annex })
            &&& annex.with_weak().without_weak() == annex
            &&& annex.with_weak().with_handle().weaks == annex.with_weak().weaks
            &&& state.with_annex(annex.with_weak()).wf()
            &&& state.with_annex(annex.with_weak().without_handle()).is_unreferenced()
                == state.with_annex(annex.without_handle()).is_unreferenced()
        }),
{
}

/// Dropping a handle undoes making it.
pub proof fn dropping_a_handle_undoes_making_it<V, M>(state: IsolateState<V, M>)
    requires
        state.wf(),
        state.annex is Some,
    ensures
        ({
            let made = state.with_annex(state.annex->0.with_handle());
            made.with_annex(made.annex->0.without_handle()).settled() == state
        }),
{
}

/// The isolate after `count` of its handles have been dropped, one after the
/// other.
pub open spec fn after_drops<V, M>(state: IsolateState<V, M>, count: nat) -> IsolateState<V, M>
    decreases count,
{
    if count == 0 {
        state
    } else {
        let before = after_drops(state, (count - 1) as nat);
        before.with_annex(before.annex->0.without_handle()).settled()
    }
}

/// When all handles have been dropped, the isolate is finally disposed, and not
/// before: of an unlocked isolate that does not refer to itself, each handle
/// but the last one leaves the isolate as it is, and the last one tears it
/// down.
pub proof fn isolate_goes_with_its_last_handle<V, M>(state: IsolateState<V, M>, count: nat)
    requires
        state.wf(),
        state.annex is Some,
        !state.annex->0.owned,
        state.annex->0.lockers == 0,
        count <= state.annex->0.handles,
    ensures
        count < state.annex->0.handles ==> after_drops(state, count) == state.with_annex(
            AnnexState { handles: (state.annex->0.handles - count) as nat, ..state.annex->0 },
        ),
        count == state.annex->0.handles ==> {
            &&& after_drops(state, count).annex is None
            &&& after_drops(state, count).disposed == state.annex->0.dispose_on_drop
        },
    decreases count,
{
    if count > 0 {
        isolate_goes_with_its_last_handle(state, (count - 1) as nat);
    }
}

/// An isolate that was created for a handle is one that goes with its last
/// handle.
pub proof fn handle_isolate_is_kept_by_its_handle<V, M>(
    created: Created,
    allocations: Option<V>,
    finalizer_map: M,
)
    requires
        created.isolate != 0,
        created.data_slots > INTERNAL_SLOT_COUNT,
        created.annex != 0,
    ensures
        ({
            let fresh = IsolateState::bare(created).with_new_annex(
                allocations,
                true,
                false,
                created.annex,
                finalizer_map,
            );
            let state = fresh.with_annex(fresh.annex->0.with_handle().disowned());
            &&& state.wf()
            &&& state.annex->0.references() == 1
            &&& after_drops(state, 1).disposed
        }),
{
    reveal_with_fuel(after_drops, 2);
}

/// A teardown frees the isolate at the very end if it frees it at all, and
/// clears the first of the embedder's data slots; afterwards there is no scope, and no annex
/// left to be locked, referred to or torn down again.
pub proof fn teardown_is_final<V, M>(state: IsolateState<V, M>)
    requires
        state.data.len() > INTERNAL_SLOT_COUNT,
        state.address != 0,
        state.data.len() <= u32::MAX,
        !state.disposed,
        state.is_unreferenced(),
    ensures
        state.settled().wf(),
        state.settled().annex is None,
        !state.settled().is_unreferenced(),
        state.settled().settled() == state.settled(),
        state.settled().embedder_data(0) == 0,
        state.settled().scope_data() is None,
        state.settled().data[ANNEX_SLOT as int] == state.data[ANNEX_SLOT as int],
        state.settled().disposed == state.annex->0.dispose_on_drop,
        state.teardown_before()[0] == (Command::DropRootScope { isolate: state.address }),
        state.settled().disposed ==> state.teardown_after().last() == (Command::Dispose {
            isolate: state.address,
        }),
        !state.settled().disposed ==> !state.teardown_after().contains(
            Command::Dispose { isolate: state.address },
        ),
{
}

// Numbers

/// The engine's numbers tell the members of each enumeration apart.
pub proof fn numbers_are_distinct(
    p: MicrotasksPolicy,
    q: MicrotasksPolicy,
    h: PromiseHookType,
    k: PromiseHookType,
    s: WasmAsyncSuccess,
    t: WasmAsyncSuccess,
)
    ensures
        p.number() == q.number() ==> p == q,
        h.number() == k.number() ==> h == k,
        s.number() == t.number() ==> s == t,
{
}

} // verus!
