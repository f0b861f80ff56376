//! How the engine's side of an isolate follows the host's over whole histories:
//! the engine's lock, its entries and its data slots, and what is kept for it.

use crate::command::Command;
use crate::effects::{
    leaving_gives_the_lock_back_last, teardown_misses_nothing, unlocker_gives_the_lock_up_last,
};
use crate::history::{history_keeps_the_invariant, Operation};
use crate::isolate::{IsolateState, Teardown};
use vstd::prelude::*;

verus! {

// What the commands amount to for the engine

/// How often the commands take the engine's lock for a locker, less how often
/// they give such a lock back.
pub open spec fn locker_balance(commands: Seq<Command>) -> int
    decreases commands.len(),
{
    if commands.len() == 0 {
        0
    } else {
        locker_balance(commands.drop_last()) + match commands.last() {
            Command::LockerConstruct { .. } => 1int,
            Command::LockerDestruct { .. } => -1int,
            _ => 0int,
        }
    }
}

/// How often the commands give the engine's lock up for an unlocker, less how
/// often they take it again.
pub open spec fn unlocker_balance(commands: Seq<Command>) -> int
    decreases commands.len(),
{
    if commands.len() == 0 {
        0
    } else {
        unlocker_balance(commands.drop_last()) + match commands.last() {
            Command::UnlockerConstruct { .. } => 1int,
            Command::UnlockerDestruct { .. } => -1int,
            _ => 0int,
        }
    }
}

/// How often the commands take the engine's lock, less how often they give it
/// away, by lockers and unlockers alike.
pub open spec fn lock_balance(commands: Seq<Command>) -> int {
    locker_balance(commands) - unlocker_balance(commands)
}

/// The engine's data slots after the commands. The end of the scope stack
/// leaves no current scope.
pub open spec fn engine_data(data: Seq<usize>, commands: Seq<Command>) -> Seq<usize>
    decreases commands.len(),
{
    if commands.len() == 0 {
        data
    } else {
        let before = engine_data(data, commands.drop_last());
        match commands.last() {
            Command::SetData { slot, data: word, .. } => before.update(slot as int, word),
            Command::DropRootScope { .. } => before.update(1, 0),
            _ => before,
        }
    }
}

/// Whether the command, if it is one of those that keep an isolate going, is
/// about the isolate at the given address.
pub open spec fn is_about(command: Command, address: usize) -> bool {
    match command {
        Command::Dispose { isolate } => isolate == address,
        Command::SetData { isolate, .. } => isolate == address,
        Command::Enter { isolate } => isolate == address,
        Command::Exit { isolate } => isolate == address,
        Command::SetHostCreateShadowRealmContextCallback { isolate, .. } => isolate == address,
        Command::LockerConstruct { isolate } => isolate == address,
        Command::LockerDestruct { isolate } => isolate == address,
        Command::UnlockerConstruct { isolate } => isolate == address,
        Command::UnlockerDestruct { isolate } => isolate == address,
        Command::UnwindToRootScope { isolate } => isolate == address,
        Command::DropRootScope { isolate } => isolate == address,
        Command::ResetGlobal { .. } => true,
        _ => false,
    }
}

// What the operations amount to

/// By how much the operations change the number of lockers that have been made
/// and not been dropped.
pub open spec fn lockers_held<V, M>(operations: Seq<Operation<V, M>>) -> int
    decreases operations.len(),
{
    if operations.len() == 0 {
        0
    } else {
        lockers_held(operations.drop_last()) + match operations.last() {
            Operation::Lock => 1int,
            Operation::Leave => -1int,
            _ => 0int,
        }
    }
}

/// By how much the operations change the number of unlockers that have been
/// made and not been dropped.
pub open spec fn unlockers_held<V, M>(operations: Seq<Operation<V, M>>) -> int
    decreases operations.len(),
{
    if operations.len() == 0 {
        0
    } else {
        unlockers_held(operations.drop_last()) + match operations.last() {
            Operation::Suspend => 1int,
            Operation::Relock => -1int,
            _ => 0int,
        }
    }
}

/// How often the operations enter the isolate, less how often they exit it.
pub open spec fn entries_made<V, M>(operations: Seq<Operation<V, M>>) -> int
    decreases operations.len(),
{
    if operations.len() == 0 {
        0
    } else {
        entries_made(operations.drop_last()) + match operations.last() {
            Operation::FinishLock => 1int,
            Operation::Resume => 1int,
            Operation::Enter => 1int,
            Operation::Leave => -1int,
            Operation::Suspend => -1int,
            Operation::Exit => -1int,
            _ => 0int,
        }
    }
}

/// The value in a slot after the operations: what was last put there, or what
/// was there before.
pub open spec fn last_put<V, M>(
    before: Option<V>,
    operations: Seq<Operation<V, M>>,
    key: u64,
) -> Option<V>
    decreases operations.len(),
{
    if operations.len() == 0 {
        before
    } else {
        let earlier = last_put(before, operations.drop_last(), key);
        match operations.last() {
            Operation::SetSlot { key: k, value } if k == key => Some(value),
            Operation::SetShadowRealmCallback { key: k, callback, .. } if k == key => Some(
                callback,
            ),
            Operation::RemoveSlot { key: k } if k == key => None,
            _ => earlier,
        }
    }
}

// Sequences of commands

proof fn locks_concat(a: Seq<Command>, b: Seq<Command>)
    ensures
        locker_balance(a + b) == locker_balance(a) + locker_balance(b),
        unlocker_balance(a + b) == unlocker_balance(a) + unlocker_balance(b),
    decreases b.len(),
{
    if b.len() == 0 {
        assert(a + b =~= a);
    } else {
        assert((a + b).drop_last() =~= a + b.drop_last());
        locks_concat(a, b.drop_last());
    }
}

proof fn engine_data_concat(data: Seq<usize>, a: Seq<Command>, b: Seq<Command>)
    ensures
        engine_data(data, a + b) == engine_data(engine_data(data, a), b),
    decreases b.len(),
{
    if b.len() == 0 {
        assert(a + b =~= a);
    } else {
        assert((a + b).drop_last() =~= a + b.drop_last());
        engine_data_concat(data, a, b.drop_last());
    }
}

proof fn no_locks(commands: Seq<Command>)
    requires
        forall|i: int|
            0 <= i < commands.len() ==> !(#[trigger] commands[i] is LockerConstruct)
                && !(commands[i] is LockerDestruct) && !(commands[i] is UnlockerConstruct)
                && !(commands[i] is UnlockerDestruct),
    ensures
        locker_balance(commands) == 0,
        unlocker_balance(commands) == 0,
    decreases commands.len(),
{
    if commands.len() > 0 {
        no_locks(commands.drop_last());
    }
}

proof fn no_data(data: Seq<usize>, commands: Seq<Command>)
    requires
        forall|i: int|
            0 <= i < commands.len() ==> !(#[trigger] commands[i] is SetData)
                && !(commands[i] is DropRootScope),
    ensures
        engine_data(data, commands) == data,
    decreases commands.len(),
{
    if commands.len() > 0 {
        no_data(data, commands.drop_last());
    }
}

// The engine's lock

/// What one operation does to the engine's lock: a locker takes it when it
/// begins and gives it back when it ends, an unlocker gives it up and takes it
/// again, whatever is marked for disposal, and nothing else touches it.
pub proof fn operations_take_and_give_the_lock<V, M>(
    state: IsolateState<V, M>,
    operation: Operation<V, M>,
)
    requires
        state.wf(),
        state.allows(operation),
    ensures
        locker_balance(state.commands(operation)) == match operation {
            Operation::Lock => 1int,
            Operation::Leave => -1int,
            _ => 0int,
        },
        unlocker_balance(state.commands(operation)) == match operation {
            Operation::Suspend => 1int,
            Operation::Relock => -1int,
            _ => 0int,
        },
        operation is Lock ==> state.commands(operation).last() == (Command::LockerConstruct {
            isolate: state.address,
        }),
        operation is Leave ==> state.commands(operation).last() == (Command::LockerDestruct {
            isolate: state.address,
        }),
        operation is Suspend ==> state.commands(operation).last() == (Command::UnlockerConstruct {
            isolate: state.address,
        }),
        operation is Relock ==> state.commands(operation).last() == (Command::UnlockerDestruct {
            isolate: state.address,
        }),
{
    let commands = state.commands(operation);
    match operation {
        Operation::Lock | Operation::Relock => {
            no_locks(commands.drop_last());
        },
        Operation::Leave => {
            leaving_gives_the_lock_back_last(state, 0);
            no_locks(commands.drop_last());
        },
        Operation::Suspend => {
            unlocker_gives_the_lock_up_last(state, 0);
            no_locks(commands.drop_last());
        },
        _ => {
            no_locks(commands);
        },
    }
}

/// In any history the engine's lock follows the critical sections: it has been
/// taken, and not given back, once for each locker that has been made and not
/// been dropped, and given up once for each unlocker that has been made and not
/// been dropped.
pub proof fn lock_follows_the_critical_sections<V, M>(
    state: IsolateState<V, M>,
    operations: Seq<Operation<V, M>>,
)
    requires
        state.wf(),
        state.allows_all(operations),
    ensures
        locker_balance(state.trace(operations)) == lockers_held(operations),
        unlocker_balance(state.trace(operations)) == unlockers_held(operations),
        lock_balance(state.trace(operations)) == lockers_held(operations) - unlockers_held(
            operations,
        ),
    decreases operations.len(),
{
    if operations.len() > 0 {
        let earlier = operations.drop_last();
        let before = state.run(earlier);
        history_keeps_the_invariant(state, earlier);
        lock_follows_the_critical_sections(state, earlier);
        operations_take_and_give_the_lock(before, operations.last());
        locks_concat(state.trace(earlier), before.commands(operations.last()));
    }
}

/// In any history the isolate is entered once for each locker and each unlocker
/// that has got the lock, and for each plain entry, less the exits.
pub proof fn entries_follow_the_operations<V, M>(
    state: IsolateState<V, M>,
    operations: Seq<Operation<V, M>>,
)
    requires
        state.wf(),
        state.allows_all(operations),
    ensures
        state.run(operations).entries == state.entries + entries_made(operations),
    decreases operations.len(),
{
    if operations.len() > 0 {
        entries_follow_the_operations(state, operations.drop_last());
    }
}

// The engine's data slots

proof fn data_step<V, M>(state: IsolateState<V, M>, operation: Operation<V, M>)
    requires
        state.wf(),
        state.allows(operation),
    ensures
        engine_data(state.data, state.commands(operation)) == state.next(operation).data,
{
    let commands = state.commands(operation);
    let unsettled = state.unsettled(operation);
    match operation {
        Operation::DropHandle | Operation::DropAnnex | Operation::Release => {
            if unsettled.is_unreferenced() {
                let before = unsettled.teardown_before();
                let after = unsettled.teardown_after();
                let first = before.take(1);
                let rest = before.skip(1);
                assert(before =~= first + rest);
                engine_data_concat(state.data, before, after);
                engine_data_concat(state.data, first, rest);
                reveal_with_fuel(engine_data, 4);
                assert(first.drop_last() =~= Seq::<Command>::empty());
                no_data(engine_data(state.data, first), rest);
                assert(after.len() == 2 ==> after.drop_last().drop_last() =~= Seq::<
                    Command,
                >::empty());
                assert(after.len() == 1 ==> after.drop_last() =~= Seq::<Command>::empty());
            }
        },
        Operation::CreateAnnex { .. } | Operation::SetData { .. } | Operation::SetScopeData {
            ..
        } => {
            reveal_with_fuel(engine_data, 2);
            assert(commands.drop_last() =~= Seq::<Command>::empty());
        },
        _ => {
            no_data(state.data, commands);
        },
    }
}

/// In any history the engine's data slots hold what the host's do: every word
/// goes to the engine as it is kept, in the slot in which it is kept.
pub proof fn engine_keeps_the_same_words<V, M>(
    state: IsolateState<V, M>,
    operations: Seq<Operation<V, M>>,
)
    requires
        state.wf(),
        state.allows_all(operations),
    ensures
        engine_data(state.data, state.trace(operations)) == state.run(operations).data,
    decreases operations.len(),
{
    if operations.len() > 0 {
        let earlier = operations.drop_last();
        let before = state.run(earlier);
        history_keeps_the_invariant(state, earlier);
        engine_keeps_the_same_words(state, earlier);
        data_step(before, operations.last());
        engine_data_concat(state.data, state.trace(earlier), before.commands(operations.last()));
    }
}

/// In any history every command is about the isolate whose history it is.
pub proof fn commands_are_about_one_isolate<V, M>(
    state: IsolateState<V, M>,
    operations: Seq<Operation<V, M>>,
)
    requires
        state.wf(),
        state.allows_all(operations),
    ensures
        state.run(operations).address == state.address,
        forall|i: int|
            0 <= i < state.trace(operations).len() ==> is_about(
                #[trigger] state.trace(operations)[i],
                state.address,
            ),
    decreases operations.len(),
{
    if operations.len() > 0 {
        let earlier = operations.drop_last();
        let before = state.run(earlier);
        commands_are_about_one_isolate(state, earlier);
        let commands = before.commands(operations.last());
        assert forall|i: int| 0 <= i < commands.len() implies is_about(
            #[trigger] commands[i],
            state.address,
        ) by {}
        assert(state.trace(operations) == state.trace(earlier) + commands);
    }
}

// What is kept

proof fn keeping_step<V, M>(state: IsolateState<V, M>, operation: Operation<V, M>, key: u64)
    requires
        state.wf(),
        state.annex is Some,
        state.allows(operation),
    ensures
        state.next(operation).data[0] == state.data[0],
        state.next(operation).annex matches Some(annex) ==> {
            &&& annex.allocations == state.annex->0.allocations
            &&& annex.dispose_on_drop == state.annex->0.dispose_on_drop
            &&& annex.dispose_on_unlock == state.annex->0.dispose_on_unlock
            &&& annex.isolate == state.annex->0.isolate
            &&& annex.slot(key) == last_put(state.annex->0.slot(key), seq![operation], key)
        },
{
    reveal_with_fuel(last_put, 2);
    assert(seq![operation].drop_last() =~= Seq::<Operation<V, M>>::empty());
}

proof fn no_new_annex_step<V, M>(state: IsolateState<V, M>, operation: Operation<V, M>)
    requires
        state.wf(),
        state.data[0] != 0,
        state.allows(operation),
    ensures
        state.next(operation).data[0] == state.data[0],
        state.annex is None ==> state.next(operation).annex is None,
{
}

/// In any history, for as long as the annex is there, it keeps the allocations
/// and the flags that it was given, and each slot holds what was last put there.
pub proof fn annex_keeps_what_it_was_given<V, M>(
    state: IsolateState<V, M>,
    operations: Seq<Operation<V, M>>,
    key: u64,
)
    requires
        state.wf(),
        state.annex is Some,
        state.allows_all(operations),
    ensures
        state.run(operations).data[0] == state.data[0],
        state.run(operations).annex matches Some(annex) ==> {
            &&& annex.allocations == state.annex->0.allocations
            &&& annex.dispose_on_drop == state.annex->0.dispose_on_drop
            &&& annex.dispose_on_unlock == state.annex->0.dispose_on_unlock
            &&& annex.isolate == state.annex->0.isolate
            &&& annex.slot(key) == last_put(state.annex->0.slot(key), operations, key)
        },
    decreases operations.len(),
{
    if operations.len() > 0 {
        let earlier = operations.drop_last();
        let before = state.run(earlier);
        history_keeps_the_invariant(state, earlier);
        annex_keeps_what_it_was_given(state, earlier, key);
        no_new_annex_step(before, operations.last());
        if before.annex is Some {
            keeping_step(before, operations.last(), key);
            reveal_with_fuel(last_put, 2);
            let last = seq![operations.last()];
            assert(last.drop_last() =~= Seq::<Operation<V, M>>::empty());
        }
    }
}

/// What the creation parameters keep allocated lives as long as the isolate that
/// was created with them, whatever its flags: it stays in the annex through any
/// history, and the teardown hands it out, along with what was last put into each
/// slot.
pub proof fn allocations_live_until_the_teardown<V, M>(
    bare: IsolateState<V, M>,
    allocations: Option<V>,
    dispose_on_drop: bool,
    dispose_on_unlock: bool,
    address: usize,
    finalizer_map: M,
    operations: Seq<Operation<V, M>>,
    last: Operation<V, M>,
    teardown: Teardown<V, M>,
    key: u64,
)
    requires
        bare.wf(),
        bare.allows(
            Operation::CreateAnnex {
                allocations,
                dispose_on_drop,
                dispose_on_unlock,
                address,
                finalizer_map,
            },
        ),
        ({
            let state = bare.with_new_annex(
                allocations,
                dispose_on_drop,
                dispose_on_unlock,
                address,
                finalizer_map,
            );
            &&& state.allows_all(operations)
            &&& state.run(operations).allows(last)
            &&& last is DropHandle || last is DropAnnex || last is Release
            &&& state.run(operations).unsettled(last).settles_as(Some(teardown))
        }),
    ensures
        teardown.create_param_allocations == allocations,
        dispose_on_drop <==> teardown.after@.last() == (Command::Dispose {
            isolate: bare.address,
        }),
        ({
            let put = last_put(None::<V>, operations, key);
            &&& teardown.slots@.dom().contains(key) <==> put is Some
            &&& put matches Some(value) ==> teardown.slots@[key]@ == value
        }),
{
    let state = bare.with_new_annex(
        allocations,
        dispose_on_drop,
        dispose_on_unlock,
        address,
        finalizer_map,
    );
    assert(bare.data[0] == 0);
    assert(state.wf());
    history_keeps_the_invariant(state, operations);
    annex_keeps_what_it_was_given(state, operations, key);
    commands_are_about_one_isolate(state, operations);
    let end = state.run(operations);
    assert(state.annex->0.slot(key) is None);
    teardown_misses_nothing(end.unsettled(last), Some(teardown), key, 0);
}

} // verus!
