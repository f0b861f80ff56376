use v8_isolate::{
    Command, CreateParams, Created, Isolate, IsolateHandle, Locker, RawCreateParams, Teardown,
    Unlocker,
};

type Host = Isolate<String, ()>;

const ISOLATE: usize = 0x1000;

fn created() -> Created {
    Created { isolate: ISOLATE, data_slots: 4, annex: 0x2000 }
}

fn lock(handle: &mut IsolateHandle, isolate: &mut Host) -> (Locker, Vec<Command>) {
    let (locking, command) = handle.lock(isolate);
    let (locker, commands) = locking.finish(isolate);
    (locker, [vec![command], commands].concat())
}

fn relock(unlocker: Unlocker, isolate: &mut Host) -> Vec<Command> {
    let (relocking, command) = unlocker.drop();
    [vec![command], relocking.finish(isolate)].concat()
}

fn unlock(locker: Locker, isolate: &mut Host) -> Option<Teardown<String, ()>> {
    let (unlocking, _) = locker.drop(isolate);
    unlocking.finish(isolate)
}

#[test]
fn default_params_ask_for_the_engine_defaults() {
    let (commands, allocations) = Host::request(Host::create_params());
    assert_eq!(commands, vec![Command::AssertInitialized, Command::New { params: 0 }]);
    assert_eq!(allocations, None);
}

#[test]
fn params_are_handed_over_with_their_allocations() {
    let params =
        CreateParams::from_parts(RawCreateParams { block: 0x300 }, Some("blob".to_string()));
    let (commands, allocations) = Host::request(params);
    assert_eq!(commands, vec![Command::AssertInitialized, Command::New { params: 0x300 }]);
    assert_eq!(allocations, Some("blob".to_string()));
}

#[test]
fn new_isolate_comes_locked_and_entered() {
    let (isolate, locker, commands) = Host::new(None, created());
    assert_eq!(
        commands,
        vec![
            Command::NewRootScope { isolate: ISOLATE },
            Command::SetData { isolate: ISOLATE, slot: 0, data: 0x2000 },
            Command::LockerConstruct { isolate: ISOLATE },
            Command::Enter { isolate: ISOLATE },
        ]
    );
    assert_eq!(locker.get_isolate_ptr(), ISOLATE);
    assert_eq!(isolate.get_isolate_ptr(), ISOLATE);
    assert!(isolate.is_entered());
    assert!(isolate.has_annex());
    assert!(!isolate.is_disposed());
}

#[test]
fn new_isolate_goes_when_unlocked() {
    let (mut isolate, locker, _) = Host::new(Some("blob".to_string()), created());
    isolate.set_slot(4, "value".to_string());
    assert!(isolate.can_leave());
    let (unlocking, commands) = locker.drop(&mut isolate);
    assert_eq!(
        commands,
        vec![
            Command::UnwindToRootScope { isolate: ISOLATE },
            Command::Exit { isolate: ISOLATE },
            Command::LockerDestruct { isolate: ISOLATE },
        ]
    );
    assert!(isolate.has_annex());
    assert!(!isolate.is_entered());
    assert!(isolate.can_release());
    let teardown = unlocking.finish(&mut isolate).unwrap();
    assert_eq!(teardown.before, vec![Command::DropRootScope { isolate: ISOLATE }]);
    assert_eq!(teardown.create_param_allocations, Some("blob".to_string()));
    assert_eq!(teardown.slots.len(), 1);
    assert_eq!(teardown.slots[&4].borrow(), "value");
    assert_eq!(
        teardown.after,
        vec![
            Command::SetData { isolate: ISOLATE, slot: 2, data: 0 },
            Command::Dispose { isolate: ISOLATE },
        ]
    );
    assert!(isolate.is_disposed());
    assert!(!isolate.has_annex());
    assert!(!isolate.is_entered());
    assert!(!isolate.can_lock());
    assert!(!isolate.can_make_handle());
}

#[test]
fn handle_keeps_isolate_beyond_its_locker() {
    let (mut isolate, locker, _) = Host::new(None, created());
    let handle = isolate.thread_safe_handle();
    assert!(unlock(locker, &mut isolate).is_none());
    assert!(!isolate.is_disposed());
    assert!(isolate.can_drop_handle());
    assert!(handle.drop(&mut isolate).is_some());
    assert!(isolate.is_disposed());
}

#[test]
fn relocking_after_the_owner_has_unlocked_does_not_release_handles() {
    let (mut isolate, locker, _) = Host::new(None, created());
    let mut first = isolate.thread_safe_handle();
    let second = first.clone(&mut isolate);
    assert!(unlock(locker, &mut isolate).is_none());
    let (again, _) = lock(&mut first, &mut isolate);
    assert!(unlock(again, &mut isolate).is_none());
    assert!(first.drop(&mut isolate).is_none());
    assert!(second.drop(&mut isolate).is_some());
}

#[test]
fn isolate_goes_with_its_last_handle() {
    let (mut isolate, first, commands) = Host::new_handle(None, created());
    assert_eq!(
        commands,
        vec![
            Command::NewRootScope { isolate: ISOLATE },
            Command::SetData { isolate: ISOLATE, slot: 0, data: 0x2000 },
        ]
    );
    let second = first.clone(&mut isolate);
    let third = isolate.thread_safe_handle();
    assert_eq!(third.get_isolate_ptr(), ISOLATE);
    assert!(second.drop(&mut isolate).is_none());
    assert!(first.drop(&mut isolate).is_none());
    assert!(!isolate.is_disposed());
    let teardown = third.drop(&mut isolate).unwrap();
    assert_eq!(teardown.after.last(), Some(&Command::Dispose { isolate: ISOLATE }));
    assert!(isolate.is_disposed());
}

#[test]
fn handle_isolate_survives_unlocking() {
    let (mut isolate, mut handle, _) = Host::new_handle(None, created());
    let (locker, commands) = lock(&mut handle, &mut isolate);
    assert_eq!(
        commands,
        vec![
            Command::LockerConstruct { isolate: ISOLATE },
            Command::Enter { isolate: ISOLATE },
        ]
    );
    assert!(unlock(locker, &mut isolate).is_none());
    assert!(isolate.has_annex());
    assert!(handle.drop(&mut isolate).is_some());
}

#[test]
fn locker_keeps_isolate() {
    let (mut isolate, mut handle, _) = Host::new_handle(None, created());
    let (locker, _) = lock(&mut handle, &mut isolate);
    assert!(handle.drop(&mut isolate).is_none());
    assert!(!isolate.is_disposed());
    assert!(unlock(locker, &mut isolate).is_some());
    assert!(isolate.is_disposed());
}

#[test]
fn inner_locker_does_not_dispose() {
    let (mut isolate, outer, _) = Host::new(None, created());
    let mut handle = isolate.thread_safe_handle();
    let (inner, _) = lock(&mut handle, &mut isolate);
    assert!(handle.drop(&mut isolate).is_none());
    assert!(unlock(inner, &mut isolate).is_none());
    assert!(isolate.is_entered());
    assert!(unlock(outer, &mut isolate).is_some());
}

#[test]
fn some_isolates_must_not_be_disposed() {
    let mut isolate = Host::adopt(created());
    assert!(!isolate.has_annex());
    assert_eq!(
        isolate.create_annex(None, false, false, 0x2000),
        Command::SetData { isolate: ISOLATE, slot: 0, data: 0x2000 }
    );
    let (locking, _) = Locker::new(&mut isolate);
    let (locker, _) = locking.finish(&mut isolate);
    assert!(unlock(locker, &mut isolate).is_none());
    let teardown = isolate.drop_annex().unwrap();
    assert_eq!(teardown.after, vec![Command::SetData { isolate: ISOLATE, slot: 2, data: 0 }]);
    assert!(!isolate.is_disposed());
    assert!(!isolate.has_annex());
}

#[test]
fn weak_reference_does_not_keep_isolate() {
    let (mut isolate, handle, _) = Host::new_handle(None, created());
    let weak = isolate.get_annex_weak();
    assert_eq!(weak.get_isolate_ptr(), ISOLATE);
    assert!(handle.drop(&mut isolate).is_some());
}

#[test]
fn weak_reference_is_upgraded_while_the_annex_is_there() {
    let (mut isolate, handle, _) = Host::new_handle(None, created());
    let weak = isolate.get_annex_weak();
    let counted = weak.upgrade(&mut isolate).unwrap();
    assert_eq!(counted.get_isolate_ptr(), ISOLATE);
    assert!(handle.drop(&mut isolate).is_none());
    assert!(isolate.has_annex());
    assert!(isolate.release_annex_arc(counted).is_some());
    assert!(!isolate.has_annex());
    assert!(weak.upgrade(&mut isolate).is_none());
}

#[test]
fn marked_data_is_freed_when_the_isolate_goes() {
    let (mut isolate, handle, _) = Host::new_handle(None, created());
    isolate.mark_handle_data_for_disposal(0xa0);
    isolate.mark_handle_data_for_disposal(0xb0);
    let teardown = handle.drop(&mut isolate).unwrap();
    assert_eq!(
        teardown.before,
        vec![
            Command::DropRootScope { isolate: ISOLATE },
            Command::ResetGlobal { data: 0xa0 },
            Command::ResetGlobal { data: 0xb0 },
        ]
    );
    assert_eq!(
        teardown.after,
        vec![
            Command::SetData { isolate: ISOLATE, slot: 2, data: 0 },
            Command::Dispose { isolate: ISOLATE },
        ]
    );
}

#[test]
fn data_marked_while_the_lock_is_being_given_back_is_freed() {
    let (mut isolate, locker, _) = Host::new(None, created());
    let (unlocking, _) = locker.drop(&mut isolate);
    isolate.mark_handle_data_for_disposal(0xc0);
    let teardown = unlocking.finish(&mut isolate).unwrap();
    assert_eq!(
        teardown.before,
        vec![Command::DropRootScope { isolate: ISOLATE }, Command::ResetGlobal { data: 0xc0 }]
    );
}

#[test]
fn teardown_leaves_no_scope_and_frees_marked_data_of_an_isolate_that_is_not_disposed() {
    let mut isolate = Host::adopt(created());
    isolate.create_annex(None, false, false, 0x2000);
    isolate.set_current_scope_data(Some(0x500));
    isolate.set_data(0, 7);
    isolate.mark_handle_data_for_disposal(0xd0);
    let teardown = isolate.drop_annex().unwrap();
    assert_eq!(
        teardown.before,
        vec![Command::DropRootScope { isolate: ISOLATE }, Command::ResetGlobal { data: 0xd0 }]
    );
    assert!(!isolate.is_disposed());
    assert_eq!(isolate.get_current_scope_data(), None);
    assert_eq!(isolate.get_data(0), 0);
}

#[test]
fn marked_data_is_freed_once_when_locked() {
    let (mut isolate, mut handle, _) = Host::new_handle(None, created());
    isolate.mark_handle_data_for_disposal(0xa0);
    isolate.mark_handle_data_for_disposal(0xb0);
    let (locker, commands) = lock(&mut handle, &mut isolate);
    assert_eq!(
        commands,
        vec![
            Command::LockerConstruct { isolate: ISOLATE },
            Command::ResetGlobal { data: 0xa0 },
            Command::ResetGlobal { data: 0xb0 },
            Command::Enter { isolate: ISOLATE },
        ]
    );
    let (_, commands) = locker.drop(&mut isolate);
    assert_eq!(
        commands,
        vec![
            Command::UnwindToRootScope { isolate: ISOLATE },
            Command::Exit { isolate: ISOLATE },
            Command::LockerDestruct { isolate: ISOLATE },
        ]
    );
}

#[test]
fn data_marked_while_waiting_for_the_lock_is_freed_when_locked() {
    let (mut isolate, mut handle, _) = Host::new_handle(None, created());
    isolate.mark_handle_data_for_disposal(0xa0);
    assert!(isolate.can_lock());
    assert!(!isolate.can_finish_lock());
    let (locking, command) = handle.lock(&mut isolate);
    assert_eq!(command, Command::LockerConstruct { isolate: ISOLATE });
    assert!(!isolate.is_entered());
    assert!(isolate.can_finish_lock());
    // Another thread marks an item, and this one waits for the lock.
    isolate.mark_handle_data_for_disposal(0xb0);
    let (_locker, commands) = locking.finish(&mut isolate);
    assert_eq!(
        commands,
        vec![
            Command::ResetGlobal { data: 0xa0 },
            Command::ResetGlobal { data: 0xb0 },
            Command::Enter { isolate: ISOLATE },
        ]
    );
    assert!(isolate.is_entered());
}

#[test]
fn data_marked_while_waiting_for_the_lock_again_is_freed_when_locked() {
    let (mut isolate, _locker, _) = Host::new(None, created());
    let (unlocker, _) = Unlocker::new(&mut isolate);
    let (relocking, command) = unlocker.drop();
    assert_eq!(command, Command::UnlockerDestruct { isolate: ISOLATE });
    isolate.mark_handle_data_for_disposal(0xc0);
    let commands = relocking.finish(&mut isolate);
    assert_eq!(
        commands,
        vec![Command::ResetGlobal { data: 0xc0 }, Command::Enter { isolate: ISOLATE }]
    );
}

#[test]
fn waiting_for_the_lock_keeps_isolate() {
    let (mut isolate, mut handle, _) = Host::new_handle(None, created());
    let (locking, _) = handle.lock(&mut isolate);
    assert!(handle.drop(&mut isolate).is_none());
    let (locker, _) = locking.finish(&mut isolate);
    assert!(unlock(locker, &mut isolate).is_some());
    assert!(isolate.is_disposed());
}

#[test]
fn weak_references_are_counted() {
    let (mut isolate, handle, _) = Host::new_handle(None, created());
    assert!(isolate.can_make_weak());
    assert!(!isolate.can_drop_weak());
    let first = isolate.get_annex_weak();
    let second = isolate.get_annex_weak();
    first.drop(&mut isolate);
    assert!(isolate.can_drop_weak());
    second.drop(&mut isolate);
    assert!(!isolate.can_drop_weak());
    let third = isolate.get_annex_weak();
    assert!(handle.drop(&mut isolate).is_some());
    assert!(!isolate.can_make_weak());
    assert!(isolate.can_drop_weak());
    third.drop(&mut isolate);
    assert!(!isolate.has_annex());
}

#[test]
fn marked_data_is_freed_when_unlocked() {
    let (mut isolate, mut handle, _) = Host::new_handle(None, created());
    let (locker, _) = lock(&mut handle, &mut isolate);
    isolate.mark_handle_data_for_disposal(0xc0);
    let (_, commands) = locker.drop(&mut isolate);
    assert_eq!(
        commands,
        vec![
            Command::UnwindToRootScope { isolate: ISOLATE },
            Command::ResetGlobal { data: 0xc0 },
            Command::Exit { isolate: ISOLATE },
            Command::LockerDestruct { isolate: ISOLATE },
        ]
    );
}

#[test]
fn unlocker_exits_and_enters_again() {
    let (mut isolate, locker, _) = Host::new(None, created());
    isolate.mark_handle_data_for_disposal(0xd0);
    let (unlocker, commands) = Unlocker::new(&mut isolate);
    assert_eq!(
        commands,
        vec![
            Command::ResetGlobal { data: 0xd0 },
            Command::Exit { isolate: ISOLATE },
            Command::UnlockerConstruct { isolate: ISOLATE },
        ]
    );
    assert!(!isolate.is_entered());
    assert!(!isolate.can_leave());
    isolate.mark_handle_data_for_disposal(0xe0);
    let commands = relock(unlocker, &mut isolate);
    assert_eq!(
        commands,
        vec![
            Command::UnlockerDestruct { isolate: ISOLATE },
            Command::ResetGlobal { data: 0xe0 },
            Command::Enter { isolate: ISOLATE },
        ]
    );
    assert!(isolate.is_entered());
    assert!(unlock(locker, &mut isolate).is_some());
}

#[test]
fn entering_and_exiting_are_counted() {
    let (mut isolate, _handle, _) = Host::new_handle(None, created());
    assert!(isolate.can_enter());
    assert_eq!(isolate.enter(), Command::Enter { isolate: ISOLATE });
    assert_eq!(isolate.enter(), Command::Enter { isolate: ISOLATE });
    assert!(!isolate.can_drop_handle());
    assert_eq!(isolate.exit(), Command::Exit { isolate: ISOLATE });
    assert!(isolate.is_entered());
    assert_eq!(isolate.exit(), Command::Exit { isolate: ISOLATE });
    assert!(!isolate.is_entered());
    assert!(isolate.can_drop_handle());
}

#[test]
fn locking_keeps_embedder_state() {
    let (mut isolate, mut handle, _) = Host::new_handle(None, created());
    isolate.set_slot(1, "kept".to_string());
    isolate.set_data(1, 12);
    let (locker, _) = lock(&mut handle, &mut isolate);
    let (unlocker, _) = Unlocker::new(&mut isolate);
    relock(unlocker, &mut isolate);
    unlock(locker, &mut isolate);
    assert_eq!(isolate.get_slot(1), Some(&"kept".to_string()));
    assert_eq!(isolate.get_data(1), 12);
}

#[test]
fn any_history_balances_and_disposes_once() {
    let (mut isolate, locker, mut trace) = Host::new(None, created());
    let mut handle = isolate.thread_safe_handle();
    isolate.mark_handle_data_for_disposal(0x11);
    let (unlocker, commands) = Unlocker::new(&mut isolate);
    trace.extend(commands);
    isolate.mark_handle_data_for_disposal(0x22);
    trace.extend(relock(unlocker, &mut isolate));
    let (inner, commands) = lock(&mut handle, &mut isolate);
    trace.extend(commands);
    isolate.mark_handle_data_for_disposal(0x33);
    let (unlocking, commands) = inner.drop(&mut isolate);
    trace.extend(commands);
    assert!(unlocking.finish(&mut isolate).is_none());
    let (unlocking, commands) = locker.drop(&mut isolate);
    trace.extend(commands);
    assert!(unlocking.finish(&mut isolate).is_none());
    isolate.mark_handle_data_for_disposal(0x44);
    let teardown = handle.drop(&mut isolate).unwrap();
    trace.extend(teardown.before);
    trace.extend(teardown.after);
    let enters = trace.iter().filter(|c| matches!(c, Command::Enter { .. })).count();
    let exits = trace.iter().filter(|c| matches!(c, Command::Exit { .. })).count();
    let disposals = trace.iter().filter(|c| matches!(c, Command::Dispose { .. })).count();
    assert_eq!(enters, 3);
    assert_eq!(exits, 3);
    assert_eq!(disposals, 1);
    assert_eq!(trace.last(), Some(&Command::Dispose { isolate: ISOLATE }));
    let freed: Vec<usize> = trace
        .iter()
        .filter_map(|c| match c {
            Command::ResetGlobal { data } => Some(*data),
            _ => None,
        })
        .collect();
    assert_eq!(freed, vec![0x11, 0x22, 0x33, 0x44]);
}

#[test]
fn isolate_is_kept_until_the_lock_has_been_given_back() {
    let (mut isolate, locker, _) = Host::new(None, created());
    let handle = isolate.thread_safe_handle();
    let (unlocking, _) = locker.drop(&mut isolate);
    // Another thread drops its handle while the lock is being given back.
    assert!(handle.drop(&mut isolate).is_none());
    assert!(isolate.has_annex());
    assert!(unlocking.finish(&mut isolate).is_some());
    assert!(isolate.is_disposed());
}
