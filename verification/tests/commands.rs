use v8_isolate::{
    context_address, deliver_chunk, prepare_stack_trace, Command, Created, HeapStatistics, Isolate,
    Locker, MicrotasksPolicy, PromiseHookType, WasmAsyncSuccess,
};

const ISOLATE: usize = 0x1000;

fn isolate() -> (Isolate<u8, ()>, Locker) {
    let created = Created { isolate: ISOLATE, data_slots: 4, annex: 0x2000 };
    let (isolate, locker, _) = Isolate::new(None, created);
    (isolate, locker)
}

#[test]
fn execution_is_terminated_through_isolate_or_handle_alike() {
    let (mut isolate, locker) = isolate();
    let handle = isolate.thread_safe_handle();
    assert_eq!(isolate.terminate_execution(), handle.terminate_execution());
    assert_eq!(handle.terminate_execution(), Command::TerminateExecution { isolate: ISOLATE });
    assert_eq!(isolate.cancel_terminate_execution(), handle.cancel_terminate_execution());
    assert_eq!(
        handle.cancel_terminate_execution(),
        Command::CancelTerminateExecution { isolate: ISOLATE }
    );
    assert_eq!(isolate.is_execution_terminating(), handle.is_execution_terminating());
    assert_eq!(
        handle.is_execution_terminating(),
        Command::IsExecutionTerminating { isolate: ISOLATE }
    );
    // The handles made on the way have not been kept.
    let (unlocking, _) = locker.drop(&mut isolate);
    assert!(unlocking.finish(&mut isolate).is_none());
    assert!(handle.drop(&mut isolate).is_some());
}

#[test]
fn handle_commands_name_the_isolate() {
    let (mut isolate, _locker) = isolate();
    let mut handle = isolate.thread_safe_handle();
    assert_eq!(handle.is_in_use(), Command::IsInUse { isolate: ISOLATE });
    assert_eq!(handle.is_locked(), Command::LockerIsLocked { isolate: ISOLATE });
    assert_eq!(
        handle.request_interrupt(0x70, 0x80),
        Command::RequestInterrupt { isolate: ISOLATE, callback: 0x70, data: 0x80 }
    );
    assert_eq!(
        handle.discard_thread_specific_metadata(),
        Command::DiscardThreadSpecificMetadata { isolate: ISOLATE }
    );
    assert_eq!(Locker::is_locked(5), Command::LockerIsLocked { isolate: 5 });
}

#[test]
fn run_microtasks_is_a_microtask_checkpoint() {
    let (mut isolate, _locker) = isolate();
    assert_eq!(
        isolate.perform_microtask_checkpoint(),
        Command::PerformMicrotaskCheckpoint { isolate: ISOLATE }
    );
    assert_eq!(isolate.run_microtasks(), isolate.perform_microtask_checkpoint());
    assert_eq!(
        isolate.enqueue_microtask(0x42),
        Command::EnqueueMicrotask { isolate: ISOLATE, function: 0x42 }
    );
    assert_eq!(
        isolate.set_microtasks_policy(MicrotasksPolicy::Explicit),
        Command::SetMicrotasksPolicy { isolate: ISOLATE, policy: MicrotasksPolicy::Explicit }
    );
    assert_eq!(
        isolate.get_microtasks_policy(),
        Command::GetMicrotasksPolicy { isolate: ISOLATE }
    );
}

#[test]
fn settings_are_handed_to_the_engine() {
    let (mut isolate, _locker) = isolate();
    assert_eq!(
        isolate.set_capture_stack_trace_for_uncaught_exceptions(true, -3),
        Command::SetCaptureStackTraceForUncaughtExceptions {
            isolate: ISOLATE,
            capture: true,
            frame_limit: -3
        }
    );
    assert_eq!(
        isolate.set_allow_atomics_wait(false),
        Command::SetAllowAtomicsWait { isolate: ISOLATE, allow: false }
    );
    assert_eq!(
        isolate.adjust_amount_of_external_allocated_memory(-1024),
        Command::AdjustAmountOfExternalAllocatedMemory { isolate: ISOLATE, change_in_bytes: -1024 }
    );
    assert_eq!(
        isolate.clear_kept_objects(),
        Command::ClearKeptObjects { isolate: ISOLATE }
    );
    assert_eq!(
        isolate.low_memory_notification(),
        Command::LowMemoryNotification { isolate: ISOLATE }
    );
    assert_eq!(
        isolate.get_heap_statistics(),
        Command::GetHeapStatistics { isolate: ISOLATE }
    );
    assert_eq!(
        isolate.has_pending_background_tasks(),
        Command::HasPendingBackgroundTasks { isolate: ISOLATE }
    );
}

#[test]
fn callbacks_are_handed_to_the_engine() {
    let (mut isolate, _locker) = isolate();
    assert_eq!(
        isolate.add_message_listener(1),
        Command::AddMessageListener { isolate: ISOLATE, callback: 1 }
    );
    assert_eq!(
        isolate.set_prepare_stack_trace_callback(2),
        Command::SetPrepareStackTraceCallback { isolate: ISOLATE, callback: 2 }
    );
    assert_eq!(
        isolate.set_promise_hook(3),
        Command::SetPromiseHook { isolate: ISOLATE, hook: 3 }
    );
    assert_eq!(
        isolate.set_promise_reject_callback(4),
        Command::SetPromiseRejectCallback { isolate: ISOLATE, callback: 4 }
    );
    assert_eq!(
        isolate.set_wasm_async_resolve_promise_callback(5),
        Command::SetWasmAsyncResolvePromiseCallback { isolate: ISOLATE, callback: 5 }
    );
    assert_eq!(
        isolate.set_host_initialize_import_meta_object_callback(6),
        Command::SetHostInitializeImportMetaObjectCallback { isolate: ISOLATE, callback: 6 }
    );
    assert_eq!(
        isolate.set_host_import_module_dynamically_callback(7),
        Command::SetHostImportModuleDynamicallyCallback { isolate: ISOLATE, callback: 7 }
    );
    assert_eq!(
        isolate.add_near_heap_limit_callback(8, 9),
        Command::AddNearHeapLimitCallback { isolate: ISOLATE, callback: 8, data: 9 }
    );
    assert_eq!(
        isolate.remove_near_heap_limit_callback(8, 4096),
        Command::RemoveNearHeapLimitCallback { isolate: ISOLATE, callback: 8, heap_limit: 4096 }
    );
    assert_eq!(
        isolate.set_oom_error_handler(10),
        Command::SetOomErrorHandler { isolate: ISOLATE, callback: 10 }
    );
    assert_eq!(
        isolate.set_wasm_streaming_callback(11),
        Command::SetWasmStreamingCallback { isolate: ISOLATE, callback: 11 }
    );
    assert_eq!(
        isolate.take_heap_snapshot(12, 13),
        Command::TakeHeapSnapshot { isolate: ISOLATE, callback: 12, arg: 13 }
    );
}

#[test]
fn heap_snapshot_chunks_reach_the_callback() {
    let mut document: Vec<u8> = Vec::new();
    let mut callback = |chunk: &[u8]| {
        document.extend_from_slice(chunk);
        document.len() < 4
    };
    assert!(deliver_chunk(&mut callback, b"{\"a"));
    assert!(!deliver_chunk(&mut callback, b"\":1}"));
    assert_eq!(document, b"{\"a\":1}");
}

#[test]
fn stack_trace_callback_gets_its_arguments_in_order() {
    let stack = prepare_stack_trace(
        |context, error, sites| {
            assert_eq!((context, error, sites), (0x10, 0x20, 0x30));
            0x40
        },
        0x10,
        0x20,
        0x30,
    );
    assert_eq!(stack, 0x40);
}

#[test]
fn context_that_was_not_made_is_null() {
    assert_eq!(context_address(Some(0x50)), 0x50);
    assert_eq!(context_address(None), 0);
}

#[test]
fn microtasks_policies_have_their_numbers() {
    assert_eq!(MicrotasksPolicy::Explicit.to_raw(), 0);
    assert_eq!(MicrotasksPolicy::Auto.to_raw(), 2);
    assert_eq!(MicrotasksPolicy::from_raw(0), Some(MicrotasksPolicy::Explicit));
    assert_eq!(MicrotasksPolicy::from_raw(1), None);
    assert_eq!(MicrotasksPolicy::from_raw(2), Some(MicrotasksPolicy::Auto));
    assert_eq!(MicrotasksPolicy::from_raw(3), None);
}

#[test]
fn promise_hook_types_have_their_numbers() {
    let all = [
        PromiseHookType::Init,
        PromiseHookType::Resolve,
        PromiseHookType::Before,
        PromiseHookType::After,
    ];
    for (number, kind) in all.iter().enumerate() {
        assert_eq!(kind.to_raw(), number as u32);
        assert_eq!(PromiseHookType::from_raw(number as u32), Some(*kind));
    }
    assert_eq!(PromiseHookType::from_raw(4), None);
}

#[test]
fn wasm_outcomes_have_their_numbers() {
    assert_eq!(WasmAsyncSuccess::Success.to_raw(), 0);
    assert_eq!(WasmAsyncSuccess::Fail.to_raw(), 1);
    assert_eq!(WasmAsyncSuccess::from_raw(0), Some(WasmAsyncSuccess::Success));
    assert_eq!(WasmAsyncSuccess::from_raw(1), Some(WasmAsyncSuccess::Fail));
    assert_eq!(WasmAsyncSuccess::from_raw(2), None);
}

#[test]
fn heap_statistics_start_at_zero() {
    let s = HeapStatistics::default();
    assert_eq!(s.total_heap_size(), 0);
    assert_eq!(s.heap_size_limit(), 0);
    assert_eq!(s.number_of_detached_contexts(), 0);
    assert_eq!(s.does_zap_garbage(), 0);
}

#[test]
fn heap_statistics_report_what_was_received() {
    let mut s = HeapStatistics::default();
    s.receive(HeapStatistics {
        total_heap_size: 1,
        total_heap_size_executable: 2,
        total_physical_size: 3,
        total_available_size: 4,
        total_global_handles_size: 5,
        used_global_handles_size: 6,
        used_heap_size: 7,
        heap_size_limit: 8,
        malloced_memory: 9,
        external_memory: 10,
        peak_malloced_memory: 11,
        number_of_native_contexts: 12,
        number_of_detached_contexts: 13,
        does_zap_garbage: true,
    });
    assert_eq!(s.total_heap_size(), 1);
    assert_eq!(s.total_heap_size_executable(), 2);
    assert_eq!(s.total_physical_size(), 3);
    assert_eq!(s.total_available_size(), 4);
    assert_eq!(s.total_global_handles_size(), 5);
    assert_eq!(s.used_global_handles_size(), 6);
    assert_eq!(s.used_heap_size(), 7);
    assert_eq!(s.heap_size_limit(), 8);
    assert_eq!(s.malloced_memory(), 9);
    assert_eq!(s.external_memory(), 10);
    assert_eq!(s.peak_malloced_memory(), 11);
    assert_eq!(s.number_of_native_contexts(), 12);
    assert_eq!(s.number_of_detached_contexts(), 13);
    assert_eq!(s.does_zap_garbage(), 1);
}
