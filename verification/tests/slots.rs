use v8_isolate::{BuildTypeIdHasher, Command, Created, Isolate, Locker, RawSlot, TypeIdHasher};

type Host = Isolate<String, Vec<u8>>;

fn created() -> Created {
    Created { isolate: 0x1000, data_slots: 4, annex: 0x2000 }
}

fn new_isolate() -> (Host, Locker) {
    let (isolate, locker, _) = Host::new(None, created());
    (isolate, locker)
}

#[test]
fn slot_gives_back_what_was_set() {
    let (mut isolate, _locker) = new_isolate();
    assert_eq!(isolate.get_slot(1), None);
    assert!(isolate.set_slot(1, "a".to_string()));
    assert_eq!(isolate.get_slot(1), Some(&"a".to_string()));
}

#[test]
fn setting_a_slot_again_replaces_the_value() {
    let (mut isolate, _locker) = new_isolate();
    assert!(isolate.set_slot(1, "a".to_string()));
    assert!(!isolate.set_slot(1, "b".to_string()));
    assert_eq!(isolate.get_slot(1), Some(&"b".to_string()));
}

#[test]
fn slots_are_independent() {
    let (mut isolate, _locker) = new_isolate();
    isolate.set_slot(1, "a".to_string());
    isolate.set_slot(u64::MAX, "b".to_string());
    assert_eq!(isolate.remove_slot(1), Some("a".to_string()));
    assert_eq!(isolate.get_slot(1), None);
    assert_eq!(isolate.get_slot(u64::MAX), Some(&"b".to_string()));
}

#[test]
fn removed_slot_is_vacant() {
    let (mut isolate, _locker) = new_isolate();
    assert_eq!(isolate.remove_slot(1), None);
    isolate.set_slot(1, "a".to_string());
    assert_eq!(isolate.remove_slot(1), Some("a".to_string()));
    assert_eq!(isolate.remove_slot(1), None);
    assert!(isolate.set_slot(1, "c".to_string()));
}

#[test]
fn slot_can_be_written_through_a_reference() {
    let (mut isolate, _locker) = new_isolate();
    assert!(isolate.get_slot_mut(1).is_none());
    isolate.set_slot(1, "a".to_string());
    isolate.get_slot_mut(1).unwrap().push('z');
    assert_eq!(isolate.get_slot(1), Some(&"az".to_string()));
}

#[test]
fn replacing_a_slot_hands_the_earlier_value_back() {
    let (mut isolate, _locker) = new_isolate();
    assert_eq!(isolate.replace_slot(1, "a".to_string()), None);
    assert_eq!(isolate.replace_slot(1, "b".to_string()), Some("a".to_string()));
    assert_eq!(isolate.get_slot(1), Some(&"b".to_string()));
}

#[test]
fn replaced_value_is_dropped() {
    let value = std::rc::Rc::new(5);
    let (mut isolate, _locker, _) = Isolate::<std::rc::Rc<i32>, ()>::new(None, created());
    isolate.set_slot(1, value.clone());
    assert_eq!(std::rc::Rc::strong_count(&value), 2);
    isolate.set_slot(1, std::rc::Rc::new(6));
    assert_eq!(std::rc::Rc::strong_count(&value), 1);
}

#[test]
fn finalizer_map_starts_empty_and_can_be_written() {
    let (mut isolate, _locker) = new_isolate();
    assert!(isolate.get_finalizer_map().is_empty());
    isolate.get_finalizer_map_mut().push(9);
    assert_eq!(isolate.get_finalizer_map(), &vec![9]);
}

#[test]
fn shadow_realm_callback_is_registered_once() {
    let (mut isolate, _locker) = new_isolate();
    let first =
        isolate.set_host_create_shadow_realm_context_callback(7, "first".to_string(), 0x70);
    assert_eq!(
        first,
        Some(Command::SetHostCreateShadowRealmContextCallback { isolate: 0x1000, callback: 0x70 })
    );
    let second =
        isolate.set_host_create_shadow_realm_context_callback(7, "second".to_string(), 0x70);
    assert_eq!(second, None);
    assert_eq!(isolate.get_slot(7), Some(&"second".to_string()));
    isolate.remove_slot(7);
    let third =
        isolate.set_host_create_shadow_realm_context_callback(7, "third".to_string(), 0x71);
    assert_eq!(
        third,
        Some(Command::SetHostCreateShadowRealmContextCallback { isolate: 0x1000, callback: 0x71 })
    );
}

#[test]
fn shadow_realm_gets_the_context_of_the_callback_or_null() {
    let (mut isolate, _locker) = new_isolate();
    isolate.set_host_create_shadow_realm_context_callback(7, "abc".to_string(), 0x70);
    assert_eq!(isolate.create_shadow_realm_context(7, |callback| Some(callback.len() * 16)), 48);
    assert_eq!(isolate.create_shadow_realm_context(7, |_| None), 0);
}

#[test]
fn values_of_up_to_a_word_need_no_box() {
    assert!(!RawSlot::<u8>::needs_box());
    assert!(!RawSlot::<usize>::needs_box());
    assert!(!RawSlot::<()>::needs_box());
    assert!(RawSlot::<[usize; 2]>::needs_box());
    assert!(RawSlot::<String>::needs_box());
}

#[test]
fn raw_slot_holds_small_and_large_values() {
    let mut small = RawSlot::new(3u8);
    *small.borrow_mut() += 1;
    assert_eq!(*small.borrow(), 4);
    assert_eq!(small.into_inner(), 4);

    let mut large = RawSlot::new([1u64, 2, 3, 4]);
    large.borrow_mut()[2] = 30;
    assert_eq!(large.borrow(), &[1, 2, 30, 4]);
    assert_eq!(large.into_inner(), [1, 2, 30, 4]);
}

#[test]
fn raw_slot_drops_its_value_once() {
    let value = std::rc::Rc::new(1);
    let slot = RawSlot::new(value.clone());
    assert_eq!(std::rc::Rc::strong_count(&value), 2);
    drop(slot);
    assert_eq!(std::rc::Rc::strong_count(&value), 1);
    let slot = RawSlot::new(value.clone());
    let back = slot.into_inner();
    assert_eq!(std::rc::Rc::strong_count(&value), 2);
    drop(back);
    assert_eq!(std::rc::Rc::strong_count(&value), 1);
}

#[test]
fn type_id_hash_is_the_identifier() {
    let mut hasher = BuildTypeIdHasher::default().build_hasher();
    hasher.write_u64(0xdead_beef);
    assert_eq!(hasher.finish(), 0xdead_beef);
    assert_eq!(hasher.clone().finish(), 0xdead_beef);
    assert_eq!(BuildTypeIdHasher.hash_one(17), 17);
    let mut fresh = TypeIdHasher::default();
    fresh.write_u64(u64::MAX);
    assert_eq!(fresh.finish(), u64::MAX);
}

#[test]
fn data_slots_give_back_what_was_set() {
    let (mut isolate, _locker) = new_isolate();
    assert_eq!(isolate.get_number_of_data_slots(), 2);
    assert_eq!(isolate.get_data(0), 0);
    assert_eq!(isolate.get_data(1), 0);
    assert_eq!(
        isolate.set_data(1, 0x55),
        Command::SetData { isolate: 0x1000, slot: 3, data: 0x55 }
    );
    assert_eq!(isolate.get_data(0), 0);
    assert_eq!(isolate.get_data(1), 0x55);
}

#[test]
fn scope_data_gives_back_what_was_set() {
    let (mut isolate, _locker) = new_isolate();
    assert_eq!(isolate.get_current_scope_data(), None);
    assert_eq!(
        isolate.set_current_scope_data(Some(0x90)),
        Command::SetData { isolate: 0x1000, slot: 1, data: 0x90 }
    );
    isolate.set_data(0, 3);
    assert_eq!(isolate.get_current_scope_data(), Some(0x90));
    assert_eq!(
        isolate.set_current_scope_data(None),
        Command::SetData { isolate: 0x1000, slot: 1, data: 0 }
    );
    assert_eq!(isolate.get_current_scope_data(), None);
    assert_eq!(isolate.get_data(0), 3);
}
