//! The host's part of an isolate: what the embedder attached to it, and who
//! still refers to it.

use crate::command::{resets, Command};
use crate::isolate::Isolate;
use crate::raw_slot::RawSlot;
use std::collections::HashMap;
use vstd::prelude::*;

verus! {

broadcast use vstd::std_specs::hash::group_hash_axioms;

/// What an [`IsolateAnnex`] stands for.
///
/// An isolate is referred to by its handles, by its lockers, and, while `owned`
/// holds, by itself.
#[verifier::ext_equal]
pub struct AnnexState<V, M> {
    /// The isolate that the annex belongs to.
    pub isolate: usize,
    /// What the creation parameters keep allocated.
    pub allocations: Option<V>,
    /// The embedder's values, by the identifiers of their types.
    pub slots: Map<u64, V>,
    pub finalizer_map: M,
    /// The handle data to be freed, oldest first.
    pub queue: Seq<usize>,
    /// Whether the isolate is freed along with the annex.
    pub dispose_on_drop: bool,
    /// Whether the isolate stops referring to itself when it is unlocked.
    pub dispose_on_unlock: bool,
    pub owned: bool,
    pub handles: nat,
    pub lockers: nat,
    /// How many weak references there are. They do not keep the annex.
    pub weaks: nat,
}

impl<V, M> AnnexState<V, M> {
    /// How many references keep the annex.
    pub open spec fn references(self) -> nat {
        self.handles + self.lockers + if self.owned {
            1nat
        } else {
            0nat
        }
    }

    /// The embedder's value under `key`, if there is one.
    pub open spec fn slot(self, key: u64) -> Option<V> {
        if self.slots.contains_key(key) {
            Some(self.slots[key])
        } else {
            None
        }
    }

    pub open spec fn with_slot(self, key: u64, value: V) -> Self {
        AnnexState { slots: self.slots.insert(key, value), ..self }
    }

    pub open spec fn without_slot(self, key: u64) -> Self {
        AnnexState { slots: self.slots.remove(key), ..self }
    }

    pub open spec fn marked(self, item: usize) -> Self {
        AnnexState { queue: self.queue.push(item), ..self }
    }

    pub open spec fn drained(self) -> Self {
        AnnexState { queue: Seq::empty(), ..self }
    }

    pub open spec fn with_finalizer_map(self, finalizer_map: M) -> Self {
        AnnexState { finalizer_map, ..self }
    }

    pub open spec fn with_handle(self) -> Self {
        AnnexState { handles: self.handles + 1, ..self }
    }

    pub open spec fn without_handle(self) -> Self {
        AnnexState { handles: (self.handles - 1) as nat, ..self }
    }

    pub open spec fn disowned(self) -> Self {
        AnnexState { owned: false, ..self }
    }

    pub open spec fn with_weak(self) -> Self {
        AnnexState { weaks: self.weaks + 1, ..self }
    }

    pub open spec fn without_weak(self) -> Self {
        AnnexState { weaks: (self.weaks - 1) as nat, ..self }
    }

    pub open spec fn with_locker(self) -> Self {
        AnnexState { lockers: self.lockers + 1, ..self }
    }

    /// Without one of its lockers. The last one to go unlocks the isolate.
    pub open spec fn without_locker(self) -> Self {
        AnnexState {
            lockers: (self.lockers - 1) as nat,
            owned: self.owned && !(self.lockers == 1 && self.dispose_on_unlock),
            ..self
        }
    }
}

/// The annex of an isolate: data that the host keeps along with it.
///
/// `V` is the type in which embedder values are held, whatever their own type
/// is; `M` keeps the finalizers of the isolate's weak handles.
pub struct IsolateAnnex<V, M> {
    create_param_allocations: Option<V>,
    slots: HashMap<u64, RawSlot<V>>,
    finalizer_map: M,
    disposal_queue: Vec<usize>,
    isolate: usize,
    dispose_on_drop: bool,
    dispose_on_unlock: bool,
    owned: bool,
    handles: usize,
    lockers: usize,
    weaks: usize,
}

/// What is left of an annex that nothing refers to any more.
pub struct Remains<V, M> {
    pub create_param_allocations: Option<V>,
    pub slots: HashMap<u64, RawSlot<V>>,
    pub finalizer_map: M,
    pub dispose_on_drop: bool,
}

/// A counted reference to an annex.
pub struct AnnexArc {
    isolate: usize,
}

impl AnnexArc {
    /// The isolate whose annex it refers to.
    pub closed spec fn isolate(&self) -> usize {
        self.isolate
    }

    pub(crate) fn new(isolate: usize) -> (arc: Self)
        ensures
            arc.isolate() == isolate,
    {
        AnnexArc { isolate }
    }

    /// The address of the isolate.
    pub fn get_isolate_ptr(&self) -> (isolate: usize)
        ensures
            isolate == self.isolate(),
    {
        self.isolate
    }
}

/// A reference to an annex that does not keep it. It can be turned into a
/// counted one for as long as the annex is there.
pub struct AnnexWeak {
    isolate: usize,
}

impl AnnexWeak {
    /// The isolate whose annex it refers to.
    pub closed spec fn isolate(&self) -> usize {
        self.isolate
    }

    pub(crate) fn new(isolate: usize) -> (weak: Self)
        ensures
            weak.isolate() == isolate,
    {
        AnnexWeak { isolate }
    }

    /// The address of the isolate.
    pub fn get_isolate_ptr(&self) -> (isolate: usize)
        ensures
            isolate == self.isolate(),
    {
        self.isolate
    }

    /// A counted reference to the same annex, if the annex is still there.
    pub fn upgrade<V, M>(&self, isolate: &mut Isolate<V, M>) -> (arc: Option<AnnexArc>)
        requires
            old(isolate).wf(),
            self.isolate() == old(isolate)@.address,
            old(isolate)@.annex is Some ==> old(isolate)@.annex->0.handles < MAX_REFERENCES,
        ensures
            arc is Some <==> old(isolate)@.annex is Some,
            final(isolate).wf(),
            match arc {
                Some(counted) => {
                    &&& counted.isolate() == self.isolate()
                    &&& final(isolate)@ == old(isolate)@.with_annex(
                        old(isolate)@.annex->0.with_handle(),
                    )
                },
                None => final(isolate)@ == old(isolate)@,
            },
    {
        if isolate.has_annex() {
            Some(isolate.get_annex_arc())
        } else {
            None
        }
    }

    /// Gives the weak reference up. It stops counting among the weak references
    /// of its annex, if the annex is still there.
    pub fn drop<V, M>(self, isolate: &mut Isolate<V, M>)
        requires
            old(isolate).wf(),
            self.isolate() == old(isolate)@.address,
            old(isolate)@.annex is Some ==> old(isolate)@.annex->0.weaks > 0,
        ensures
            final(isolate).wf(),
            final(isolate)@ == (match old(isolate)@.annex {
                Some(annex) => old(isolate)@.with_annex(annex.without_weak()),
                None => old(isolate)@,
            }),
    {
        if isolate.has_annex() {
            isolate.release_annex_weak();
        }
    }
}

/// The values in a map of slots.
pub open spec fn slot_values<V>(slots: Map<u64, RawSlot<V>>) -> Map<u64, V> {
    slots.map_values(|slot: RawSlot<V>| slot@)
}

/// The most references of one kind that an annex can count.
pub const MAX_REFERENCES: usize = usize::MAX / 2;

impl<V, M> View for IsolateAnnex<V, M> {
    type V = AnnexState<V, M>;

    closed spec fn view(&self) -> AnnexState<V, M> {
        AnnexState {
            isolate: self.isolate,
            allocations: self.create_param_allocations,
            slots: slot_values(self.slots@),
            finalizer_map: self.finalizer_map,
            queue: self.disposal_queue@,
            dispose_on_drop: self.dispose_on_drop,
            dispose_on_unlock: self.dispose_on_unlock,
            owned: self.owned,
            handles: self.handles as nat,
            lockers: self.lockers as nat,
            weaks: self.weaks as nat,
        }
    }
}

impl<V, M: Default> IsolateAnnex<V, M> {
    /// The annex of a new isolate, which refers to itself. It has no slots and
    /// an empty disposal queue.
    pub fn new(
        isolate: usize,
        create_param_allocations: Option<V>,
        dispose_on_drop: bool,
        dispose_on_unlock: bool,
    ) -> (annex: Self)
        ensures
            call_ensures(M::default, (), annex@.finalizer_map),
            annex@ == (AnnexState {
                isolate,
                allocations: create_param_allocations,
                slots: Map::empty(),
                finalizer_map: annex@.finalizer_map,
                queue: Seq::empty(),
                dispose_on_drop,
                dispose_on_unlock,
                owned: true,
                handles: 0,
                lockers: 0,
                weaks: 0,
            }),
    {
        let slots: HashMap<u64, RawSlot<V>> = HashMap::new();
        assert(slot_values(slots@) =~= Map::<u64, V>::empty());
        IsolateAnnex {
            create_param_allocations,
            slots,
            finalizer_map: M::default(),
            disposal_queue: Vec::new(),
            isolate,
            dispose_on_drop,
            dispose_on_unlock,
            owned: true,
            handles: 0,
            lockers: 0,
            weaks: 0,
        }
    }
}

impl<V, M> IsolateAnnex<V, M> {
    /// Adds an item to the disposal queue. The items in the queue are freed
    /// when the isolate is locked or unlocked, or else when it is torn down.
    /// This is used for global handles that are dropped outside of their host
    /// isolate's scope.
    pub fn mark_handle_data_for_disposal(&mut self, garbage_item: usize)
        requires
            garbage_item != 0,
        ensures
            final(self)@ == old(self)@.marked(garbage_item),
    {
        self.disposal_queue.push(garbage_item);
    }

    /// Empties the disposal queue. The commands free its items, oldest first.
    pub fn dispose_marked_handles(&mut self) -> (commands: Vec<Command>)
        ensures
            commands@ == resets(old(self)@.queue),
            final(self)@ == old(self)@.drained(),
    {
        let mut queue: Vec<usize> = Vec::new();
        std::mem::swap(&mut queue, &mut self.disposal_queue);
        let mut commands: Vec<Command> = Vec::new();
        let mut i: usize = 0;
        while i < queue.len()
            invariant
                i <= queue.len(),
                commands@ == resets(queue@.take(i as int)),
            decreases queue.len() - i,
        {
            commands.push(Command::ResetGlobal { data: queue[i] });
            assert(queue@.take(i + 1) =~= queue@.take(i as int).push(queue@[i as int]));
            i += 1;
        }
        assert(queue@.take(i as int) =~= queue@);
        commands
    }

    /// The address of the isolate.
    pub fn get_isolate_ptr(&self) -> (isolate: usize)
        ensures
            isolate == self@.isolate,
    {
        self.isolate
    }

    /// The embedder's value under `key`.
    pub fn get_slot(&self, key: u64) -> (value: Option<&V>)
        ensures
            match value {
                Some(v) => self@.slot(key) == Some(*v),
                None => self@.slot(key) is None,
            },
    {
        match self.slots.get(&key) {
            Some(slot) => Some(slot.borrow()),
            None => None,
        }
    }

    /// The embedder's value under `key`, for writing.
    pub fn get_slot_mut(&mut self, key: u64) -> (value: Option<&mut V>)
        ensures
            match value {
                Some(v) => {
                    &&& old(self)@.slot(key) == Some(*v)
                    &&& final(self)@ == old(self)@.with_slot(key, *final(v))
                },
                None => {
                    &&& old(self)@.slot(key) is None
                    &&& final(self)@ == old(self)@
                },
            },
    {
        match self.slots.entry(key) {
            std::collections::hash_map::Entry::Occupied(entry) => Some(
                entry.into_mut().borrow_mut(),
            ),
            std::collections::hash_map::Entry::Vacant(_) => None,
        }
    }

    /// Puts `value` under `key`, and hands back the value that was there, if
    /// any.
    pub fn replace_slot(&mut self, key: u64, value: V) -> (replaced: Option<V>)
        ensures
            replaced == old(self)@.slot(key),
            final(self)@ == old(self)@.with_slot(key, value),
    {
        let replaced = self.slots.insert(key, RawSlot::new(value));
        assert(self@.slots =~= old(self)@.with_slot(key, value).slots);
        match replaced {
            Some(slot) => Some(slot.into_inner()),
            None => None,
        }
    }

    /// Puts `value` under `key`. The value that was there, if any, is dropped.
    /// Says whether there was none.
    pub fn set_slot(&mut self, key: u64, value: V) -> (was_vacant: bool)
        ensures
            was_vacant == (old(self)@.slot(key) is None),
            final(self)@ == old(self)@.with_slot(key, value),
    {
        self.replace_slot(key, value).is_none()
    }

    /// Takes the value under `key` out.
    pub fn remove_slot(&mut self, key: u64) -> (value: Option<V>)
        ensures
            value == old(self)@.slot(key),
            final(self)@ == old(self)@.without_slot(key),
    {
        let removed = self.slots.remove(&key);
        assert(self@.slots =~= old(self)@.without_slot(key).slots);
        match removed {
            Some(slot) => Some(slot.into_inner()),
            None => None,
        }
    }

    /// The finalizers of the isolate's weak handles.
    pub fn get_finalizer_map(&self) -> (map: &M)
        ensures
            *map == self@.finalizer_map,
    {
        &self.finalizer_map
    }

    /// The finalizers of the isolate's weak handles, for writing.
    pub fn get_finalizer_map_mut(&mut self) -> (map: &mut M)
        ensures
            *map == old(self)@.finalizer_map,
            final(self)@ == old(self)@.with_finalizer_map(*final(map)),
    {
        &mut self.finalizer_map
    }

    /// Counts one more handle.
    pub(crate) fn acquire_handle(&mut self)
        requires
            old(self)@.handles < MAX_REFERENCES,
        ensures
            final(self)@ == old(self)@.with_handle(),
    {
        self.handles += 1;
    }

    /// Counts one handle less.
    pub(crate) fn release_handle(&mut self)
        requires
            old(self)@.handles > 0,
        ensures
            final(self)@ == old(self)@.without_handle(),
    {
        self.handles -= 1;
    }

    /// Counts one more locker.
    pub(crate) fn acquire_locker(&mut self)
        requires
            old(self)@.lockers < MAX_REFERENCES,
        ensures
            final(self)@ == old(self)@.with_locker(),
    {
        self.lockers += 1;
    }

    /// Counts one locker less. With the last one goes the isolate's reference
    /// to itself, if it is to be disposed of on unlocking.
    pub(crate) fn release_locker(&mut self)
        requires
            old(self)@.lockers > 0,
        ensures
            final(self)@ == old(self)@.without_locker(),
    {
        self.lockers -= 1;
        if self.lockers == 0 && self.dispose_on_unlock {
            self.owned = false;
        }
    }

    /// Counts one more weak reference.
    pub(crate) fn acquire_weak(&mut self)
        requires
            old(self)@.weaks < MAX_REFERENCES,
        ensures
            final(self)@ == old(self)@.with_weak(),
    {
        self.weaks += 1;
    }

    /// Counts one weak reference less.
    pub(crate) fn release_weak(&mut self)
        requires
            old(self)@.weaks > 0,
        ensures
            final(self)@ == old(self)@.without_weak(),
    {
        self.weaks -= 1;
    }

    /// Gives up the isolate's reference to itself.
    pub(crate) fn disown(&mut self)
        ensures
            final(self)@ == old(self)@.disowned(),
    {
        self.owned = false;
    }

    /// How many handles refer to the isolate.
    pub fn handles(&self) -> (count: usize)
        ensures
            count == self@.handles,
    {
        self.handles
    }

    /// How many lockers refer to the isolate.
    pub fn lockers(&self) -> (count: usize)
        ensures
            count == self@.lockers,
    {
        self.lockers
    }

    /// How many weak references there are.
    pub fn weaks(&self) -> (count: usize)
        ensures
            count == self@.weaks,
    {
        self.weaks
    }

    /// Whether the isolate refers to itself.
    pub fn is_owned(&self) -> (r: bool)
        ensures
            r == self@.owned,
    {
        self.owned
    }

    /// Whether the isolate stops referring to itself when it is unlocked.
    pub fn disposes_on_unlock(&self) -> (r: bool)
        ensures
            r == self@.dispose_on_unlock,
    {
        self.dispose_on_unlock
    }

    /// Whether anything refers to the isolate.
    pub fn is_referenced(&self) -> (r: bool)
        ensures
            r == (self@.references() > 0),
    {
        self.owned || self.handles > 0 || self.lockers > 0
    }

    /// Takes the annex apart. Nothing may be left in the disposal queue.
    pub(crate) fn into_remains(self) -> (remains: Remains<V, M>)
        requires
            self@.queue.len() == 0,
        ensures
            remains.create_param_allocations == self@.allocations,
            slot_values(remains.slots@) == self@.slots,
            remains.finalizer_map == self@.finalizer_map,
            remains.dispose_on_drop == self@.dispose_on_drop,
    {
        Remains {
            create_param_allocations: self.create_param_allocations,
            slots: self.slots,
            finalizer_map: self.finalizer_map,
            dispose_on_drop: self.dispose_on_drop,
        }
    }
}

} // verus!
