//! Storage for one embedder value.

use vstd::prelude::*;

verus! {

/// Where a [`RawSlot`] keeps its value: in the slot itself, or in a heap
/// allocation that the slot points to.
pub enum RawSlotData<T> {
    Inline(T),
    Boxed(Box<T>),
}

/// Holds one value of any type: inline if the value fits one machine word, in a
/// box otherwise.
///
/// The slot owns its value: dropping the slot drops the value, and
/// [`RawSlot::into_inner`] gives it back without dropping it.
pub struct RawSlot<T> {
    data: RawSlotData<T>,
}

/// Whether a `T` is too large, or too strictly aligned, for one machine word.
pub open spec fn exceeds_word<T>() -> bool {
    ||| vstd::layout::size_of::<T>() > vstd::layout::size_of::<usize>()
    ||| vstd::layout::align_of::<T>() > vstd::layout::align_of::<usize>()
}

impl<T> View for RawSlot<T> {
    type V = T;

    closed spec fn view(&self) -> T {
        match self.data {
            RawSlotData::Inline(value) => value,
            RawSlotData::Boxed(value) => *value,
        }
    }
}

impl<T> RawSlot<T> {
    /// Whether the value lives on the heap.
    pub closed spec fn boxed(&self) -> bool {
        self.data is Boxed
    }

    /// Stores `value`, on the heap exactly if it does not fit a machine word.
    pub fn new(value: T) -> (slot: Self)
        ensures
            slot@ == value,
            slot.boxed() == exceeds_word::<T>(),
    {
        if Self::needs_box() {
            Self::new_internal(RawSlotData::Boxed(Box::new(value)))
        } else {
            Self::new_internal(RawSlotData::Inline(value))
        }
    }

    /// Builds the slot around its contents: a box, or the value itself where it
    /// fits one machine word.
    fn new_internal(data: RawSlotData<T>) -> (slot: Self)
        requires
            data is Inline ==> !exceeds_word::<T>(),
        ensures
            slot.data == data,
    {
        RawSlot { data }
    }

    /// The stored value.
    pub fn borrow(&self) -> (value: &T)
        ensures
            *value == self@,
    {
        match &self.data {
            RawSlotData::Inline(value) => value,
            RawSlotData::Boxed(value) => value,
        }
    }

    /// The stored value, for writing. What is written through the reference is
    /// what the slot holds afterwards, in the same place.
    pub fn borrow_mut(&mut self) -> (value: &mut T)
        ensures
            *value == old(self)@,
            final(self)@ == *final(value),
            final(self).boxed() == old(self).boxed(),
    {
        match &mut self.data {
            RawSlotData::Inline(value) => value,
            RawSlotData::Boxed(value) => &mut **value,
        }
    }

    /// Takes the value out of the slot.
    pub fn into_inner(self) -> (value: T)
        ensures
            value == self@,
    {
        match self.data {
            RawSlotData::Inline(value) => value,
            RawSlotData::Boxed(value) => *value,
        }
    }

    /// Whether a `T` has to go to the heap.
    pub fn needs_box() -> (r: bool)
        ensures
            r == exceeds_word::<T>(),
    {
        core::mem::size_of::<T>() > core::mem::size_of::<usize>()
            || core::mem::align_of::<T>() > core::mem::align_of::<usize>()
    }
}

} // verus!
