//! Heap usage figures.

use vstd::prelude::*;

verus! {

/// Figures about the memory usage of an isolate's heap, as the engine reports
/// them.
#[derive(Debug, Clone, Copy, PartialEq, Eq, Structural)]
pub struct HeapStatistics {
    pub total_heap_size: usize,
    pub total_heap_size_executable: usize,
    pub total_physical_size: usize,
    pub total_available_size: usize,
    pub total_global_handles_size: usize,
    pub used_global_handles_size: usize,
    pub used_heap_size: usize,
    pub heap_size_limit: usize,
    pub malloced_memory: usize,
    pub external_memory: usize,
    pub peak_malloced_memory: usize,
    pub number_of_native_contexts: usize,
    pub number_of_detached_contexts: usize,
    pub does_zap_garbage: bool,
}

impl Default for HeapStatistics {
    /// Figures that nothing has been reported for: all of them zero.
    fn default() -> (s: Self)
        ensures
            s == (HeapStatistics {
                total_heap_size: 0,
                total_heap_size_executable: 0,
                total_physical_size: 0,
                total_available_size: 0,
                total_global_handles_size: 0,
                used_global_handles_size: 0,
                used_heap_size: 0,
                heap_size_limit: 0,
                malloced_memory: 0,
                external_memory: 0,
                peak_malloced_memory: 0,
                number_of_native_contexts: 0,
                number_of_detached_contexts: 0,
                does_zap_garbage: false,
            }),
    {
        HeapStatistics {
            total_heap_size: 0,
            total_heap_size_executable: 0,
            total_physical_size: 0,
            total_available_size: 0,
            total_global_handles_size: 0,
            used_global_handles_size: 0,
            used_heap_size: 0,
            heap_size_limit: 0,
            malloced_memory: 0,
            external_memory: 0,
            peak_malloced_memory: 0,
            number_of_native_contexts: 0,
            number_of_detached_contexts: 0,
            does_zap_garbage: false,
        }
    }
}

impl HeapStatistics {
    /// Takes over the figures of the engine's answer to
    /// [`Isolate::get_heap_statistics`](crate::isolate::Isolate::get_heap_statistics).
    pub fn receive(&mut self, report: HeapStatistics)
        ensures
            *final(self) == report,
    {
        *self = report;
    }

    pub fn total_heap_size(&self) -> (r: usize)
        ensures
            r == self.total_heap_size,
    {
        self.total_heap_size
    }

    pub fn total_heap_size_executable(&self) -> (r: usize)
        ensures
            r == self.total_heap_size_executable,
    {
        self.total_heap_size_executable
    }

    pub fn total_physical_size(&self) -> (r: usize)
        ensures
            r == self.total_physical_size,
    {
        self.total_physical_size
    }

    pub fn total_available_size(&self) -> (r: usize)
        ensures
            r == self.total_available_size,
    {
        self.total_available_size
    }

    pub fn total_global_handles_size(&self) -> (r: usize)
        ensures
            r == self.total_global_handles_size,
    {
        self.total_global_handles_size
    }

    pub fn used_global_handles_size(&self) -> (r: usize)
        ensures
            r == self.used_global_handles_size,
    {
        self.used_global_handles_size
    }

    pub fn used_heap_size(&self) -> (r: usize)
        ensures
            r == self.used_heap_size,
    {
        self.used_heap_size
    }

    pub fn heap_size_limit(&self) -> (r: usize)
        ensures
            r == self.heap_size_limit,
    {
        self.heap_size_limit
    }

    pub fn malloced_memory(&self) -> (r: usize)
        ensures
            r == self.malloced_memory,
    {
        self.malloced_memory
    }

    pub fn external_memory(&self) -> (r: usize)
        ensures
            r == self.external_memory,
    {
        self.external_memory
    }

    pub fn peak_malloced_memory(&self) -> (r: usize)
        ensures
            r == self.peak_malloced_memory,
    {
        self.peak_malloced_memory
    }

    pub fn number_of_native_contexts(&self) -> (r: usize)
        ensures
            r == self.number_of_native_contexts,
    {
        self.number_of_native_contexts
    }

    pub fn number_of_detached_contexts(&self) -> (r: usize)
        ensures
            r == self.number_of_detached_contexts,
    {
        self.number_of_detached_contexts
    }

    /// A 0/1 boolean, which signifies whether the engine overwrites heap
    /// garbage with a bit pattern.
    pub fn does_zap_garbage(&self) -> (r: usize)
        ensures
            r == (if self.does_zap_garbage { 1usize } else { 0usize }),
    {
        if self.does_zap_garbage {
            1
        } else {
            0
        }
    }
}

} // verus!
