//! An instrumentation layer in front of a memory allocator.
//!
//! [`Trallocator`] wraps an allocator of any type and keeps two counters
//! beside it: the number of bytes currently outstanding (allocated and not
//! yet freed through the wrapper) and the high-water mark that count is
//! known to have reached. The wrapper performs no memory management of its
//! own; every real allocation is delegated to the wrapped allocator, and the
//! counter bookkeeping around each delegation is what this crate verifies.
//!
//! The laws that the counters obey over whole sequences of recorded
//! operations, including arbitrary interleavings of balanced
//! allocate/deallocate pairs, are stated and proved in [`laws`].

use vstd::prelude::*;

pub mod laws;

verus! {

/// A wrapper over an allocator that tracks heap usage.
///
/// The counters are plain words that wrap around on overflow, exactly as a
/// machine-word `fetch_add`/`fetch_sub` would: freeing more bytes than were
/// ever recorded as allocated is a caller contract violation and wraps
/// rather than being detected.
pub struct Trallocator<A> {
    /// The wrapped allocator. Every real memory operation is delegated to
    /// it; this crate never performs one itself.
    pub alloc: A,
    /// Bytes currently allocated and not yet freed through this wrapper.
    pub usage: usize,
    /// The highest value `usage` is known to have reached since
    /// construction or since the last [`Trallocator::clear_max_usage`].
    pub max_usage: usize,
}

impl<A> Trallocator<A> {
    /// The counter state after one allocation of `size` bytes is recorded.
    ///
    /// The current usage grows by `size`, wrapping on overflow, and the
    /// peak absorbs the usage as it stood *before* the growth. Feeding the
    /// previous value rather than the new one means a lone allocation does
    /// not yet show up in the peak; the matching deallocation folds it in,
    /// so after any complete allocate/deallocate cycle the peak has caught
    /// up (see [`laws::lemma_fresh_pair_peak`]).
    pub open spec fn with_alloc_recorded(self, size: usize) -> Self {
        Trallocator {
            alloc: self.alloc,
            usage: self.usage.wrapping_add(size),
            max_usage: if self.max_usage >= self.usage {
                self.max_usage
            } else {
                self.usage
            },
        }
    }

    /// The counter state after one deallocation of `size` bytes is
    /// recorded.
    ///
    /// The current usage shrinks by `size`, wrapping below zero, and the
    /// peak absorbs the usage as it stood before the shrink — the highest
    /// point this block's lifetime ever pushed the counter to.
    pub open spec fn with_dealloc_recorded(self, size: usize) -> Self {
        Trallocator {
            alloc: self.alloc,
            usage: self.usage.wrapping_sub(size),
            max_usage: if self.max_usage >= self.usage {
                self.max_usage
            } else {
                self.usage
            },
        }
    }

    /// Creates a new tracking wrapper around `alloc` with both counters at
    /// zero.
    pub fn new(alloc: A) -> (r: Self)
        ensures
            r.usage == 0,
            r.max_usage == 0,
            r.alloc == alloc,
    {
        Trallocator { alloc, usage: 0, max_usage: 0 }
    }

    /// Returns the number of bytes currently allocated and not yet freed
    /// through this wrapper.
    pub fn usage(&self) -> (r: usize)
        ensures
            r == self.usage,
    {
        self.usage
    }

    /// Returns the highest value the usage counter is known to have reached
    /// since construction or since the last [`Trallocator::clear_max_usage`].
    pub fn max_usage(&self) -> (r: usize)
        ensures
            r == self.max_usage,
    {
        self.max_usage
    }

    /// Resets the peak counter to the current usage, so that the peak can
    /// be tracked per time frame.
    pub fn clear_max_usage(&mut self)
        ensures
            final(self).max_usage == old(self).usage,
            final(self).usage == old(self).usage,
            final(self).alloc == old(self).alloc,
    {
        self.max_usage = self.usage;
    }

    /// Borrows the inner allocator.
    ///
    /// Operations performed directly on the inner allocator are not
    /// tracked; this is intended only for inspecting or initializing it.
    pub fn borrow(&self) -> (r: &A)
        ensures
            *r == self.alloc,
    {
        &self.alloc
    }

    /// Mutably borrows the inner allocator.
    ///
    /// Operations performed through the returned reference bypass the
    /// instrumentation entirely: whatever the caller does with it, both
    /// counters keep the values they had, as the contract states. Intended
    /// only for one-time setup of the inner allocator before the wrapper is
    /// put to use.
    pub fn borrow_mut(&mut self) -> (r: &mut A)
        ensures
            *r == old(self).alloc,
            final(self).alloc == *final(r),
            final(self).usage == old(self).usage,
            final(self).max_usage == old(self).max_usage,
    {
        &mut self.alloc
    }

    /// Records an allocation of `size` bytes: the counter half of the
    /// allocate path, run before the allocation is delegated to the inner
    /// allocator.
    ///
    /// Because the counter moves before the inner allocator has answered, a
    /// subsequent failure of the inner allocation leaves the counter
    /// inflated; the caller that observed the failure will never free the
    /// block, so no matching [`Trallocator::record_dealloc`] corrects it.
    /// The usage counter is therefore not authoritative immediately after a
    /// failed allocation. This mirrors how an atomic `fetch_add` placed
    /// ahead of the delegated call behaves, and is kept deliberately.
    pub fn record_alloc(&mut self, size: usize)
        ensures
            *final(self) == old(self).with_alloc_recorded(size),
            final(self).usage == old(self).usage.wrapping_add(size),
            final(self).max_usage >= old(self).max_usage,
            final(self).max_usage >= old(self).usage,
            final(self).alloc == old(self).alloc,
    {
        let prev = self.usage;
        self.usage = prev.wrapping_add(size);
        if prev > self.max_usage {
            self.max_usage = prev;
        }
    }

    /// Records a deallocation of `size` bytes: the counter half of the
    /// deallocate path, run before the deallocation is delegated to the
    /// inner allocator.
    pub fn record_dealloc(&mut self, size: usize)
        ensures
            *final(self) == old(self).with_dealloc_recorded(size),
            final(self).usage == old(self).usage.wrapping_sub(size),
            final(self).max_usage >= old(self).max_usage,
            final(self).max_usage >= old(self).usage,
            final(self).alloc == old(self).alloc,
    {
        let prev = self.usage;
        self.usage = prev.wrapping_sub(size);
        if prev > self.max_usage {
            self.max_usage = prev;
        }
    }
}

} // verus!
