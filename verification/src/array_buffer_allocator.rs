//! Accounting for the memory of array buffers, which the engine's heap
//! limit does not cover.

use vstd::prelude::*;

verus! {

/// Sum of the sizes in `blocks`.
pub open spec fn total(blocks: Seq<usize>) -> int
    decreases blocks.len(),
{
    if blocks.len() == 0 {
        0
    } else {
        total(blocks.drop_last()) + blocks.last()
    }
}

/// Taking one block away lowers the sum by its size.
pub proof fn lemma_total_remove(blocks: Seq<usize>, i: int)
    requires
        0 <= i < blocks.len(),
    ensures
        total(blocks.remove(i)) == total(blocks) - blocks[i],
    decreases blocks.len(),
{
    if i == blocks.len() - 1 {
        assert(blocks.remove(i) =~= blocks.drop_last());
    } else {
        lemma_total_remove(blocks.drop_last(), i);
        assert(blocks.remove(i).drop_last() =~= blocks.drop_last().remove(i));
        assert(blocks.remove(i).last() == blocks.last());
    }
}

/// Adding one block raises the sum by its size.
pub proof fn lemma_total_push(blocks: Seq<usize>, n: usize)
    ensures
        total(blocks.push(n)) == total(blocks) + n,
{
    assert(blocks.push(n).drop_last() =~= blocks);
}

/// Putting another size in place of one block changes the sum by the
/// difference.
pub proof fn lemma_total_update(blocks: Seq<usize>, i: int, n: usize)
    requires
        0 <= i < blocks.len(),
    ensures
        total(blocks.update(i, n)) == total(blocks) - blocks[i] + n,
    decreases blocks.len(),
{
    if i == blocks.len() - 1 {
        assert(blocks.update(i, n).drop_last() =~= blocks.drop_last());
    } else {
        lemma_total_update(blocks.drop_last(), i, n);
        assert(blocks.update(i, n).drop_last() =~= blocks.drop_last().update(i, n));
    }
}

/// No sum of sizes is negative.
pub proof fn lemma_total_nonnegative(blocks: Seq<usize>)
    ensures
        total(blocks) >= 0,
    decreases blocks.len(),
{
    if blocks.len() > 0 {
        lemma_total_nonnegative(blocks.drop_last());
    }
}

/// What an allocator stands for: its limit, the sizes of the blocks that
/// were granted and not yet freed, oldest first, and whether an allocation
/// was refused since the flag was last taken.
pub struct AllocatorState {
    pub limit: usize,
    pub live: Seq<usize>,
    pub limit_hit: bool,
}

impl AllocatorState {
    /// The running count: the sum of the sizes of the live blocks.
    pub open spec fn usage(self) -> int {
        total(self.live)
    }

    /// The count is within the limit.
    pub open spec fn within_limit(self) -> bool {
        self.usage() <= self.limit
    }

    /// Whether a block of `n` bytes fits under the limit.
    pub open spec fn grants(self, n: usize) -> bool {
        self.usage() + n <= self.limit
    }

    /// The state after a block of `n` bytes was asked for: with the block
    /// where it fits, else as before but for the flag, which is up.
    pub open spec fn allocate(self, n: usize) -> AllocatorState {
        if self.grants(n) {
            AllocatorState { live: self.live.push(n), ..self }
        } else {
            AllocatorState { limit_hit: true, ..self }
        }
    }

    /// The state after a live block of `n` bytes was given back.
    pub open spec fn free(self, n: usize) -> AllocatorState {
        AllocatorState { live: self.live.remove(self.live.index_of(n)), ..self }
    }

    /// Whether a live block of `from` bytes can become one of `to` bytes.
    pub open spec fn regrants(self, from: usize, to: usize) -> bool {
        self.usage() - from + to <= self.limit
    }

    /// The state after a live block of `from` bytes was asked to become one
    /// of `to` bytes: resized where that fits, else as before but for the
    /// flag, which is up.
    pub open spec fn reallocate(self, from: usize, to: usize) -> AllocatorState {
        if self.regrants(from, to) {
            AllocatorState { live: self.live.update(self.live.index_of(from), to), ..self }
        } else {
            AllocatorState { limit_hit: true, ..self }
        }
    }

    /// The state after the flag was taken.
    pub open spec fn flag_taken(self) -> AllocatorState {
        AllocatorState { limit_hit: false, ..self }
    }
}

/// An allocation changes the count by the size of the block where it is
/// granted and not at all where it is refused, and never takes it over the
/// limit; a refusal raises the flag.
pub proof fn lemma_allocate(state: AllocatorState, n: usize)
    requires
        state.within_limit(),
    ensures
        state.allocate(n).within_limit(),
        state.grants(n) ==> state.allocate(n).usage() == state.usage() + n,
        !state.grants(n) ==> state.allocate(n).usage() == state.usage() && state.allocate(
            n,
        ).limit_hit,
{
    lemma_total_push(state.live, n);
}

/// Giving a live block back lowers the count by its size.
pub proof fn lemma_free(state: AllocatorState, n: usize)
    requires
        state.within_limit(),
        state.live.contains(n),
    ensures
        state.free(n).within_limit(),
        state.free(n).usage() == state.usage() - n,
        state.free(n).usage() >= 0,
{
    lemma_total_remove(state.live, state.live.index_of(n));
    lemma_total_nonnegative(state.free(n).live);
}

/// A block that is granted and given back leaves the count where it was.
pub proof fn lemma_allocate_then_free(state: AllocatorState, n: usize)
    requires
        state.within_limit(),
        state.grants(n),
    ensures
        state.allocate(n).live.contains(n),
        state.allocate(n).free(n).usage() == state.usage(),
{
    let after = state.allocate(n);
    assert(after.live[after.live.len() - 1] == n);
    lemma_allocate(state, n);
    lemma_free(after, n);
}

/// A resize changes the count by the difference of the sizes where it is
/// granted and not at all where it is refused, and never takes it over the
/// limit; a refusal raises the flag.
pub proof fn lemma_reallocate(state: AllocatorState, from: usize, to: usize)
    requires
        state.within_limit(),
        state.live.contains(from),
    ensures
        state.reallocate(from, to).within_limit(),
        state.usage() - from >= 0,
        state.regrants(from, to) ==> state.reallocate(from, to).usage() == state.usage() - from
            + to,
        !state.regrants(from, to) ==> state.reallocate(from, to).usage() == state.usage()
            && state.reallocate(from, to).limit_hit,
{
    let at = state.live.index_of(from);
    lemma_total_remove(state.live, at);
    lemma_total_nonnegative(state.live.remove(at));
    lemma_total_update(state.live, at, to);
}

/// Counts the bytes of the array buffers that are live, and refuses any
/// allocation that would take the count over the limit. A refusal is
/// remembered in a flag until it is taken.
pub struct CustomAllocator {
    max: usize,
    count: usize,
    memory_limit_hit: bool,
    live: Ghost<Seq<usize>>,
}

impl View for CustomAllocator {
    type V = AllocatorState;

    closed spec fn view(&self) -> AllocatorState {
        AllocatorState { limit: self.max, live: self.live@, limit_hit: self.memory_limit_hit }
    }
}

impl CustomAllocator {
    #[verifier::type_invariant]
    spec fn count_is_sum_of_live(self) -> bool {
        self.count == total(self.live@) && self.count <= self.max
    }

    /// An allocator with the given limit, no live block and the flag down.
    pub fn new(max_bytes: usize) -> (allocator: CustomAllocator)
        ensures
            allocator@ == (AllocatorState {
                limit: max_bytes,
                live: Seq::empty(),
                limit_hit: false,
            }),
    {
        CustomAllocator {
            max: max_bytes,
            count: 0,
            memory_limit_hit: false,
            live: Ghost(Seq::empty()),
        }
    }

    /// The running count: the sum of the sizes of the live blocks, never
    /// above the limit.
    pub fn current_usage(&self) -> (bytes: usize)
        ensures
            bytes == self@.usage(),
            self@.within_limit(),
    {
        proof {
            use_type_invariant(self);
        }
        self.count
    }

    /// The limit in bytes.
    pub fn max_bytes(&self) -> (bytes: usize)
        ensures
            bytes == self@.limit,
    {
        self.max
    }

    /// Whether an allocation was refused since the flag was last taken.
    pub fn memory_limit_hit(&self) -> (hit: bool)
        ensures
            hit == self@.limit_hit,
    {
        self.memory_limit_hit
    }

    /// Reads the flag and lowers it.
    pub fn take_memory_limit_hit(&mut self) -> (hit: bool)
        ensures
            hit == old(self)@.limit_hit,
            final(self)@ == old(self)@.flag_taken(),
    {
        proof {
            use_type_invariant(&*self);
        }
        let hit = self.memory_limit_hit;
        self.memory_limit_hit = false;
        hit
    }

    /// Asks for a block of `n` bytes, zero-filled or not. Granted, the block
    /// is counted. Refused, because the count would pass the limit, nothing
    /// is counted and the flag goes up; the caller then hands the engine a
    /// null pointer.
    pub fn allocate(&mut self, n: usize) -> (granted: bool)
        ensures
            granted == old(self)@.grants(n),
            final(self)@ == old(self)@.allocate(n),
    {
        proof {
            use_type_invariant(&*self);
        }
        if n > self.max - self.count {
            self.memory_limit_hit = true;
            false
        } else {
            proof {
                lemma_total_push(self.live@, n);
            }
            let ghost blocks = self.live@.push(n);
            let count = self.count + n;
            *self = CustomAllocator {
                max: self.max,
                count,
                memory_limit_hit: self.memory_limit_hit,
                live: Ghost(blocks),
            };
            true
        }
    }

    /// Gives back a live block of `n` bytes: it is no longer counted.
    pub fn free(&mut self, n: usize)
        requires
            old(self)@.live.contains(n),
        ensures
            final(self)@ == old(self)@.free(n),
    {
        proof {
            use_type_invariant(&*self);
        }
        let ghost at = self.live@.index_of(n);
        proof {
            lemma_total_remove(self.live@, at);
            lemma_total_nonnegative(self.live@.remove(at));
        }
        let ghost blocks = self.live@.remove(at);
        let count = self.count - n;
        *self = CustomAllocator {
            max: self.max,
            count,
            memory_limit_hit: self.memory_limit_hit,
            live: Ghost(blocks),
        };
    }

    /// Asks to resize a live block of `from` bytes to `to` bytes. Granted,
    /// the difference is applied to the count. Refused, because the count
    /// would pass the limit, the block keeps its size, the count stays, and
    /// the flag goes up. Shrinking is always granted.
    pub fn reallocate(&mut self, from: usize, to: usize) -> (granted: bool)
        requires
            old(self)@.live.contains(from),
        ensures
            granted == old(self)@.regrants(from, to),
            final(self)@ == old(self)@.reallocate(from, to),
    {
        proof {
            use_type_invariant(&*self);
        }
        let ghost at = self.live@.index_of(from);
        proof {
            lemma_total_remove(self.live@, at);
            lemma_total_nonnegative(self.live@.remove(at));
            lemma_total_update(self.live@, at, to);
        }
        let rest = self.count - from;
        if to > self.max - rest {
            self.memory_limit_hit = true;
            false
        } else {
            let ghost blocks = self.live@.update(at, to);
            *self = CustomAllocator {
                max: self.max,
                count: rest + to,
                memory_limit_hit: self.memory_limit_hit,
                live: Ghost(blocks),
            };
            true
        }
    }
}

} // verus!
