use vstd::prelude::*;
use std::collections::HashMap;

verus! {

broadcast use vstd::std_specs::hash::group_hash_axioms;

/// Why an allocation or a release was refused.
#[derive(Clone, Copy, Debug, PartialEq, Eq, Structural)]
pub enum AllocatorError {
    /// No free chunk holds the bytes asked for.
    NotEnoughMemory { intended: usize },
    /// No allocation starts at the address given to `free`.
    AddressNotAllocated { address: usize },
    /// The address was already freed; `free` reports such an address as
    /// not allocated, so neither operation returns this.
    AddressAlreadyFreed { address: usize },
}

/// A free chunk covers the addresses `chunk.0..chunk.1`.
pub open spec fn chunk_size(chunk: (usize, usize)) -> int {
    chunk.1 - chunk.0
}

/// Every chunk runs forwards.
pub open spec fn chunks_valid(chunks: Seq<(usize, usize)>) -> bool {
    forall|i: int| 0 <= i < chunks.len() ==> #[trigger] chunks[i].0 <= chunks[i].1
}

/// The chunks are ordered from the largest to the smallest.
pub open spec fn chunks_sorted(chunks: Seq<(usize, usize)>) -> bool {
    forall|i: int, j: int|
        0 <= i < j < chunks.len() ==> chunk_size(#[trigger] chunks[i]) >= chunk_size(#[trigger] chunks[j])
}

/// The number of free bytes in `chunks`.
pub open spec fn chunks_total(chunks: Seq<(usize, usize)>) -> int
    decreases chunks.len(),
{
    if chunks.len() == 0 {
        0
    } else {
        chunks_total(chunks.drop_last()) + chunk_size(chunks.last())
    }
}

/// Where a chunk of `size` bytes goes to keep the order: after every larger
/// chunk.
pub open spec fn insertion_index(chunks: Seq<(usize, usize)>, size: int) -> int
    decreases chunks.len(),
{
    if chunks.len() == 0 {
        0
    } else if chunk_size(chunks[0]) > size {
        1 + insertion_index(chunks.drop_first(), size)
    } else {
        0
    }
}

/// The chunks after inserting `item` after every larger chunk.
pub open spec fn spec_insert_chunk(chunks: Seq<(usize, usize)>, item: (usize, usize)) -> Seq<(usize, usize)> {
    chunks.insert(insertion_index(chunks, chunk_size(item)), item)
}

/// The index of the smallest chunk that holds `size` bytes: the last one,
/// scanning from the end, with enough room.
pub open spec fn suitable_index(chunks: Seq<(usize, usize)>, size: int) -> Option<int>
    decreases chunks.len(),
{
    if chunks.len() == 0 {
        None
    } else if chunk_size(chunks.last()) >= size {
        Some(chunks.len() - 1)
    } else {
        suitable_index(chunks.drop_last(), size)
    }
}

/// Whether `chunk` touches the range `from..to` at one of its ends.
pub open spec fn is_adjacent(chunk: (usize, usize), from: usize, to: usize) -> bool {
    chunk.0 == to || from == chunk.1
}

/// The index of the first chunk that touches `from..to`.
pub open spec fn adjacent_index(chunks: Seq<(usize, usize)>, from: usize, to: usize) -> Option<int>
    decreases chunks.len(),
{
    if chunks.len() == 0 {
        None
    } else {
        match adjacent_index(chunks.drop_last(), from, to) {
            Some(i) => Some(i),
            None => if is_adjacent(chunks.last(), from, to) {
                Some(chunks.len() - 1)
            } else {
                None
            },
        }
    }
}

proof fn lemma_chunks_total_nonnegative(chunks: Seq<(usize, usize)>)
    requires
        chunks_valid(chunks),
    ensures
        chunks_total(chunks) >= 0,
    decreases chunks.len(),
{
    if chunks.len() > 0 {
        assert(chunks_valid(chunks.drop_last()));
        lemma_chunks_total_nonnegative(chunks.drop_last());
        assert(chunks[chunks.len() - 1].0 <= chunks[chunks.len() - 1].1);
    }
}

proof fn lemma_chunks_total_prefix(chunks: Seq<(usize, usize)>, i: int)
    requires
        chunks_valid(chunks),
        0 <= i <= chunks.len(),
    ensures
        0 <= chunks_total(chunks.take(i)) <= chunks_total(chunks),
    decreases chunks.len() - i,
{
    assert(chunks_valid(chunks.take(i)));
    lemma_chunks_total_nonnegative(chunks.take(i));
    if i < chunks.len() {
        lemma_chunks_total_prefix(chunks, i + 1);
        assert(chunks.take(i + 1).drop_last() =~= chunks.take(i));
        assert(chunks[i].0 <= chunks[i].1);
    } else {
        assert(chunks.take(i) =~= chunks);
    }
}

proof fn lemma_chunks_total_remove(chunks: Seq<(usize, usize)>, i: int)
    requires
        0 <= i < chunks.len(),
    ensures
        chunks_total(chunks.remove(i)) == chunks_total(chunks) - chunk_size(chunks[i]),
    decreases chunks.len(),
{
    if i < chunks.len() - 1 {
        lemma_chunks_total_remove(chunks.drop_last(), i);
        assert(chunks.remove(i).drop_last() =~= chunks.drop_last().remove(i));
        assert(chunks.remove(i).last() == chunks.last());
    } else {
        assert(chunks.remove(i) =~= chunks.drop_last());
    }
}

proof fn lemma_chunks_total_insert(chunks: Seq<(usize, usize)>, i: int, item: (usize, usize))
    requires
        0 <= i <= chunks.len(),
    ensures
        chunks_total(chunks.insert(i, item)) == chunks_total(chunks) + chunk_size(item),
{
    lemma_chunks_total_remove(chunks.insert(i, item), i);
    assert(chunks.insert(i, item).remove(i) =~= chunks);
}

proof fn lemma_insertion_index(chunks: Seq<(usize, usize)>, size: int)
    requires
        chunks_sorted(chunks),
    ensures
        0 <= insertion_index(chunks, size) <= chunks.len(),
        forall|k: int| 0 <= k < insertion_index(chunks, size) ==> chunk_size(#[trigger] chunks[k]) > size,
        forall|k: int|
            insertion_index(chunks, size) <= k < chunks.len() ==> chunk_size(#[trigger] chunks[k]) <= size,
    decreases chunks.len(),
{
    if chunks.len() > 0 {
        let rest = chunks.drop_first();
        assert(chunks_sorted(rest)) by {
            assert forall|i: int, j: int| 0 <= i < j < rest.len() implies chunk_size(#[trigger] rest[i])
                >= chunk_size(#[trigger] rest[j]) by {
                assert(rest[i] == chunks[i + 1] && rest[j] == chunks[j + 1]);
            }
        }
        lemma_insertion_index(rest, size);
        if chunk_size(chunks[0]) > size {
            assert forall|k: int| 0 <= k < insertion_index(chunks, size) implies chunk_size(
                #[trigger] chunks[k],
            ) > size by {
                if k > 0 {
                    assert(chunks[k] == rest[k - 1]);
                }
            }
            assert forall|k: int| insertion_index(chunks, size) <= k < chunks.len() implies chunk_size(
                #[trigger] chunks[k],
            ) <= size by {
                assert(chunks[k] == rest[k - 1]);
            }
        } else {
            assert forall|k: int| 0 <= k < chunks.len() implies chunk_size(#[trigger] chunks[k]) <= size by {
                if k > 0 {
                    assert(chunk_size(chunks[0]) >= chunk_size(chunks[k]));
                }
            }
        }
    }
}

/// Inserting a chunk keeps the chunks ordered and valid.
proof fn lemma_insert_keeps_order(chunks: Seq<(usize, usize)>, item: (usize, usize))
    requires
        chunks_sorted(chunks),
        chunks_valid(chunks),
        item.0 <= item.1,
    ensures
        chunks_sorted(spec_insert_chunk(chunks, item)),
        chunks_valid(spec_insert_chunk(chunks, item)),
{
    let pos = insertion_index(chunks, chunk_size(item));
    lemma_insertion_index(chunks, chunk_size(item));
    let after = chunks.insert(pos, item);
    assert forall|i: int, j: int| 0 <= i < j < after.len() implies chunk_size(#[trigger] after[i]) >= chunk_size(
        #[trigger] after[j],
    ) by {
        if i < pos && j < pos {
            assert(after[i] == chunks[i] && after[j] == chunks[j]);
        } else if i < pos && j == pos {
            assert(after[i] == chunks[i]);
        } else if i < pos {
            assert(after[i] == chunks[i] && after[j] == chunks[j - 1]);
        } else if i == pos {
            assert(after[j] == chunks[j - 1]);
        } else {
            assert(after[i] == chunks[i - 1] && after[j] == chunks[j - 1]);
        }
    }
    assert forall|i: int| 0 <= i < after.len() implies #[trigger] after[i].0 <= after[i].1 by {
        if i < pos {
            assert(after[i] == chunks[i]);
        } else if i > pos {
            assert(after[i] == chunks[i - 1]);
        }
    }
}

proof fn lemma_remove_keeps_order(chunks: Seq<(usize, usize)>, index: int)
    requires
        chunks_sorted(chunks),
        chunks_valid(chunks),
        0 <= index < chunks.len(),
    ensures
        chunks_sorted(chunks.remove(index)),
        chunks_valid(chunks.remove(index)),
{
    let after = chunks.remove(index);
    assert forall|i: int, j: int| 0 <= i < j < after.len() implies chunk_size(#[trigger] after[i]) >= chunk_size(
        #[trigger] after[j],
    ) by {
        let oi = if i < index { i } else { i + 1 };
        let oj = if j < index { j } else { j + 1 };
        assert(after[i] == chunks[oi] && after[j] == chunks[oj]);
    }
    assert forall|i: int| 0 <= i < after.len() implies #[trigger] after[i].0 <= after[i].1 by {
        let oi = if i < index { i } else { i + 1 };
        assert(after[i] == chunks[oi]);
    }
}

proof fn lemma_suitable_index(chunks: Seq<(usize, usize)>, size: int)
    ensures
        match suitable_index(chunks, size) {
            Some(i) => {
                &&& 0 <= i < chunks.len()
                &&& chunk_size(chunks[i]) >= size
                &&& forall|k: int| i < k < chunks.len() ==> chunk_size(#[trigger] chunks[k]) < size
            },
            None => forall|k: int| 0 <= k < chunks.len() ==> chunk_size(#[trigger] chunks[k]) < size,
        },
    decreases chunks.len(),
{
    if chunks.len() > 0 {
        lemma_suitable_index(chunks.drop_last(), size);
        if chunk_size(chunks.last()) < size {
            assert forall|k: int| 0 <= k < chunks.len() - 1 implies chunks.drop_last()[k] == #[trigger] chunks[k] by {
            }
        }
    }
}

proof fn lemma_adjacent_index(chunks: Seq<(usize, usize)>, from: usize, to: usize)
    ensures
        match adjacent_index(chunks, from, to) {
            Some(i) => {
                &&& 0 <= i < chunks.len()
                &&& is_adjacent(chunks[i], from, to)
                &&& forall|k: int| 0 <= k < i ==> !is_adjacent(#[trigger] chunks[k], from, to)
            },
            None => forall|k: int| 0 <= k < chunks.len() ==> !is_adjacent(#[trigger] chunks[k], from, to),
        },
    decreases chunks.len(),
{
    if chunks.len() > 0 {
        lemma_adjacent_index(chunks.drop_last(), from, to);
        assert forall|k: int| 0 <= k < chunks.len() - 1 implies chunks.drop_last()[k] == #[trigger] chunks[k] by {
        }
    }
}

/// Every chunk ends within `capacity`.
pub open spec fn chunks_within(chunks: Seq<(usize, usize)>, capacity: nat) -> bool {
    forall|i: int| 0 <= i < chunks.len() ==> #[trigger] chunks[i].1 <= capacity
}

/// Removing a chunk keeps the order and the bounds, and takes its bytes
/// out of the total.
proof fn lemma_remove_chunk(chunks: Seq<(usize, usize)>, index: int, capacity: nat)
    requires
        chunks_sorted(chunks),
        chunks_valid(chunks),
        chunks_within(chunks, capacity),
        0 <= index < chunks.len(),
    ensures
        chunks_sorted(chunks.remove(index)),
        chunks_valid(chunks.remove(index)),
        chunks_within(chunks.remove(index), capacity),
        chunks_total(chunks.remove(index)) == chunks_total(chunks) - chunk_size(chunks[index]),
        chunks[index].0 <= chunks[index].1 <= capacity,
{
    lemma_remove_keeps_order(chunks, index);
    lemma_chunks_total_remove(chunks, index);
    let after = chunks.remove(index);
    assert forall|k: int| 0 <= k < after.len() implies #[trigger] after[k].1 <= capacity by {
        let ok = if k < index { k } else { k + 1 };
        assert(after[k] == chunks[ok]);
    }
}

/// A successful insertion keeps the order and the bounds, and adds the
/// chunk's bytes to the total.
proof fn lemma_insert_chunk(chunks: Seq<(usize, usize)>, item: (usize, usize), capacity: nat)
    requires
        chunks_sorted(chunks),
        chunks_valid(chunks),
        chunks_within(chunks, capacity),
        item.0 <= item.1 <= capacity,
    ensures
        chunks_sorted(spec_insert_chunk(chunks, item)),
        chunks_valid(spec_insert_chunk(chunks, item)),
        chunks_within(spec_insert_chunk(chunks, item), capacity),
        chunks_total(spec_insert_chunk(chunks, item)) == chunks_total(chunks) + chunk_size(item),
{
    lemma_insert_keeps_order(chunks, item);
    lemma_insertion_index(chunks, chunk_size(item));
    let pos = insertion_index(chunks, chunk_size(item));
    lemma_chunks_total_insert(chunks, pos, item);
    let after = chunks.insert(pos, item);
    assert forall|k: int| 0 <= k < after.len() implies #[trigger] after[k].1 <= capacity by {
        if k < pos {
            assert(after[k] == chunks[k]);
        } else if k > pos {
            assert(after[k] == chunks[k - 1]);
        }
    }
}

/// The free chunks of an allocator, largest first.
struct FreeChunks {
    free_chunks: Vec<(usize, usize)>,
}

impl FreeChunks {
    fn new(capacity: usize) -> (r: FreeChunks)
        ensures
            r.free_chunks@ == seq![(0usize, capacity)],
    {
        FreeChunks { free_chunks: vec![(0, capacity)] }
    }

    fn remove(&mut self, index: usize)
        requires
            index < old(self).free_chunks@.len(),
        ensures
            final(self).free_chunks@ == old(self).free_chunks@.remove(index as int),
    {
        self.free_chunks.remove(index);
    }

    /// Inserts `item` after every larger chunk, found by binary search.
    fn insert(&mut self, item: (usize, usize))
        requires
            chunks_sorted(old(self).free_chunks@),
            chunks_valid(old(self).free_chunks@),
            item.0 <= item.1,
        ensures
            final(self).free_chunks@ == spec_insert_chunk(old(self).free_chunks@, item),
    {
        let ghost chunks = self.free_chunks@;
        let size = item.1 - item.0;
        let mut low: usize = 0;
        let mut high: usize = self.free_chunks.len();
        while low < high
            invariant
                chunks == self.free_chunks@,
                chunks_sorted(chunks),
                chunks_valid(chunks),
                size == chunk_size(item),
                0 <= low <= high <= chunks.len(),
                forall|k: int| 0 <= k < low ==> chunk_size(#[trigger] chunks[k]) > size,
                forall|k: int| high <= k < chunks.len() ==> chunk_size(#[trigger] chunks[k]) <= size,
            decreases high - low,
        {
            let middle = low + (high - low) / 2;
            let (f, t) = self.free_chunks[middle];
            let middle_size = t - f;
            if middle_size > size {
                assert forall|k: int| 0 <= k < middle + 1 implies chunk_size(#[trigger] chunks[k]) > size by {
                    if k < middle {
                        assert(chunk_size(chunks[k]) >= chunk_size(chunks[middle as int]));
                    }
                }
                low = middle + 1;
            } else {
                assert forall|k: int| middle <= k < chunks.len() implies chunk_size(#[trigger] chunks[k]) <= size by {
                    if k > middle {
                        assert(chunk_size(chunks[middle as int]) >= chunk_size(chunks[k]));
                    }
                }
                high = middle;
            }
        }
        proof {
            lemma_insertion_index(chunks, size as int);
            let pos = insertion_index(chunks, size as int);
            if pos < low {
                assert(chunk_size(chunks[pos]) > size);
            } else if pos > low {
                assert(chunk_size(chunks[low as int]) > size);
            }
        }
        self.free_chunks.insert(low, item);
    }

    /// The first chunk, with its index, that starts where `from..to` ends or
    /// ends where it starts.
    fn get_adjacent_chunk(&self, from: usize, to: usize) -> (r: Option<(usize, (usize, usize))>)
        ensures
            match r {
                Some((index, chunk)) => adjacent_index(self.free_chunks@, from, to) == Some(index as int)
                    && chunk == self.free_chunks@[index as int],
                None => adjacent_index(self.free_chunks@, from, to) is None,
            },
    {
        let mut i: usize = 0;
        while i < self.free_chunks.len()
            invariant
                i <= self.free_chunks@.len(),
                adjacent_index(self.free_chunks@.take(i as int), from, to) is None,
            decreases self.free_chunks@.len() - i,
        {
            let (f, t) = self.free_chunks[i];
            assert(self.free_chunks@.take(i + 1).drop_last() =~= self.free_chunks@.take(i as int));
            if f == to || from == t {
                proof {
                    lemma_adjacent_prefix(self.free_chunks@, i as int + 1, from, to);
                }
                return Some((i, (f, t)));
            }
            i = i + 1;
        }
        assert(self.free_chunks@.take(i as int) =~= self.free_chunks@);
        None
    }

    /// The smallest chunk, with its index, that holds `size` bytes.
    fn find_suitable_chunk(&self, size: usize) -> (r: Option<(usize, (usize, usize))>)
        requires
            chunks_valid(self.free_chunks@),
        ensures
            match r {
                Some((index, chunk)) => suitable_index(self.free_chunks@, size as int) == Some(index as int)
                    && chunk == self.free_chunks@[index as int],
                None => suitable_index(self.free_chunks@, size as int) is None,
            },
    {
        let mut end: usize = self.free_chunks.len();
        assert(self.free_chunks@.take(end as int) =~= self.free_chunks@);
        while end > 0
            invariant
                end <= self.free_chunks@.len(),
                chunks_valid(self.free_chunks@),
                suitable_index(self.free_chunks@, size as int) == suitable_index(
                    self.free_chunks@.take(end as int),
                    size as int,
                ),
            decreases end,
        {
            let (from, to) = self.free_chunks[end - 1];
            assert(self.free_chunks@[end - 1].0 <= self.free_chunks@[end - 1].1);
            assert(self.free_chunks@.take(end as int).last() == self.free_chunks@[end - 1]);
            assert(self.free_chunks@.take(end as int).drop_last() =~= self.free_chunks@.take(end - 1));
            if to - from >= size {
                return Some((end - 1, (from, to)));
            }
            end = end - 1;
        }
        None
    }

    /// The number of free bytes.
    fn available_memory(&self) -> (r: usize)
        requires
            chunks_valid(self.free_chunks@),
            chunks_total(self.free_chunks@) <= usize::MAX,
        ensures
            r == chunks_total(self.free_chunks@),
    {
        let mut total: usize = 0;
        let mut i: usize = 0;
        while i < self.free_chunks.len()
            invariant
                i <= self.free_chunks@.len(),
                chunks_valid(self.free_chunks@),
                chunks_total(self.free_chunks@) <= usize::MAX,
                total == chunks_total(self.free_chunks@.take(i as int)),
            decreases self.free_chunks@.len() - i,
        {
            let (from, to) = self.free_chunks[i];
            proof {
                lemma_chunks_total_prefix(self.free_chunks@, i + 1);
                assert(self.free_chunks@.take(i + 1).drop_last() =~= self.free_chunks@.take(i as int));
                assert(self.free_chunks@[i as int].0 <= self.free_chunks@[i as int].1);
            }
            total = total + (to - from);
            i = i + 1;
        }
        assert(self.free_chunks@.take(i as int) =~= self.free_chunks@);
        total
    }
}

proof fn lemma_adjacent_prefix(chunks: Seq<(usize, usize)>, n: int, from: usize, to: usize)
    requires
        0 < n <= chunks.len(),
        adjacent_index(chunks.take(n - 1), from, to) is None,
        is_adjacent(chunks[n - 1], from, to),
    ensures
        adjacent_index(chunks, from, to) == Some(n - 1),
    decreases chunks.len() - n,
{
    assert(chunks.take(n).drop_last() =~= chunks.take(n - 1));
    assert(chunks.take(n).last() == chunks[n - 1]);
    assert(adjacent_index(chunks.take(n), from, to) == Some(n - 1));
    if n < chunks.len() {
        lemma_adjacent_keeps_first(chunks, n, from, to);
    } else {
        assert(chunks.take(n) =~= chunks);
    }
}

proof fn lemma_adjacent_keeps_first(chunks: Seq<(usize, usize)>, n: int, from: usize, to: usize)
    requires
        0 < n <= chunks.len(),
        adjacent_index(chunks.take(n), from, to) is Some,
    ensures
        adjacent_index(chunks, from, to) == adjacent_index(chunks.take(n), from, to),
    decreases chunks.len() - n,
{
    if n < chunks.len() {
        assert(chunks.take(n + 1).drop_last() =~= chunks.take(n));
        lemma_adjacent_keeps_first(chunks, n + 1, from, to);
    } else {
        assert(chunks.take(n) =~= chunks);
    }
}

/// The number of bytes handed out by the allocations of `allocations`
/// (address to size).
pub open spec fn allocated_total(allocations: Map<usize, usize>) -> int
    decreases allocations.dom().len(),
{
    if allocations.dom().finite() && allocations.dom().len() > 0 {
        let address = allocations.dom().choose();
        proof {
            vstd::set::axiom_set_choose_len(allocations.dom());
            assert(allocations.remove(address).dom() =~= allocations.dom().remove(address));
        }
        allocations[address] + allocated_total(allocations.remove(address))
    } else {
        0
    }
}

proof fn lemma_allocated_total_remove(allocations: Map<usize, usize>, address: usize)
    requires
        allocations.dom().finite(),
        allocations.dom().contains(address),
    ensures
        allocated_total(allocations) == allocations[address] + allocated_total(allocations.remove(address)),
    decreases allocations.dom().len(),
{
    let chosen = allocations.dom().choose();
    assert(allocations.remove(chosen).dom() =~= allocations.dom().remove(chosen));
    assert(allocations.remove(address).dom() =~= allocations.dom().remove(address));
    if chosen != address {
        let both = allocations.remove(chosen).remove(address);
        assert(allocations.remove(address).remove(chosen) =~= both);
        lemma_allocated_total_remove(allocations.remove(chosen), address);
        lemma_allocated_total_remove(allocations.remove(address), chosen);
    }
}

proof fn lemma_allocated_total_nonnegative(allocations: Map<usize, usize>)
    ensures
        allocated_total(allocations) >= 0,
    decreases allocations.dom().len(),
{
    if allocations.dom().finite() && allocations.dom().len() > 0 {
        let address = allocations.dom().choose();
        vstd::set::axiom_set_choose_len(allocations.dom());
        assert(allocations.remove(address).dom() =~= allocations.dom().remove(address));
        lemma_allocated_total_nonnegative(allocations.remove(address));
    }
}

proof fn lemma_allocated_total_insert(allocations: Map<usize, usize>, address: usize, size: usize)
    requires
        allocations.dom().finite(),
    ensures
        allocated_total(allocations.insert(address, size)) == allocated_total(allocations) + size - if allocations.dom().contains(address) {
            allocations[address] as int
        } else {
            0
        },
{
    let after = allocations.insert(address, size);
    lemma_allocated_total_remove(after, address);
    if allocations.dom().contains(address) {
        lemma_allocated_total_remove(allocations, address);
        assert(after.remove(address) =~= allocations.remove(address));
    } else {
        assert(after.remove(address) =~= allocations);
    }
}

/// The chunk that `chunk` and the released range `from..to`, which it
/// touches, make together.
pub open spec fn merged_chunk(chunk: (usize, usize), from: usize, to: usize) -> (usize, usize) {
    if chunk.0 == to {
        (from, chunk.1)
    } else {
        (chunk.0, to)
    }
}

/// Releasing `from..to`: it is merged with the first free chunk it touches
/// (which leaves the list first), or inserted on its own.
pub open spec fn spec_add_free_space(chunks: Seq<(usize, usize)>, from: usize, to: usize) -> Seq<(usize, usize)> {
    match adjacent_index(chunks, from, to) {
        Some(i) => spec_insert_chunk(chunks.remove(i), merged_chunk(chunks[i], from, to)),
        None => spec_insert_chunk(chunks, (from, to)),
    }
}

/// Whether the address ranges `a` and `b` (start, end) share no address;
/// an empty range shares none.
pub open spec fn apart(a: (int, int), b: (int, int)) -> bool {
    a.0 >= a.1 || b.0 >= b.1 || a.1 <= b.0 || b.1 <= a.0
}

/// The addresses of a free chunk.
pub open spec fn chunk_range(chunk: (usize, usize)) -> (int, int) {
    (chunk.0 as int, chunk.1 as int)
}

/// The addresses of the allocation of `size` bytes at `address`.
pub open spec fn block_range(address: usize, size: usize) -> (int, int) {
    (address as int, address + size)
}

/// No two free chunks share an address.
pub open spec fn chunks_apart(chunks: Seq<(usize, usize)>) -> bool {
    forall|i: int, j: int|
        0 <= i < chunks.len() && 0 <= j < chunks.len() && i != j ==> apart(
            chunk_range(#[trigger] chunks[i]),
            chunk_range(#[trigger] chunks[j]),
        )
}

/// No two allocations share an address.
pub open spec fn blocks_apart(allocations: Map<usize, usize>) -> bool {
    forall|a: usize, b: usize|
        #![trigger allocations.dom().contains(a), allocations.dom().contains(b)]
        allocations.dom().contains(a) && allocations.dom().contains(b) && a != b ==> apart(
            block_range(a, allocations[a]),
            block_range(b, allocations[b]),
        )
}

/// Whether `range` shares no address with an allocation.
pub open spec fn apart_from_blocks(range: (int, int), allocations: Map<usize, usize>) -> bool {
    forall|a: usize| #[trigger] allocations.dom().contains(a) ==> apart(range, block_range(a, allocations[a]))
}

/// No free chunk shares an address with an allocation.
pub open spec fn chunks_apart_from_blocks(chunks: Seq<(usize, usize)>, allocations: Map<usize, usize>) -> bool {
    forall|i: int| 0 <= i < chunks.len() ==> apart_from_blocks(chunk_range(#[trigger] chunks[i]), allocations)
}

/// Whether `range` shares no address with a free chunk.
pub open spec fn apart_from_chunks(range: (int, int), chunks: Seq<(usize, usize)>) -> bool {
    forall|i: int| 0 <= i < chunks.len() ==> apart(range, chunk_range(#[trigger] chunks[i]))
}

/// What holds of every chunk holds of every chunk after an insertion.
proof fn lemma_insert_all(chunks: Seq<(usize, usize)>, item: (usize, usize), p: spec_fn((usize, usize)) -> bool)
    requires
        forall|k: int| 0 <= k < chunks.len() ==> p(#[trigger] chunks[k]),
        p(item),
    ensures
        forall|k: int| 0 <= k < spec_insert_chunk(chunks, item).len() ==> p(
            #[trigger] spec_insert_chunk(chunks, item)[k],
        ),
{
    let pos = insertion_index(chunks, chunk_size(item));
    assert(0 <= pos <= chunks.len()) by {
        lemma_insertion_index_bounds(chunks, chunk_size(item));
    }
    let after = chunks.insert(pos, item);
    assert forall|k: int| 0 <= k < after.len() implies p(#[trigger] after[k]) by {
        if k < pos {
            assert(after[k] == chunks[k]);
        } else if k > pos {
            assert(after[k] == chunks[k - 1]);
        }
    }
}

proof fn lemma_insertion_index_bounds(chunks: Seq<(usize, usize)>, size: int)
    ensures
        0 <= insertion_index(chunks, size) <= chunks.len(),
    decreases chunks.len(),
{
    if chunks.len() > 0 {
        lemma_insertion_index_bounds(chunks.drop_first(), size);
    }
}

/// Inserting a chunk that shares no address with the others keeps the
/// chunks apart.
proof fn lemma_insert_apart(chunks: Seq<(usize, usize)>, item: (usize, usize))
    requires
        chunks_apart(chunks),
        apart_from_chunks(chunk_range(item), chunks),
    ensures
        chunks_apart(spec_insert_chunk(chunks, item)),
{
    let pos = insertion_index(chunks, chunk_size(item));
    lemma_insertion_index_bounds(chunks, chunk_size(item));
    let after = chunks.insert(pos, item);
    assert forall|i: int, j: int| 0 <= i < after.len() && 0 <= j < after.len() && i != j implies apart(
        chunk_range(#[trigger] after[i]),
        chunk_range(#[trigger] after[j]),
    ) by {
        let oi = if i < pos { i } else { i - 1 };
        let oj = if j < pos { j } else { j - 1 };
        if i == pos {
            assert(after[j] == chunks[oj]);
            assert(apart(chunk_range(item), chunk_range(chunks[oj])));
        } else if j == pos {
            assert(after[i] == chunks[oi]);
            assert(apart(chunk_range(item), chunk_range(chunks[oi])));
        } else {
            assert(after[i] == chunks[oi] && after[j] == chunks[oj]);
        }
    }
}

/// Removing a chunk keeps the others apart, from each other, from the
/// allocations and from the removed one.
proof fn lemma_remove_apart(chunks: Seq<(usize, usize)>, index: int, allocations: Map<usize, usize>)
    requires
        chunks_apart(chunks),
        chunks_apart_from_blocks(chunks, allocations),
        0 <= index < chunks.len(),
    ensures
        chunks_apart(chunks.remove(index)),
        chunks_apart_from_blocks(chunks.remove(index), allocations),
        apart_from_chunks(chunk_range(chunks[index]), chunks.remove(index)),
        apart_from_blocks(chunk_range(chunks[index]), allocations),
{
    let after = chunks.remove(index);
    assert forall|i: int, j: int| 0 <= i < after.len() && 0 <= j < after.len() && i != j implies apart(
        chunk_range(#[trigger] after[i]),
        chunk_range(#[trigger] after[j]),
    ) by {
        let oi = if i < index { i } else { i + 1 };
        let oj = if j < index { j } else { j + 1 };
        assert(after[i] == chunks[oi] && after[j] == chunks[oj]);
    }
    assert forall|i: int| 0 <= i < after.len() implies apart_from_blocks(
        chunk_range(#[trigger] after[i]),
        allocations,
    ) by {
        let oi = if i < index { i } else { i + 1 };
        assert(after[i] == chunks[oi]);
    }
    assert forall|i: int| 0 <= i < after.len() implies apart(chunk_range(chunks[index]), chunk_range(#[trigger] after[i])) by {
        let oi = if i < index { i } else { i + 1 };
        assert(after[i] == chunks[oi]);
        assert(apart(chunk_range(chunks[oi]), chunk_range(chunks[index])));
    }
    assert(apart_from_blocks(chunk_range(chunks[index]), allocations));
}

/// A range made of two touching ranges shares no address with what shares
/// none with either.
proof fn lemma_apart_union(x: (int, int), first: (int, int), second: (int, int))
    requires
        first.0 <= first.1 == second.0 <= second.1,
        apart(x, first),
        apart(x, second),
    ensures
        apart(x, (first.0, second.1)),
{
}

/// A range inside one that shares no address with `x` shares none with it.
proof fn lemma_apart_inside(x: (int, int), outer: (int, int), inner: (int, int))
    requires
        outer.0 <= inner.0,
        inner.1 <= outer.1,
        apart(x, outer),
    ensures
        apart(x, inner),
        apart(inner, x),
{
}

/// A first-fit-from-the-smallest allocator over the addresses
/// `0..capacity`: free space is kept as chunks ordered by size, and each
/// allocation remembers its size.
pub struct Allocator {
    free_chunks: FreeChunks,
    allocated_spaces: HashMap<usize, usize>,
    capacity: Ghost<nat>,
}

impl Allocator {
    /// The free chunks, largest first.
    pub closed spec fn chunks(&self) -> Seq<(usize, usize)> {
        self.free_chunks.free_chunks@
    }

    /// The live allocations, from address to size.
    pub closed spec fn allocations(&self) -> Map<usize, usize> {
        self.allocated_spaces@
    }

    /// The number of addresses the allocator was made with.
    pub closed spec fn capacity(&self) -> nat {
        self.capacity@
    }

    /// The allocator's invariant: the chunks are ordered by size and lie
    /// within the capacity, each allocation fits in it, no two of the free
    /// chunks and allocations share an address, and free plus allocated
    /// bytes never exceed the capacity.
    pub open spec fn wf(&self) -> bool {
        &&& chunks_sorted(self.chunks())
        &&& chunks_valid(self.chunks())
        &&& self.capacity() <= usize::MAX
        &&& chunks_within(self.chunks(), self.capacity())
        &&& self.allocations().dom().finite()
        &&& forall|address: usize| #[trigger]
            self.allocations().dom().contains(address) ==> address + self.allocations()[address]
                <= self.capacity()
        &&& chunks_apart(self.chunks())
        &&& blocks_apart(self.allocations())
        &&& chunks_apart_from_blocks(self.chunks(), self.allocations())
        &&& chunks_total(self.chunks()) + allocated_total(self.allocations()) <= self.capacity()
    }

    /// What `malloc(size)` leaves and returns: the free chunks, the
    /// allocations and the result.
    pub open spec fn spec_malloc(&self, size: usize) -> (
        Seq<(usize, usize)>,
        Map<usize, usize>,
        Result<usize, AllocatorError>,
    ) {
        let chunks = self.chunks();
        let allocations = self.allocations();
        if size > chunks_total(chunks) {
            (chunks, allocations, Err(AllocatorError::NotEnoughMemory { intended: size }))
        } else {
            match suitable_index(chunks, size as int) {
                None => (chunks, allocations, Err(AllocatorError::NotEnoughMemory { intended: size })),
                Some(i) => {
                    let (from, to) = chunks[i];
                    let rest = chunks.remove(i);
                    let after = if from + size < to {
                        spec_insert_chunk(rest, ((from + size) as usize, to))
                    } else {
                        rest
                    };
                    (after, allocations.insert(from, size), Ok(from))
                },
            }
        }
    }

    /// What `free(address)` leaves and returns: the free chunks, the
    /// allocations and the result.
    pub open spec fn spec_free(&self, address: usize) -> (
        Seq<(usize, usize)>,
        Map<usize, usize>,
        Result<(), AllocatorError>,
    ) {
        let chunks = self.chunks();
        let allocations = self.allocations();
        if allocations.dom().contains(address) {
            (
                spec_add_free_space(chunks, address, (address + allocations[address]) as usize),
                allocations.remove(address),
                Ok(()),
            )
        } else {
            (chunks, allocations, Err(AllocatorError::AddressNotAllocated { address }))
        }
    }

    /// An allocator over `0..capacity` with everything free.
    pub fn new(capacity: usize) -> (r: Allocator)
        ensures
            r.wf(),
            r.chunks() == seq![(0usize, capacity)],
            r.allocations() == Map::<usize, usize>::empty(),
            r.capacity() == capacity,
    {
        let r = Allocator {
            allocated_spaces: HashMap::new(),
            free_chunks: FreeChunks::new(capacity),
            capacity: Ghost(capacity as nat),
        };
        proof {
            assert(r.allocations().dom() =~= Set::empty());
            assert(r.allocations().dom().len() == 0);
            assert(allocated_total(r.allocations()) == 0);
            assert(chunks_total(r.chunks()) == capacity) by {
                assert(r.chunks().drop_last() =~= Seq::<(usize, usize)>::empty());
                assert(chunks_total(Seq::<(usize, usize)>::empty()) == 0);
            }
        }
        r
    }

    /// The size of the allocation that starts at `address`, if there is one.
    pub fn get_allocated_space(&self, address: usize) -> (r: Option<usize>)
        ensures
            r == if self.allocations().dom().contains(address) {
                Some(self.allocations()[address])
            } else {
                None::<usize>
            },
    {
        self.allocated_spaces.get(&address).cloned()
    }

    /// Allocates room for a value of type `T`.
    pub fn malloc_t<T>(&mut self) -> (r: Result<usize, AllocatorError>)
        requires
            old(self).wf(),
        ensures
            final(self).wf(),
            final(self).capacity() == old(self).capacity(),
            (final(self).chunks(), final(self).allocations(), r) == old(self).spec_malloc(
                vstd::layout::size_of::<T>() as usize,
            ),
    {
        self.malloc(core::mem::size_of::<T>())
    }

    /// Allocates `size` bytes from the smallest free chunk that holds them
    /// and returns their address; what remains of the chunk goes back to the
    /// free list.
    #[verifier::rlimit(50)]
    pub fn malloc(&mut self, size: usize) -> (r: Result<usize, AllocatorError>)
        requires
            old(self).wf(),
        ensures
            final(self).wf(),
            final(self).capacity() == old(self).capacity(),
            (final(self).chunks(), final(self).allocations(), r) == old(self).spec_malloc(size),
    {
        proof {
            lemma_chunks_total_nonnegative(self.chunks());
            lemma_allocated_total_nonnegative(self.allocations());
        }
        let free_memory = self.free_chunks.available_memory();
        if size > free_memory {
            Err(AllocatorError::NotEnoughMemory { intended: size })
        } else {
            let space = self.free_chunks.find_suitable_chunk(size);
            proof {
                lemma_suitable_index(self.chunks(), size as int);
            }
            match space {
                None => Err(AllocatorError::NotEnoughMemory { intended: size }),
                Some((index, (from, to))) => {
                    let ghost old_chunks = self.chunks();
                    let ghost old_allocations = self.allocations();
                    proof {
                        lemma_remove_apart(old_chunks, index as int, old_allocations);
                    }
                    self.free_chunks.remove(index);
                    proof {
                        lemma_remove_chunk(old_chunks, index as int, self.capacity());
                    }
                    if from + size < to {
                        let ghost rest = self.chunks();
                        let ghost item = ((from + size) as usize, to);
                        self.free_chunks.insert((from + size, to));
                        proof {
                            lemma_insert_chunk(rest, item, self.capacity());
                            assert forall|k: int| 0 <= k < rest.len() implies apart(
                                chunk_range(item),
                                chunk_range(#[trigger] rest[k]),
                            ) by {
                                lemma_apart_inside(chunk_range(rest[k]), chunk_range((from, to)), chunk_range(item));
                            }
                            lemma_insert_apart(rest, item);
                            assert forall|a: usize| #[trigger] old_allocations.dom().contains(a) implies apart(
                                chunk_range(item),
                                block_range(a, old_allocations[a]),
                            ) by {
                                lemma_apart_inside(block_range(a, old_allocations[a]), chunk_range((from, to)), chunk_range(item));
                            }
                        }
                    }
                    let ghost after = self.chunks();
                    self.allocated_spaces.insert(from, size);
                    proof {
                        lemma_allocated_total_insert(old_allocations, from, size);
                        if old_allocations.dom().contains(from) {
                            assert(old_allocations[from] >= 0);
                        }
                        let block = block_range(from, size);
                        let allocations = self.allocations();
                        let rest = old_chunks.remove(index as int);
                        assert(allocations == old_allocations.insert(from, size));
                        assert forall|a: usize, b: usize|
                            #![trigger allocations.dom().contains(a), allocations.dom().contains(b)]
                            allocations.dom().contains(a) && allocations.dom().contains(b) && a != b implies apart(
                            block_range(a, allocations[a]),
                            block_range(b, allocations[b]),
                        ) by {
                            if a == from {
                                lemma_apart_inside(block_range(b, old_allocations[b]), chunk_range((from, to)), block);
                            } else if b == from {
                                lemma_apart_inside(block_range(a, old_allocations[a]), chunk_range((from, to)), block);
                            } else {
                                assert(old_allocations.dom().contains(a) && old_allocations.dom().contains(b));
                            }
                        }
                        let p = |c: (usize, usize)| apart_from_blocks(chunk_range(c), allocations);
                        assert forall|k: int| 0 <= k < rest.len() implies p(#[trigger] rest[k]) by {
                            assert(apart_from_blocks(chunk_range(rest[k]), old_allocations));
                            lemma_apart_inside(chunk_range(rest[k]), chunk_range((from, to)), block);
                            assert forall|a: usize| #[trigger] allocations.dom().contains(a) implies apart(
                                chunk_range(rest[k]),
                                block_range(a, allocations[a]),
                            ) by {
                                if a != from {
                                    assert(old_allocations.dom().contains(a));
                                }
                            }
                        }
                        if from + size < to {
                            let item = ((from + size) as usize, to);
                            assert forall|a: usize| #[trigger] allocations.dom().contains(a) implies apart(
                                chunk_range(item),
                                block_range(a, allocations[a]),
                            ) by {
                                if a != from {
                                    lemma_apart_inside(block_range(a, old_allocations[a]), chunk_range((from, to)), chunk_range(item));
                                }
                            }
                            assert(p(item));
                            lemma_insert_all(rest, item, p);
                        }
                        assert forall|k: int| 0 <= k < after.len() implies apart_from_blocks(
                            chunk_range(#[trigger] after[k]),
                            allocations,
                        ) by {
                            assert(p(after[k]));
                        }
                    }
                    Ok(from)
                },
            }
        }
    }

    /// Returns the allocation at `address` to the free list, merged with the
    /// first free chunk it touches.
    pub fn free(&mut self, address: usize) -> (r: Result<(), AllocatorError>)
        requires
            old(self).wf(),
        ensures
            final(self).wf(),
            final(self).capacity() == old(self).capacity(),
            (final(self).chunks(), final(self).allocations(), r) == old(self).spec_free(address),
    {
        match self.allocated_spaces.get(&address).cloned() {
            Some(space) => {
                let ghost old_allocations = self.allocations();
                proof {
                    lemma_allocated_total_remove(old_allocations, address);
                    lemma_allocated_total_nonnegative(old_allocations.remove(address));
                }
                self.add_free_space(address, address + space);
                self.allocated_spaces.remove(&address);
                proof {
                    assert(self.allocations().dom().finite());
                    let allocations = self.allocations();
                    assert(allocations == old_allocations.remove(address));
                    assert forall|a: usize, b: usize|
                        #![trigger allocations.dom().contains(a), allocations.dom().contains(b)]
                        allocations.dom().contains(a) && allocations.dom().contains(b) && a != b implies apart(
                        block_range(a, allocations[a]),
                        block_range(b, allocations[b]),
                    ) by {
                        assert(old_allocations.dom().contains(a) && old_allocations.dom().contains(b));
                    }
                    assert forall|k: int| 0 <= k < self.chunks().len() implies apart_from_blocks(
                        chunk_range(#[trigger] self.chunks()[k]),
                        allocations,
                    ) by {
                        assert(apart_from_blocks(chunk_range(self.chunks()[k]), old_allocations.remove(address)));
                    }
                }
                Ok(())
            },
            None => Err(AllocatorError::AddressNotAllocated { address }),
        }
    }

    /// Adds `from..to`, the allocation at `from`, to the free chunks,
    /// merged with the first chunk it touches.
    fn add_free_space(&mut self, from: usize, to: usize)
        requires
            chunks_sorted(old(self).chunks()),
            chunks_valid(old(self).chunks()),
            chunks_within(old(self).chunks(), old(self).capacity()),
            chunks_apart(old(self).chunks()),
            chunks_apart_from_blocks(old(self).chunks(), old(self).allocations()),
            blocks_apart(old(self).allocations()),
            old(self).allocations().dom().contains(from),
            to == from + old(self).allocations()[from],
            to <= old(self).capacity(),
        ensures
            final(self).chunks() == spec_add_free_space(old(self).chunks(), from, to),
            final(self).allocations() == old(self).allocations(),
            final(self).capacity() == old(self).capacity(),
            chunks_sorted(final(self).chunks()),
            chunks_valid(final(self).chunks()),
            chunks_within(final(self).chunks(), final(self).capacity()),
            chunks_apart(final(self).chunks()),
            chunks_apart_from_blocks(final(self).chunks(), old(self).allocations().remove(from)),
            chunks_total(final(self).chunks()) == chunks_total(old(self).chunks()) + (to - from),
    {
        let ghost chunks = self.chunks();
        let ghost capacity = self.capacity();
        let ghost allocations = self.allocations();
        let ghost others = allocations.remove(from);
        let ghost block = block_range(from, (to - from) as usize);
        proof {
            assert(block == chunk_range((from, to)));
            assert forall|k: int| 0 <= k < chunks.len() implies apart_from_blocks(
                chunk_range(#[trigger] chunks[k]),
                others,
            ) by {
                assert(apart_from_blocks(chunk_range(chunks[k]), allocations));
                assert forall|a: usize| #[trigger] others.dom().contains(a) implies apart(
                    chunk_range(chunks[k]),
                    block_range(a, others[a]),
                ) by {
                    assert(allocations.dom().contains(a));
                }
            }
            assert forall|a: usize| #[trigger] others.dom().contains(a) implies apart(
                block,
                block_range(a, others[a]),
            ) by {
                assert(allocations.dom().contains(a) && allocations.dom().contains(from) && a != from);
            }
        }
        let adjacent = self.free_chunks.get_adjacent_chunk(from, to);
        proof {
            lemma_adjacent_index(chunks, from, to);
            lemma_chunks_total_nonnegative(chunks);
        }
        match adjacent {
            Some((i, (f, t))) => {
                proof {
                    lemma_remove_apart(chunks, i as int, others);
                    assert(apart_from_blocks(chunk_range(chunks[i as int]), allocations));
                }
                self.free_chunks.remove(i);
                let ghost rest = self.chunks();
                proof {
                    lemma_remove_chunk(chunks, i as int, capacity);
                }
                let merged = if f == to {
                    (from, t)
                } else {
                    (f, to)
                };
                proof {
                    let chunk = chunk_range((f, t));
                    assert(apart(chunk, block)) by {
                        assert(apart(chunk_range(chunks[i as int]), block_range(from, allocations[from])));
                    }
                    assert forall|k: int| 0 <= k < rest.len() implies apart(
                        chunk_range(merged),
                        chunk_range(#[trigger] rest[k]),
                    ) by {
                        let other = chunk_range(rest[k]);
                        assert(apart(block, other)) by {
                            assert(apart_from_blocks(other, others));
                            assert(apart_from_blocks(other, allocations)) by {
                                let oi = if k < i { k } else { k + 1 };
                                assert(rest[k] == chunks[oi]);
                            }
                        }
                        if f == to {
                            lemma_apart_union(other, block, chunk);
                        } else {
                            lemma_apart_union(other, chunk, block);
                        }
                    }
                    assert forall|a: usize| #[trigger] others.dom().contains(a) implies apart(
                        chunk_range(merged),
                        block_range(a, others[a]),
                    ) by {
                        let x = block_range(a, others[a]);
                        assert(allocations.dom().contains(a));
                        if f == to {
                            lemma_apart_union(x, block, chunk);
                        } else {
                            lemma_apart_union(x, chunk, block);
                        }
                    }
                    lemma_insert_apart(rest, merged);
                    let p = |c: (usize, usize)| apart_from_blocks(chunk_range(c), others);
                    assert forall|k: int| 0 <= k < rest.len() implies p(#[trigger] rest[k]) by {}
                    lemma_insert_all(rest, merged, p);
                }
                self.free_chunks.insert(merged);
                proof {
                    lemma_insert_chunk(rest, merged, capacity);
                    let after = self.chunks();
                    assert forall|k: int| 0 <= k < after.len() implies apart_from_blocks(
                        chunk_range(#[trigger] after[k]),
                        others,
                    ) by {
                        let p = |c: (usize, usize)| apart_from_blocks(chunk_range(c), others);
                        assert(p(after[k]));
                    }
                }
            },
            None => {
                proof {
                    assert forall|k: int| 0 <= k < chunks.len() implies apart(
                        chunk_range((from, to)),
                        chunk_range(#[trigger] chunks[k]),
                    ) by {
                        assert(apart_from_blocks(chunk_range(chunks[k]), allocations));
                        assert(apart(chunk_range(chunks[k]), block_range(from, allocations[from])));
                    }
                    lemma_insert_apart(chunks, (from, to));
                    let p = |c: (usize, usize)| apart_from_blocks(chunk_range(c), others);
                    assert forall|k: int| 0 <= k < chunks.len() implies p(#[trigger] chunks[k]) by {}
                    lemma_insert_all(chunks, (from, to), p);
                }
                self.free_chunks.insert((from, to));
                proof {
                    lemma_insert_chunk(chunks, (from, to), capacity);
                    let after = self.chunks();
                    assert forall|k: int| 0 <= k < after.len() implies apart_from_blocks(
                        chunk_range(#[trigger] after[k]),
                        others,
                    ) by {
                        let p = |c: (usize, usize)| apart_from_blocks(chunk_range(c), others);
                        assert(p(after[k]));
                    }
                }
            },
        }
    }
}


proof fn lemma_chunk_within_total(chunks: Seq<(usize, usize)>, index: int)
    requires
        chunks_valid(chunks),
        0 <= index < chunks.len(),
    ensures
        chunk_size(chunks[index]) <= chunks_total(chunks),
{
    lemma_chunks_total_remove(chunks, index);
    lemma_remove_keeps_valid(chunks, index);
    lemma_chunks_total_nonnegative(chunks.remove(index));
}

proof fn lemma_remove_keeps_valid(chunks: Seq<(usize, usize)>, index: int)
    requires
        chunks_valid(chunks),
        0 <= index < chunks.len(),
    ensures
        chunks_valid(chunks.remove(index)),
{
    let after = chunks.remove(index);
    assert forall|i: int| 0 <= i < after.len() implies #[trigger] after[i].0 <= after[i].1 by {
        let oi = if i < index { i } else { i + 1 };
        assert(after[i] == chunks[oi]);
    }
}

/// Best fit: a successful `malloc(size)` returns the start of the smallest
/// free chunk that holds `size` bytes, records an allocation of `size`
/// bytes there, within the capacity and sharing no address with any other
/// live allocation.
pub proof fn lemma_malloc_uses_smallest_fitting_chunk(allocator: Allocator, size: usize)
    requires
        allocator.wf(),
        allocator.spec_malloc(size).2 is Ok,
    ensures
        ({
            let address = allocator.spec_malloc(size).2->Ok_0;
            let chunks = allocator.chunks();
            &&& allocator.spec_malloc(size).1 == allocator.allocations().insert(address, size)
            &&& address + size <= allocator.capacity()
            &&& forall|other: usize|
                #[trigger] allocator.allocations().dom().contains(other) && other != address ==> apart(
                    block_range(address, size),
                    block_range(other, allocator.allocations()[other]),
                )
            &&& exists|i: int|
                0 <= i < chunks.len() && (#[trigger] chunks[i]).0 == address && chunk_size(chunks[i]) >= size
                    && forall|j: int|
                    0 <= j < chunks.len() && chunk_size(#[trigger] chunks[j]) >= size ==> chunk_size(chunks[j])
                        >= chunk_size(chunks[i])
        }),
{
    let chunks = allocator.chunks();
    lemma_suitable_index(chunks, size as int);
    let i = suitable_index(chunks, size as int)->Some_0;
    let address = chunks[i].0;
    assert forall|j: int|
        0 <= j < chunks.len() && chunk_size(#[trigger] chunks[j]) >= size implies chunk_size(chunks[j])
        >= chunk_size(chunks[i]) by {
        if j > i {
            assert(chunk_size(chunks[j]) < size);
        } else if j < i {
            assert(chunk_size(chunks[j]) >= chunk_size(chunks[i]));
        }
    }
    assert(chunks[i].1 <= allocator.capacity());
    assert forall|other: usize|
        #[trigger] allocator.allocations().dom().contains(other) && other != address implies apart(
        block_range(address, size),
        block_range(other, allocator.allocations()[other]),
    ) by {
        assert(apart_from_blocks(chunk_range(chunks[i]), allocator.allocations()));
        lemma_apart_inside(
            block_range(other, allocator.allocations()[other]),
            chunk_range(chunks[i]),
            block_range(address, size),
        );
    }
}

/// `malloc(size)` fails, with `NotEnoughMemory`, exactly when no free chunk
/// holds `size` bytes; whenever one does, it succeeds.
pub proof fn lemma_malloc_not_enough_memory(allocator: Allocator, size: usize)
    requires
        allocator.wf(),
    ensures
        (allocator.spec_malloc(size).2 == Err::<usize, AllocatorError>(
            AllocatorError::NotEnoughMemory { intended: size },
        )) <==> forall|j: int|
            0 <= j < allocator.chunks().len() ==> chunk_size(#[trigger] allocator.chunks()[j]) < size,
        (allocator.spec_malloc(size).2 is Ok) <==> exists|j: int|
            0 <= j < allocator.chunks().len() && chunk_size(#[trigger] allocator.chunks()[j]) >= size,
{
    let chunks = allocator.chunks();
    lemma_suitable_index(chunks, size as int);
    if exists|j: int| 0 <= j < chunks.len() && chunk_size(#[trigger] chunks[j]) >= size {
        let j = choose|j: int| 0 <= j < chunks.len() && chunk_size(#[trigger] chunks[j]) >= size;
        lemma_chunk_within_total(chunks, j);
    }
}

/// Freeing a live allocation always succeeds: the allocation is gone, and
/// its bytes join the free chunks.
pub proof fn lemma_free_releases_live_block(allocator: Allocator, address: usize)
    requires
        allocator.wf(),
        allocator.allocations().dom().contains(address),
    ensures
        allocator.spec_free(address).2 == Ok::<(), AllocatorError>(()),
        allocator.spec_free(address).1 == allocator.allocations().remove(address),
        !allocator.spec_free(address).1.dom().contains(address),
        chunks_total(allocator.spec_free(address).0) == chunks_total(allocator.chunks())
            + allocator.allocations()[address],
{
    let chunks = allocator.chunks();
    let to = (address + allocator.allocations()[address]) as usize;
    lemma_adjacent_index(chunks, address, to);
    match adjacent_index(chunks, address, to) {
        Some(i) => {
            lemma_remove_chunk(chunks, i, allocator.capacity());
            lemma_insert_chunk(chunks.remove(i), merged_chunk(chunks[i], address, to), allocator.capacity());
        },
        None => {
            lemma_insert_chunk(chunks, (address, to), allocator.capacity());
        },
    }
}

/// A live allocation of some bytes keeps its address and its size until it
/// is freed: a `malloc` of some bytes never hands out its address again,
/// and freeing another address leaves it alone.
pub proof fn lemma_live_block_kept(allocator: Allocator, live: usize, size: usize, other: usize)
    requires
        allocator.wf(),
        allocator.allocations().dom().contains(live),
        allocator.allocations()[live] > 0,
        size > 0,
        other != live,
    ensures
        allocator.spec_malloc(size).2 matches Ok(address) ==> address != live,
        allocator.spec_malloc(size).1.dom().contains(live),
        allocator.spec_malloc(size).1[live] == allocator.allocations()[live],
        allocator.spec_free(other).1.dom().contains(live),
        allocator.spec_free(other).1[live] == allocator.allocations()[live],
{
    let chunks = allocator.chunks();
    lemma_suitable_index(chunks, size as int);
    if allocator.spec_malloc(size).2 is Ok {
        let i = suitable_index(chunks, size as int)->Some_0;
        assert(apart_from_blocks(chunk_range(chunks[i]), allocator.allocations()));
        assert(apart(chunk_range(chunks[i]), block_range(live, allocator.allocations()[live])));
    }
}

} // verus!
