//! Capacity of the transfer buffer across batches.
use vstd::prelude::*;

verus! {

/// A batch holds more rows than the transfer buffer has room for.
#[derive(Debug, Clone, Copy, PartialEq, Eq, Structural)]
pub struct RowsExceedCapacity {
    pub num_rows: usize,
    pub capacity: usize,
}

/// What happens to the transfer buffer before a batch is copied into it.
#[derive(Debug, Clone, Copy, PartialEq, Eq, Structural)]
pub enum BufferStep {
    /// The current buffer has room: it is reused, together with the statement bound to it.
    Reuse,
    /// The current buffer is too small. It is replaced by one of this capacity, and the
    /// statement has to be prepared and bound anew, since a binding is valid only for the
    /// buffer it was created against.
    Grow(usize),
}

/// Capacity and occupied rows of a transfer buffer. The buffer is grown, never shrunk.
#[derive(Debug, Clone, Copy, PartialEq, Eq, Structural)]
pub struct TransferBuffer {
    capacity: usize,
    num_rows: usize,
}

/// Capacity after batches of `sizes` rows have passed through a buffer allocated with
/// `initial` rows: the largest of all of them.
pub open spec fn capacity_after(initial: usize, sizes: Seq<usize>) -> usize
    decreases sizes.len(),
{
    if sizes.len() == 0 {
        initial
    } else {
        let before = capacity_after(initial, sizes.drop_last());
        if sizes.last() > before {
            sizes.last()
        } else {
            before
        }
    }
}

impl TransferBuffer {
    pub closed spec fn capacity_spec(&self) -> usize {
        self.capacity
    }

    pub closed spec fn num_rows_spec(&self) -> usize {
        self.num_rows
    }

    /// At least one row of room; occupied rows within the capacity.
    pub open spec fn well_formed(&self) -> bool {
        1 <= self.capacity_spec() && self.num_rows_spec() <= self.capacity_spec()
    }

    /// A buffer for `capacity` rows, none of them occupied. A capacity of zero is raised to
    /// one.
    pub fn allocate(capacity: usize) -> (r: Self)
        ensures
            r.capacity_spec() == if capacity == 0 {
                1
            } else {
                capacity
            },
            r.num_rows_spec() == 0,
            r.well_formed(),
    {
        TransferBuffer { capacity: if capacity == 0 { 1 } else { capacity }, num_rows: 0 }
    }

    pub fn capacity(&self) -> (r: usize)
        ensures
            r == self.capacity_spec(),
    {
        self.capacity
    }

    pub fn num_rows(&self) -> (r: usize)
        ensures
            r == self.num_rows_spec(),
    {
        self.num_rows
    }

    /// Sets the number of occupied rows, failing if they exceed the capacity.
    pub fn set_num_rows(&mut self, num_rows: usize) -> (r: Result<(), RowsExceedCapacity>)
        ensures
            final(self).capacity_spec() == old(self).capacity_spec(),
            num_rows <= old(self).capacity_spec() ==> r is Ok && final(self).num_rows_spec()
                == num_rows,
            num_rows > old(self).capacity_spec() ==> r == Err::<(), RowsExceedCapacity>(
                RowsExceedCapacity { num_rows, capacity: old(self).capacity_spec() },
            ) && final(self).num_rows_spec() == old(self).num_rows_spec(),
    {
        if num_rows <= self.capacity {
            self.num_rows = num_rows;
            Ok(())
        } else {
            Err(RowsExceedCapacity { num_rows, capacity: self.capacity })
        }
    }

    /// Decides whether a batch of `num_rows` rows fits into the current buffer.
    pub fn plan(&self, num_rows: usize) -> (r: BufferStep)
        ensures
            num_rows <= self.capacity_spec() ==> r is Reuse,
            num_rows > self.capacity_spec() ==> r == BufferStep::Grow(num_rows),
    {
        if num_rows > self.capacity {
            BufferStep::Grow(num_rows)
        } else {
            BufferStep::Reuse
        }
    }

    /// Replaces the buffer by a larger one. Nothing of the old buffer is kept: its rows are
    /// gone and whatever was bound to it must be bound anew.
    pub fn grow_to(&mut self, new_capacity: usize)
        requires
            new_capacity >= old(self).capacity_spec(),
        ensures
            final(self).capacity_spec() == new_capacity,
            final(self).num_rows_spec() == 0,
    {
        self.capacity = new_capacity;
        self.num_rows = 0;
    }

    /// Makes room for a batch of `num_rows` rows, growing the buffer if it is too small, and
    /// marks that many rows occupied. Returns the step that was taken.
    pub fn accept_batch(&mut self, num_rows: usize) -> (r: BufferStep)
        requires
            old(self).well_formed(),
        ensures
            final(self).well_formed(),
            final(self).capacity_spec() == if num_rows > old(self).capacity_spec() {
                num_rows
            } else {
                old(self).capacity_spec()
            },
            final(self).num_rows_spec() == num_rows,
            num_rows <= old(self).capacity_spec() ==> r is Reuse,
            num_rows > old(self).capacity_spec() ==> r == BufferStep::Grow(num_rows),
    {
        let step = self.plan(num_rows);
        if let BufferStep::Grow(n) = step {
            self.grow_to(n);
        }
        let _ = self.set_num_rows(num_rows);
        step
    }
}

/// Batches passing through a buffer leave it with the largest size seen so far, never
/// less than any batch and never more than the initial capacity or the largest batch. It is
/// reallocated for a batch exactly when that batch is larger than the capacity left by the
/// batches before it.
pub proof fn lemma_growth(initial: usize, sizes: Seq<usize>)
    ensures
        capacity_after(initial, sizes) >= initial,
        forall|i: int| 0 <= i < sizes.len() ==> sizes[i] <= capacity_after(initial, sizes),
        capacity_after(initial, sizes) == initial || exists|i: int|
            0 <= i < sizes.len() && sizes[i] == capacity_after(initial, sizes),
        forall|i: int|
            0 <= i < sizes.len() ==> (capacity_after(initial, #[trigger] sizes.take(i + 1))
                != capacity_after(initial, sizes.take(i)) <==> sizes[i] > capacity_after(
                initial,
                sizes.take(i),
            )),
    decreases sizes.len(),
{
    if sizes.len() > 0 {
        let rest = sizes.drop_last();
        lemma_growth(initial, rest);
        let c = capacity_after(initial, sizes);
        assert forall|i: int| 0 <= i < sizes.len() implies sizes[i] <= c by {
            if i < rest.len() {
                assert(rest[i] == sizes[i]);
            }
        }
        if c != initial && c != sizes.last() {
            let i = choose|i: int| 0 <= i < rest.len() && rest[i] == capacity_after(initial, rest);
            assert(sizes[i] == c);
        }
        assert forall|i: int| 0 <= i < sizes.len() implies (capacity_after(
            initial,
            #[trigger] sizes.take(i + 1),
        ) != capacity_after(initial, sizes.take(i)) <==> sizes[i] > capacity_after(
            initial,
            sizes.take(i),
        )) by {
            assert(sizes.take(i + 1).drop_last() =~= sizes.take(i));
            assert(sizes.take(i + 1).last() == sizes[i]);
        }
    }
}

/// Capacity grows monotonically: a longer prefix of the batches never leaves a smaller
/// buffer.
pub proof fn lemma_growth_monotonic(initial: usize, sizes: Seq<usize>, i: int, j: int)
    requires
        0 <= i <= j <= sizes.len(),
    ensures
        capacity_after(initial, sizes.take(i)) <= capacity_after(initial, sizes.take(j)),
    decreases j - i,
{
    if i < j {
        lemma_growth_monotonic(initial, sizes, i, j - 1);
        assert(sizes.take(j).drop_last() =~= sizes.take(j - 1));
    }
}

} // verus!
