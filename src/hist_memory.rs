//! A bounded first-in first-out record of the last values of a quantity.
use vstd::prelude::*;

verus! {

/// Record of at most `size` values, oldest first.
#[derive(Debug)]
pub struct HistMemory {
    memory: Vec<i64>,
    size: usize,
}

impl HistMemory {
    /// The recorded values, oldest first.
    pub closed spec fn values(&self) -> Seq<i64> {
        self.memory@
    }

    /// Largest number of values kept.
    pub closed spec fn capacity(&self) -> nat {
        self.size as nat
    }

    /// No more values than the capacity.
    pub open spec fn wf(&self) -> bool {
        self.values().len() <= self.capacity()
    }

    /// An empty record of capacity `size`.
    pub fn new(size: usize) -> (r: HistMemory)
        ensures
            r.wf(),
            r.values().len() == 0,
            r.capacity() == size,
    {
        HistMemory { memory: Vec::new(), size }
    }

    /// The recorded values, oldest first.
    pub fn get_memory(&self) -> (r: Vec<i64>)
        ensures
            r@ == self.values(),
    {
        self.memory.clone()
    }

    /// Removes all values.
    pub fn clear(&mut self)
        ensures
            final(self).wf(),
            final(self).values().len() == 0,
            final(self).capacity() == old(self).capacity(),
    {
        self.memory = Vec::new();
    }

    /// Records `value`, dropping the oldest value when full; a record of
    /// capacity zero keeps nothing.
    pub fn save(&mut self, value: i64)
        requires
            old(self).wf(),
        ensures
            final(self).wf(),
            final(self).capacity() == old(self).capacity(),
            final(self).values() == (if old(self).capacity() == 0 {
                old(self).values()
            } else if old(self).values().len() < old(self).capacity() {
                old(self).values().push(value)
            } else {
                old(self).values().drop_first().push(value)
            }),
    {
        if self.size == 0 {
            return;
        }
        if self.memory.len() >= self.size {
            self.memory.remove(0);
        }
        self.memory.push(value);
    }

    /// Changes the capacity to `size`, keeping the oldest values that fit.
    pub fn resize(&mut self, size: usize)
        requires
            old(self).wf(),
        ensures
            final(self).wf(),
            final(self).capacity() == size,
            final(self).values() == old(self).values().take(
                if old(self).values().len() < size { old(self).values().len() as int } else { size as int },
            ),
    {
        let keep = if self.memory.len() < size {
            self.memory.len()
        } else {
            size
        };
        let mut kept: Vec<i64> = Vec::new();
        let mut i: usize = 0;
        while i < keep
            invariant
                i <= keep <= self.memory@.len(),
                kept@ == self.memory@.take(i as int),
            decreases keep - i,
        {
            kept.push(self.memory[i]);
            assert(self.memory@.take(i as int).push(self.memory@[i as int]) == self.memory@.take(i + 1));
            i = i + 1;
        }
        self.memory = kept;
        self.size = size;
    }
}

} // verus!
