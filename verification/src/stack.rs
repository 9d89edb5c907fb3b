use vstd::prelude::*;

verus! {

/// The address bounds of one coroutine stack: a downward-growing usable
/// region `[guard_start + guard_len, top)` above a protected guard region
/// `[guard_start, guard_start + guard_len)`. The memory itself is allocated
/// and page-protected outside this library; the model carries the bounds,
/// which is all the switch and overflow logic reads. Any access that lands in
/// the guard region faults deterministically, which is how stack exhaustion
/// is detected.
#[derive(Clone, Copy, Debug)]
pub struct Stack {
    /// Low address of the whole region.
    pub base: usize,
    /// High address; a fresh stack pointer is placed here (aligned down).
    pub top: usize,
    /// Low address of the protected guard region.
    pub guard_start: usize,
    /// Length of the guard region in bytes.
    pub guard_len: usize,
}

impl Stack {
    /// The guard region sits inside the region, immediately below the usable
    /// part.
    pub open spec fn wf(self) -> bool {
        &&& self.base <= self.guard_start
        &&& self.guard_start + self.guard_len <= self.top
    }

    /// Whether `addr` lies in the protected guard region.
    pub open spec fn guard_contains(self, addr: usize) -> bool {
        self.guard_start <= addr < self.guard_start + self.guard_len
    }

    pub fn new(base: usize, top: usize, guard_start: usize, guard_len: usize) -> (r: Stack)
        requires
            base <= guard_start,
            guard_start + guard_len <= top,
        ensures
            r == (Stack { base, top, guard_start, guard_len }),
            r.wf(),
    {
        Stack { base, top, guard_start, guard_len }
    }

    /// High address of the region: the growth origin for this downward-growing
    /// stack, and the value from which the initial stack pointer is derived.
    pub fn end(&self) -> (r: usize)
        ensures
            r == self.top,
    {
        self.top
    }

    /// Guard-region membership test: the overflow detector uses it to decide
    /// whether a faulting stack-pointer value means this stack overflowed.
    pub fn contains(&self, addr: usize) -> (r: bool)
        ensures
            r == self.guard_contains(addr),
    {
        addr >= self.guard_start && addr - self.guard_start < self.guard_len
    }
}

} // verus!
