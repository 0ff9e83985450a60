use vstd::prelude::*;

verus! {

/// A 64-bit value from its low and high 32-bit halves.
pub open spec fn join_halves(low: u32, high: u32) -> u64 {
    low as u64 | (high as u64) << 32u64
}

proof fn lemma_halves(v: u64)
    ensures
        join_halves(v as u32, (v >> 32u64) as u32) == v,
{
    assert(join_halves(v as u32, (v >> 32u64) as u32) == v) by (bit_vector);
}

/// The task-state segment: three privilege-level stack pointers, seven
/// interrupt stack pointers and the I/O map base, 104 bytes in all.
///
/// The record is kept as 26 32-bit words, in the order the processor reads
/// them: a reserved word, the three stack pointers (two words each), two
/// reserved words, the seven interrupt stack pointers, two reserved words, and
/// a word whose upper half is the I/O map base. The 64-bit fields thus sit at
/// offsets that are multiples of 4, as the processor expects.
#[derive(Debug, Clone, Copy)]
pub struct TaskStateSegment {
    words: [u32; 26],
}

impl View for TaskStateSegment {
    /// The stack pointers, the interrupt stack pointers, and the I/O map base.
    type V = (Seq<u64>, Seq<u64>, u16);

    closed spec fn view(&self) -> (Seq<u64>, Seq<u64>, u16) {
        (
            Seq::new(3, |i: int| join_halves(self.words[1 + 2 * i], self.words[2 + 2 * i])),
            Seq::new(7, |i: int| join_halves(self.words[9 + 2 * i], self.words[10 + 2 * i])),
            (self.words[25] >> 16u32) as u16,
        )
    }
}

impl TaskStateSegment {
    /// The size of the record, in bytes.
    pub const SIZE: u16 = 104;

    /// A segment whose stack pointers are all zero and whose I/O map base
    /// points past its end (no I/O permission map).
    #[must_use]
    pub fn new() -> (r: Self)
        ensures
            r@.0 == Seq::new(3, |i: int| 0u64),
            r@.1 == Seq::new(7, |i: int| 0u64),
            r@.2 == Self::SIZE,
    {
        let mut words = [0u32; 26];
        words[25] = (Self::SIZE as u32) << 16u32;
        let r = TaskStateSegment { words };
        proof {
            assert(join_halves(0, 0) == 0 && ((104u32 << 16u32) >> 16u32) as u16 == 104)
                by (bit_vector);
            assert(r@.0 =~= Seq::new(3, |i: int| 0u64));
            assert(r@.1 =~= Seq::new(7, |i: int| 0u64));
        }
        r
    }

    /// The stack pointer for privilege level `index` (0 to 2).
    #[must_use]
    pub fn stack(&self, index: usize) -> (r: u64)
        requires
            index < 3,
        ensures
            r == self@.0[index as int],
    {
        self.words[1 + 2 * index] as u64 | (self.words[2 + 2 * index] as u64) << 32u64
    }

    /// Replaces the stack pointer for privilege level `index` (0 to 2).
    pub fn set_stack(&mut self, index: usize, pointer: u64)
        requires
            index < 3,
        ensures
            final(self)@.0 == old(self)@.0.update(index as int, pointer),
            final(self)@.1 == old(self)@.1,
            final(self)@.2 == old(self)@.2,
    {
        self.words[1 + 2 * index] = pointer as u32;
        self.words[2 + 2 * index] = (pointer >> 32u64) as u32;
        proof {
            lemma_halves(pointer);
            assert(self@.0 =~= old(self)@.0.update(index as int, pointer));
            assert(self@.1 =~= old(self)@.1);
        }
    }

    /// The interrupt stack pointer of slot `index` (0 to 6); a gate that asks
    /// for stack `n` (1 to 7) uses slot `n - 1`.
    #[must_use]
    pub fn interrupt_stack(&self, index: usize) -> (r: u64)
        requires
            index < 7,
        ensures
            r == self@.1[index as int],
    {
        self.words[9 + 2 * index] as u64 | (self.words[10 + 2 * index] as u64) << 32u64
    }

    /// Replaces the interrupt stack pointer of slot `index` (0 to 6).
    pub fn set_interrupt_stack(&mut self, index: usize, pointer: u64)
        requires
            index < 7,
        ensures
            final(self)@.0 == old(self)@.0,
            final(self)@.1 == old(self)@.1.update(index as int, pointer),
            final(self)@.2 == old(self)@.2,
    {
        self.words[9 + 2 * index] = pointer as u32;
        self.words[10 + 2 * index] = (pointer >> 32u64) as u32;
        proof {
            lemma_halves(pointer);
            assert(self@.0 =~= old(self)@.0);
            assert(self@.1 =~= old(self)@.1.update(index as int, pointer));
        }
    }

    /// The offset of the I/O permission map from the start of the segment.
    #[must_use]
    pub fn iomap_base(&self) -> (r: u16)
        ensures
            r == self@.2,
    {
        (self.words[25] >> 16u32) as u16
    }
}

} // verus!
