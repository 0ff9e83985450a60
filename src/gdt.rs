use crate::bits::{range_mask_u64, set_bit_range_u64};
use crate::tss::TaskStateSegment;
use vstd::prelude::*;

verus! {

/// The largest number of entries a segment descriptor table can hold.
pub const MAX_SIZE: usize = 8192;

/// One 8-byte slot of the segment descriptor table. A slot that holds zero is
/// free.
#[derive(Debug, Clone, Copy, PartialEq, Eq, Structural)]
pub struct Entry(u64);

impl View for Entry {
    type V = u64;

    closed spec fn view(&self) -> u64 {
        self.0
    }
}

impl Entry {
    #[must_use]
    pub fn new(x: u64) -> (r: Self)
        ensures
            r@ == x,
    {
        Entry(x)
    }

    /// The free slot.
    #[must_use]
    pub fn null() -> (r: Self)
        ensures
            r@ == 0,
    {
        Entry(0)
    }

    #[must_use]
    pub fn value(&self) -> (r: u64)
        ensures
            r == self@,
    {
        self.0
    }
}

/// The 10-byte record that the table-load instruction reads: a 16-bit limit
/// followed by a 64-bit base address, with no padding in between. It is kept
/// as five 16-bit words: the limit, then the base from its lowest word up.
#[derive(Debug, Clone, Copy)]
pub struct Register {
    words: [u16; 5],
}

/// A 64-bit value from four 16-bit words, lowest first.
pub open spec fn join_words(w0: u16, w1: u16, w2: u16, w3: u16) -> u64 {
    w0 as u64 | (w1 as u64) << 16u64 | (w2 as u64) << 32u64 | (w3 as u64) << 48u64
}

proof fn lemma_words(v: u64)
    ensures
        join_words(v as u16, (v >> 16u64) as u16, (v >> 32u64) as u16, (v >> 48u64) as u16) == v,
{
    assert(join_words(v as u16, (v >> 16u64) as u16, (v >> 32u64) as u16, (v >> 48u64) as u16)
        == v) by (bit_vector);
}

impl View for Register {
    /// The limit and the base.
    type V = (u16, u64);

    closed spec fn view(&self) -> (u16, u64) {
        (self.words[0], join_words(self.words[1], self.words[2], self.words[3], self.words[4]))
    }
}

impl Register {
    /// A register with a null base and limit.
    #[must_use]
    pub fn null() -> (r: Self)
        ensures
            r@ == (0u16, 0u64),
    {
        proof { assert(join_words(0, 0, 0, 0) == 0) by (bit_vector); }
        Register { words: [0u16; 5] }
    }

    /// A register with the given limit and base.
    #[must_use]
    pub fn with(limit: u16, base: u64) -> (r: Self)
        ensures
            r@ == (limit, base),
    {
        proof { lemma_words(base); }
        Register {
            words: [limit, base as u16, (base >> 16u64) as u16, (base >> 32u64) as u16, (base
                >> 48u64) as u16],
        }
    }
}

/// A descriptor to install: a plain segment takes one slot, a system segment
/// (such as a task-state segment) takes two, its low word first.
#[derive(Debug, Clone, Copy, PartialEq, Eq, Structural)]
pub enum Descriptor {
    System(u64, u64),
    Segment(u64),
}

/// The low word of the descriptor of a task-state segment at `base`: limit
/// 103 in bits 0 to 15, base bits 0 to 23 in bits 16 to 39, type 0b1001
/// (available 64-bit task-state segment) in bits 40 to 43, the present bit 47,
/// and base bits 24 to 31 in bits 56 to 63.
pub open spec fn tss_low_word(base: u64) -> u64 {
    (TaskStateSegment::SIZE - 1) as u64 | (base & 0xFF_FFFF) << 16u64 | 0b1001u64 << 40u64
        | DescriptorFlags::PRESENT | ((base >> 24u64) & 0xFF) << 56u64
}

impl Descriptor {
    /// The raw value of the null descriptor.
    pub const NULL: u64 = 0;
    /// The raw value of a flat 64-bit kernel code segment.
    pub const KERNEL_CODE64: u64 = 0x00af_9b00_0000_ffff;
    /// The raw value of a flat kernel data segment.
    pub const KERNEL_DATA: u64 = 0x00cf_9300_0000_ffff;
    /// The raw value of a flat 64-bit user code segment.
    pub const USER_CODE64: u64 = 0x00af_9b00_0000_ffff;
    /// The raw value of a flat user data segment.
    pub const USER_DATA: u64 = 0x00cf_9300_0000_ffff;

    /// The system descriptor of a task-state segment stored at `base`.
    #[must_use]
    pub fn tss(base: u64) -> (r: Self)
        ensures
            r == Descriptor::System(tss_low_word(base), base >> 32u64),
    {
        let mut low: u64 = DescriptorFlags::PRESENT;
        let limit: u64 = (TaskStateSegment::SIZE - 1) as u64;
        let l0 = low;
        low = set_bit_range_u64(low, 15, 0, limit);
        let l1 = low;
        low = set_bit_range_u64(low, 39, 16, base & 0xFF_FFFF);
        let l2 = low;
        low = set_bit_range_u64(low, 63, 56, (base >> 24u64) & 0xFF);
        let l3 = low;
        low = set_bit_range_u64(low, 43, 40, 0b1001);
        proof {
            assert(range_mask_u64(15, 0) == 0xFFFF && range_mask_u64(39, 16) == 0xFF_FFFF_0000
                && range_mask_u64(63, 56) == 0xFF00_0000_0000_0000 && range_mask_u64(43, 40)
                == 0xF00_0000_0000 && (base >> 32u64) & 0xFFFF_FFFF == base >> 32u64)
                by (bit_vector);
            assert(low == tss_low_word(base)) by (bit_vector)
                requires
                    l0 == 1u64 << 47u64,
                    limit == 103,
                    l1 == (l0 & !0xFFFFu64) | ((limit << 0u64) & 0xFFFFu64),
                    l2 == (l1 & !0xFF_FFFF_0000u64) | (((base & 0xFF_FFFF) << 16u64)
                        & 0xFF_FFFF_0000u64),
                    l3 == (l2 & !0xFF00_0000_0000_0000u64) | ((((base >> 24u64) & 0xFF) << 56u64)
                        & 0xFF00_0000_0000_0000u64),
                    low == (l3 & !0xF00_0000_0000u64) | ((0b1001u64 << 40u64)
                        & 0xF00_0000_0000u64),
            ;
        }
        Self::System(low, (base >> 32u64) & 0xFFFF_FFFF)
    }
}

/// Bits of a segment descriptor.
#[derive(Debug, Clone, Copy, PartialEq, Eq, Structural)]
pub struct DescriptorFlags(u64);

impl View for DescriptorFlags {
    type V = u64;

    closed spec fn view(&self) -> u64 {
        self.0
    }
}

impl DescriptorFlags {
    pub const ACCESSED: u64 = 1 << 40;
    pub const WRITABLE: u64 = 1 << 41;
    pub const CONFORMING: u64 = 1 << 42;
    pub const EXECUTABLE: u64 = 1 << 43;
    pub const USER_SEGMENT: u64 = 1 << 44;
    pub const DPL_RING_3: u64 = 3 << 45;
    pub const PRESENT: u64 = 1 << 47;
    pub const AVAILABLE: u64 = 1 << 52;
    pub const LONG_MODE: u64 = 1 << 53;
    pub const DEFAULT_SIZE: u64 = 1 << 54;
    pub const GRANULARITY: u64 = 1 << 55;

    /// The set with no flag.
    #[must_use]
    pub fn new() -> (r: Self)
        ensures
            r@ == 0,
    {
        DescriptorFlags(0)
    }

    #[must_use]
    pub fn bits(&self) -> (r: u64)
        ensures
            r == self@,
    {
        self.0
    }
}

/// A segment descriptor table of `N` slots, with the register that points the
/// processor at it. Each slot records whether a descriptor was installed in
/// it, since an installed word may be zero (the upper half of a task-state
/// descriptor below 4 GiB).
#[derive(Debug, Clone)]
pub struct Table<const N: usize> {
    descriptors: [Entry; N],
    in_use: [bool; N],
    register: Register,
}

/// The slot values after installing `d` at `index`.
pub open spec fn installed(slots: Seq<u64>, index: int, d: Descriptor) -> Seq<u64> {
    match d {
        Descriptor::Segment(x) => slots.update(index, x),
        Descriptor::System(x, y) => slots.update(index, x).update(index + 1, y),
    }
}

/// The occupied slots after installing `d` at `index`.
pub open spec fn occupied(used: Seq<bool>, index: int, d: Descriptor) -> Seq<bool> {
    match d {
        Descriptor::Segment(_) => used.update(index, true),
        Descriptor::System(_, _) => used.update(index, true).update(index + 1, true),
    }
}

impl<const N: usize> View for Table<N> {
    /// The raw value of each slot.
    type V = Seq<u64>;

    closed spec fn view(&self) -> Seq<u64> {
        self.descriptors@.map_values(|e: Entry| e@)
    }
}

impl<const N: usize> Table<N> {
    /// Which slots hold an installed descriptor.
    pub closed spec fn used(&self) -> Seq<bool> {
        self.in_use@
    }

    /// Whether `d` can be installed at `index`: every slot it takes is inside
    /// the table and free.
    pub open spec fn can_install(&self, index: int, d: Descriptor) -> bool {
        match d {
            Descriptor::Segment(_) => 0 <= index < N && !self.used()[index],
            Descriptor::System(_, _) => 0 <= index && index + 1 < N && !self.used()[index]
                && !self.used()[index + 1],
        }
    }

    /// The register as last set by `set_register`.
    pub closed spec fn register_view(&self) -> (u16, u64) {
        self.register@
    }

    /// A table whose slots are all free and null, and a null register. At
    /// most 8192 slots.
    #[must_use]
    pub fn new() -> (r: Self)
        requires
            N <= MAX_SIZE,
        ensures
            r@.len() == N,
            r.used().len() == N,
            forall|i: int| 0 <= i < N ==> r@[i] == 0 && !r.used()[i],
            r.register_view() == (0u16, 0u64),
    {
        Self {
            descriptors: [Entry::null(); N],
            in_use: [false; N],
            register: Register::null(),
        }
    }

    /// The number of slots.
    #[must_use]
    pub fn capacity(&self) -> (r: usize)
        ensures
            r == N,
    {
        N
    }

    /// The raw value of the slot at `index`.
    #[must_use]
    pub fn entry(&self, index: usize) -> (r: u64)
        requires
            index < N,
        ensures
            r == self@[index as int],
    {
        self.descriptors[index].value()
    }

    /// Whether the slot at `index` holds an installed descriptor.
    #[must_use]
    pub fn is_used(&self, index: usize) -> (r: bool)
        requires
            index < N,
        ensures
            r == self.used()[index as int],
    {
        self.in_use[index]
    }

    /// Whether `descriptor` can be installed at `index`.
    #[must_use]
    pub fn can_set_descriptor(&self, index: usize, descriptor: &Descriptor) -> (r: bool)
        ensures
            r == self.can_install(index as int, *descriptor),
    {
        match descriptor {
            Descriptor::Segment(_) => index < N && !self.in_use[index],
            Descriptor::System(_, _) => index < N && index < N - 1 && !self.in_use[index]
                && !self.in_use[index + 1],
        }
    }

    /// Installs `descriptor` at `index` (and `index + 1` for a system
    /// descriptor). Every slot it takes must be inside the table and free: an
    /// installed descriptor is never overwritten.
    pub fn set_descriptor(&mut self, index: usize, descriptor: &Descriptor)
        requires
            old(self).can_install(index as int, *descriptor),
        ensures
            final(self)@ == installed(old(self)@, index as int, *descriptor),
            final(self).used() == occupied(old(self).used(), index as int, *descriptor),
            final(self).register_view() == old(self).register_view(),
    {
        match descriptor {
            Descriptor::Segment(x) => {
                self.descriptors[index] = Entry::new(*x);
                self.in_use[index] = true;
            },
            Descriptor::System(x, y) => {
                self.descriptors[index + 1] = Entry::new(*y);
                self.descriptors[index] = Entry::new(*x);
                self.in_use[index + 1] = true;
                self.in_use[index] = true;
            },
        }
        assert(self@ =~= installed(old(self)@, index as int, *descriptor));
        assert(self.used() =~= occupied(old(self).used(), index as int, *descriptor));
    }

    /// Frees the slot at `index` and resets it to null.
    pub fn clear_entry(&mut self, index: usize)
        requires
            index < N,
        ensures
            final(self)@ == old(self)@.update(index as int, 0),
            final(self).used() == old(self).used().update(index as int, false),
            final(self).register_view() == old(self).register_view(),
    {
        self.descriptors[index] = Entry::null();
        self.in_use[index] = false;
        assert(self@ =~= old(self)@.update(index as int, 0));
        assert(self.used() =~= old(self).used().update(index as int, false));
    }

    /// Points the register at this table's slots, stored at `base`, with the
    /// limit that covers all `N` of them. The privileged load instruction then
    /// reads the register.
    pub fn set_register(&mut self, base: u64)
        requires
            1 <= N <= MAX_SIZE,
        ensures
            final(self)@ == old(self)@,
            final(self).used() == old(self).used(),
            final(self).register_view() == ((N * 8 - 1) as u16, base),
    {
        self.register = Register::with((N * 8 - 1) as u16, base);
    }

    /// The slots, as the processor reads them.
    #[must_use]
    pub fn slots(&self) -> (r: &[Entry; N])
        ensures
            r@.map_values(|e: Entry| e@) == self@,
    {
        &self.descriptors
    }

    /// The register that points the processor at this table.
    #[must_use]
    pub fn register(&self) -> (r: &Register)
        ensures
            r@ == self.register_view(),
    {
        &self.register
    }
}

} // verus!
