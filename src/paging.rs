use crate::address::{is_aligned_value, is_physical_value, Physical};
use vstd::prelude::*;

verus! {

pub const PAGE_SHIFT: usize = 12;
pub const PAGE_SIZE: usize = 4096;
pub const PAGE_MASK: usize = !(PAGE_SIZE - 1);
pub const PAGE_OFFSET_MASK: usize = PAGE_SIZE - 1;

/// Bits 12 to 51 of an entry: the page-aligned physical address.
pub const ENTRY_ADDRESS_MASK: u64 = 0x000F_FFFF_FFFF_F000;

/// Bits 0 to 11 and 52 to 63 of an entry: the flags.
pub const ENTRY_FLAGS_MASK: u64 = 0xFFF0_0000_0000_0FFF;

/// The raw value of an entry built from a page-aligned address and flag bits.
pub open spec fn entry_value(address: u64, flags: u64) -> u64 {
    (address & ENTRY_ADDRESS_MASK) | flags
}

/// Whether the present bit (bit 0) of a raw entry is set.
pub open spec fn entry_present(v: u64) -> bool {
    v & PageEntryFlags::PRESENT != 0
}

/// The physical address that a raw entry maps, if it is present.
pub open spec fn entry_address(v: u64) -> Option<u64> {
    if entry_present(v) {
        Some(v & ENTRY_ADDRESS_MASK)
    } else {
        None
    }
}

/// A set of paging-entry flags: only bits 0 to 11 and 52 to 63 can be set.
#[derive(Debug, Clone, Copy, PartialEq, Eq, Structural)]
pub struct PageEntryFlags(u64);

impl View for PageEntryFlags {
    type V = u64;

    closed spec fn view(&self) -> u64 {
        self.0
    }
}

impl PageEntryFlags {
    pub const PRESENT: u64 = 1 << 0;
    pub const WRITABLE: u64 = 1 << 1;
    pub const USER: u64 = 1 << 2;
    pub const WRITE_THROUGH: u64 = 1 << 3;
    pub const NO_CACHE: u64 = 1 << 4;
    pub const ACCESSED: u64 = 1 << 5;
    pub const DIRTY: u64 = 1 << 6;
    pub const HUGE_PAGE: u64 = 1 << 7;
    pub const GLOBAL: u64 = 1 << 8;
    pub const BIT_9: u64 = 1 << 9;
    pub const BIT_10: u64 = 1 << 10;
    pub const BIT_11: u64 = 1 << 11;
    pub const BIT_52: u64 = 1 << 52;
    pub const BIT_53: u64 = 1 << 53;
    pub const BIT_54: u64 = 1 << 54;
    pub const BIT_55: u64 = 1 << 55;
    pub const BIT_56: u64 = 1 << 56;
    pub const BIT_57: u64 = 1 << 57;
    pub const BIT_58: u64 = 1 << 58;
    pub const BIT_59: u64 = 1 << 59;
    pub const BIT_60: u64 = 1 << 60;
    pub const BIT_61: u64 = 1 << 61;
    pub const BIT_62: u64 = 1 << 62;
    pub const NO_EXECUTE: u64 = 1 << 63;

    #[verifier::type_invariant]
    spec fn inv(self) -> bool {
        self.0 & !ENTRY_FLAGS_MASK == 0
    }

    /// The set with no flag.
    #[must_use]
    pub fn empty() -> (r: Self)
        ensures
            r@ == 0,
    {
        proof { assert(0u64 & !ENTRY_FLAGS_MASK == 0) by (bit_vector); }
        PageEntryFlags(0)
    }

    /// The flags of `bits`; the bits that are no flag are dropped.
    #[must_use]
    pub fn from_bits_truncate(bits: u64) -> (r: Self)
        ensures
            r@ == bits & ENTRY_FLAGS_MASK,
    {
        proof { assert((bits & ENTRY_FLAGS_MASK) & !ENTRY_FLAGS_MASK == 0) by (bit_vector); }
        PageEntryFlags(bits & ENTRY_FLAGS_MASK)
    }

    #[must_use]
    pub fn bits(&self) -> (r: u64)
        ensures
            r == self@,
            r & !ENTRY_FLAGS_MASK == 0,
    {
        proof { use_type_invariant(self); }
        self.0
    }

    /// Whether every flag of `other` is in the set.
    #[must_use]
    pub fn contains(&self, other: Self) -> (r: bool)
        ensures
            r == (self@ & other@ == other@),
    {
        self.0 & other.0 == other.0
    }

    /// The flags that are in either set.
    #[must_use]
    pub fn union(self, other: Self) -> (r: Self)
        ensures
            r@ == self@ | other@,
    {
        proof {
            use_type_invariant(self);
            use_type_invariant(other);
            let (a, b) = (self.0, other.0);
            assert(a & !ENTRY_FLAGS_MASK == 0 && b & !ENTRY_FLAGS_MASK == 0 ==> (a | b)
                & !ENTRY_FLAGS_MASK == 0) by (bit_vector);
        }
        PageEntryFlags(self.0 | other.0)
    }
}

/// One 8-byte entry of a translation table: a page-aligned physical address
/// in bits 12 to 51 and flags in the other bits.
#[derive(Debug, Clone, Copy)]
pub struct PageEntry(u64);

impl View for PageEntry {
    type V = u64;

    closed spec fn view(&self) -> u64 {
        self.0
    }
}

impl PageEntry {
    /// The entry that maps nothing.
    pub const EMPTY_VALUE: u64 = 0;

    /// The empty entry: no address and no flag.
    #[must_use]
    pub fn empty() -> (r: Self)
        ensures
            r@ == 0,
    {
        PageEntry(Self::EMPTY_VALUE)
    }

    /// An entry that maps the page at `addr`, which must be page-aligned,
    /// with `flags`.
    #[must_use]
    pub fn new(addr: Physical, flags: PageEntryFlags) -> (r: Self)
        requires
            is_aligned_value(addr@, 0x1000),
        ensures
            r@ == entry_value(addr@, flags@),
    {
        PageEntry((addr.as_u64() & ENTRY_ADDRESS_MASK) | flags.bits())
    }

    /// Replaces the address; the flags are kept. The address must be
    /// page-aligned.
    pub fn set_address(&mut self, addr: Physical)
        requires
            is_aligned_value(addr@, 0x1000),
        ensures
            final(self)@ == (old(self)@ & !ENTRY_ADDRESS_MASK) | (addr@ & ENTRY_ADDRESS_MASK),
    {
        self.0 = (self.0 & !ENTRY_ADDRESS_MASK) | (addr.as_u64() & ENTRY_ADDRESS_MASK);
    }

    /// Replaces all the flags; the address is kept.
    pub fn set_flags(&mut self, flags: PageEntryFlags)
        ensures
            final(self)@ == (old(self)@ & ENTRY_ADDRESS_MASK) | flags@,
    {
        self.0 = (self.0 & ENTRY_ADDRESS_MASK) | flags.bits();
    }

    /// Clears the given flags; the address and the other flags are kept.
    pub fn clear_flags(&mut self, flags: PageEntryFlags)
        ensures
            final(self)@ == old(self)@ & !flags@,
    {
        self.0 = self.0 & !flags.bits();
    }

    /// Sets the given flags; the address and the other flags are kept.
    pub fn add_flags(&mut self, flags: PageEntryFlags)
        ensures
            final(self)@ == old(self)@ | flags@,
    {
        self.0 = self.0 | flags.bits();
    }

    /// Whether the page is present in memory.
    #[must_use]
    pub fn is_present(&self) -> (r: bool)
        ensures
            r == entry_present(self@),
    {
        self.0 & PageEntryFlags::PRESENT != 0
    }

    /// Whether the page is executable: the no-execute bit (63) is clear.
    #[must_use]
    pub fn is_executable(&self) -> (r: bool)
        ensures
            r == (self@ & PageEntryFlags::NO_EXECUTE == 0),
    {
        self.0 & PageEntryFlags::NO_EXECUTE == 0
    }

    /// Whether the page is writable (bit 1).
    #[must_use]
    pub fn is_writable(&self) -> (r: bool)
        ensures
            r == (self@ & PageEntryFlags::WRITABLE != 0),
    {
        self.0 & PageEntryFlags::WRITABLE != 0
    }

    /// Whether the page is reachable from user mode (bit 2).
    #[must_use]
    pub fn is_user(&self) -> (r: bool)
        ensures
            r == (self@ & PageEntryFlags::USER != 0),
    {
        self.0 & PageEntryFlags::USER != 0
    }

    /// Resets the entry to the empty entry: not present, no address, no flag.
    pub fn clear(&mut self)
        ensures
            final(self)@ == 0,
    {
        self.0 = Self::EMPTY_VALUE;
    }

    /// The flags of the entry.
    #[must_use]
    pub fn flags(&self) -> (r: PageEntryFlags)
        ensures
            r@ == self@ & ENTRY_FLAGS_MASK,
    {
        PageEntryFlags::from_bits_truncate(self.0)
    }

    /// The physical address that the entry maps, or `None` when the entry is
    /// not present.
    #[must_use]
    pub fn address(&self) -> (r: Option<Physical>)
        ensures
            r is Some <==> entry_present(self@),
            r matches Some(a) ==> entry_address(self@) == Some(a@),
    {
        if self.is_present() {
            let v = self.0;
            proof {
                assert(v & ENTRY_ADDRESS_MASK <= 0x000F_FFFF_FFFF_FFFF) by (bit_vector);
            }
            Some(Physical::new(v & ENTRY_ADDRESS_MASK))
        } else {
            None
        }
    }
}

/// Building an entry from a page-aligned physical address and flags, then
/// reading its address back, gives the address when the flags hold the
/// present bit, and nothing when they do not.
pub proof fn lemma_entry_round_trip(address: u64, flags: u64)
    requires
        is_physical_value(address),
        is_aligned_value(address, 0x1000),
        flags & !ENTRY_FLAGS_MASK == 0,
    ensures
        entry_present(flags) ==> entry_address(entry_value(address, flags)) == Some(address),
        !entry_present(flags) ==> entry_address(entry_value(address, flags)) is None,
{
    assert(entry_present(entry_value(address, flags)) == entry_present(flags) && entry_value(
        address,
        flags,
    ) & ENTRY_ADDRESS_MASK == address) by (bit_vector)
        requires
            is_physical_value(address),
            is_aligned_value(address, 0x1000),
            flags & !ENTRY_FLAGS_MASK == 0,
    ;
}

/// A translation table: 512 entries, one 4 KiB page.
#[derive(Debug)]
pub struct PageTable([PageEntry; 512]);

impl View for PageTable {
    type V = Seq<u64>;

    closed spec fn view(&self) -> Seq<u64> {
        self.0@.map_values(|e: PageEntry| e@)
    }
}

impl PageTable {
    pub const COUNT: usize = 512;

    /// A table whose entries are all empty.
    #[must_use]
    pub fn new() -> (r: Self)
        ensures
            r@.len() == 512,
            forall|i: int| 0 <= i < 512 ==> r@[i] == 0,
    {
        PageTable([PageEntry::empty(); 512])
    }

    /// Resets every entry to the empty entry. No memory is released.
    pub fn clear(&mut self)
        ensures
            final(self)@.len() == 512,
            forall|i: int| 0 <= i < 512 ==> final(self)@[i] == 0,
    {
        let mut i: usize = 0;
        while i < Self::COUNT
            invariant
                i <= 512,
                forall|j: int| 0 <= j < i ==> (#[trigger] self.0@[j])@ == 0,
            decreases 512 - i,
        {
            let mut entry = self.0[i];
            entry.clear();
            self.0[i] = entry;
            i += 1;
        }
    }

    /// Whether no entry of the table is present.
    #[must_use]
    pub fn is_empty(&self) -> (r: bool)
        ensures
            r == (forall|i: int| 0 <= i < 512 ==> !entry_present(#[trigger] self@[i])),
    {
        let mut i: usize = 0;
        while i < Self::COUNT
            invariant
                i <= 512,
                forall|j: int| 0 <= j < i ==> !entry_present((#[trigger] self.0@[j])@),
            decreases 512 - i,
        {
            if self.0[i].is_present() {
                assert(self@[i as int] == self.0@[i as int]@);
                return false;
            }
            i += 1;
        }
        true
    }

    /// All 512 entries, in index order, for walking the table.
    #[must_use]
    pub fn entries(&self) -> (r: &[PageEntry; 512])
        ensures
            r@.map_values(|e: PageEntry| e@) == self@,
    {
        &self.0
    }

    /// Replaces the entry at `index`, which must be below 512.
    pub fn set_entry(&mut self, index: usize, entry: PageEntry)
        requires
            index < 512,
        ensures
            final(self)@ == old(self)@.update(index as int, entry@),
    {
        self.0[index] = entry;
        assert(self@ =~= old(self)@.update(index as int, entry@));
    }
}

impl Default for PageTable {
    fn default() -> (r: Self)
        ensures
            r@.len() == 512,
            forall|i: int| 0 <= i < 512 ==> r@[i] == 0,
    {
        Self::new()
    }
}

impl core::ops::Index<usize> for PageTable {
    type Output = PageEntry;

    /// The entry at `index`, which must be below 512.
    fn index(&self, index: usize) -> (r: &PageEntry)
        ensures
            r@ == self@[index as int],
    {
        &self.0[index]
    }
}

impl vstd::std_specs::core::IndexSpecImpl<usize> for PageTable {
    open spec fn index_req(&self, index: &usize) -> bool {
        *index < 512
    }
}

/// A table whose 512 entries are all empty, which is what `clear` leaves
/// whatever the table held before (a cleared table included), has no present
/// entry.
pub proof fn lemma_cleared_table(entries: Seq<u64>)
    requires
        entries.len() == 512,
        forall|i: int| 0 <= i < 512 ==> entries[i] == 0,
    ensures
        forall|i: int| 0 <= i < 512 ==> !entry_present(#[trigger] entries[i]),
{
    assert forall|i: int| 0 <= i < 512 implies !entry_present(#[trigger] entries[i]) by {
        let v = entries[i];
        assert(v == 0 ==> v & PageEntryFlags::PRESENT == 0) by (bit_vector);
    }
}

/// The levels of the translation hierarchy, from the leaf table to the root.
#[derive(Debug, Clone, Copy, PartialEq, Eq, Structural, PartialOrd, Ord, Hash)]
pub enum Level {
    PageTable,
    PageDirectory,
    PageTableDirectoryPointer,
    PageMapLevel4,
}

/// The number of a level: 1 for the leaf table up to 4 for the root.
pub open spec fn level_number(l: Level) -> int {
    match l {
        Level::PageTable => 1,
        Level::PageDirectory => 2,
        Level::PageTableDirectoryPointer => 3,
        Level::PageMapLevel4 => 4,
    }
}

impl Level {
    /// The level one step closer to the root, or `None` at the root.
    #[must_use]
    pub fn prev(&self) -> (r: Option<Self>)
        ensures
            r is None <==> *self == Level::PageMapLevel4,
            r matches Some(l) ==> level_number(l) == level_number(*self) + 1,
    {
        match self {
            Self::PageTable => Some(Self::PageDirectory),
            Self::PageDirectory => Some(Self::PageTableDirectoryPointer),
            Self::PageTableDirectoryPointer => Some(Self::PageMapLevel4),
            Self::PageMapLevel4 => None,
        }
    }

    /// The level one step closer to the leaf, or `None` at the leaf table.
    #[must_use]
    pub fn next(&self) -> (r: Option<Self>)
        ensures
            r is None <==> *self == Level::PageTable,
            r matches Some(l) ==> level_number(l) + 1 == level_number(*self),
    {
        match self {
            Self::PageTable => None,
            Self::PageDirectory => Some(Self::PageTable),
            Self::PageTableDirectoryPointer => Some(Self::PageDirectory),
            Self::PageMapLevel4 => Some(Self::PageTableDirectoryPointer),
        }
    }
}

/// Bits 0 to 6 and 15 of a page-fault error code.
pub const FAULT_CODE_MASK: u64 = 0x807F;

/// The causes of a page fault, decoded from the error code that the processor
/// pushes.
#[derive(Debug, Clone, Copy, PartialEq, Eq, Structural)]
pub struct PageFaultErrorCode(u64);

impl View for PageFaultErrorCode {
    type V = u64;

    closed spec fn view(&self) -> u64 {
        self.0
    }
}

impl PageFaultErrorCode {
    pub const PROTECTION_VIOLATION: u64 = 1 << 0;
    pub const WRITE_ACCESS: u64 = 1 << 1;
    pub const CPU_USER_MODE: u64 = 1 << 2;
    pub const MALFORMED_TABLE: u64 = 1 << 3;
    pub const INSTRUCTION_FETCH: u64 = 1 << 4;
    pub const PROTECTION_KEY: u64 = 1 << 5;
    pub const SHADOW_STACK: u64 = 1 << 6;
    pub const SGX: u64 = 1 << 15;

    #[verifier::type_invariant]
    spec fn inv(self) -> bool {
        self.0 & !FAULT_CODE_MASK == 0
    }

    /// The causes in an error code; the bits that name no cause are dropped.
    #[must_use]
    pub fn from_bits_truncate(bits: u64) -> (r: Self)
        ensures
            r@ == bits & FAULT_CODE_MASK,
    {
        proof { assert((bits & FAULT_CODE_MASK) & !FAULT_CODE_MASK == 0) by (bit_vector); }
        PageFaultErrorCode(bits & FAULT_CODE_MASK)
    }

    #[must_use]
    pub fn bits(&self) -> (r: u64)
        ensures
            r == self@,
            r & !FAULT_CODE_MASK == 0,
    {
        proof { use_type_invariant(self); }
        self.0
    }

    /// Whether every cause in `bits` is in the set.
    #[must_use]
    pub fn contains(&self, bits: u64) -> (r: bool)
        ensures
            r == (self@ & bits == bits),
    {
        self.0 & bits == bits
    }
}

} // verus!
