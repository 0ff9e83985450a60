use vstd::prelude::*;

verus! {

/// First address of the upper (kernel) canonical half.
pub const KERNEL_SPACE_START: u64 = 0xFFFF_8000_0000_0000;

/// First address above the lower (user) canonical half.
pub const USER_SPACE_END: u64 = 0x0000_8000_0000_0000;

/// Largest physical address: physical addresses fit in 52 bits.
pub const PHYSICAL_MAX: u64 = 0x000F_FFFF_FFFF_FFFF;

/// A 64-bit value is canonical when bits 47 to 63 are all clear or all set,
/// that is when bits 48 to 63 are copies of bit 47.
pub open spec fn is_canonical_value(v: u64) -> bool {
    v < USER_SPACE_END || v >= KERNEL_SPACE_START
}

/// A 64-bit value is a physical address when bits 52 to 63 are clear.
pub open spec fn is_physical_value(v: u64) -> bool {
    v <= PHYSICAL_MAX
}

/// Copies bit 47 into bits 48 to 63.
pub open spec fn sign_extend(v: u64) -> u64 {
    if v & 0x0000_8000_0000_0000 == 0 {
        v & 0x0000_FFFF_FFFF_FFFF
    } else {
        v | 0xFFFF_0000_0000_0000
    }
}

/// Clears bits 52 to 63.
pub open spec fn truncate_physical(v: u64) -> u64 {
    v & PHYSICAL_MAX
}

pub open spec fn is_power_of_two(n: u64) -> bool {
    n != 0 && n & ((n - 1) as u64) == 0
}

/// `v` rounded down to a multiple of the power of two `n`.
pub open spec fn align_down_value(v: u64, n: u64) -> u64 {
    v & !((n - 1) as u64)
}

/// `v` rounded up to a multiple of the power of two `n`; meaningful when
/// `v + n - 1` fits in 64 bits.
pub open spec fn align_up_value(v: u64, n: u64) -> u64 {
    ((v + n - 1) as u64) & !((n - 1) as u64)
}

pub open spec fn is_aligned_value(v: u64, n: u64) -> bool {
    v & ((n - 1) as u64) == 0
}

/// The 9-bit translation index of `v` at `level` (1 to 5): the bits that
/// start at `12 + 9 * (level - 1)`.
pub open spec fn page_index_value(v: u64, level: u64) -> u64 {
    (v >> ((12 + 9 * (level - 1)) as u64)) & 0x1FF
}

/// A canonical 64-bit virtual memory address.
///
/// Only the 48 lower bits of a virtual address are translated; the top 17 bits
/// are always all clear or all set.
#[derive(Debug, Clone, Copy, PartialEq, Eq, Structural, PartialOrd, Ord, Hash)]
pub struct Virtual(u64);

/// A raw value that is not a canonical virtual address.
#[derive(Debug, Clone, Copy, PartialEq, Eq, Structural, PartialOrd, Ord, Hash)]
pub struct InvalidVirtual(u64);

impl View for Virtual {
    type V = u64;

    closed spec fn view(&self) -> u64 {
        self.0
    }
}

impl View for InvalidVirtual {
    type V = u64;

    closed spec fn view(&self) -> u64 {
        self.0
    }
}

proof fn lemma_sign_extend(v: u64)
    by (bit_vector)
    ensures
        is_canonical_value(sign_extend(v)),
        is_canonical_value(v) ==> sign_extend(v) == v,
        ((v << 16u64) as i64 >> 16u64) as u64 == sign_extend(v),
{
}

impl Virtual {
    #[verifier::type_invariant]
    spec fn inv(self) -> bool {
        is_canonical_value(self.0)
    }

    /// Creates a canonical virtual address; the value must already be canonical.
    #[must_use]
    pub fn new(address: u64) -> (r: Self)
        requires
            is_canonical_value(address),
        ensures
            r@ == address,
    {
        Virtual(address)
    }

    /// Creates a canonical virtual address, or returns the rejected value when
    /// bits 48 to 63 are not all copies of bit 47.
    pub fn try_new(address: u64) -> (r: Result<Self, InvalidVirtual>)
        ensures
            r is Ok <==> is_canonical_value(address),
            r matches Ok(a) ==> a@ == address,
            r matches Err(e) ==> e@ == address,
    {
        if Self::is_canonical(address) {
            Ok(Virtual(address))
        } else {
            Err(InvalidVirtual(address))
        }
    }

    /// Creates a canonical virtual address by copying bit 47 into bits 48 to 63.
    #[must_use]
    pub fn new_truncate(addr: u64) -> (r: Self)
        ensures
            r@ == sign_extend(addr),
            is_canonical_value(addr) ==> r@ == addr,
    {
        proof { lemma_sign_extend(addr); }
        Virtual(((addr << 16u64) as i64 >> 16u64) as u64)
    }

    #[must_use]
    pub fn is_canonical(address: u64) -> (r: bool)
        ensures
            r == is_canonical_value(address),
    {
        address < USER_SPACE_END || address >= KERNEL_SPACE_START
    }

    #[must_use]
    pub fn null() -> (r: Self)
        ensures
            r@ == 0,
    {
        Virtual(0)
    }

    #[must_use]
    pub fn zero() -> (r: Self)
        ensures
            r@ == 0,
    {
        Virtual(0)
    }

    #[must_use]
    pub fn as_u64(self) -> (r: u64)
        ensures
            r == self@,
            is_canonical_value(r),
    {
        proof { use_type_invariant(self); }
        self.0
    }

    #[must_use]
    pub fn is_null(self) -> (r: bool)
        ensures
            r == (self@ == 0),
    {
        self.0 == 0
    }

    /// Rounds the address up to a multiple of `alignment`, a power of two.
    /// Rounding must not carry past 64 bits; the rounded value is made
    /// canonical by sign extension.
    #[must_use]
    pub fn align_up(self, alignment: u64) -> (r: Self)
        requires
            is_power_of_two(alignment),
            self@ + alignment - 1 <= u64::MAX,
        ensures
            r@ == sign_extend(align_up_value(self@, alignment)),
    {
        let align: u64 = alignment;
        Self::new_truncate((self.0 + (align - 1)) & !(align - 1))
    }

    /// Rounds the address down to a multiple of `alignment`, a power of two.
    #[must_use]
    pub fn align_down(self, alignment: u64) -> (r: Self)
        requires
            is_power_of_two(alignment),
        ensures
            r@ == sign_extend(align_down_value(self@, alignment)),
    {
        let align: u64 = alignment;
        Self::new_truncate(self.0 & !(align - 1))
    }

    /// Whether the address is a multiple of `alignment`, a power of two.
    #[must_use]
    pub fn is_aligned(self, alignment: u64) -> (r: bool)
        requires
            is_power_of_two(alignment),
        ensures
            r == is_aligned_value(self@, alignment),
    {
        let align: u64 = alignment;
        self.0 & (align - 1) == 0
    }

    /// Rounds the address up to a page boundary (4 KiB).
    #[must_use]
    pub fn page_align_up(&self) -> (r: Self)
        requires
            self@ + 0xFFF <= u64::MAX,
        ensures
            r@ == sign_extend(align_up_value(self@, 0x1000)),
    {
        Self::new_truncate((self.0 + 0xFFF) & !0xFFFu64)
    }

    /// Rounds the address down to a page boundary (4 KiB).
    #[must_use]
    pub fn page_align_down(&self) -> (r: Self)
        ensures
            r@ == align_down_value(self@, 0x1000),
    {
        proof {
            use_type_invariant(self);
            let v = self.0;
            assert(is_canonical_value(v) ==> is_canonical_value(v & !0xFFFu64)) by (bit_vector);
            lemma_sign_extend(v & !0xFFFu64);
        }
        Self::new_truncate(self.0 & !0xFFFu64)
    }

    /// Whether the address is on a page boundary (4 KiB).
    #[must_use]
    pub fn is_page_aligned(&self) -> (r: bool)
        ensures
            r == is_aligned_value(self@, 0x1000),
    {
        self.0 & 0xFFF == 0
    }

    /// The offset of the address inside its 4 KiB page.
    #[must_use]
    pub fn page_offset(self) -> (r: u64)
        ensures
            r == self@ & 0xFFF,
    {
        self.0 & 0xFFF
    }

    /// The 9-bit translation index of the address at `level`, from 1 (page
    /// table) to 5 (fifth-level map).
    #[must_use]
    pub fn page_index(self, level: u64) -> (r: u64)
        requires
            1 <= level <= 5,
        ensures
            r == page_index_value(self@, level),
            r < 512,
    {
        let v = self.0;
        proof {
            let s = (12 + 9 * (level - 1)) as u64;
            assert((v >> 12u64) >> ((level - 1) * 9) as u64 == v >> s && (v >> s) & 0x1FF < 512)
                by (bit_vector)
                requires
                    1 <= level <= 5,
                    s == 12 + 9 * (level - 1),
            ;
        }
        (v >> 12u64 >> ((level - 1) * 9)) & 0x1FF
    }

    /// The page table index (level 1).
    #[must_use]
    pub fn pt_offset(self) -> (r: u64)
        ensures
            r == page_index_value(self@, 1),
            r == (self@ >> 12u64) & 0x1FF,
    {
        self.page_index(1)
    }

    /// The page directory index (level 2).
    #[must_use]
    pub fn pd_offset(self) -> (r: u64)
        ensures
            r == page_index_value(self@, 2),
            r == (self@ >> 21u64) & 0x1FF,
    {
        self.page_index(2)
    }

    /// The page directory pointer table index (level 3).
    #[must_use]
    pub fn pdpt_offset(self) -> (r: u64)
        ensures
            r == page_index_value(self@, 3),
            r == (self@ >> 30u64) & 0x1FF,
    {
        self.page_index(3)
    }

    /// The fourth-level map index (level 4).
    #[must_use]
    pub fn pml4_offset(self) -> (r: u64)
        ensures
            r == page_index_value(self@, 4),
            r == (self@ >> 39u64) & 0x1FF,
    {
        self.page_index(4)
    }

    /// The fifth-level map index (level 5).
    #[must_use]
    pub fn pml5_offset(self) -> (r: u64)
        ensures
            r == page_index_value(self@, 5),
            r == (self@ >> 48u64) & 0x1FF,
    {
        self.page_index(5)
    }

    /// Whether the address is in the upper (kernel) half.
    #[must_use]
    pub fn is_kernel(self) -> (r: bool)
        ensures
            r == (self@ >= KERNEL_SPACE_START),
    {
        self.0 >= KERNEL_SPACE_START
    }

    /// Whether the address is in the lower (user) half.
    #[must_use]
    pub fn is_user(self) -> (r: bool)
        ensures
            r == (self@ < KERNEL_SPACE_START),
    {
        !self.is_kernel()
    }
}

/// Whether `a + b` is a canonical address (and fits in 64 bits).
pub open spec fn canonical_sum(a: u64, b: u64) -> bool {
    a + b <= u64::MAX && is_canonical_value((a + b) as u64)
}

/// Whether `a - b` is a canonical address (and does not go below zero).
pub open spec fn canonical_difference(a: u64, b: u64) -> bool {
    a >= b && is_canonical_value((a - b) as u64)
}

impl Virtual {
    /// `self + rhs` when that is a canonical address.
    fn checked_offset_up(self, rhs: u64) -> (r: Option<Self>)
        ensures
            r is Some <==> canonical_sum(self@, rhs),
            r matches Some(a) ==> a@ == self@ + rhs,
    {
        match self.0.checked_add(rhs) {
            Some(sum) => if Self::is_canonical(sum) {
                Some(Virtual(sum))
            } else {
                None
            },
            None => None,
        }
    }

    /// `self - rhs` when that is a canonical address.
    fn checked_offset_down(self, rhs: u64) -> (r: Option<Self>)
        ensures
            r is Some <==> canonical_difference(self@, rhs),
            r matches Some(a) ==> a@ == self@ - rhs,
    {
        if rhs <= self.0 && Self::is_canonical(self.0 - rhs) {
            Some(Virtual(self.0 - rhs))
        } else {
            None
        }
    }
}

impl core::ops::Add<Virtual> for Virtual {
    type Output = Virtual;

    /// The sum must be a canonical address.
    fn add(self, rhs: Virtual) -> (r: Virtual)
        ensures
            r@ == self@ + rhs@,
    {
        Virtual::new(self.0 + rhs.0)
    }
}

impl vstd::std_specs::ops::AddSpecImpl<Virtual> for Virtual {
    open spec fn obeys_add_spec() -> bool {
        false
    }

    open spec fn add_req(self, rhs: Virtual) -> bool {
        canonical_sum(self@, rhs@)
    }

    open spec fn add_spec(self, rhs: Virtual) -> Virtual {
        self
    }
}

impl core::ops::Sub<Virtual> for Virtual {
    type Output = Virtual;

    /// The difference must be a canonical address.
    fn sub(self, rhs: Virtual) -> (r: Virtual)
        ensures
            r@ == self@ - rhs@,
    {
        Virtual::new(self.0 - rhs.0)
    }
}

impl vstd::std_specs::ops::SubSpecImpl<Virtual> for Virtual {
    open spec fn obeys_sub_spec() -> bool {
        false
    }

    open spec fn sub_req(self, rhs: Virtual) -> bool {
        canonical_difference(self@, rhs@)
    }

    open spec fn sub_spec(self, rhs: Virtual) -> Virtual {
        self
    }
}

impl core::ops::AddAssign<Virtual> for Virtual {
    /// Moves the address up by `rhs`. A compound assignment cannot refuse its
    /// operands, so when the sum is not a canonical address the address is
    /// left as it was.
    fn add_assign(&mut self, rhs: Virtual)
        ensures
            canonical_sum(old(self)@, rhs@) ==> final(self)@ == old(self)@ + rhs@,
            !canonical_sum(old(self)@, rhs@) ==> final(self)@ == old(self)@,
    {
        if let Some(moved) = self.checked_offset_up(rhs.0) {
            *self = moved;
        }
    }
}

impl core::ops::SubAssign<Virtual> for Virtual {
    /// Moves the address down by `rhs`. A compound assignment cannot refuse
    /// its operands, so when the difference is not a canonical address the
    /// address is left as it was.
    fn sub_assign(&mut self, rhs: Virtual)
        ensures
            canonical_difference(old(self)@, rhs@) ==> final(self)@ == old(self)@ - rhs@,
            !canonical_difference(old(self)@, rhs@) ==> final(self)@ == old(self)@,
    {
        if let Some(moved) = self.checked_offset_down(rhs.0) {
            *self = moved;
        }
    }
}

impl core::ops::Add<u64> for Virtual {
    type Output = Virtual;

    /// The sum must be a canonical address.
    fn add(self, rhs: u64) -> (r: Virtual)
        ensures
            r@ == self@ + rhs,
    {
        Virtual::new(self.0 + rhs)
    }
}

impl vstd::std_specs::ops::AddSpecImpl<u64> for Virtual {
    open spec fn obeys_add_spec() -> bool {
        false
    }

    open spec fn add_req(self, rhs: u64) -> bool {
        canonical_sum(self@, rhs)
    }

    open spec fn add_spec(self, rhs: u64) -> Virtual {
        self
    }
}

impl core::ops::Sub<u64> for Virtual {
    type Output = Virtual;

    /// The difference must be a canonical address.
    fn sub(self, rhs: u64) -> (r: Virtual)
        ensures
            r@ == self@ - rhs,
    {
        Virtual::new(self.0 - rhs)
    }
}

impl vstd::std_specs::ops::SubSpecImpl<u64> for Virtual {
    open spec fn obeys_sub_spec() -> bool {
        false
    }

    open spec fn sub_req(self, rhs: u64) -> bool {
        canonical_difference(self@, rhs)
    }

    open spec fn sub_spec(self, rhs: u64) -> Virtual {
        self
    }
}

impl core::ops::AddAssign<u64> for Virtual {
    /// Moves the address up by `rhs`. A compound assignment cannot refuse its
    /// operands, so when the sum is not a canonical address the address is
    /// left as it was.
    fn add_assign(&mut self, rhs: u64)
        ensures
            canonical_sum(old(self)@, rhs) ==> final(self)@ == old(self)@ + rhs,
            !canonical_sum(old(self)@, rhs) ==> final(self)@ == old(self)@,
    {
        if let Some(moved) = self.checked_offset_up(rhs) {
            *self = moved;
        }
    }
}

impl core::ops::SubAssign<u64> for Virtual {
    /// Moves the address down by `rhs`. A compound assignment cannot refuse
    /// its operands, so when the difference is not a canonical address the
    /// address is left as it was.
    fn sub_assign(&mut self, rhs: u64)
        ensures
            canonical_difference(old(self)@, rhs) ==> final(self)@ == old(self)@ - rhs,
            !canonical_difference(old(self)@, rhs) ==> final(self)@ == old(self)@,
    {
        if let Some(moved) = self.checked_offset_down(rhs) {
            *self = moved;
        }
    }
}

impl core::ops::Add<usize> for Virtual {
    type Output = Virtual;

    /// The sum must be a canonical address.
    fn add(self, rhs: usize) -> (r: Virtual)
        ensures
            r@ == self@ + rhs as u64,
    {
        Virtual::new(self.0 + rhs as u64)
    }
}

impl vstd::std_specs::ops::AddSpecImpl<usize> for Virtual {
    open spec fn obeys_add_spec() -> bool {
        false
    }

    open spec fn add_req(self, rhs: usize) -> bool {
        canonical_sum(self@, rhs as u64)
    }

    open spec fn add_spec(self, rhs: usize) -> Virtual {
        self
    }
}

impl core::ops::Sub<usize> for Virtual {
    type Output = Virtual;

    /// The difference must be a canonical address.
    fn sub(self, rhs: usize) -> (r: Virtual)
        ensures
            r@ == self@ - rhs as u64,
    {
        Virtual::new(self.0 - rhs as u64)
    }
}

impl vstd::std_specs::ops::SubSpecImpl<usize> for Virtual {
    open spec fn obeys_sub_spec() -> bool {
        false
    }

    open spec fn sub_req(self, rhs: usize) -> bool {
        canonical_difference(self@, rhs as u64)
    }

    open spec fn sub_spec(self, rhs: usize) -> Virtual {
        self
    }
}

impl core::ops::AddAssign<usize> for Virtual {
    /// Moves the address up by `rhs`. A compound assignment cannot refuse its
    /// operands, so when the sum is not a canonical address the address is
    /// left as it was.
    fn add_assign(&mut self, rhs: usize)
        ensures
            canonical_sum(old(self)@, rhs as u64) ==> final(self)@ == old(self)@ + rhs as u64,
            !canonical_sum(old(self)@, rhs as u64) ==> final(self)@ == old(self)@,
    {
        if let Some(moved) = self.checked_offset_up(rhs as u64) {
            *self = moved;
        }
    }
}

impl core::ops::SubAssign<usize> for Virtual {
    /// Moves the address down by `rhs`. A compound assignment cannot refuse
    /// its operands, so when the difference is not a canonical address the
    /// address is left as it was.
    fn sub_assign(&mut self, rhs: usize)
        ensures
            canonical_difference(old(self)@, rhs as u64) ==> final(self)@ == old(self)@ - rhs as u64,
            !canonical_difference(old(self)@, rhs as u64) ==> final(self)@ == old(self)@,
    {
        if let Some(moved) = self.checked_offset_down(rhs as u64) {
            *self = moved;
        }
    }
}

/// A physical memory address: a value of at most 52 bits.
#[derive(Debug, Clone, Copy, PartialEq, Eq, Structural, PartialOrd, Ord, Hash)]
pub struct Physical(u64);

/// A raw value that does not fit in 52 bits.
#[derive(Debug, Clone, Copy, PartialEq, Eq, Structural, PartialOrd, Ord, Hash)]
pub struct InvalidPhysical(u64);

impl View for Physical {
    type V = u64;

    closed spec fn view(&self) -> u64 {
        self.0
    }
}

impl View for InvalidPhysical {
    type V = u64;

    closed spec fn view(&self) -> u64 {
        self.0
    }
}

/// Whether `a + b` is a physical address.
pub open spec fn physical_sum(a: u64, b: u64) -> bool {
    a + b <= PHYSICAL_MAX
}

/// Whether `a - b` is a physical address (does not go below zero).
pub open spec fn physical_difference(a: u64, b: u64) -> bool {
    a >= b
}

impl Physical {
    #[verifier::type_invariant]
    spec fn inv(self) -> bool {
        is_physical_value(self.0)
    }

    /// Creates a physical address; the value must fit in 52 bits.
    #[must_use]
    pub fn new(address: u64) -> (r: Self)
        requires
            is_physical_value(address),
        ensures
            r@ == address,
    {
        Physical(address)
    }

    /// Creates a physical address, or returns the rejected value when one of
    /// bits 52 to 63 is set.
    pub fn try_new(address: u64) -> (r: Result<Self, InvalidPhysical>)
        ensures
            r is Ok <==> is_physical_value(address),
            r matches Ok(a) ==> a@ == address,
            r matches Err(e) ==> e@ == address,
    {
        if address > PHYSICAL_MAX {
            Err(InvalidPhysical(address))
        } else {
            Ok(Physical(address))
        }
    }

    /// Creates a physical address by clearing bits 52 to 63.
    #[must_use]
    pub fn new_truncate(addr: u64) -> (r: Self)
        ensures
            r@ == truncate_physical(addr),
            is_physical_value(addr) ==> r@ == addr,
    {
        proof {
            assert(addr & PHYSICAL_MAX <= PHYSICAL_MAX && (addr <= PHYSICAL_MAX ==> addr
                & PHYSICAL_MAX == addr)) by (bit_vector);
        }
        Physical(addr & PHYSICAL_MAX)
    }

    #[must_use]
    pub fn null() -> (r: Self)
        ensures
            r@ == 0,
    {
        Physical(0)
    }

    #[must_use]
    pub fn zero() -> (r: Self)
        ensures
            r@ == 0,
    {
        Physical(0)
    }

    #[must_use]
    pub fn as_u64(self) -> (r: u64)
        ensures
            r == self@,
            is_physical_value(r),
    {
        proof { use_type_invariant(self); }
        self.0
    }

    #[must_use]
    pub fn is_null(self) -> (r: bool)
        ensures
            r == (self@ == 0),
    {
        self.0 == 0
    }

    /// Rounds the address up to a multiple of `alignment`, a power of two.
    /// Rounding must not carry past 64 bits; bits 52 to 63 of the rounded
    /// value are cleared.
    #[must_use]
    pub fn align_up(self, alignment: u64) -> (r: Self)
        requires
            is_power_of_two(alignment),
            self@ + alignment - 1 <= u64::MAX,
        ensures
            r@ == truncate_physical(align_up_value(self@, alignment)),
    {
        let align: u64 = alignment;
        Self::new_truncate((self.0 + (align - 1)) & !(align - 1))
    }

    /// Rounds the address down to a multiple of `alignment`, a power of two.
    #[must_use]
    pub fn align_down(self, alignment: u64) -> (r: Self)
        requires
            is_power_of_two(alignment),
        ensures
            r@ == align_down_value(self@, alignment),
    {
        let align: u64 = alignment;
        proof {
            use_type_invariant(self);
            let v = self.0;
            let m = !((align - 1) as u64);
            assert(v <= PHYSICAL_MAX ==> v & m <= PHYSICAL_MAX) by (bit_vector);
        }
        Self::new_truncate(self.0 & !(align - 1))
    }

    /// Whether the address is a multiple of `alignment`, a power of two.
    #[must_use]
    pub fn is_aligned(self, alignment: u64) -> (r: bool)
        requires
            is_power_of_two(alignment),
        ensures
            r == is_aligned_value(self@, alignment),
    {
        let align: u64 = alignment;
        self.0 & (align - 1) == 0
    }

    /// Rounds the address up to a page boundary (4 KiB); bits 52 to 63 of the
    /// rounded value are cleared.
    #[must_use]
    pub fn page_align_up(&self) -> (r: Self)
        ensures
            r@ == truncate_physical(align_up_value(self@, 0x1000)),
    {
        proof { use_type_invariant(self); }
        Self::new_truncate((self.0 + 0xFFF) & !0xFFFu64)
    }

    /// Rounds the address down to a page boundary (4 KiB).
    #[must_use]
    pub fn page_align_down(&self) -> (r: Self)
        ensures
            r@ == align_down_value(self@, 0x1000),
    {
        proof {
            use_type_invariant(self);
            let v = self.0;
            assert(v <= PHYSICAL_MAX ==> v & !0xFFFu64 <= PHYSICAL_MAX) by (bit_vector);
        }
        Self::new_truncate(self.0 & !0xFFFu64)
    }

    /// Whether the address is on a page boundary (4 KiB).
    #[must_use]
    pub fn is_page_aligned(&self) -> (r: bool)
        ensures
            r == is_aligned_value(self@, 0x1000),
    {
        self.0 & 0xFFF == 0
    }

    /// The index of the 4 KiB frame that holds the address.
    #[must_use]
    pub fn frame_index(self) -> (r: u64)
        ensures
            r == self@ >> 12u64,
    {
        self.0 >> 12u64
    }

    /// `self + rhs` when that is a physical address.
    fn checked_offset_up(self, rhs: u64) -> (r: Option<Self>)
        ensures
            r is Some <==> physical_sum(self@, rhs),
            r matches Some(a) ==> a@ == self@ + rhs,
    {
        proof { use_type_invariant(self); }
        if rhs <= PHYSICAL_MAX - self.0 {
            Some(Physical(self.0 + rhs))
        } else {
            None
        }
    }

    /// `self - rhs` when that does not go below zero.
    fn checked_offset_down(self, rhs: u64) -> (r: Option<Self>)
        ensures
            r is Some <==> physical_difference(self@, rhs),
            r matches Some(a) ==> a@ == self@ - rhs,
    {
        proof { use_type_invariant(self); }
        if rhs <= self.0 {
            Some(Physical(self.0 - rhs))
        } else {
            None
        }
    }
}

impl core::ops::Add<Physical> for Physical {
    type Output = Physical;

    /// The sum must fit in 52 bits.
    fn add(self, rhs: Physical) -> (r: Physical)
        ensures
            r@ == self@ + rhs@,
    {
        Physical::new(self.0 + rhs.0)
    }
}

impl vstd::std_specs::ops::AddSpecImpl<Physical> for Physical {
    open spec fn obeys_add_spec() -> bool {
        false
    }

    open spec fn add_req(self, rhs: Physical) -> bool {
        physical_sum(self@, rhs@)
    }

    open spec fn add_spec(self, rhs: Physical) -> Physical {
        self
    }
}

impl core::ops::Sub<Physical> for Physical {
    type Output = Physical;

    /// The difference must not go below zero.
    fn sub(self, rhs: Physical) -> (r: Physical)
        ensures
            r@ == self@ - rhs@,
    {
        proof { use_type_invariant(self); }
        Physical::new(self.0 - rhs.0)
    }
}

impl vstd::std_specs::ops::SubSpecImpl<Physical> for Physical {
    open spec fn obeys_sub_spec() -> bool {
        false
    }

    open spec fn sub_req(self, rhs: Physical) -> bool {
        physical_difference(self@, rhs@)
    }

    open spec fn sub_spec(self, rhs: Physical) -> Physical {
        self
    }
}

impl core::ops::AddAssign<Physical> for Physical {
    /// Moves the address up by `rhs`. A compound assignment cannot refuse its
    /// operands, so when the sum does not fit in 52 bits the address is left
    /// as it was.
    fn add_assign(&mut self, rhs: Physical)
        ensures
            physical_sum(old(self)@, rhs@) ==> final(self)@ == old(self)@ + rhs@,
            !physical_sum(old(self)@, rhs@) ==> final(self)@ == old(self)@,
    {
        if let Some(moved) = self.checked_offset_up(rhs.0) {
            *self = moved;
        }
    }
}

impl core::ops::SubAssign<Physical> for Physical {
    /// Moves the address down by `rhs`. A compound assignment cannot refuse
    /// its operands, so when the difference would go below zero the address
    /// is left as it was.
    fn sub_assign(&mut self, rhs: Physical)
        ensures
            physical_difference(old(self)@, rhs@) ==> final(self)@ == old(self)@ - rhs@,
            !physical_difference(old(self)@, rhs@) ==> final(self)@ == old(self)@,
    {
        if let Some(moved) = self.checked_offset_down(rhs.0) {
            *self = moved;
        }
    }
}

impl core::ops::Add<u64> for Physical {
    type Output = Physical;

    /// The sum must fit in 52 bits.
    fn add(self, rhs: u64) -> (r: Physical)
        ensures
            r@ == self@ + rhs,
    {
        Physical::new(self.0 + rhs)
    }
}

impl vstd::std_specs::ops::AddSpecImpl<u64> for Physical {
    open spec fn obeys_add_spec() -> bool {
        false
    }

    open spec fn add_req(self, rhs: u64) -> bool {
        physical_sum(self@, rhs)
    }

    open spec fn add_spec(self, rhs: u64) -> Physical {
        self
    }
}

impl core::ops::Sub<u64> for Physical {
    type Output = Physical;

    /// The difference must not go below zero.
    fn sub(self, rhs: u64) -> (r: Physical)
        ensures
            r@ == self@ - rhs,
    {
        proof { use_type_invariant(self); }
        Physical::new(self.0 - rhs)
    }
}

impl vstd::std_specs::ops::SubSpecImpl<u64> for Physical {
    open spec fn obeys_sub_spec() -> bool {
        false
    }

    open spec fn sub_req(self, rhs: u64) -> bool {
        physical_difference(self@, rhs)
    }

    open spec fn sub_spec(self, rhs: u64) -> Physical {
        self
    }
}

impl core::ops::AddAssign<u64> for Physical {
    /// Moves the address up by `rhs`. A compound assignment cannot refuse its
    /// operands, so when the sum does not fit in 52 bits the address is left
    /// as it was.
    fn add_assign(&mut self, rhs: u64)
        ensures
            physical_sum(old(self)@, rhs) ==> final(self)@ == old(self)@ + rhs,
            !physical_sum(old(self)@, rhs) ==> final(self)@ == old(self)@,
    {
        if let Some(moved) = self.checked_offset_up(rhs) {
            *self = moved;
        }
    }
}

impl core::ops::SubAssign<u64> for Physical {
    /// Moves the address down by `rhs`. A compound assignment cannot refuse
    /// its operands, so when the difference would go below zero the address
    /// is left as it was.
    fn sub_assign(&mut self, rhs: u64)
        ensures
            physical_difference(old(self)@, rhs) ==> final(self)@ == old(self)@ - rhs,
            !physical_difference(old(self)@, rhs) ==> final(self)@ == old(self)@,
    {
        if let Some(moved) = self.checked_offset_down(rhs) {
            *self = moved;
        }
    }
}

impl core::ops::Add<usize> for Physical {
    type Output = Physical;

    /// The sum must fit in 52 bits.
    fn add(self, rhs: usize) -> (r: Physical)
        ensures
            r@ == self@ + rhs as u64,
    {
        Physical::new(self.0 + rhs as u64)
    }
}

impl vstd::std_specs::ops::AddSpecImpl<usize> for Physical {
    open spec fn obeys_add_spec() -> bool {
        false
    }

    open spec fn add_req(self, rhs: usize) -> bool {
        physical_sum(self@, rhs as u64)
    }

    open spec fn add_spec(self, rhs: usize) -> Physical {
        self
    }
}

impl core::ops::Sub<usize> for Physical {
    type Output = Physical;

    /// The difference must not go below zero.
    fn sub(self, rhs: usize) -> (r: Physical)
        ensures
            r@ == self@ - rhs as u64,
    {
        proof { use_type_invariant(self); }
        Physical::new(self.0 - rhs as u64)
    }
}

impl vstd::std_specs::ops::SubSpecImpl<usize> for Physical {
    open spec fn obeys_sub_spec() -> bool {
        false
    }

    open spec fn sub_req(self, rhs: usize) -> bool {
        physical_difference(self@, rhs as u64)
    }

    open spec fn sub_spec(self, rhs: usize) -> Physical {
        self
    }
}

impl core::ops::AddAssign<usize> for Physical {
    /// Moves the address up by `rhs`. A compound assignment cannot refuse its
    /// operands, so when the sum does not fit in 52 bits the address is left
    /// as it was.
    fn add_assign(&mut self, rhs: usize)
        ensures
            physical_sum(old(self)@, rhs as u64) ==> final(self)@ == old(self)@ + rhs as u64,
            !physical_sum(old(self)@, rhs as u64) ==> final(self)@ == old(self)@,
    {
        if let Some(moved) = self.checked_offset_up(rhs as u64) {
            *self = moved;
        }
    }
}

impl core::ops::SubAssign<usize> for Physical {
    /// Moves the address down by `rhs`. A compound assignment cannot refuse
    /// its operands, so when the difference would go below zero the address
    /// is left as it was.
    fn sub_assign(&mut self, rhs: usize)
        ensures
            physical_difference(old(self)@, rhs as u64) ==> final(self)@ == old(self)@ - rhs as u64,
            !physical_difference(old(self)@, rhs as u64) ==> final(self)@ == old(self)@,
    {
        if let Some(moved) = self.checked_offset_down(rhs as u64) {
            *self = moved;
        }
    }
}

/// The absence of an address.
#[derive(Debug, Clone, Copy, PartialEq, Eq, Structural, PartialOrd, Ord, Hash)]
pub struct Null;

/// A value is canonical exactly when bits 47 to 63 are uniform (all clear or
/// all set), and it is a physical address exactly when bits 52 to 63 are clear.
pub proof fn lemma_canonical_bits(v: u64)
    by (bit_vector)
    ensures
        is_canonical_value(v) <==> (v >> 47u64 == 0 || v >> 47u64 == 0x1FFFF),
        is_physical_value(v) <==> v >> 52u64 == 0,
{
}

/// A power of two below 2^64 is `1 << k` for some `k` below 64.
proof fn lemma_power_of_two_shift(n: u64)
    requires
        is_power_of_two(n),
    ensures
        exists|k: u64| k < 64 && n == 1u64 << k,
{
    assert(n == 1u64 << 0u64 || n == 1u64 << 1u64 || n == 1u64 << 2u64 || n == 1u64 << 3u64 || n == 1u64 << 4u64 || n == 1u64 << 5u64 || n == 1u64 << 6u64 || n == 1u64 << 7u64 || n == 1u64 << 8u64 || n == 1u64 << 9u64 || n == 1u64 << 10u64 || n == 1u64 << 11u64 || n == 1u64 << 12u64 || n == 1u64 << 13u64 || n == 1u64 << 14u64 || n == 1u64 << 15u64 || n == 1u64 << 16u64 || n == 1u64 << 17u64 || n == 1u64 << 18u64 || n == 1u64 << 19u64 || n == 1u64 << 20u64 || n == 1u64 << 21u64 || n == 1u64 << 22u64 || n == 1u64 << 23u64 || n == 1u64 << 24u64 || n == 1u64 << 25u64 || n == 1u64 << 26u64 || n == 1u64 << 27u64 || n == 1u64 << 28u64 || n == 1u64 << 29u64 || n == 1u64 << 30u64 || n == 1u64 << 31u64 || n == 1u64 << 32u64 || n == 1u64 << 33u64 || n == 1u64 << 34u64 || n == 1u64 << 35u64 || n == 1u64 << 36u64 || n == 1u64 << 37u64 || n == 1u64 << 38u64 || n == 1u64 << 39u64 || n == 1u64 << 40u64 || n == 1u64 << 41u64 || n == 1u64 << 42u64 || n == 1u64 << 43u64 || n == 1u64 << 44u64 || n == 1u64 << 45u64 || n == 1u64 << 46u64 || n == 1u64 << 47u64 || n == 1u64 << 48u64 || n == 1u64 << 49u64 || n == 1u64 << 50u64 || n == 1u64 << 51u64 || n == 1u64 << 52u64 || n == 1u64 << 53u64 || n == 1u64 << 54u64 || n == 1u64 << 55u64 || n == 1u64 << 56u64 || n == 1u64 << 57u64 || n == 1u64 << 58u64 || n == 1u64 << 59u64 || n == 1u64 << 60u64 || n == 1u64 << 61u64 || n == 1u64 << 62u64 || n == 1u64 << 63u64) by (bit_vector)
        requires
            is_power_of_two(n),
    ;
}

/// For a power of two `n`, the mask test of alignment is divisibility by `n`.
pub proof fn lemma_aligned_iff_multiple(x: u64, n: u64)
    requires
        is_power_of_two(n),
    ensures
        is_aligned_value(x, n) <==> x % n == 0,
{
    lemma_power_of_two_shift(n);
    let k = choose|k: u64| k < 64 && n == 1u64 << k;
    vstd::bits::lemma_u64_pow2_no_overflow(k as nat);
    vstd::bits::lemma_u64_shl_is_mul(1, k);
    vstd::bits::lemma_u64_low_bits_mask_is_mod(x, k as nat);
    assert(n == vstd::arithmetic::power2::pow2(k as nat));
    assert((n - 1) as u64 == vstd::bits::low_bits_mask(k as nat) as u64);
}

/// The alignment facts about virtual addresses, with alignment as a mask test.
proof fn lemma_virtual_alignment_bits(a: u64, n: u64)
    by (bit_vector)
    requires
        is_canonical_value(a),
        is_power_of_two(n),
        a + n - 1 <= u64::MAX,
        align_up_value(a, n) < 0x0001_0000_0000_0000 || align_up_value(a, n) >= KERNEL_SPACE_START,
    ensures
        sign_extend(align_down_value(a, n)) <= a <= sign_extend(align_up_value(a, n)),
        is_canonical_value(sign_extend(align_down_value(a, n))),
        is_canonical_value(sign_extend(align_up_value(a, n))),
        is_aligned_value(sign_extend(align_down_value(a, n)), n),
        is_aligned_value(sign_extend(align_up_value(a, n)), n),
        is_aligned_value(a, n) ==> sign_extend(align_down_value(a, n)) == a,
        is_aligned_value(a, n) ==> sign_extend(align_up_value(a, n)) == a,
{
}

/// Aligning a canonical virtual address to a power of two: the address
/// rounded down is at most the address, which is at most the address rounded
/// up; both are canonical and multiples of the alignment; and an address
/// that is a multiple of the alignment is left as it is by both. Rounding up
/// must not carry past 64 bits, and must not carry a lower-half address past
/// bit 47 into bits that sign extension drops.
pub proof fn lemma_virtual_alignment(a: u64, n: u64)
    requires
        is_canonical_value(a),
        is_power_of_two(n),
        a + n - 1 <= u64::MAX,
        align_up_value(a, n) < 0x0001_0000_0000_0000 || align_up_value(a, n) >= KERNEL_SPACE_START,
    ensures
        sign_extend(align_down_value(a, n)) <= a <= sign_extend(align_up_value(a, n)),
        is_canonical_value(sign_extend(align_down_value(a, n))),
        is_canonical_value(sign_extend(align_up_value(a, n))),
        is_aligned_value(sign_extend(align_down_value(a, n)), n),
        sign_extend(align_down_value(a, n)) % n == 0,
        is_aligned_value(sign_extend(align_up_value(a, n)), n),
        sign_extend(align_up_value(a, n)) % n == 0,
        a % n == 0 ==> sign_extend(align_down_value(a, n)) == a,
        a % n == 0 ==> sign_extend(align_up_value(a, n)) == a,
{
    lemma_virtual_alignment_bits(a, n);
    lemma_aligned_iff_multiple(a, n);
    lemma_aligned_iff_multiple(sign_extend(align_down_value(a, n)), n);
    lemma_aligned_iff_multiple(sign_extend(align_up_value(a, n)), n);
}

/// The alignment facts about physical addresses, with alignment as a mask
/// test.
proof fn lemma_physical_alignment_bits(a: u64, n: u64)
    by (bit_vector)
    requires
        is_physical_value(a),
        is_power_of_two(n),
        a + n - 1 <= u64::MAX,
        align_up_value(a, n) <= PHYSICAL_MAX,
    ensures
        align_down_value(a, n) <= a <= truncate_physical(align_up_value(a, n)),
        is_physical_value(align_down_value(a, n)),
        is_physical_value(truncate_physical(align_up_value(a, n))),
        is_aligned_value(align_down_value(a, n), n),
        is_aligned_value(truncate_physical(align_up_value(a, n)), n),
        is_aligned_value(a, n) ==> align_down_value(a, n) == a,
        is_aligned_value(a, n) ==> truncate_physical(align_up_value(a, n)) == a,
{
}

/// Aligning a physical address to a power of two: the address rounded down
/// is at most the address, which is at most the address rounded up; both are
/// physical addresses and multiples of the alignment; and an address that
/// is a multiple of the alignment is left as it is by both. Rounding up must
/// stay within 52 bits.
pub proof fn lemma_physical_alignment(a: u64, n: u64)
    requires
        is_physical_value(a),
        is_power_of_two(n),
        a + n - 1 <= u64::MAX,
        align_up_value(a, n) <= PHYSICAL_MAX,
    ensures
        align_down_value(a, n) <= a <= truncate_physical(align_up_value(a, n)),
        is_physical_value(align_down_value(a, n)),
        is_physical_value(truncate_physical(align_up_value(a, n))),
        is_aligned_value(align_down_value(a, n), n),
        align_down_value(a, n) % n == 0,
        is_aligned_value(truncate_physical(align_up_value(a, n)), n),
        truncate_physical(align_up_value(a, n)) % n == 0,
        a % n == 0 ==> align_down_value(a, n) == a,
        a % n == 0 ==> truncate_physical(align_up_value(a, n)) == a,
{
    lemma_physical_alignment_bits(a, n);
    lemma_aligned_iff_multiple(a, n);
    lemma_aligned_iff_multiple(align_down_value(a, n), n);
    lemma_aligned_iff_multiple(truncate_physical(align_up_value(a, n)), n);
}

} // verus!
