use crate::segment::Selector;
use vstd::prelude::*;

verus! {

/// The number of 64-bit words in a saved register frame.
pub const STATE_WORDS: usize = 23;

/// The fields of a saved register frame, in the order they sit on the
/// stack, lowest address first.
#[derive(Debug, Clone, Copy, PartialEq, Eq, Structural)]
pub enum Field {
    /// Preserved register rbp.
    Rbp,
    /// Preserved register rbx.
    Rbx,
    /// Preserved register r12.
    R12,
    /// Preserved register r13.
    R13,
    /// Preserved register r14.
    R14,
    /// Preserved register r15.
    R15,
    /// Scratch register rax.
    Rax,
    /// Scratch register rcx.
    Rcx,
    /// Scratch register rdx.
    Rdx,
    /// Scratch register rsi.
    Rsi,
    /// Scratch register rdi.
    Rdi,
    /// Scratch register r8.
    R8,
    /// Scratch register r9.
    R9,
    /// Scratch register r10.
    R10,
    /// Scratch register r11.
    R11,
    /// Where the entry trampoline returns to its caller.
    Address,
    /// The vector number of the transfer.
    Number,
    /// The error code of the transfer, zero when the vector pushes none.
    Code,
    /// Instruction pointer, pushed by the processor.
    Rip,
    /// Code selector, pushed by the processor.
    Cs,
    /// Flags, pushed by the processor.
    Rflags,
    /// Stack pointer, pushed by the processor.
    Rsp,
    /// Stack selector, pushed by the processor.
    Ss,
}

/// The position of a field in the frame, in 64-bit words.
pub open spec fn field_index(f: Field) -> int {
    match f {
        Field::Rbp => 0,
        Field::Rbx => 1,
        Field::R12 => 2,
        Field::R13 => 3,
        Field::R14 => 4,
        Field::R15 => 5,
        Field::Rax => 6,
        Field::Rcx => 7,
        Field::Rdx => 8,
        Field::Rsi => 9,
        Field::Rdi => 10,
        Field::R8 => 11,
        Field::R9 => 12,
        Field::R10 => 13,
        Field::R11 => 14,
        Field::Address => 15,
        Field::Number => 16,
        Field::Code => 17,
        Field::Rip => 18,
        Field::Cs => 19,
        Field::Rflags => 20,
        Field::Rsp => 21,
        Field::Ss => 22,
    }
}

impl Field {
    /// The position of the field in the frame, in 64-bit words.
    #[must_use]
    pub fn index(self) -> (r: usize)
        ensures
            r == field_index(self),
            r < STATE_WORDS,
    {
        match self {
            Self::Rbp => 0,
            Self::Rbx => 1,
            Self::R12 => 2,
            Self::R13 => 3,
            Self::R14 => 4,
            Self::R15 => 5,
            Self::Rax => 6,
            Self::Rcx => 7,
            Self::Rdx => 8,
            Self::Rsi => 9,
            Self::Rdi => 10,
            Self::R8 => 11,
            Self::R9 => 12,
            Self::R10 => 13,
            Self::R11 => 14,
            Self::Address => 15,
            Self::Number => 16,
            Self::Code => 17,
            Self::Rip => 18,
            Self::Cs => 19,
            Self::Rflags => 20,
            Self::Rsp => 21,
            Self::Ss => 22,
        }
    }
}

/// The register frame saved on the interrupted stack: the registers that the
/// calling convention preserves, the ones it does not, the trampoline's
/// return address, the vector number and error code of the transfer, and the
/// frame that the processor pushes (instruction pointer, code selector,
/// flags, stack pointer, stack selector). A handler may change any field to
/// change where and how the interrupted code resumes.
///
/// The frame is kept as 23 words in the order of `Field`, which is the order
/// in which the entry trampoline and the processor leave them on the stack.
#[derive(Debug, Clone, Copy)]
pub struct State {
    words: [u64; 23],
}

impl View for State {
    /// The value of each field, indexed by `field_index`.
    type V = Seq<u64>;

    closed spec fn view(&self) -> Seq<u64> {
        self.words@
    }
}

impl Default for State {
    /// A frame of zeros.
    fn default() -> (r: Self)
        ensures
            r@ == Seq::new(STATE_WORDS as nat, |i: int| 0u64),
    {
        let r = State { words: [0u64; 23] };
        assert(r@ =~= Seq::new(STATE_WORDS as nat, |i: int| 0u64));
        r
    }
}

impl State {
    /// The value of a field.
    #[must_use]
    pub fn get(&self, field: Field) -> (r: u64)
        ensures
            r == self@[field_index(field)],
    {
        self.words[field.index()]
    }

    /// Replaces the value of a field; the others are kept.
    pub fn set(&mut self, field: Field, value: u64)
        ensures
            final(self)@ == old(self)@.update(field_index(field), value),
    {
        self.words[field.index()] = value;
    }

    /// Whether the transfer interrupted user code: the saved code selector is
    /// not the kernel code selector. Exactly then the entry and exit
    /// trampolines swap the GS base.
    #[must_use]
    pub fn from_user(&self) -> (r: bool)
        ensures
            r == (self@[field_index(Field::Cs)] != Selector::KERNEL_CODE64 as u64),
    {
        self.get(Field::Cs) != Selector::KERNEL_CODE64 as u64
    }
}

/// The privilege levels (rings) of the processor.
#[derive(Debug, Clone, Copy, PartialEq, Eq, Structural)]
pub enum Privilege {
    Ring0,
    Ring1,
    Ring2,
    Ring3,
}

/// The number of a ring.
pub open spec fn privilege_level(p: Privilege) -> u16 {
    match p {
        Privilege::Ring0 => 0,
        Privilege::Ring1 => 1,
        Privilege::Ring2 => 2,
        Privilege::Ring3 => 3,
    }
}

impl Privilege {
    pub const KERNEL: Self = Self::Ring0;
    pub const USER: Self = Self::Ring3;

    /// The number of the ring, 0 to 3.
    #[must_use]
    pub fn level(self) -> (r: u16)
        ensures
            r == privilege_level(self),
            r < 4,
    {
        match self {
            Self::Ring0 => 0,
            Self::Ring1 => 1,
            Self::Ring2 => 2,
            Self::Ring3 => 3,
        }
    }
}

/// `value` with the bits of `flags` set: what a control register holds after
/// setting flags in it.
pub fn with_flags(value: u64, flags: u64) -> (r: u64)
    ensures
        r == value | flags,
{
    value | flags
}

/// `value` with the bits of `flags` cleared: what a control register holds
/// after clearing flags in it.
pub fn without_flags(value: u64, flags: u64) -> (r: u64)
    ensures
        r == value & !flags,
{
    value & !flags
}

/// The bits of control register 0 that name a flag.
pub const CR0FLAGS_MASK: u64 = 0xE005003F;

/// A set of control register 0 flags.
#[derive(Debug, Clone, Copy, PartialEq, Eq, Structural)]
pub struct Cr0Flags(u64);

impl View for Cr0Flags {
    type V = u64;

    closed spec fn view(&self) -> u64 {
        self.0
    }
}

impl Cr0Flags {
    /// Protected mode
    pub const PE: u64 = 1 << 0;
    /// Monitor co-processor
    pub const MP: u64 = 1 << 1;
    /// Emulation
    pub const EM: u64 = 1 << 2;
    /// Task switched
    pub const TS: u64 = 1 << 3;
    /// Extension type
    pub const ET: u64 = 1 << 4;
    /// Numeric error
    pub const NE: u64 = 1 << 5;
    /// Write protect
    pub const WP: u64 = 1 << 16;
    /// Alignment mask
    pub const AM: u64 = 1 << 18;
    /// Not write-through
    pub const NW: u64 = 1 << 29;
    /// Cache disable
    pub const CD: u64 = 1 << 30;
    /// Paging
    pub const PG: u64 = 1 << 31;

    #[verifier::type_invariant]
    spec fn inv(self) -> bool {
        self.0 & !CR0FLAGS_MASK == 0
    }

    /// The flags of `bits`; the bits that name no flag are dropped.
    #[must_use]
    pub fn from_bits_truncate(bits: u64) -> (r: Self)
        ensures
            r@ == bits & CR0FLAGS_MASK,
    {
        proof {
            assert((bits & CR0FLAGS_MASK) & !CR0FLAGS_MASK == 0) by (bit_vector);
        }
        Cr0Flags(bits & CR0FLAGS_MASK)
    }

    #[must_use]
    pub fn bits(&self) -> (r: u64)
        ensures
            r == self@,
            r & !CR0FLAGS_MASK == 0,
    {
        proof { use_type_invariant(self); }
        self.0
    }

    /// Whether every flag in `bits` is in the set.
    #[must_use]
    pub fn contains(&self, bits: u64) -> (r: bool)
        ensures
            r == (self@ & bits == bits),
    {
        self.0 & bits == bits
    }
}

/// The bits of control register 4 that name a flag.
pub const CR4FLAGS_MASK: u64 = 0x1F76FFF;

/// A set of control register 4 flags.
#[derive(Debug, Clone, Copy, PartialEq, Eq, Structural)]
pub struct Cr4Flags(u64);

impl View for Cr4Flags {
    type V = u64;

    closed spec fn view(&self) -> u64 {
        self.0
    }
}

impl Cr4Flags {
    /// Virtual-8086 mode extensions
    pub const VME: u64 = 1 << 0;
    /// Protected-mode virtual interrupts
    pub const PVI: u64 = 1 << 1;
    /// Time stamp counter reserved to privileged mode
    pub const TSD: u64 = 1 << 2;
    /// Debugging extensions
    pub const DE: u64 = 1 << 3;
    /// Page size extensions
    pub const PSE: u64 = 1 << 4;
    /// Physical address extension
    pub const PAE: u64 = 1 << 5;
    /// Machine check enable
    pub const MCE: u64 = 1 << 6;
    /// Page global enable
    pub const PGE: u64 = 1 << 7;
    /// Performance monitoring counter enable
    pub const PCE: u64 = 1 << 8;
    /// Operating system support for FXSAVE and FXRSTOR
    pub const OSFXSR: u64 = 1 << 9;
    /// Operating system support for unmasked SIMD floating-point exceptions
    pub const OSXMMEXCPT: u64 = 1 << 10;
    /// User-mode instruction prevention
    pub const UMIP: u64 = 1 << 11;
    /// Virtual machine extensions enable
    pub const VMXE: u64 = 1 << 13;
    /// Safer mode extensions enable
    pub const SMXE: u64 = 1 << 14;
    /// Enables the instructions that read and write the FS and GS bases
    pub const FSGSBASE: u64 = 1 << 16;
    /// PCID enable
    pub const PCIDE: u64 = 1 << 17;
    /// XSAVE and processor extended states
    pub const OSXSAVE: u64 = 1 << 18;
    /// Supervisor mode execution protection
    pub const SMEP: u64 = 1 << 20;
    /// Supervisor mode access prevention
    pub const SMAP: u64 = 1 << 21;
    /// Protection keys for user pages
    pub const PKE: u64 = 1 << 22;
    /// Control-flow enforcement technology
    pub const CET: u64 = 1 << 23;
    /// Protection keys for supervisor pages
    pub const PKS: u64 = 1 << 24;

    #[verifier::type_invariant]
    spec fn inv(self) -> bool {
        self.0 & !CR4FLAGS_MASK == 0
    }

    /// The flags of `bits`; the bits that name no flag are dropped.
    #[must_use]
    pub fn from_bits_truncate(bits: u64) -> (r: Self)
        ensures
            r@ == bits & CR4FLAGS_MASK,
    {
        proof {
            assert((bits & CR4FLAGS_MASK) & !CR4FLAGS_MASK == 0) by (bit_vector);
        }
        Cr4Flags(bits & CR4FLAGS_MASK)
    }

    #[must_use]
    pub fn bits(&self) -> (r: u64)
        ensures
            r == self@,
            r & !CR4FLAGS_MASK == 0,
    {
        proof { use_type_invariant(self); }
        self.0
    }

    /// Whether every flag in `bits` is in the set.
    #[must_use]
    pub fn contains(&self, bits: u64) -> (r: bool)
        ensures
            r == (self@ & bits == bits),
    {
        self.0 & bits == bits
    }
}

/// The model-specific registers used around privilege transitions.
#[derive(Debug, Clone, Copy, PartialEq, Eq, Structural)]
pub enum Register {
    /// Extended feature enable.
    Efer,
    /// System-call target segments.
    Star,
    /// 64-bit system-call target address.
    Lstar,
    /// Compatibility-mode system-call target address.
    Cstar,
    /// System-call flags mask.
    Fmask,
    /// FS base.
    FsBase,
    /// GS base.
    GsBase,
    /// GS base swapped in on entry from user code.
    KernelGsBase,
}

/// The number by which the processor knows a model-specific register.
pub open spec fn msr_number(r: Register) -> u32 {
    match r {
        Register::Efer => 0xC000_0080,
        Register::Star => 0xC000_0081,
        Register::Lstar => 0xC000_0082,
        Register::Cstar => 0xC000_0083,
        Register::Fmask => 0xC000_0084,
        Register::FsBase => 0xC000_0100,
        Register::GsBase => 0xC000_0101,
        Register::KernelGsBase => 0xC000_0102,
    }
}

impl Register {
    /// The register number to hand to the read and write instructions.
    #[must_use]
    pub fn number(self) -> (r: u32)
        ensures
            r == msr_number(self),
    {
        match self {
            Self::Efer => 0xC000_0080,
            Self::Star => 0xC000_0081,
            Self::Lstar => 0xC000_0082,
            Self::Cstar => 0xC000_0083,
            Self::Fmask => 0xC000_0084,
            Self::FsBase => 0xC000_0100,
            Self::GsBase => 0xC000_0101,
            Self::KernelGsBase => 0xC000_0102,
        }
    }
}

/// The 64-bit value of a model-specific register from the two 32-bit halves
/// that the read instruction returns.
pub fn msr_value(low: u32, high: u32) -> (r: u64)
    ensures
        r == (high as u64) * 0x1_0000_0000 + low as u64,
{
    proof {
        assert((high as u64) << 32u64 | low as u64 == (high as u64) * 0x1_0000_0000 + low as u64)
            by (bit_vector);
    }
    (high as u64) << 32u64 | low as u64
}

/// The two 32-bit halves (low, high) that the write instruction takes.
pub fn msr_halves(value: u64) -> (r: (u32, u32))
    ensures
        r.0 == value % 0x1_0000_0000,
        r.1 == value / 0x1_0000_0000,
{
    proof {
        assert(value as u32 == value % 0x1_0000_0000 && (value >> 32u64) as u32 == value
            / 0x1_0000_0000) by (bit_vector);
    }
    (value as u32, (value >> 32u64) as u32)
}

} // verus!
