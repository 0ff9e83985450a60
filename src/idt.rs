use crate::bits::{range_mask_u16, set_bit_range_u16, set_bit_u16};
pub use crate::gdt::Register;
use crate::gdt::join_words;
use crate::cpu::{privilege_level, Privilege};
use crate::segment::Selector;
use vstd::prelude::*;

verus! {

/// The exceptions of the processor, in vector order (0 to 31).
#[non_exhaustive]
#[derive(Debug, Clone, Copy, PartialEq, Eq, Structural)]
pub enum ExceptionVector {
    DivideByZero,
    Debug,
    NonMaskableInterrupt,
    Breakpoint,
    Overflow,
    BoundRangeExceeded,
    InvalidOpcode,
    DeviceNotAvailable,
    DoubleFault,
    CoprocessorSegmentOverrun,
    InvalidTSS,
    SegmentNotPresent,
    StackSegmentFault,
    GeneralProtectionFault,
    PageFault,
    Reserved1,
    X87FloatingPoint,
    AlignmentCheck,
    MachineCheck,
    SIMD,
    Virtualization,
    ControlProtection,
    Reserved2,
    Reserved3,
    Reserved4,
    Reserved5,
    Reserved6,
    Reserved7,
    HypervisorInjection,
    VmmCommunication,
    Security,
    Reserved8,
}

/// The vector number of an exception.
pub open spec fn exception_number(e: ExceptionVector) -> u8 {
    match e {
        ExceptionVector::DivideByZero => 0,
        ExceptionVector::Debug => 1,
        ExceptionVector::NonMaskableInterrupt => 2,
        ExceptionVector::Breakpoint => 3,
        ExceptionVector::Overflow => 4,
        ExceptionVector::BoundRangeExceeded => 5,
        ExceptionVector::InvalidOpcode => 6,
        ExceptionVector::DeviceNotAvailable => 7,
        ExceptionVector::DoubleFault => 8,
        ExceptionVector::CoprocessorSegmentOverrun => 9,
        ExceptionVector::InvalidTSS => 10,
        ExceptionVector::SegmentNotPresent => 11,
        ExceptionVector::StackSegmentFault => 12,
        ExceptionVector::GeneralProtectionFault => 13,
        ExceptionVector::PageFault => 14,
        ExceptionVector::Reserved1 => 15,
        ExceptionVector::X87FloatingPoint => 16,
        ExceptionVector::AlignmentCheck => 17,
        ExceptionVector::MachineCheck => 18,
        ExceptionVector::SIMD => 19,
        ExceptionVector::Virtualization => 20,
        ExceptionVector::ControlProtection => 21,
        ExceptionVector::Reserved2 => 22,
        ExceptionVector::Reserved3 => 23,
        ExceptionVector::Reserved4 => 24,
        ExceptionVector::Reserved5 => 25,
        ExceptionVector::Reserved6 => 26,
        ExceptionVector::Reserved7 => 27,
        ExceptionVector::HypervisorInjection => 28,
        ExceptionVector::VmmCommunication => 29,
        ExceptionVector::Security => 30,
        ExceptionVector::Reserved8 => 31,
    }
}

impl ExceptionVector {
    /// The vector number, which is also its index in a gate table.
    #[must_use]
    pub fn vector(self) -> (r: u8)
        ensures
            r == exception_number(self),
            r < 32,
    {
        match self {
            Self::DivideByZero => 0,
            Self::Debug => 1,
            Self::NonMaskableInterrupt => 2,
            Self::Breakpoint => 3,
            Self::Overflow => 4,
            Self::BoundRangeExceeded => 5,
            Self::InvalidOpcode => 6,
            Self::DeviceNotAvailable => 7,
            Self::DoubleFault => 8,
            Self::CoprocessorSegmentOverrun => 9,
            Self::InvalidTSS => 10,
            Self::SegmentNotPresent => 11,
            Self::StackSegmentFault => 12,
            Self::GeneralProtectionFault => 13,
            Self::PageFault => 14,
            Self::Reserved1 => 15,
            Self::X87FloatingPoint => 16,
            Self::AlignmentCheck => 17,
            Self::MachineCheck => 18,
            Self::SIMD => 19,
            Self::Virtualization => 20,
            Self::ControlProtection => 21,
            Self::Reserved2 => 22,
            Self::Reserved3 => 23,
            Self::Reserved4 => 24,
            Self::Reserved5 => 25,
            Self::Reserved6 => 26,
            Self::Reserved7 => 27,
            Self::HypervisorInjection => 28,
            Self::VmmCommunication => 29,
            Self::Security => 30,
            Self::Reserved8 => 31,
        }
    }
}

/// The type-and-attributes word of a new gate: a 64-bit interrupt gate
/// (interrupts disabled on entry), not present, privilege 0, no stack switch.
pub const DEFAULT_GATE_FLAGS: u16 = 0x0E00;

/// Whether the present bit (15) of a gate's flags is set.
pub open spec fn gate_present(flags: u16) -> bool {
    flags & 0x8000 != 0
}

/// Whether a gate leaves interrupts enabled on entry: bit 8 turns the
/// interrupt gate into a trap gate.
pub open spec fn gate_interrupts_enabled(flags: u16) -> bool {
    flags & 0x0100 != 0
}

/// The privilege level (bits 13 and 14) needed to raise a gate by software.
pub open spec fn gate_privilege(flags: u16) -> u16 {
    (flags >> 13u16) & 3
}

/// The interrupt stack (bits 0 to 2) a gate switches to; 0 keeps the current
/// stack.
pub open spec fn gate_stack(flags: u16) -> u16 {
    flags & 7
}

/// The type-and-attributes word of a gate, set through chained options.
#[derive(Debug, Clone, Copy, PartialEq, Eq, Structural)]
pub struct DescriptorFlags(u16);

impl View for DescriptorFlags {
    type V = u16;

    closed spec fn view(&self) -> u16 {
        self.0
    }
}

impl DescriptorFlags {
    /// The default options: not present, interrupts disabled on entry,
    /// privilege 0, no stack switch.
    #[must_use]
    pub fn new() -> (r: Self)
        ensures
            r@ == DEFAULT_GATE_FLAGS,
            !gate_present(r@),
            !gate_interrupts_enabled(r@),
            gate_privilege(r@) == 0,
            gate_stack(r@) == 0,
    {
        proof {
            assert(!gate_present(0x0E00u16) && !gate_interrupts_enabled(0x0E00u16) && gate_privilege(
                0x0E00u16) == 0 && gate_stack(0x0E00u16) == 0) by (bit_vector);
        }
        DescriptorFlags(DEFAULT_GATE_FLAGS)
    }

    /// Sets or clears the present bit. A gate that is not present raises a
    /// protection fault when its vector fires.
    #[must_use]
    pub fn present(&mut self, present: bool) -> (r: &mut Self)
        ensures
            gate_present(r@) == present,
            r@ & !0x8000u16 == old(self)@ & !0x8000u16,
            *final(self) == *final(r),
    {
        let v = set_bit_u16(self.0, 15, present);
        proof {
            let w = self.0;
            let x = if present { w | (1u16 << 15u16) } else { w & !(1u16 << 15u16) };
            assert(gate_present(x) == present && x & !0x8000u16 == w & !0x8000u16) by (bit_vector)
                requires
                    x == if present { w | (1u16 << 15u16) } else { w & !(1u16 << 15u16) },
            ;
        }
        self.0 = v;
        self
    }

    /// Chooses whether interrupts stay enabled when the handler runs (a trap
    /// gate) or are disabled (an interrupt gate, the default). They must stay
    /// disabled for handlers entered from user code until the GS base is
    /// swapped.
    #[must_use]
    pub fn with_interrupts(&mut self, enabled: bool) -> (r: &mut Self)
        ensures
            gate_interrupts_enabled(r@) == enabled,
            r@ & !0x0100u16 == old(self)@ & !0x0100u16,
            *final(self) == *final(r),
    {
        let v = set_bit_u16(self.0, 8, enabled);
        proof {
            let w = self.0;
            let x = if enabled { w | (1u16 << 8u16) } else { w & !(1u16 << 8u16) };
            assert(gate_interrupts_enabled(x) == enabled && x & !0x0100u16 == w & !0x0100u16)
                by (bit_vector)
                requires
                    x == if enabled { w | (1u16 << 8u16) } else { w & !(1u16 << 8u16) },
            ;
        }
        self.0 = v;
        self
    }

    /// Sets the privilege level needed to raise this gate with a software
    /// interrupt; hardware interrupts ignore it.
    #[must_use]
    pub fn set_privilege_level(&mut self, dpl: Privilege) -> (r: &mut Self)
        ensures
            gate_privilege(r@) == privilege_level(dpl),
            r@ & !0x6000u16 == old(self)@ & !0x6000u16,
            *final(self) == *final(r),
    {
        let level = dpl.level();
        let v = set_bit_range_u16(self.0, 14, 13, level);
        proof {
            let w = self.0;
            let x = (w & !range_mask_u16(14, 13)) | ((level << 13u16) & range_mask_u16(14, 13));
            assert(gate_privilege(x) == level && x & !0x6000u16 == w & !0x6000u16) by (bit_vector)
                requires
                    level < 4,
                    x == (w & !range_mask_u16(14, 13)) | ((level << 13u16) & range_mask_u16(14, 13)),
            ;
        }
        self.0 = v;
        self
    }

    /// Makes the handler run on interrupt stack slot `index` (0 to 6) of the
    /// task-state segment. The processor numbers these stacks from 1, as 0
    /// means no stack switch.
    #[must_use]
    pub fn set_stack_index(&mut self, index: u16) -> (r: &mut Self)
        requires
            index < 7,
        ensures
            gate_stack(r@) == index + 1,
            r@ & !0xFu16 == old(self)@ & !0xFu16,
            *final(self) == *final(r),
    {
        let v = set_bit_range_u16(self.0, 3, 0, index + 1);
        proof {
            let w = self.0;
            let n = (index + 1) as u16;
            let x = (w & !range_mask_u16(3, 0)) | ((n << 0u16) & range_mask_u16(3, 0));
            assert(gate_stack(x) == n && x & !0xFu16 == w & !0xFu16) by (bit_vector)
                requires
                    n < 8,
                    x == (w & !range_mask_u16(3, 0)) | ((n << 0u16) & range_mask_u16(3, 0)),
            ;
        }
        self.0 = v;
        self
    }

    /// Takes the options built so far, and resets these to the defaults.
    #[must_use]
    pub fn build(&mut self) -> (r: Self)
        ensures
            r == *old(self),
            final(self)@ == DEFAULT_GATE_FLAGS,
    {
        let mut result = Self::new();
        core::mem::swap(&mut result, self);
        result
    }

    #[must_use]
    pub fn bits(&self) -> (r: u16)
        ensures
            r == self@,
    {
        self.0
    }
}

impl Default for DescriptorFlags {
    fn default() -> (r: Self)
        ensures
            r@ == DEFAULT_GATE_FLAGS,
    {
        Self::new()
    }
}

/// A 16-byte gate: the handler address split over three fields, the code
/// selector loaded on entry, and the type-and-attributes word.
///
/// The record is kept as eight 16-bit words, in the order the processor reads
/// them: address bits 0 to 15, the selector, the flags, address bits 16 to
/// 31, address bits 32 to 63 (two words), and two reserved words, which
/// the processor requires to be zero.
#[derive(Debug, Clone, Copy)]
pub struct Descriptor {
    words: [u16; 8],
}

impl View for Descriptor {
    /// The handler address, the selector, the flags, and the reserved upper
    /// 32 bits.
    type V = (u64, u16, u16, u32);

    closed spec fn view(&self) -> (u64, u16, u16, u32) {
        (
            join_words(self.words[0], self.words[3], self.words[4], self.words[5]),
            self.words[1],
            self.words[2],
            self.words[6] as u32 | (self.words[7] as u32) << 16u32,
        )
    }
}

impl Descriptor {
    /// A gate that no vector should reach: handler 0, the kernel code
    /// selector, the default flags, whose present bit is clear, and zero
    /// reserved bits.
    #[must_use]
    pub fn missing() -> (r: Self)
        ensures
            r@ == (0u64, Selector::KERNEL_CODE64, DEFAULT_GATE_FLAGS, 0u32),
    {
        proof {
            assert(join_words(0, 0, 0, 0) == 0 && (0u16 as u32 | (0u16 as u32) << 16u32) == 0)
                by (bit_vector);
        }
        Descriptor { words: [0, Selector::KERNEL_CODE64, DEFAULT_GATE_FLAGS, 0, 0, 0, 0, 0] }
    }

    /// The same gate as `missing`.
    #[must_use]
    pub fn new() -> (r: Self)
        ensures
            r@ == (0u64, Selector::KERNEL_CODE64, DEFAULT_GATE_FLAGS, 0u32),
    {
        Self::missing()
    }

    /// Sets the address of the handler: the entry point generated for the
    /// vector, which saves the register frame before calling the handler.
    #[must_use]
    pub fn set_handler_addr(&mut self, handler: u64) -> (r: &mut Self)
        ensures
            r@ == (handler, old(self)@.1, old(self)@.2, old(self)@.3),
            *final(self) == *final(r),
    {
        self.words[3] = (handler >> 16u64) as u16;
        self.words[4] = (handler >> 32u64) as u16;
        self.words[5] = (handler >> 48u64) as u16;
        self.words[0] = handler as u16;
        proof {
            assert(join_words(handler as u16, (handler >> 16u64) as u16, (handler >> 32u64) as u16,
                (handler >> 48u64) as u16) == handler) by (bit_vector);
        }
        self
    }

    /// Sets the type-and-attributes word.
    #[must_use]
    pub fn set_options(&mut self, flags: DescriptorFlags) -> (r: &mut Self)
        ensures
            r@ == (old(self)@.0, old(self)@.1, flags@, old(self)@.3),
            *final(self) == *final(r),
    {
        self.words[2] = flags.bits();
        self
    }

    /// Sets the code selector loaded when the handler is entered (by default
    /// the kernel code selector).
    #[must_use]
    pub fn set_selector(&mut self, selector: Selector) -> (r: &mut Self)
        ensures
            r@ == (old(self)@.0, selector@, old(self)@.2, old(self)@.3),
            *final(self) == *final(r),
    {
        self.words[1] = selector.value();
        self
    }

    /// Takes what was built so far, and resets this descriptor to a missing
    /// gate.
    #[must_use]
    pub fn build(&mut self) -> (r: Self)
        ensures
            r == *old(self),
            final(self)@ == (0u64, Selector::KERNEL_CODE64, DEFAULT_GATE_FLAGS, 0u32),
    {
        let mut result = Self::new();
        core::mem::swap(&mut result, self);
        result
    }
}

/// The number of gates: one per vector.
pub const GATE_COUNT: usize = 256;

/// The limit of a gate table register: 256 gates of 16 bytes, less one.
pub const GATE_TABLE_LIMIT: u16 = 4095;

/// A gate table, one gate per vector, with the register that points the
/// processor at it.
pub struct Table {
    entries: [Descriptor; 256],
    register: Register,
}

impl View for Table {
    /// The view of each gate.
    type V = Seq<(u64, u16, u16, u32)>;

    closed spec fn view(&self) -> Seq<(u64, u16, u16, u32)> {
        self.entries@.map_values(|d: Descriptor| d@)
    }
}

impl Table {
    /// The register as last set by `set_register`.
    pub closed spec fn register_view(&self) -> (u16, u64) {
        self.register@
    }

    /// A table whose 256 gates are all missing, so that any vector raises a
    /// protection fault until its gate is installed, and a null register.
    #[must_use]
    pub fn new() -> (r: Self)
        ensures
            r@.len() == 256,
            forall|i: int|
                0 <= i < 256 ==> r@[i] == (0u64, Selector::KERNEL_CODE64, DEFAULT_GATE_FLAGS, 0u32),
            r.register_view() == (0u16, 0u64),
    {
        Self { entries: [Descriptor::missing(); 256], register: Register::null() }
    }

    /// The number of gates.
    #[must_use]
    pub fn capacity(&self) -> (r: usize)
        ensures
            r == 256,
    {
        GATE_COUNT
    }

    /// Installs `descriptor` for vector `index`.
    pub fn set_descriptor(&mut self, index: u8, descriptor: Descriptor)
        ensures
            final(self)@ == old(self)@.update(index as int, descriptor@),
            final(self).register_view() == old(self).register_view(),
    {
        self.entries[index as usize] = descriptor;
        assert(self@ =~= old(self)@.update(index as int, descriptor@));
    }

    /// The descriptor installed for vector `index`.
    #[must_use]
    pub fn descriptor(&self, index: u8) -> (r: &Descriptor)
        ensures
            r@ == self@[index as int],
    {
        &self.entries[index as usize]
    }

    /// Points the register at this table, stored at `base`, with the limit
    /// that covers all 256 gates. The privileged load instruction then reads
    /// the register.
    pub fn set_register(&mut self, base: u64)
        ensures
            final(self)@ == old(self)@,
            final(self).register_view() == (GATE_TABLE_LIMIT, base),
    {
        self.register = Register::with(GATE_TABLE_LIMIT, base);
    }

    /// The gates, as the processor reads them.
    #[must_use]
    pub fn entries(&self) -> (r: &[Descriptor; 256])
        ensures
            r@.map_values(|d: Descriptor| d@) == self@,
    {
        &self.entries
    }

    /// The register that points the processor at this table.
    #[must_use]
    pub fn register(&self) -> (r: &Register)
        ensures
            r@ == self.register_view(),
    {
        &self.register
    }
}

} // verus!
