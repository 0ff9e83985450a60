use vstd::prelude::*;

verus! {

/// The registers of the local interrupt controller.
#[derive(Debug, Clone, Copy, PartialEq, Eq, Structural)]
pub enum Register {
    Id,
    Version,
    TaskPriority,
    ArbitrationPriority,
    ProcessorPriority,
    EndOfInterrupt,
    RemoteRead,
    LogicalDestination,
    DestinationFormat,
    SpuriousInterruptVector,
    InService0,
    InService1,
    InService2,
    InService3,
    InService4,
    InService5,
    InService6,
    InService7,
    TriggerMode0,
    TriggerMode1,
    TriggerMode2,
    TriggerMode3,
    TriggerMode4,
    TriggerMode5,
    TriggerMode6,
    TriggerMode7,
    InterruptRequest0,
    InterruptRequest1,
    InterruptRequest2,
    InterruptRequest3,
    InterruptRequest4,
    InterruptRequest5,
    InterruptRequest6,
    InterruptRequest7,
    ErrorStatus,
    LvtCmci,
    InterruptCommand0,
    InterruptCommand1,
    LvtTimer,
    LvtThermalSensor,
    LvtPerformanceCounter,
    LvtLint0,
    LvtLint1,
    LvtError,
    InitialCount,
    CurrentCount,
    DivideConfiguration,
}

/// The offset of a register from the controller's base address.
pub open spec fn register_offset(r: Register) -> u64 {
    match r {
        Register::Id => 0x0020,
        Register::Version => 0x0030,
        Register::TaskPriority => 0x0080,
        Register::ArbitrationPriority => 0x0090,
        Register::ProcessorPriority => 0x00A0,
        Register::EndOfInterrupt => 0x00B0,
        Register::RemoteRead => 0x00C0,
        Register::LogicalDestination => 0x00D0,
        Register::DestinationFormat => 0x00E0,
        Register::SpuriousInterruptVector => 0x00F0,
        Register::InService0 => 0x0100,
        Register::InService1 => 0x0110,
        Register::InService2 => 0x0120,
        Register::InService3 => 0x0130,
        Register::InService4 => 0x0140,
        Register::InService5 => 0x0150,
        Register::InService6 => 0x0160,
        Register::InService7 => 0x0170,
        Register::TriggerMode0 => 0x0180,
        Register::TriggerMode1 => 0x0190,
        Register::TriggerMode2 => 0x01A0,
        Register::TriggerMode3 => 0x01B0,
        Register::TriggerMode4 => 0x01C0,
        Register::TriggerMode5 => 0x01D0,
        Register::TriggerMode6 => 0x01E0,
        Register::TriggerMode7 => 0x01F0,
        Register::InterruptRequest0 => 0x0200,
        Register::InterruptRequest1 => 0x0210,
        Register::InterruptRequest2 => 0x0220,
        Register::InterruptRequest3 => 0x0230,
        Register::InterruptRequest4 => 0x0240,
        Register::InterruptRequest5 => 0x0250,
        Register::InterruptRequest6 => 0x0260,
        Register::InterruptRequest7 => 0x0270,
        Register::ErrorStatus => 0x0280,
        Register::LvtCmci => 0x02F0,
        Register::InterruptCommand0 => 0x0300,
        Register::InterruptCommand1 => 0x0310,
        Register::LvtTimer => 0x0320,
        Register::LvtThermalSensor => 0x0330,
        Register::LvtPerformanceCounter => 0x0340,
        Register::LvtLint0 => 0x0350,
        Register::LvtLint1 => 0x0360,
        Register::LvtError => 0x0370,
        Register::InitialCount => 0x0380,
        Register::CurrentCount => 0x0390,
        Register::DivideConfiguration => 0x03E0,
    }
}

impl Register {
    /// The offset of the register from the controller's base address.
    pub fn offset(self) -> (r: u64)
        ensures
            r == register_offset(self),
            r < 0x400,
    {
        match self {
            Self::Id => 0x0020,
            Self::Version => 0x0030,
            Self::TaskPriority => 0x0080,
            Self::ArbitrationPriority => 0x0090,
            Self::ProcessorPriority => 0x00A0,
            Self::EndOfInterrupt => 0x00B0,
            Self::RemoteRead => 0x00C0,
            Self::LogicalDestination => 0x00D0,
            Self::DestinationFormat => 0x00E0,
            Self::SpuriousInterruptVector => 0x00F0,
            Self::InService0 => 0x0100,
            Self::InService1 => 0x0110,
            Self::InService2 => 0x0120,
            Self::InService3 => 0x0130,
            Self::InService4 => 0x0140,
            Self::InService5 => 0x0150,
            Self::InService6 => 0x0160,
            Self::InService7 => 0x0170,
            Self::TriggerMode0 => 0x0180,
            Self::TriggerMode1 => 0x0190,
            Self::TriggerMode2 => 0x01A0,
            Self::TriggerMode3 => 0x01B0,
            Self::TriggerMode4 => 0x01C0,
            Self::TriggerMode5 => 0x01D0,
            Self::TriggerMode6 => 0x01E0,
            Self::TriggerMode7 => 0x01F0,
            Self::InterruptRequest0 => 0x0200,
            Self::InterruptRequest1 => 0x0210,
            Self::InterruptRequest2 => 0x0220,
            Self::InterruptRequest3 => 0x0230,
            Self::InterruptRequest4 => 0x0240,
            Self::InterruptRequest5 => 0x0250,
            Self::InterruptRequest6 => 0x0260,
            Self::InterruptRequest7 => 0x0270,
            Self::ErrorStatus => 0x0280,
            Self::LvtCmci => 0x02F0,
            Self::InterruptCommand0 => 0x0300,
            Self::InterruptCommand1 => 0x0310,
            Self::LvtTimer => 0x0320,
            Self::LvtThermalSensor => 0x0330,
            Self::LvtPerformanceCounter => 0x0340,
            Self::LvtLint0 => 0x0350,
            Self::LvtLint1 => 0x0360,
            Self::LvtError => 0x0370,
            Self::InitialCount => 0x0380,
            Self::CurrentCount => 0x0390,
            Self::DivideConfiguration => 0x03E0,
        }
    }
}

/// The address of `register` in a controller mapped at `base`.
pub fn register_address(base: u64, register: Register) -> (r: u64)
    requires
        base + 0x400 <= u64::MAX,
    ensures
        r == base + register_offset(register),
{
    base + register.offset()
}

/// The bit of the spurious-interrupt register that enables the controller.
pub const APIC_ENABLE: u32 = 1 << 8;

/// The bit of the low command word that stays set while an interrupt is sent.
pub const DELIVERY_PENDING: u32 = 1 << 12;

/// The cores an inter-processor interrupt goes to.
#[derive(Debug, Clone, Copy, PartialEq, Eq, Structural)]
pub enum IpiDestination {
    /// The core with this controller identifier.
    Core(u8),
    /// The sending core.
    SelfOnly,
    /// All cores, the sender included.
    AllCores,
    /// All cores but the sender.
    OtherCores,
}

/// The delivery mode of an inter-processor interrupt.
#[derive(Debug, Clone, Copy, PartialEq, Eq, Structural)]
pub enum IpiPriority {
    /// Normal priority.
    Normal,
    /// Lowest priority among the destinations.
    Low,
    /// A system management interrupt.
    Smi,
    /// A non-maskable interrupt; the vector is ignored.
    Nmi,
}

/// The delivery-mode code of a priority (bits 8 to 10 of the command).
pub open spec fn priority_code(p: IpiPriority) -> u32 {
    match p {
        IpiPriority::Normal => 0,
        IpiPriority::Low => 1,
        IpiPriority::Smi => 2,
        IpiPriority::Nmi => 4,
    }
}

/// The destination shorthand of a destination (bits 18 and 19 of the command).
pub open spec fn shorthand_code(d: IpiDestination) -> u32 {
    match d {
        IpiDestination::Core(_) => 0,
        IpiDestination::SelfOnly => 1,
        IpiDestination::AllCores => 2,
        IpiDestination::OtherCores => 3,
    }
}

/// The high word of the interrupt command: the destination core in bits 24 to
/// 31, when there is one.
pub open spec fn ipi_high_word(d: IpiDestination) -> int {
    match d {
        IpiDestination::Core(core) => core as u32 * 0x0100_0000,
        _ => 0,
    }
}

/// The low word of the interrupt command: the vector, the delivery mode and
/// the destination shorthand.
pub open spec fn ipi_low_word(d: IpiDestination, p: IpiPriority, vector: u8) -> int {
    vector as u32 + priority_code(p) * 0x100 + shorthand_code(d) * 0x4_0000
}

impl IpiPriority {
    /// The delivery-mode code.
    pub fn code(self) -> (r: u32)
        ensures
            r == priority_code(self),
    {
        match self {
            Self::Normal => 0,
            Self::Low => 1,
            Self::Smi => 2,
            Self::Nmi => 4,
        }
    }
}

/// The two words of the interrupt command register, high then low: the high
/// word is written first, and writing the low word sends the interrupt.
pub fn ipi_command(destination: IpiDestination, priority: IpiPriority, vector: u8) -> (r: (u32, u32))
    ensures
        r.0 == ipi_high_word(destination),
        r.1 == ipi_low_word(destination, priority, vector),
{
    let mode = priority.code();
    let v = vector as u32;
    proof {
        assert(v < 256 && mode <= 4 && (mode == 0 || mode == 1 || mode == 2 || mode == 4) ==> (v
            | mode << 8u32) == v + mode * 0x100 && (v | mode << 8u32 | 1u32 << 18u32) == v + mode
            * 0x100 + 0x4_0000 && (v | mode << 8u32 | 2u32 << 18u32) == v + mode * 0x100 + 2
            * 0x4_0000 && (v | mode << 8u32 | 3u32 << 18u32) == v + mode * 0x100 + 3 * 0x4_0000)
            by (bit_vector);
    }
    match destination {
        IpiDestination::Core(core) => {
            proof {
                let c = core as u32;
                assert(c < 256 ==> c << 24u32 == c * 0x0100_0000) by (bit_vector);
            }
            ((core as u32) << 24u32, v | mode << 8u32)
        },
        IpiDestination::SelfOnly => (0, v | mode << 8u32 | 1u32 << 18u32),
        IpiDestination::AllCores => (0, v | mode << 8u32 | 2u32 << 18u32),
        IpiDestination::OtherCores => (0, v | mode << 8u32 | 3u32 << 18u32),
    }
}

} // verus!
