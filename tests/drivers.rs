use silicium_x86_64::cpu::{with_flags, without_flags, Cr0Flags, Cr4Flags};
use silicium_x86_64::lapic::{ipi_command, register_address, IpiDestination, IpiPriority, Register};
use silicium_x86_64::pic::{concerned, needs_slave_eoi, remap_sequence};
use silicium_x86_64::pit::{Pit, PIT_TICK_NS};
use silicium_x86_64::serial::{Port, Serial};

#[test]
fn timer_divisor() {
    let pit = Pit::new(1000);
    assert_eq!(pit.get_frequency(), 1000);
    assert_eq!(pit.latch(), 1193);
    assert_eq!(pit.divisor_bytes(), (0xA9, 0x04));
    assert_eq!(PIT_TICK_NS, 838);
    assert_eq!(pit.nano_offset(0x00, 0x04), (1193 - 1024) * 838);
    assert_eq!(pit.nano_offset(0xA9, 0x04), 0);
    let slowest = Pit::new(1);
    assert_eq!(slowest.latch(), 1_193_180);
    let fastest = Pit::new(596_590);
    assert_eq!(fastest.latch(), 2);
}

#[test]
fn interrupt_controller_range() {
    assert!(concerned(32, 32));
    assert!(concerned(47, 32));
    assert!(!concerned(48, 32));
    assert!(!concerned(31, 32));
    assert!(concerned(255, 240));
    assert!(!needs_slave_eoi(39, 32));
    assert!(needs_slave_eoi(40, 32));
    let writes = remap_sequence(32);
    assert_eq!(writes.len(), 10);
    assert_eq!(writes[2], (0x21, 32));
    assert_eq!(writes[3], (0xA1, 40));
    assert_eq!(writes[9], (0xA1, 0));
}

#[test]
fn serial_registers() {
    let com1 = Serial::new(Port::COM1);
    assert_eq!(com1.data, 0x3F8);
    assert_eq!(com1.line_status, 0x3FD);
    assert_eq!(com1.scratch, 0x3FF);
    assert_eq!(Port::COM4.base(), 0x2E8);
    let writes = com1.init_com();
    assert_eq!(writes.len(), 7);
    assert_eq!(writes[1], (0x3FB, 0x80));
    assert_eq!(writes[5], (0x3FA, 0xC7));
    assert!(Serial::is_transmit_empty(0x60));
    assert!(!Serial::is_transmit_empty(0x01));
    assert!(Serial::data_pending(0x61));
    assert!(!Serial::data_pending(0x60));
}

#[test]
fn inter_processor_commands() {
    assert_eq!(ipi_command(IpiDestination::Core(3), IpiPriority::Normal, 0x40), (3 << 24, 0x40));
    assert_eq!(ipi_command(IpiDestination::SelfOnly, IpiPriority::Low, 0x41), (0, 0x41 | 1 << 8 | 1 << 18));
    assert_eq!(ipi_command(IpiDestination::AllCores, IpiPriority::Nmi, 0), (0, 4 << 8 | 2 << 18));
    assert_eq!(ipi_command(IpiDestination::OtherCores, IpiPriority::Smi, 7), (0, 7 | 2 << 8 | 3 << 18));
    assert_eq!(Register::InterruptCommand0.offset(), 0x300);
    assert_eq!(register_address(0xFEE0_0000, Register::EndOfInterrupt), 0xFEE0_00B0);
}

#[test]
fn control_register_flags() {
    let cr0 = Cr0Flags::from_bits_truncate(u64::MAX);
    assert!(cr0.contains(Cr0Flags::PG | Cr0Flags::PE | Cr0Flags::WP));
    assert_eq!(cr0.bits() & (1 << 6), 0);
    let cr4 = Cr4Flags::from_bits_truncate(Cr4Flags::PAE | (1 << 12));
    assert_eq!(cr4.bits(), Cr4Flags::PAE);
    assert_eq!(with_flags(0x11, Cr0Flags::PG), 0x8000_0011);
    assert_eq!(without_flags(0x8000_0011, Cr0Flags::PG), 0x11);
}
