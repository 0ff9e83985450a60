use silicium_x86_64::address::Physical;
use silicium_x86_64::cpu::{msr_halves, msr_value, Field, Privilege, Register as Msr, State};
use silicium_x86_64::gdt::{self, Descriptor, Entry};
use silicium_x86_64::idt::{self, DescriptorFlags, ExceptionVector};
use silicium_x86_64::paging::{Level, PageEntry, PageEntryFlags, PageFaultErrorCode, PageTable};
use silicium_x86_64::segment::Selector;
use silicium_x86_64::tss::TaskStateSegment;
use std::mem::size_of;

#[test]
fn gdt_struct_size_checks() {
    assert_eq!(size_of::<gdt::Register>(), 10);
    assert_eq!(size_of::<Entry>(), 8);
}

#[test]
fn idt_struct_size_checks() {
    assert_eq!(size_of::<idt::Descriptor>(), 16);
    assert_eq!(size_of::<idt::Register>(), 10);
}

#[test]
fn tss_struct_size_checks() {
    assert_eq!(size_of::<TaskStateSegment>(), 104);
}

#[test]
fn system_descriptor_takes_two_slots() {
    let mut table = gdt::Table::<8>::new();
    table.set_descriptor(1, &Descriptor::Segment(Descriptor::KERNEL_CODE64));
    table.set_descriptor(5, &Descriptor::tss(0x1234_5678_9ABC_DEF0));
    assert_eq!(table.entry(1), Descriptor::KERNEL_CODE64);
    assert_ne!(table.entry(5), 0);
    assert_ne!(table.entry(6), 0);
    for i in [0usize, 2, 3, 4, 7] {
        assert_eq!(table.entry(i), 0);
    }
    assert!(!table.can_set_descriptor(6, &Descriptor::Segment(Descriptor::KERNEL_DATA)));
    assert!(!table.can_set_descriptor(5, &Descriptor::Segment(Descriptor::KERNEL_DATA)));
    assert!(table.can_set_descriptor(7, &Descriptor::Segment(Descriptor::KERNEL_DATA)));
    assert!(!table.can_set_descriptor(7, &Descriptor::tss(0)));
    assert!(!table.can_set_descriptor(8, &Descriptor::Segment(Descriptor::KERNEL_DATA)));
}

#[test]
fn low_task_state_segment_keeps_its_second_slot() {
    let mut table = gdt::Table::<8>::new();
    table.set_descriptor(1, &Descriptor::Segment(Descriptor::KERNEL_CODE64));
    table.set_descriptor(5, &Descriptor::tss(0x1000));
    assert_eq!(table.entry(6), 0);
    assert!(table.is_used(5) && table.is_used(6));
    assert!(!table.is_used(4) && !table.is_used(7));
    assert!(!table.can_set_descriptor(6, &Descriptor::Segment(Descriptor::KERNEL_DATA)));
    assert!(!table.can_set_descriptor(4, &Descriptor::tss(0x2000)));
}

#[test]
fn gdt_clear_entry_frees_the_slot() {
    let mut table = gdt::Table::<4>::new();
    assert_eq!(table.capacity(), 4);
    table.set_descriptor(2, &Descriptor::Segment(Descriptor::USER_DATA));
    assert!(!table.can_set_descriptor(2, &Descriptor::Segment(Descriptor::USER_CODE64)));
    table.clear_entry(2);
    assert_eq!(table.entry(2), 0);
    assert!(table.can_set_descriptor(2, &Descriptor::Segment(Descriptor::USER_CODE64)));
}

#[test]
fn tss_descriptor_layout() {
    let base = 0x1234_5678_9ABC_DEF0u64;
    match Descriptor::tss(base) {
        Descriptor::System(low, high) => {
            assert_eq!(low & 0xFFFF, 103);
            assert_eq!((low >> 16) & 0xFF_FFFF, base & 0xFF_FFFF);
            assert_eq!((low >> 40) & 0xF, 0b1001);
            assert_eq!((low >> 47) & 1, 1);
            assert_eq!(low >> 56, (base >> 24) & 0xFF);
            assert_eq!(high, 0x1234_5678);
            assert_eq!(low, 0x9A00_89BC_DEF0_0067);
        }
        Descriptor::Segment(_) => panic!("a task-state descriptor takes two slots"),
    }
}

#[test]
fn gdt_register_limit() {
    let mut table = gdt::Table::<8>::new();
    table.set_register(0x1000);
    assert_eq!(size_of::<gdt::Register>(), 10);
    let _ = table.register();
}

#[test]
fn gate_flags_options() {
    let mut flags = DescriptorFlags::new();
    assert_eq!(flags.bits(), 0x0E00);
    let built = flags
        .present(true)
        .with_interrupts(false)
        .set_privilege_level(Privilege::USER)
        .set_stack_index(0)
        .build();
    assert_eq!(built.bits(), 0x8000 | 0x6000 | 0x0E00 | 1);
    assert_eq!(flags.bits(), 0x0E00);
    let mut flags = DescriptorFlags::default();
    let trap = flags.present(true).with_interrupts(true).build();
    assert_eq!(trap.bits(), 0x8F00);
    let mut flags = DescriptorFlags::new();
    let cleared = flags.present(true).present(false).build();
    assert_eq!(cleared.bits(), 0x0E00);
}

#[test]
fn gate_table_starts_missing() {
    let mut table = idt::Table::new();
    assert_eq!(table.capacity(), 256);
    let mut gate = idt::Descriptor::new();
    let mut flags = DescriptorFlags::new();
    let gate = gate
        .set_handler_addr(0xFFFF_8000_DEAD_BEEF)
        .set_selector(Selector::new(1, Privilege::KERNEL))
        .set_options(flags.present(true).build())
        .build();
    let vector = ExceptionVector::PageFault.vector();
    assert_eq!(vector, 14);
    table.set_descriptor(vector, gate);
    table.set_register(0x2000);
    let _ = table.descriptor(vector);
    let _ = table.register();
}

#[test]
fn selectors() {
    assert_eq!(Selector::new(1, Privilege::KERNEL).value(), Selector::KERNEL_CODE64);
    assert_eq!(Selector::new(2, Privilege::KERNEL).value(), Selector::KERNEL_DATA);
    assert_eq!(Selector::new(3, Privilege::USER).value(), Selector::USER_CODE64);
    assert_eq!(Selector::new(4, Privilege::USER).value(), Selector::USER_DATA);
    assert_eq!(Selector::new(0, Privilege::KERNEL).value(), Selector::NULL);
    assert_eq!(Selector::USER_CODE64, 0x1B);
}

#[test]
fn page_entry_round_trip() {
    let addr = Physical::new(0x0000_0012_3456_7000);
    let flags = PageEntryFlags::from_bits_truncate(PageEntryFlags::PRESENT | PageEntryFlags::WRITABLE);
    let entry = PageEntry::new(addr, flags);
    assert_eq!(entry.address(), Some(addr));
    assert!(entry.is_present());
    assert!(entry.is_writable());
    assert!(!entry.is_user());
    assert!(entry.is_executable());
    let hidden = PageEntry::new(addr, PageEntryFlags::from_bits_truncate(PageEntryFlags::WRITABLE));
    assert_eq!(hidden.address(), None);
}

#[test]
fn page_entry_masked_updates() {
    let mut entry = PageEntry::new(
        Physical::new(0x5000),
        PageEntryFlags::from_bits_truncate(PageEntryFlags::PRESENT | PageEntryFlags::NO_EXECUTE),
    );
    assert!(!entry.is_executable());
    entry.set_address(Physical::new(0xA000));
    assert_eq!(entry.address(), Some(Physical::new(0xA000)));
    assert!(!entry.is_executable());
    entry.add_flags(PageEntryFlags::from_bits_truncate(PageEntryFlags::USER));
    assert!(entry.is_user());
    entry.clear_flags(PageEntryFlags::from_bits_truncate(PageEntryFlags::NO_EXECUTE));
    assert!(entry.is_executable());
    entry.set_flags(PageEntryFlags::from_bits_truncate(PageEntryFlags::PRESENT));
    assert!(!entry.is_user());
    assert_eq!(entry.address(), Some(Physical::new(0xA000)));
    assert_eq!(entry.flags().bits(), PageEntryFlags::PRESENT);
    entry.clear();
    assert!(!entry.is_present());
    assert_eq!(entry.address(), None);
}

#[test]
fn page_entry_flags_drop_address_bits() {
    let flags = PageEntryFlags::from_bits_truncate(0x0000_0000_1234_5001);
    assert_eq!(flags.bits(), 1);
    assert!(flags.contains(PageEntryFlags::from_bits_truncate(PageEntryFlags::PRESENT)));
    let both = flags.union(PageEntryFlags::from_bits_truncate(PageEntryFlags::GLOBAL));
    assert_eq!(both.bits(), PageEntryFlags::PRESENT | PageEntryFlags::GLOBAL);
    assert_eq!(PageEntryFlags::empty().bits(), 0);
}

#[test]
fn clearing_a_table_twice() {
    let mut table = PageTable::new();
    let entry = PageEntry::new(
        Physical::new(0x7000),
        PageEntryFlags::from_bits_truncate(PageEntryFlags::PRESENT),
    );
    table.set_entry(3, entry);
    table.set_entry(511, entry);
    assert!(!table.is_empty());
    let present: Vec<usize> = (0..PageTable::COUNT).filter(|&i| table.entries()[i].is_present()).collect();
    assert_eq!(present, vec![3, 511]);
    assert!(table[3].is_present());
    table.clear();
    assert!(table.is_empty());
    table.clear();
    assert!(table.is_empty());
    for i in 0..PageTable::COUNT {
        assert!(!table[i].is_present());
    }
    assert!(table.entries().iter().all(|e| !e.is_present()));
    assert!(PageTable::default().is_empty());
}

#[test]
fn level_walk() {
    assert_eq!(Level::PageTable.prev(), Some(Level::PageDirectory));
    assert_eq!(Level::PageDirectory.prev(), Some(Level::PageTableDirectoryPointer));
    assert_eq!(Level::PageTableDirectoryPointer.prev(), Some(Level::PageMapLevel4));
    assert_eq!(Level::PageMapLevel4.prev(), None);
    assert_eq!(Level::PageMapLevel4.next(), Some(Level::PageTableDirectoryPointer));
    assert_eq!(Level::PageTable.next(), None);
    assert!(Level::PageTable < Level::PageMapLevel4);
}

#[test]
fn fault_code_decoding() {
    let code = PageFaultErrorCode::from_bits_truncate(0x8007 | 0x100);
    assert_eq!(code.bits(), 0x8007);
    assert!(code.contains(PageFaultErrorCode::WRITE_ACCESS | PageFaultErrorCode::SGX));
    assert!(!code.contains(PageFaultErrorCode::INSTRUCTION_FETCH));
}

#[test]
fn task_state_segment_fields() {
    let mut tss = TaskStateSegment::new();
    assert_eq!(tss.iomap_base(), 104);
    assert_eq!(tss.stack(0), 0);
    tss.set_stack(1, 0xFFFF_8000_0001_0000);
    tss.set_interrupt_stack(6, 0x1234_5678_9ABC_DEF0);
    assert_eq!(tss.stack(1), 0xFFFF_8000_0001_0000);
    assert_eq!(tss.stack(2), 0);
    assert_eq!(tss.interrupt_stack(6), 0x1234_5678_9ABC_DEF0);
    assert_eq!(tss.interrupt_stack(5), 0);
    assert_eq!(tss.iomap_base(), 104);
}

#[test]
fn frame_origin() {
    let mut state = State::default();
    assert_eq!(state.get(Field::Rip), 0);
    assert_eq!(size_of::<State>(), 23 * 8);
    state.set(Field::Cs, Selector::KERNEL_CODE64 as u64);
    assert!(!state.from_user());
    state.set(Field::Cs, Selector::USER_CODE64 as u64);
    assert!(state.from_user());
    state.set(Field::Rip, 0x4000);
    assert_eq!(state.get(Field::Rip), 0x4000);
    assert_eq!(state.get(Field::Rsp), 0);
    assert_eq!(Field::Rbp.index(), 0);
    assert_eq!(Field::Address.index(), 15);
    assert_eq!(Field::Ss.index(), 22);
}

#[test]
fn model_specific_registers() {
    assert_eq!(Msr::Efer.number(), 0xC000_0080);
    assert_eq!(Msr::KernelGsBase.number(), 0xC000_0102);
    assert_eq!(msr_value(0x9ABC_DEF0, 0x1234_5678), 0x1234_5678_9ABC_DEF0);
    assert_eq!(msr_halves(0x1234_5678_9ABC_DEF0), (0x9ABC_DEF0, 0x1234_5678));
}
