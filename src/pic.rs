use vstd::prelude::*;

verus! {

/// The command register of the master controller.
pub const MASTER_PIC_CMD: u16 = 0x20;
/// The data register of the master controller.
pub const MASTER_PIC_DATA: u16 = 0x21;
/// The command register of the slave controller.
pub const SLAVE_PIC_CMD: u16 = 0xA0;
/// The data register of the slave controller.
pub const SLAVE_PIC_DATA: u16 = 0xA1;
/// The end-of-interrupt command.
pub const EOI: u8 = 0x20;

/// Whether vector `irq` is one of the 16 that the two controllers raise once
/// remapped to start at `base`.
pub fn concerned(irq: u8, base: u8) -> (r: bool)
    ensures
        r == (base <= irq < base + 16),
{
    irq >= base && irq - base < 16
}

/// Whether the end of vector `irq` must be signalled to the slave controller
/// too: it raises the upper eight of the 16 vectors.
pub fn needs_slave_eoi(irq: u8, base: u8) -> (r: bool)
    requires
        base <= irq < base + 16,
    ensures
        r == (irq - base >= 8),
{
    irq - base >= 8
}

/// The writes, in order, that remap the two controllers to vectors `base`
/// to `base + 15`: start the initialisation in cascade mode, give each its
/// first vector (eight each), wire the slave to line 2 of the master, select
/// 8086 mode, and unmask every line.
pub fn remap_sequence(base: u8) -> (r: Vec<(u16, u8)>)
    requires
        base <= 240,
    ensures
        r@ == seq![
            (MASTER_PIC_CMD, 0x11u8),
            (SLAVE_PIC_CMD, 0x11u8),
            (MASTER_PIC_DATA, base),
            (SLAVE_PIC_DATA, (base + 8) as u8),
            (MASTER_PIC_DATA, 4u8),
            (SLAVE_PIC_DATA, 2u8),
            (MASTER_PIC_DATA, 0x01u8),
            (SLAVE_PIC_DATA, 0x01u8),
            (MASTER_PIC_DATA, 0x00u8),
            (SLAVE_PIC_DATA, 0x00u8),
        ],
{
    let r = vec![
        (MASTER_PIC_CMD, 0x11u8),
        (SLAVE_PIC_CMD, 0x11u8),
        (MASTER_PIC_DATA, base),
        (SLAVE_PIC_DATA, base + 8),
        (MASTER_PIC_DATA, 4u8),
        (SLAVE_PIC_DATA, 2u8),
        (MASTER_PIC_DATA, 0x01u8),
        (SLAVE_PIC_DATA, 0x01u8),
        (MASTER_PIC_DATA, 0x00u8),
        (SLAVE_PIC_DATA, 0x00u8),
    ];
    assert(r@ =~= seq![
        (MASTER_PIC_CMD, 0x11u8),
        (SLAVE_PIC_CMD, 0x11u8),
        (MASTER_PIC_DATA, base),
        (SLAVE_PIC_DATA, (base + 8) as u8),
        (MASTER_PIC_DATA, 4u8),
        (SLAVE_PIC_DATA, 2u8),
        (MASTER_PIC_DATA, 0x01u8),
        (SLAVE_PIC_DATA, 0x01u8),
        (MASTER_PIC_DATA, 0x00u8),
        (SLAVE_PIC_DATA, 0x00u8),
    ]);
    r
}

} // verus!
