use vstd::prelude::*;

verus! {

/// The four legacy serial ports.
#[derive(Debug, Clone, Copy, PartialEq, Eq, Structural)]
pub enum Port {
    COM1,
    COM2,
    COM3,
    COM4,
}

/// The first I/O port of a serial port's eight registers.
pub open spec fn port_base(p: Port) -> u16 {
    match p {
        Port::COM1 => 0x3F8,
        Port::COM2 => 0x2F8,
        Port::COM3 => 0x3E8,
        Port::COM4 => 0x2E8,
    }
}

impl Port {
    /// The first I/O port of the eight registers.
    pub fn base(self) -> (r: u16)
        ensures
            r == port_base(self),
    {
        match self {
            Self::COM1 => 0x3F8,
            Self::COM2 => 0x2F8,
            Self::COM3 => 0x3E8,
            Self::COM4 => 0x2E8,
        }
    }
}

/// The I/O ports of one serial port's registers.
pub struct Serial {
    pub data: u16,
    pub interrupt_enable: u16,
    pub fifo_control: u16,
    pub line_control: u16,
    pub modem_control: u16,
    pub line_status: u16,
    pub modem_status: u16,
    pub scratch: u16,
}

impl Serial {
    /// The registers of `com`, at consecutive ports from its base.
    pub fn new(com: Port) -> (r: Serial)
        ensures
            r.data == port_base(com),
            r.interrupt_enable == port_base(com) + 1,
            r.fifo_control == port_base(com) + 2,
            r.line_control == port_base(com) + 3,
            r.modem_control == port_base(com) + 4,
            r.line_status == port_base(com) + 5,
            r.modem_status == port_base(com) + 6,
            r.scratch == port_base(com) + 7,
    {
        let base = com.base();
        Serial {
            data: base,
            interrupt_enable: base + 1,
            fifo_control: base + 2,
            line_control: base + 3,
            modem_control: base + 4,
            line_status: base + 5,
            modem_status: base + 6,
            scratch: base + 7,
        }
    }

    /// The writes, in order, that set the port up: interrupts off, divisor 3
    /// (38400 baud) through the divisor latch, 8 bits with no parity and one
    /// stop bit, FIFOs on and cleared, and the modem lines up.
    pub fn init_com(&self) -> (r: Vec<(u16, u8)>)
        ensures
            r@ == seq![
                (self.interrupt_enable, 0x00u8),
                (self.line_control, 0x80u8),
                (self.data, 0x03u8),
                (self.interrupt_enable, 0x00u8),
                (self.line_control, 0x03u8),
                (self.fifo_control, 0xC7u8),
                (self.modem_control, 0x0Bu8),
            ],
    {
        let r = vec![
            (self.interrupt_enable, 0x00u8),
            (self.line_control, 0x80u8),
            (self.data, 0x03u8),
            (self.interrupt_enable, 0x00u8),
            (self.line_control, 0x03u8),
            (self.fifo_control, 0xC7u8),
            (self.modem_control, 0x0Bu8),
        ];
        assert(r@ =~= seq![
            (self.interrupt_enable, 0x00u8),
            (self.line_control, 0x80u8),
            (self.data, 0x03u8),
            (self.interrupt_enable, 0x00u8),
            (self.line_control, 0x03u8),
            (self.fifo_control, 0xC7u8),
            (self.modem_control, 0x0Bu8),
        ]);
        r
    }

    /// Whether a line status value says the port can take a byte to send.
    pub fn is_transmit_empty(line_status: u8) -> (r: bool)
        ensures
            r == (line_status & 0x20 != 0),
    {
        line_status & 0x20 != 0
    }

    /// Whether a line status value says a received byte is waiting.
    pub fn data_pending(line_status: u8) -> (r: bool)
        ensures
            r == (line_status & 0x01 != 0),
    {
        line_status & 0x01 != 0
    }
}

} // verus!
