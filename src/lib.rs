//! Processor-architecture core for a 64-bit kernel: canonical addresses, the
//! paging entry model, the segment and gate descriptor tables, and the saved
//! register frame used across privilege transitions, with the small pieces of
//! logic of the timer, interrupt-controller and serial drivers built on them.

pub mod address;
mod bits;
pub mod cpu;
pub mod gdt;
pub mod idt;
pub mod lapic;
pub mod paging;
pub mod pic;
pub mod pit;
pub mod segment;
pub mod serial;
pub mod tss;
