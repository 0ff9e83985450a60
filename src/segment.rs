use crate::cpu::{privilege_level, Privilege};
use vstd::prelude::*;

verus! {

/// A segment selector: a descriptor-table index shifted left by 3, with the
/// requested privilege level in the low two bits.
#[derive(Debug, Clone, Copy, PartialEq, Eq, Structural)]
pub struct Selector(u16);

impl View for Selector {
    type V = u16;

    closed spec fn view(&self) -> u16 {
        self.0
    }
}

impl Selector {
    /// The value of the null selector.
    pub const NULL: u16 = 0;
    /// The value of the kernel code selector: index 1, privilege 0.
    pub const KERNEL_CODE64: u16 = 1 << 3;
    /// The value of the kernel data selector: index 2, privilege 0.
    pub const KERNEL_DATA: u16 = 2 << 3;
    /// The value of the user code selector: index 3, privilege 3.
    pub const USER_CODE64: u16 = 3 << 3 | 3;
    /// The value of the user data selector: index 4, privilege 3.
    pub const USER_DATA: u16 = 4 << 3 | 3;

    /// The selector of the descriptor at `index` (below 8192, the largest
    /// table) with the requested privilege level `privilege`.
    #[must_use]
    pub fn new(index: u16, privilege: Privilege) -> (r: Self)
        requires
            index < 8192,
        ensures
            r@ == index * 8 + privilege_level(privilege),
    {
        let level = privilege.level();
        proof {
            assert(index < 8192 && level < 4 ==> ((index * 8) as u16 | level) == index * 8 + level)
                by (bit_vector);
        }
        Selector((index * 8) | level)
    }

    #[must_use]
    pub fn value(self) -> (r: u16)
        ensures
            r == self@,
    {
        self.0
    }
}

/// The code segment register.
pub struct CS;

/// The data segment register.
pub struct DS;

/// The extra segment register.
pub struct ES;

/// The FS segment register, used for thread-local storage.
pub struct FS;

/// The GS segment register, whose base is swapped between user and kernel.
pub struct GS;

/// The stack segment register.
pub struct SS;

} // verus!
