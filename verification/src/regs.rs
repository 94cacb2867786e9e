//! Register-shaped values carried by the hypervisor and secure-monitor
//! operations.

use vstd::prelude::*;

use crate::Word;

verus! {

/// A symbolic field of a virtual CPU readable and writable through the
/// hypervisor-extension operations.
#[derive(Clone, Copy, Debug, PartialEq, Eq, Structural)]
pub enum VCpuReg {
    /// System control register.
    Sctlr,
    /// Translation table base register zero.
    Ttbr0,
    /// Translation table base register one.
    Ttbr1,
    /// Translation control register.
    Tcr,
    /// Memory attribute indirection register.
    Mair,
    /// Auxiliary memory attribute indirection register.
    Amair,
    /// Vector base address register.
    Vbar,
    /// Saved program status register.
    Spsr,
    /// Exception link register.
    Elr,
    /// Stack pointer of the guest.
    Sp,
    /// Software thread identifier register.
    Tpidr,
}

impl VCpuReg {
    /// The field identifier the wire format carries for this register.
    pub open spec fn code_spec(self) -> Word {
        match self {
            VCpuReg::Sctlr => 0,
            VCpuReg::Ttbr0 => 1,
            VCpuReg::Ttbr1 => 2,
            VCpuReg::Tcr => 3,
            VCpuReg::Mair => 4,
            VCpuReg::Amair => 5,
            VCpuReg::Vbar => 6,
            VCpuReg::Spsr => 7,
            VCpuReg::Elr => 8,
            VCpuReg::Sp => 9,
            VCpuReg::Tpidr => 10,
        }
    }

    /// The field identifier the wire format carries for this register.
    pub fn into_sys(self) -> (r: Word)
        ensures
            r == self.code_spec(),
    {
        match self {
            VCpuReg::Sctlr => 0,
            VCpuReg::Ttbr0 => 1,
            VCpuReg::Ttbr1 => 2,
            VCpuReg::Tcr => 3,
            VCpuReg::Mair => 4,
            VCpuReg::Amair => 5,
            VCpuReg::Vbar => 6,
            VCpuReg::Spsr => 7,
            VCpuReg::Elr => 8,
            VCpuReg::Sp => 9,
            VCpuReg::Tpidr => 10,
        }
    }
}

/// The fixed-layout context a secure-monitor call passes in and receives
/// back: the first eight general-purpose registers.
#[derive(Clone, Copy, Debug, PartialEq, Eq, Structural)]
pub struct SmcContext {
    /// Register zero: the function identifier on the way in, the primary
    /// result on the way back.
    pub x0: Word,
    /// Register one.
    pub x1: Word,
    /// Register two.
    pub x2: Word,
    /// Register three.
    pub x3: Word,
    /// Register four.
    pub x4: Word,
    /// Register five.
    pub x5: Word,
    /// Register six.
    pub x6: Word,
    /// Register seven.
    pub x7: Word,
}

impl Default for SmcContext {
    /// A context with every register clear.
    fn default() -> (r: SmcContext)
        ensures
            r == (SmcContext { x0: 0, x1: 0, x2: 0, x3: 0, x4: 0, x5: 0, x6: 0, x7: 0 }),
    {
        SmcContext { x0: 0, x1: 0, x2: 0, x3: 0, x4: 0, x5: 0, x6: 0, x7: 0 }
    }
}

} // verus!
