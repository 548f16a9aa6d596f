//! The ARM7TDMI supports seven modes of operation.

use vstd::prelude::*;

verus! {

/// A processor mode.
#[derive(Debug, Clone, Copy, PartialEq, Eq, Structural)]
pub enum Mode {
    /// The normal ARM program execution state.
    Usr,
    /// Designed to support a data transfer or channel process.
    Fiq,
    /// Used for general-purpose interrupt handling.
    Irq,
    /// Protected mode for the operating system.
    Supervisor,
    /// Entered after a data or instruction prefetch abort.
    Abort,
    /// A privileged user mode for the operating system.
    System,
    /// Entered when an undefined instruction is executed.
    Undefined,
}

impl Mode {
    /// The five mode bits that select this mode in a status register.
    pub open spec fn spec_bits(self) -> u32 {
        match self {
            Mode::Usr => 0b10000,
            Mode::Fiq => 0b10001,
            Mode::Irq => 0b10010,
            Mode::Supervisor => 0b10011,
            Mode::Abort => 0b10111,
            Mode::Undefined => 0b11011,
            Mode::System => 0b11111,
        }
    }

    /// The five mode bits that select this mode in a status register.
    pub fn bits(self) -> (r: u32)
        ensures
            r == self.spec_bits(),
            r < 32,
    {
        match self {
            Mode::Usr => 0b10000,
            Mode::Fiq => 0b10001,
            Mode::Irq => 0b10010,
            Mode::Supervisor => 0b10011,
            Mode::Abort => 0b10111,
            Mode::Undefined => 0b11011,
            Mode::System => 0b11111,
        }
    }

    /// The usual three-letter name of this mode.
    pub open spec fn spec_name(self) -> Seq<char> {
        match self {
            Mode::Usr => "usr"@,
            Mode::Fiq => "fiq"@,
            Mode::Irq => "irq"@,
            Mode::Supervisor => "svc"@,
            Mode::Abort => "abt"@,
            Mode::System => "sys"@,
            Mode::Undefined => "und"@,
        }
    }

    /// The usual three-letter name of this mode.
    pub fn name(self) -> (r: &'static str)
        ensures
            r@ == self.spec_name(),
    {
        match self {
            Mode::Usr => "usr",
            Mode::Fiq => "fiq",
            Mode::Irq => "irq",
            Mode::Supervisor => "svc",
            Mode::Abort => "abt",
            Mode::System => "sys",
            Mode::Undefined => "und",
        }
    }

    /// Whether this mode has a saved program status register of its own.
    pub open spec fn spec_has_spsr(self) -> bool {
        self != Mode::Usr && self != Mode::System
    }
}

} // verus!
